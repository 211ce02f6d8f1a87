//! What a timer hands to the event loop when it fires.

use vstd::prelude::*;

verus! {

/// A timer that has fired: which timer it was, and how often it has fired.
#[derive(Debug, Clone, Copy, PartialEq, Eq)]
pub struct TimeOut {
    /// The handle of the timer.
    pub handle: usize,
    /// How often this timer has fired so far.
    pub counter: usize,
}

/// A fired timer, and whom it is meant for.
#[derive(Debug, Clone, Copy, PartialEq, Eq)]
pub enum TimerEvent {
    /// The timer asks for a repaint.
    Repaint(TimeOut),
    /// The timer is handed to the application.
    Application(TimeOut),
}

} // verus!
