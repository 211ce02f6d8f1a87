//! Event types that the framework hands to the application.

use crate::timer::TimeOut;
use vstd::prelude::*;

verus! {

/// Gives some extra information why a repaint was triggered.
#[derive(Debug, Clone, Copy, PartialEq, Eq)]
pub enum RepaintEvent {
    /// There was a `Control::Repaint` or the change flag has been set.
    Repaint,
    /// A timer triggered this.
    Timer(TimeOut),
}

} // verus!
