//! An application framework for terminal user interfaces: the results that
//! event handlers report, the queue of extra results, and the decisions of the
//! event loop that polls timers, background workers and the terminal.


mod _private;
pub mod control;
pub mod event;
pub mod framework;
pub mod queue;
pub mod timer;

pub use _private::NonExhaustive;
pub use control::{
    ButtonOutcome, Control, DoubleClickOutcome, MenuOutcome, Outcome, ScrollOutcome, TextOutcome,
};
pub use event::RepaintEvent;
pub use framework::{EventLoop, RunConfig};
pub use queue::Queue;
pub use timer::{TimeOut, TimerEvent};
