//! Verified core of a pseudoterminal event loop.

pub mod descriptor;
pub mod error;
pub mod event;
pub mod event_loop;
pub mod geometry;
pub mod lifecycle;
pub mod terminal;

pub use descriptor::{first_descriptor_above_stdio, occupies_stdio_slot};
pub use error::EventLoopError;
pub use event::{Event, EventQueue, VoidListener};
pub use event_loop::{
    output_applied, Continuation, EventLoopCore, LoopAction, LoopInput, LoopStep, Phase, ReadOutcome, Transition,
};
pub use geometry::{
    is_valid_geometry, same_window_size, to_winsize, update_retained_window_size,
    TerminalDimensions, WindowSize, Winsize,
};
pub use lifecycle::LoopState;
pub use terminal::{TrackerOp, UpdateTracker};
