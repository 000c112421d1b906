//! The channel state machine.
pub mod fees;
pub mod locks;
pub mod utils;
pub mod views;
pub mod validators;
pub mod transitions;
pub mod machine;

pub use machine::state_transition;
