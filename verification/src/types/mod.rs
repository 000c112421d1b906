//! The data of the state machine: states, state changes and events.
pub mod state;
pub mod event;
pub mod state_change;
pub mod random;
