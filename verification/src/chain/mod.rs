//! The state machine of a node: the chain it follows, its token network
//! registries, and the on-chain transactions it waits for.
pub mod queues;
pub mod machine;
pub mod blocks;
pub mod transition;
pub mod payments;
pub mod channels;

pub use transition::state_transition;
