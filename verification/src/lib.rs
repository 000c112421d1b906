//! A verified model of the off-chain payment channel state machine of a
//! Raiden node: channel end states, balance proofs, locks, withdraws and the
//! transitions that a channel goes through when it receives state changes.
pub mod primitives;
pub mod map;
pub mod hashing;
pub mod types;
pub mod views;
pub mod errors;
pub mod channel;
pub mod initiator;
pub mod initiator_manager;
pub mod transport;
pub mod token_network;
pub mod routes;
pub mod laws;
pub mod laws_operations;
pub mod onchain;
pub mod incoming;
pub mod messages;
pub mod queries;
pub mod copies;
pub mod text;
pub mod chain;
pub mod effects;
pub mod manager;
