//! The core of a payment-channel node.
//!
//! Here are the decisions of the node: what the lifecycle orchestrator
//! builds and in which order, who is told of a fact of the chain and when,
//! and where an event goes, down to the chain of external handlers. Disk,
//! threads, peers and the channel engine itself stay with the caller, who
//! performs the orders that this crate hands out and reports back what
//! happened.

pub mod chain_sync;
pub mod channel_manager;
pub mod channels;
pub mod error;
pub mod events;
pub mod funding;
pub mod handler;
pub mod hex;
pub mod model;
