//! Host library for dynamically loaded graph-cycle proof-of-work solver
//! plugins. The library models the plugin registry and its fixed twelve-slot
//! call surface, interprets the numeric reply contracts of each call, drives
//! the asynchronous job delegator as an explicit state machine, and carries
//! accepted solutions to the caller through shared job state.

pub mod codec;
pub mod delegator;
pub mod digest;
pub mod error;
pub mod miner;
pub mod registry;
pub mod surface;
