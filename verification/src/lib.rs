//! An owner-gated command relay: each accepted command becomes one outbound
//! message that carries an ABI-encoded call for a job on another chain. Swap
//! commands pass an idempotency guard that spaces repeated attempts for the
//! same deposit by a configured retry delay.

pub mod abi;
pub mod contract;
pub mod encoder;
pub mod env;
pub mod error;
pub mod guard;
pub mod laws;
pub mod msg;
pub mod response;
pub mod state;
pub mod timestamp;
pub mod uint256;
