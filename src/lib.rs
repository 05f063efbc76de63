//! An administrative relay for a bridged stablecoin: it keeps the owner, the token
//! manager and a registry of remote chains, and turns owner commands into ABI-encoded
//! remote calls wrapped in scheduler jobs, or into native transfer and withdrawal
//! messages.
//!
//! - `abi`: the static ABI encoding of single-argument calls.
//! - `state`: the configuration and the chain registry.
//! - `msg`: the commands, queries and outbound messages.
//! - `contract`: the handlers and their contracts.

pub mod abi;
pub mod contract;
pub mod msg;
pub mod state;
