//! Core logic of a beacon-chain validator client: a slot/epoch clock, a
//! registry resolving configured public keys to chain-assigned indices, an
//! epoch-scoped duty cache, and the decision logic of the four duty-execution
//! pipelines (propose, attest, aggregate-and-proof, sync-committee).
//!
//! All network and signing work happens outside this crate: the functions here
//! compute plans (what to query, whom to sign with) and fold externally
//! obtained responses back into the state, so that every decision is verified.

pub mod clock;
pub mod duties;
pub mod executors;
pub mod registry;
pub mod service;
pub mod state;
pub mod types;
