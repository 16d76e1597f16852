//! Verified core of a small on-chain chicken farming game: the rules that
//! decide how a chicken's stats evolve when it is fed or bred, how players
//! buy and build barns, and which token and lamport transfers each
//! instruction asks the runtime to perform.
//!
//! Account loading, clock reads and cross-program invocations happen in the
//! program crate that wraps this library; every decision is made here.

pub mod cpi;
pub mod chicken_proxy;
pub mod player_proxy;
pub mod store_proxy;
pub mod chicken_history;
pub mod chicken_laws;
