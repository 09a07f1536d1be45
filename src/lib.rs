//! A verified model of a three-chain test network: one relay chain and two
//! parachains, each built from a declarative genesis, bound together in a
//! `TestNet` that can be reset to genesis at any time.
pub mod account;
pub mod config;
pub mod chain;
pub mod genesis;
pub mod events;
pub mod network;
pub mod laws;
pub mod compact;
pub mod location;
pub mod trap;
