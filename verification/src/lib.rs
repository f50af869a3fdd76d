//! Trade verification engine: decides whether a trade that a solver claims it
//! can execute is corroborated by a simulation against chain state.
//!
//! The library holds every decision of the engine as verified, synchronous
//! code. Anything that talks to a node is left to the caller, who drives a
//! [`protocol::Session`] by performing the action it asks for and handing the
//! outcome back:
//!
//! 1. [`protocol::TradeVerifier::verify`] starts a verification. A trade that
//!    is exempt from simulation is done at once.
//! 2. For any other trade the caller reads the latest block, runs the
//!    simulations that [`protocol::TradeVerifier::resume`] asks for, first
//!    the probes that look for a token's storage slots ([`overrides`]), then
//!    the trade itself ([`sequencer`]), and hands each outcome back.
//! 3. The results of the trade's simulation are reconciled with the claim
//!    ([`reconciler`]) into an [`model::Estimate`].
//!
//! What holds of the engine as a whole is stated and proved in [`laws`].

pub mod abi;
pub mod address;
pub mod bytes;
pub mod chain;
pub mod config;
pub mod hash;
pub mod laws;
pub mod model;
pub mod overrides;
pub mod protocol;
pub mod reconciler;
pub mod sequencer;
pub mod slots;
pub mod u256;

