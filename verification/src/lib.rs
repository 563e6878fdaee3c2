//! Trading agents for a continuous card market.
//!
//! The crate holds the decisions of two kinds of agent, a reactive one that
//! acts on every market event and a polling one that acts on a cached view at
//! a randomized cadence, as functions from state and event to next state and
//! orders. Channels, clocks and sleeping belong to the runtime that drives
//! them.

pub mod market;
pub mod inventory;
pub mod deal;
pub mod event;
pub mod orders;
pub mod strategy;
pub mod chance;
pub mod player;
pub mod laws;
