//! The two kinds of agent.

pub mod event_driven;
pub mod generic;
