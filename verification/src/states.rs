//! The states of pods and containers, and the state shared by the provider.

pub mod container;
pub mod pod;
pub mod provider;
