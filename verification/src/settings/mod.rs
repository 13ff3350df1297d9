//! The settings contract: what a settings provider has to implement for a
//! given set of enabled capabilities.

pub mod catalogue;
pub mod contract;
pub mod names;
pub mod synthesis;
