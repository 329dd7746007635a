//! The operations of the engine.

pub mod execute;
pub mod instantiate;
pub mod query;
