//! An inventory-gated sale engine over explicit state: who may buy numbered
//! items from a market pool and who receives them from a reserved pool, under
//! an admission mode, an owner and admins, with one mint instruction per unit.
//!
//! [`model`] says what every operation does, [`contract`] holds the
//! operations, proved against it, and [`laws`] what holds of every history.

pub mod coin;
pub mod contract;
pub mod error;
pub mod laws;
pub mod metadata;
pub mod model;
pub mod msg;
pub mod roles;
pub mod state;
pub mod text;
pub mod whitelist;

pub use crate::error::ContractError;
