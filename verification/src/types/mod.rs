//! All types that the contract's routes take and give.

/// What the chain hands to a route, and what a route hands back.
pub mod chain;
/// Defines each custom error that can occur throughout contract execution.
pub mod error;
/// Defines each input msg utilized by contract invocations.
pub mod msg;
/// Attributes, names and pages as the chain's modules give and take them.
pub mod provenance;
