//! Contains all internal storage communication functionality.

/// The stored configuration of the contract, and the record that keeps it.
pub mod contract_state;
