//! Contains the functionality used in the [contract file](crate::contract) to perform a migration
//! to a new version.

/// The main entrypoint function for running a code migration.
pub mod contract_upgrade;
