//! Verified core of a group membership approval contract.
//!
//! An account states that it consents to being a member of a group by having a
//! tagged integer attribute written under its own address.  This crate holds
//! the rules of that contract: the stored configuration record and its
//! lifecycle, the approval transition with its duplicate detection, and the
//! version-gated migration.  Every function is stated with a contract and
//! proved against it; the host bindings live outside of this crate.

/// The entrypoint for all external commands sent to the contract.
pub mod contract;
/// All commands that are available when executing this contract.
pub mod execute;
/// Defines the contract instantiation process.
pub mod instantiate;
/// Defines the contract migration process.
pub mod migrate;
/// Defines the contract query process.
pub mod query;
/// Contains all internal storage communication functionality.
pub mod store;
/// Contains all declared structs for internal and external communication.
pub mod types;
/// Contains helper functionality for contract code facilitation.
pub mod util;
