//! Contains all execution routes used by the [contract file](crate::contract).

/// The core functionality of the contract.  Allows a blockchain account to approve its membership
/// for a given group id.
pub mod approve_group_membership;
