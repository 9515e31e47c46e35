//! Contains the functionality used in the [contract file](crate::contract) to perform a contract query.

/// A query that fetches the stored values in the [ContractState](crate::store::contract_state::ContractState).
pub mod query_contract_state;
