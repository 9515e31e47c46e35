use crate::store::contract_state::{
    get_contract_state, is_get_outcome, ContractState, ContractStateView, ContractStorage,
};
use crate::types::error::ContractError;
use vstd::prelude::*;

verus! {

/// Whether a result is the one that a query of a storage owes: the stored contract state as it
/// stands, or a storage error where none is stored.
pub open spec fn is_query_outcome(
    stored: Option<ContractStateView>,
    r: Result<ContractState, ContractError>,
) -> bool {
    is_get_outcome(stored, r)
}

/// Fetches the current values within the [ContractState].
///
/// # Parameters
///
/// * `storage` The contract's storage, from which the contract state is read.
pub fn query_contract_state(storage: &ContractStorage) -> (r: Result<ContractState, ContractError>)
    ensures
        is_query_outcome(storage@, r),
{
    get_contract_state(storage)
}

} // verus!
