use crate::execute::approve_group_membership::{approve_group_membership, is_approve_outcome};
use crate::instantiate::instantiate_contract::{
    instantiate_contract, is_instantiate_outcome, is_valid_instantiation,
};
use crate::migrate::contract_upgrade::{contract_upgrade, is_upgrade_outcome};
use crate::query::query_contract_state::{is_query_outcome, query_contract_state};
use crate::store::contract_state::{
    ContractState, ContractStateView, ContractStorage, CONTRACT_TYPE, CONTRACT_VERSION,
};
use crate::types::chain::{Env, MessageInfo, Response};
use crate::types::error::ContractError;
use crate::types::msg::{ExecuteMsg, InstantiateMsg, MigrateMsg, QueryMsg};
use crate::types::provenance::QueryAttributesResponse;
use vstd::prelude::*;

verus! {

/// The entry point used when an account instantiates this contract on the chain.
///
/// # Parameters
///
/// * `storage` The contract's storage.
/// * `env` Describes the contract's details at the time of the transaction.
/// * `info` Describes the sender of the instantiation message, as well as the funds provided as
/// an amount during the transaction.
/// * `msg` A custom instantiation message defined by this contract for creating the initial
/// configuration used by the contract.
pub fn instantiate(
    storage: &mut ContractStorage,
    env: &Env,
    info: &MessageInfo,
    msg: InstantiateMsg,
) -> (r: Result<Response, ContractError>)
    ensures
        is_instantiate_outcome(old(storage)@, *env, *info, msg, final(storage)@, r),
        r is Ok <==> is_valid_instantiation(*info, msg),
{
    instantiate_contract(storage, env, info, msg)
}

/// The entry point used when an account initiates an execution process defined in the contract.
/// This defines the primary purposes of the contract.
///
/// # Parameters
///
/// * `storage` The contract's storage.
/// * `env` Describes the contract's details at the time of the transaction.
/// * `info` Describes the sender of the message, as well as the funds provided as an amount
/// during the transaction.
/// * `fetched` All pages of the attributes that are bound to the sender, or the error that
/// fetching them ended in.
/// * `msg` A custom execution message enum defined by this contract to allow multiple different
/// processes to be defined for the singular execution route entry point.
pub fn execute(
    storage: &ContractStorage,
    env: &Env,
    info: &MessageInfo,
    fetched: Result<Vec<QueryAttributesResponse>, ContractError>,
    msg: ExecuteMsg,
) -> (r: Result<Response, ContractError>)
    ensures
        match msg {
            ExecuteMsg::ApproveGroupMembership { group_id } => is_approve_outcome(
                storage@,
                *env,
                *info,
                fetched,
                group_id,
                r,
            ),
        },
{
    match msg {
        ExecuteMsg::ApproveGroupMembership { group_id } => {
            approve_group_membership(storage, env, info, fetched, group_id)
        },
    }
}

/// The entry point used when an account invokes the contract to retrieve information.  Allows
/// access to the internal storage information in an immutable manner.
///
/// # Parameters
///
/// * `storage` The contract's storage.
/// * `msg` A custom query message enum defined by this contract to allow multiple different results
/// to be determined for this route.
pub fn query(storage: &ContractStorage, msg: QueryMsg) -> (r: Result<ContractState, ContractError>)
    ensures
        is_query_outcome(storage@, r),
{
    match msg {
        QueryMsg::QueryContractState {  } => query_contract_state(storage),
    }
}

/// The entry point used when the contract admin migrates an existing instance of this contract to
/// a new stored code instance on chain.
///
/// # Parameters
///
/// * `storage` The contract's storage.
/// * `msg` A custom migrate message enum defined by this contract to allow multiple different
/// results of invoking the migrate endpoint.
pub fn migrate(storage: &mut ContractStorage, msg: MigrateMsg) -> (r: Result<
    Response,
    ContractError,
>)
    ensures
        is_upgrade_outcome(old(storage)@, final(storage)@, r),
{
    match msg {
        MigrateMsg::ContractUpgrade {  } => contract_upgrade(storage),
    }
}

/// A contract that has just been instantiated answers a query with what it was instantiated
/// with.  For a sender that provides no funds and a msg of which neither name is empty, the
/// instantiation goes through, and the contract state that a query then returns holds the
/// sender as its admin, exactly the two names of the msg, and the type and the version of
/// this code.
pub proof fn lemma_query_after_instantiate(
    before: Option<ContractStateView>,
    env: Env,
    info: MessageInfo,
    msg: InstantiateMsg,
    after: Option<ContractStateView>,
    instantiated: Result<Response, ContractError>,
    queried: Result<ContractState, ContractError>,
)
    requires
        info.funds@.len() == 0,
        msg.contract_name@.len() > 0,
        msg.attribute_name@.len() > 0,
        is_instantiate_outcome(before, env, info, msg, after, instantiated),
        is_query_outcome(after, queried),
    ensures
        instantiated is Ok,
        queried matches Ok(state) && state@ == (ContractStateView {
            admin: info.sender@,
            attribute_name: msg.attribute_name@,
            contract_name: msg.contract_name@,
            contract_type: CONTRACT_TYPE@,
            contract_version: CONTRACT_VERSION@,
        }),
{
}

} // verus!
