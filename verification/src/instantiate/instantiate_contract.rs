use crate::store::contract_state::{
    is_named, set_contract_state, ContractState, ContractStateView, ContractStorage,
    CONTRACT_TYPE, CONTRACT_VERSION,
};
use crate::types::chain::{
    event_attribute, ContractMsg, ContractMsgView, Env, MessageInfo, Response, ResponseView,
};
use crate::types::error::ContractError;
use crate::types::msg::InstantiateMsg;
use crate::util::route_helpers::{check_funds_are_empty, funds_present_message};
use vstd::prelude::*;
use vstd::string::StringExecFns;

verus! {

/// The message of the error that an empty contract name is refused with.
pub open spec fn empty_contract_name_message() -> Seq<char> {
    "Provided contract name must not be empty"@
}

/// The message of the error that an empty attribute name is refused with.
pub open spec fn empty_attribute_name_message() -> Seq<char> {
    "Provided attribute name must not be empty"@
}

/// The contract state that an instantiation by a sender stores: the sender as the admin, the
/// two names of the msg, and the type and version of this code.
pub open spec fn instantiated_state(sender: Seq<char>, msg: InstantiateMsg) -> ContractStateView {
    ContractStateView {
        admin: sender,
        attribute_name: msg.attribute_name@,
        contract_name: msg.contract_name@,
        contract_type: CONTRACT_TYPE@,
        contract_version: CONTRACT_VERSION@,
    }
}

/// The response to an instantiation that has gone through: the attributes that report the
/// action and the two names and, where the msg asks for it, the one directive that binds the
/// attribute name to the contract's own address as a restricted name.
pub open spec fn instantiate_response(
    contract_address: Seq<char>,
    msg: InstantiateMsg,
) -> ResponseView {
    ResponseView {
        messages: if msg.bind_attribute_name {
            seq![
                ContractMsgView::BindName {
                    name: msg.attribute_name@,
                    address: contract_address,
                    restrict: true,
                },
            ]
        } else {
            seq![]
        },
        attributes: seq![
            event_attribute("action"@, "instantiate"@),
            event_attribute("contract_name"@, msg.contract_name@),
            event_attribute("contract_attribute"@, msg.attribute_name@),
        ],
        data: None,
    }
}

/// Whether an instantiation goes through: no funds are provided, and neither name is empty.
pub open spec fn is_valid_instantiation(info: MessageInfo, msg: InstantiateMsg) -> bool {
    info.funds@.len() == 0 && msg.contract_name@.len() > 0 && msg.attribute_name@.len() > 0
}

/// Whether a result and a storage are what an instantiation owes: on valid input the response
/// and the stored state; else the storage as it was, and the first of these errors that
/// applies: invalid funds where funds are provided, an instantiation error where the contract
/// name is empty, one where the attribute name is empty.
pub open spec fn is_instantiate_outcome(
    before: Option<ContractStateView>,
    env: Env,
    info: MessageInfo,
    msg: InstantiateMsg,
    after: Option<ContractStateView>,
    r: Result<Response, ContractError>,
) -> bool {
    if info.funds@.len() > 0 {
        after == before && (r matches Err(ContractError::InvalidFundsError { message })
            && message@ == funds_present_message())
    } else if msg.contract_name@.len() == 0 {
        after == before && (r matches Err(ContractError::InstantiationError { message })
            && message@ == empty_contract_name_message())
    } else if msg.attribute_name@.len() == 0 {
        after == before && (r matches Err(ContractError::InstantiationError { message })
            && message@ == empty_attribute_name_message())
    } else {
        after == Some(instantiated_state(info.sender@, msg)) && (r matches Ok(response)
            && response@ == instantiate_response(env.contract.address@, msg))
    }
}

/// The main functionality executed when the smart contract is first instantiated.  This creates the
/// singleton instance of [ContractState] used to verify the attribute name used in the contract,
/// as well as optionally binding the contract's name if it does not need to be bound after creation
/// due to namespace restrictions.
///
/// # Parameters
///
/// * `storage` The contract's storage, in which the contract state is written.
/// * `env` Describes the contract's details at the time of the transaction.
/// * `info` Describes the sender of the instantiation message, as well as the funds provided as
/// an amount during the transaction.
/// * `msg` A custom instantiation message defined by this contract for creating the initial
/// configuration used by the contract.
pub fn instantiate_contract(
    storage: &mut ContractStorage,
    env: &Env,
    info: &MessageInfo,
    msg: InstantiateMsg,
) -> (r: Result<Response, ContractError>)
    ensures
        is_instantiate_outcome(old(storage)@, *env, *info, msg, final(storage)@, r),
        r is Ok <==> is_valid_instantiation(*info, msg),
        info.funds@.len() > 0 ==> r matches Err(ContractError::InvalidFundsError { .. }),
        info.funds@.len() == 0 && (msg.contract_name@.len() == 0 || msg.attribute_name@.len()
            == 0) ==> r matches Err(ContractError::InstantiationError { .. }),
        r is Ok ==> (final(storage)@ matches Some(state) && is_named(state)),
{
    match check_funds_are_empty(info) {
        Ok(_) => {},
        Err(e) => {
            return Err(e);
        },
    }
    if msg.contract_name.as_str().is_empty() {
        return Err(
            ContractError::InstantiationError {
                message: String::from_str("Provided contract name must not be empty"),
            },
        );
    }
    if msg.attribute_name.as_str().is_empty() {
        return Err(
            ContractError::InstantiationError {
                message: String::from_str("Provided attribute name must not be empty"),
            },
        );
    }
    let contract_state = ContractState::new(
        info.sender.as_str(),
        msg.attribute_name.as_str(),
        msg.contract_name.as_str(),
    );
    match set_contract_state(storage, &contract_state) {
        Ok(_) => {},
        Err(e) => {
            return Err(e);
        },
    }
    let mut response = Response::new().add_attribute("action", "instantiate").add_attribute(
        "contract_name",
        msg.contract_name.as_str(),
    ).add_attribute("contract_attribute", msg.attribute_name.as_str());
    if msg.bind_attribute_name {
        response = response.add_message(
            ContractMsg::BindName {
                name: msg.attribute_name.clone(),
                address: env.contract.address.clone(),
                restrict: true,
            },
        );
    }
    proof {
        let expected = instantiate_response(env.contract.address@, msg);
        assert(response@.messages =~= expected.messages);
        assert(response@.attributes =~= expected.attributes);
    }
    Ok(response)
}

} // verus!
