use crate::store::contract_state::{
    get_contract_state, missing_state_message, ContractStateView, ContractStorage,
};
use crate::types::chain::{
    event_attribute, ContractMsg, ContractMsgView, Env, MessageInfo, Response, ResponseView,
};
use crate::types::error::ContractError;
use crate::types::provenance::{
    AttributeType, AttributeView, MsgAddAttributeRequest, MsgAddAttributeRequestView,
    QueryAttributesResponse,
};
use crate::util::json::{decimal_bytes, json_u64, to_json_vec_u64};
use crate::util::prov_helpers::{
    get_group_id_attribute_values_paginated, group_ids, lemma_group_ids, states_group_id,
};
use crate::util::route_helpers::{check_funds_are_empty, funds_present_message};
use crate::util::text::{decimal_string, decimal_text};
use vstd::prelude::*;
use vstd::string::StringExecFns;

verus! {

/// The message of the error that a second approval of a group is refused with.
pub open spec fn duplicate_approval_message(group_id: u64, sender: Seq<char>) -> Seq<char> {
    "group with id ["@ + decimal_text(group_id as nat)
        + "] has already been approved by member ["@ + sender + "]"@
}

/// The request that writes a sender's approval of a group: an attribute of the integer kind
/// under the contract's attribute name, bound to the sender, owned by the contract, never
/// expiring, with the group id as its value, written as a JSON number.
pub open spec fn approval_request(
    attribute_name: Seq<char>,
    sender: Seq<char>,
    contract_address: Seq<char>,
    group_id: u64,
) -> MsgAddAttributeRequestView {
    MsgAddAttributeRequestView {
        name: attribute_name,
        value: decimal_bytes(group_id as nat),
        attribute_type: AttributeType::Int,
        account: sender,
        owner: contract_address,
        expiration_date: None,
    }
}

/// The response to an approval that has gone through: the one request that writes it, and the
/// attributes that report the action, the sender, the attribute name and the group id.
pub open spec fn approval_response(
    attribute_name: Seq<char>,
    sender: Seq<char>,
    contract_address: Seq<char>,
    group_id: u64,
) -> ResponseView {
    ResponseView {
        messages: seq![
            ContractMsgView::AddAttribute(
                approval_request(attribute_name, sender, contract_address, group_id),
            ),
        ],
        attributes: seq![
            event_attribute("action"@, "approve_group_membership"@),
            event_attribute("account_address"@, sender),
            event_attribute("attribute_name"@, attribute_name),
            event_attribute("group_id"@, decimal_text(group_id as nat)),
        ],
        data: None,
    }
}

/// Whether a result is the one that an approval owes to a sender of whom the given group ids are
/// known: a refusal that names the group and the sender where the group is among them, and
/// else the response that asks for the approval to be written, with a value that reads back
/// as the group id.
pub open spec fn is_approval_outcome(
    attribute_name: Seq<char>,
    sender: Seq<char>,
    contract_address: Seq<char>,
    existing_group_ids: Seq<u64>,
    group_id: u64,
    r: Result<Response, ContractError>,
) -> bool {
    if existing_group_ids.contains(group_id) {
        r matches Err(ContractError::ExecuteError { route, message }) && route@
            == "approve_group_membership"@ && message@ == duplicate_approval_message(
            group_id,
            sender,
        )
    } else {
        &&& r matches Ok(response) && response@ == approval_response(
            attribute_name,
            sender,
            contract_address,
            group_id,
        )
        &&& json_u64(decimal_bytes(group_id as nat)) == Some(group_id)
    }
}

/// The group ids that a sender is taken to have approved already, given what the fetch of its
/// attributes came to.  A fetch that failed counts as one that found nothing: the check for
/// a second approval is a courtesy, and the chain's attributes remain the record of truth.
pub open spec fn known_group_ids(
    fetched: Result<Vec<QueryAttributesResponse>, ContractError>,
    attribute_name: Seq<char>,
) -> Seq<u64> {
    match fetched {
        Ok(pages) => group_ids(pages@, attribute_name),
        Err(_) => seq![],
    }
}

/// Whether a result is the one that the approval route owes: an invalid funds error where
/// funds are provided; else a storage error where no contract state is stored; else what the
/// approval comes to for the stored attribute name and the group ids that the sender is taken
/// to have approved already.
pub open spec fn is_approve_outcome(
    stored: Option<ContractStateView>,
    env: Env,
    info: MessageInfo,
    fetched: Result<Vec<QueryAttributesResponse>, ContractError>,
    group_id: u64,
    r: Result<Response, ContractError>,
) -> bool {
    if info.funds@.len() > 0 {
        r matches Err(ContractError::InvalidFundsError { message }) && message@
            == funds_present_message()
    } else {
        match stored {
            None => r matches Err(ContractError::StorageError { message }) && message@
                == missing_state_message(),
            Some(state) => is_approval_outcome(
                state.attribute_name,
                info.sender@,
                env.contract.address@,
                known_group_ids(fetched, state.attribute_name),
                group_id,
                r,
            ),
        }
    }
}

/// Whether a group id is among those given.
fn holds_group_id(group_ids: &Vec<u64>, group_id: u64) -> (r: bool)
    ensures
        r == group_ids@.contains(group_id),
{
    let mut i: usize = 0;
    while i < group_ids.len()
        invariant
            i <= group_ids.len(),
            forall|j: int| 0 <= j < i ==> group_ids@[j] != group_id,
        decreases group_ids.len() - i,
    {
        if group_ids[i] == group_id {
            return true;
        }
        i = i + 1;
    }
    false
}

/// Says whether the approval route looks at the sender's attributes at all.  It does not where
/// it refuses the message for its funds or for want of a contract state, whatever the
/// attributes hold: a caller need not fetch them then.
///
/// # Parameters
///
/// * `storage` The contract's storage.
/// * `info` Describes the sender of the message, as well as the funds provided.
pub fn approval_reads_attributes(storage: &ContractStorage, info: &MessageInfo) -> (r: bool)
    ensures
        r == (info.funds@.len() == 0 && storage@ is Some),
{
    info.funds.len() == 0 && storage.contract_state.is_some()
}

/// Decides an approval of which the sender's existing group ids are known.  A group that is
/// among them is refused, and nothing is asked of the chain.  For any other group the chain is
/// asked to write the attribute that holds the group id to the sender's account.
///
/// # Parameters
///
/// * `attribute_name` The name that the contract writes its attributes under.
/// * `env` Describes the contract's details at the time of the transaction.
/// * `info` Describes the sender of the message.
/// * `existing_group_ids` The group ids that the sender's attributes of that name state.
/// * `group_id` The unique identifier of the group for which the sender consents to membership.
pub fn approve_new_group_id(
    attribute_name: &str,
    env: &Env,
    info: &MessageInfo,
    existing_group_ids: &Vec<u64>,
    group_id: u64,
) -> (r: Result<Response, ContractError>)
    ensures
        is_approval_outcome(
            attribute_name@,
            info.sender@,
            env.contract.address@,
            existing_group_ids@,
            group_id,
            r,
        ),
        r is Ok <==> !existing_group_ids@.contains(group_id),
{
    // First, verify that this member has not yet approved itself for this group.  Duplicate ids
    // would needlessly increase data storage on chain
    if holds_group_id(existing_group_ids, group_id) {
        let mut message = String::from_str("group with id [");
        message.append(decimal_string(group_id).as_str());
        message.append("] has already been approved by member [");
        message.append(info.sender.as_str());
        message.append("]");
        return Err(
            ContractError::ExecuteError {
                route: String::from_str("approve_group_membership"),
                message,
            },
        );
    }
    let value = match to_json_vec_u64(group_id) {
        Ok(value) => value,
        Err(e) => {
            return Err(ContractError::Std(e));
        },
    };
    let request = MsgAddAttributeRequest {
        name: String::from_str(attribute_name),
        value,
        attribute_type: AttributeType::Int,
        account: info.sender.clone(),
        owner: env.contract.address.clone(),
        expiration_date: None,
    };
    let response = Response::new().add_message(ContractMsg::AddAttribute(request)).add_attribute(
        "action",
        "approve_group_membership",
    ).add_attribute("account_address", info.sender.as_str()).add_attribute(
        "attribute_name",
        attribute_name,
    ).add_attribute("group_id", decimal_string(group_id).as_str());
    proof {
        let expected = approval_response(
            attribute_name@,
            info.sender@,
            env.contract.address@,
            group_id,
        );
        assert(response@.messages =~= expected.messages);
        assert(response@.attributes =~= expected.attributes);
    }
    Ok(response)
}

/// Invoked via the contract's execution functionality.  Adds an attribute to the signer that
/// denotes that they affirm their membership in a group by setting an int value on the
/// designated attribute equal to the group identifier.  The route does not verify that the
/// signer is a member of the group: consenting to be or to become one is an act of compliance,
/// and a false claim can be read off the chain by whoever consumes the attribute.  The route
/// does validate that the account does not already have an attribute value affirming the
/// group, preventing duplicate writes.  It looks at the name and the kind of an attribute and
/// at its value, never at its expiration.
///
/// # Parameters
///
/// * `storage` The contract's storage, from which the attribute name is read.
/// * `env` Describes the contract's details at the time of the transaction.
/// * `info` Describes the sender of the message, as well as the funds provided as an amount
/// during the transaction.
/// * `fetched` All pages of the attributes that are bound to the sender, or the error that
/// fetching them ended in.
/// * `group_id` The unique identifier of a given group for which the signing account consents to
/// membership.
pub fn approve_group_membership(
    storage: &ContractStorage,
    env: &Env,
    info: &MessageInfo,
    fetched: Result<Vec<QueryAttributesResponse>, ContractError>,
    group_id: u64,
) -> (r: Result<Response, ContractError>)
    ensures
        is_approve_outcome(storage@, *env, *info, fetched, group_id, r),
        info.funds@.len() > 0 ==> r matches Err(ContractError::InvalidFundsError { .. }),
{
    // Verify that no coin was sent to start this execution route.  The only charge incurred should
    // be a new attribute write
    match check_funds_are_empty(info) {
        Ok(_) => {},
        Err(e) => {
            return Err(e);
        },
    }
    let attribute_name = match get_contract_state(storage) {
        Ok(state) => state.attribute_name,
        Err(e) => {
            return Err(e);
        },
    };
    let existing_group_ids = match fetched {
        Ok(pages) => get_group_id_attribute_values_paginated(pages, attribute_name.as_str()),
        Err(_) => Vec::new(),
    };
    approve_new_group_id(attribute_name.as_str(), env, info, &existing_group_ids, group_id)
}

/// Whether an attribute is the one that a request asked to be written: it has the request's
/// name, value and kind, and is bound to the account that the request names.
pub open spec fn is_written_attribute(
    attribute: AttributeView,
    request: MsgAddAttributeRequestView,
) -> bool {
    &&& attribute.name == request.name
    &&& attribute.value == request.value
    &&& attribute.attribute_type == request.attribute_type
    &&& attribute.address == request.account
}

/// A sender cannot approve the same group twice.  Once an approval has gone through and the
/// attribute that it asked for is found among the attributes fetched for the sender, on
/// whatever page and at whatever position, the next approval of that group by that sender is
/// refused as a duplicate, with the error that names the group and the sender.  `request` is
/// what the first approval asked the chain to write.
pub proof fn lemma_repeated_approval_is_refused(
    stored: Option<ContractStateView>,
    env: Env,
    info: MessageInfo,
    group_id: u64,
    fetched_first: Result<Vec<QueryAttributesResponse>, ContractError>,
    first: Result<Response, ContractError>,
    fetched_second: Result<Vec<QueryAttributesResponse>, ContractError>,
    second: Result<Response, ContractError>,
    request: MsgAddAttributeRequestView,
    page: int,
    position: int,
)
    requires
        is_approve_outcome(stored, env, info, fetched_first, group_id, first),
        first matches Ok(response) && response@.messages == seq![
            ContractMsgView::AddAttribute(request),
        ],
        fetched_second matches Ok(pages) && 0 <= page < pages@.len() && 0 <= position
            < pages@[page].attributes@.len() && is_written_attribute(
            pages@[page].attributes@[position]@,
            request,
        ),
        is_approve_outcome(stored, env, info, fetched_second, group_id, second),
    ensures
        second matches Err(ContractError::ExecuteError { route, message }) && route@
            == "approve_group_membership"@ && message@ == duplicate_approval_message(
            group_id,
            info.sender@,
        ),
{
    let name = stored->Some_0.attribute_name;
    let pages = fetched_second->Ok_0@;
    let expected = approval_response(name, info.sender@, env.contract.address@, group_id);
    assert(first->Ok_0@.messages[0] == expected.messages[0]);
    assert(states_group_id(pages[page].attributes@[position], name, group_id));
    lemma_group_ids(pages, name, group_id);
}

/// A sender can approve one group after another.  Where the only attribute that is found for
/// the sender is the one that an approval of one group asked for, the approval of any other
/// group by that sender goes through as well, and asks for the attribute of that other group.
/// `request` is what the first approval asked the chain to write.
pub proof fn lemma_other_group_is_approved(
    stored: Option<ContractStateView>,
    env: Env,
    info: MessageInfo,
    group_id: u64,
    other_group_id: u64,
    fetched_first: Result<Vec<QueryAttributesResponse>, ContractError>,
    first: Result<Response, ContractError>,
    fetched_second: Result<Vec<QueryAttributesResponse>, ContractError>,
    second: Result<Response, ContractError>,
    request: MsgAddAttributeRequestView,
)
    requires
        is_approve_outcome(stored, env, info, fetched_first, group_id, first),
        first matches Ok(response) && response@.messages == seq![
            ContractMsgView::AddAttribute(request),
        ],
        other_group_id != group_id,
        fetched_second matches Ok(pages) && pages@.len() == 1 && pages@[0].attributes@.len() == 1
            && is_written_attribute(pages@[0].attributes@[0]@, request),
        is_approve_outcome(stored, env, info, fetched_second, other_group_id, second),
    ensures
        second matches Ok(response) && response@ == approval_response(
            stored->Some_0.attribute_name,
            info.sender@,
            env.contract.address@,
            other_group_id,
        ),
{
    let name = stored->Some_0.attribute_name;
    let pages = fetched_second->Ok_0@;
    let expected = approval_response(name, info.sender@, env.contract.address@, group_id);
    assert(first->Ok_0@.messages[0] == expected.messages[0]);
    lemma_group_ids(pages, name, other_group_id);
    if group_ids(pages, name).contains(other_group_id) {
        let (p, i) = choose|p: int, i: int|
            0 <= p < pages.len() && 0 <= i < pages[p].attributes@.len() && states_group_id(
                #[trigger] pages[p].attributes@[i],
                name,
                other_group_id,
            );
        assert(p == 0 && i == 0);
    }
}

} // verus!
