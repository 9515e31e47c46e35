use crate::store::contract_state::{ContractState, ContractStateView};
use crate::types::provenance::{MsgAddAttributeRequest, MsgAddAttributeRequestView};
use vstd::prelude::*;
use vstd::string::StringExecFns;

verus! {

/// An amount of a single denomination of funds.
#[derive(Clone, Debug, PartialEq, Eq)]
pub struct Coin {
    /// The denomination.
    pub denom: String,
    /// The amount, in the smallest unit of the denomination.
    pub amount: u128,
}

/// Describes the sender of a message, as well as the funds provided with it.
#[derive(Clone, Debug, PartialEq, Eq)]
pub struct MessageInfo {
    /// The bech32 address of the account that signed the message.
    pub sender: String,
    /// The funds that were sent to the contract along with the message.
    pub funds: Vec<Coin>,
}

/// Describes the contract that is being run.
#[derive(Clone, Debug, PartialEq, Eq)]
pub struct ContractInfo {
    /// The bech32 address of the contract itself.
    pub address: String,
}

/// Describes the contract's details at the time of the transaction.
#[derive(Clone, Debug, PartialEq, Eq)]
pub struct Env {
    /// The contract that is being run.
    pub contract: ContractInfo,
}

/// A key and a value that a route reports of what it has done.
#[derive(Clone, Debug, PartialEq, Eq)]
pub struct EventAttribute {
    /// The key of the attribute.
    pub key: String,
    /// The value of the attribute.
    pub value: String,
}

/// What an [`EventAttribute`] holds, as mathematical values.
pub ghost struct EventAttributeView {
    pub key: Seq<char>,
    pub value: Seq<char>,
}

impl View for EventAttribute {
    type V = EventAttributeView;

    open spec fn view(&self) -> EventAttributeView {
        EventAttributeView { key: self.key@, value: self.value@ }
    }
}

/// A directive that a route hands to the chain, which carries it out within the same
/// transaction.
#[derive(Clone, Debug, PartialEq, Eq)]
pub enum ContractMsg {
    /// Binds a name to an address.
    BindName {
        /// The name to bind.
        name: String,
        /// The address to bind the name to.
        address: String,
        /// Whether the name is bound as a restricted name.
        restrict: bool,
    },
    /// Writes an attribute to an account.
    AddAttribute(MsgAddAttributeRequest),
}

/// What a [`ContractMsg`] holds, as mathematical values.
pub ghost enum ContractMsgView {
    BindName { name: Seq<char>, address: Seq<char>, restrict: bool },
    AddAttribute(MsgAddAttributeRequestView),
}

impl View for ContractMsg {
    type V = ContractMsgView;

    open spec fn view(&self) -> ContractMsgView {
        match self {
            ContractMsg::BindName { name, address, restrict } => ContractMsgView::BindName {
                name: name@,
                address: address@,
                restrict: *restrict,
            },
            ContractMsg::AddAttribute(request) => ContractMsgView::AddAttribute(request@),
        }
    }
}

/// What a route gives back on success: the directives for the chain, the attributes that
/// report what was done, and the contract state where the route hands it out as its result.
#[derive(Debug, PartialEq, Eq)]
pub struct Response {
    /// The directives, in the order in which they were added.
    pub messages: Vec<ContractMsg>,
    /// The attributes, in the order in which they were added.
    pub attributes: Vec<EventAttribute>,
    /// The contract state that the route hands out as its result, if it does.
    pub data: Option<ContractState>,
}

/// What a [`Response`] holds, as mathematical values.
pub ghost struct ResponseView {
    pub messages: Seq<ContractMsgView>,
    pub attributes: Seq<EventAttributeView>,
    pub data: Option<ContractStateView>,
}

impl View for Response {
    type V = ResponseView;

    open spec fn view(&self) -> ResponseView {
        ResponseView {
            messages: self.messages@.map_values(|m: ContractMsg| m@),
            attributes: self.attributes@.map_values(|a: EventAttribute| a@),
            data: match self.data {
                Some(state) => Some(state@),
                None => None,
            },
        }
    }
}

/// The attribute that reports a key and a value.
pub open spec fn event_attribute(key: Seq<char>, value: Seq<char>) -> EventAttributeView {
    EventAttributeView { key, value }
}

impl Response {
    /// A response that holds nothing.
    pub fn new() -> (r: Self)
        ensures
            r@ == (ResponseView { messages: seq![], attributes: seq![], data: None }),
    {
        let r = Response { messages: Vec::new(), attributes: Vec::new(), data: None };
        assert(r@.messages =~= seq![]);
        assert(r@.attributes =~= seq![]);
        r
    }

    /// Adds an attribute behind those that the response holds.
    pub fn add_attribute(self, key: &str, value: &str) -> (r: Self)
        ensures
            r@ == (ResponseView {
                attributes: self@.attributes.push(event_attribute(key@, value@)),
                ..self@
            }),
    {
        let mut response = self;
        response.attributes.push(
            EventAttribute { key: String::from_str(key), value: String::from_str(value) },
        );
        assert(response@.attributes =~= self@.attributes.push(event_attribute(key@, value@)));
        response
    }

    /// Adds a directive behind those that the response holds.
    pub fn add_message(self, msg: ContractMsg) -> (r: Self)
        ensures
            r@ == (ResponseView { messages: self@.messages.push(msg@), ..self@ }),
    {
        let mut response = self;
        response.messages.push(msg);
        assert(response@.messages =~= self@.messages.push(msg@));
        response
    }

    /// Sets the contract state that the response hands out as its result.
    pub fn set_data(self, data: ContractState) -> (r: Self)
        ensures
            r@ == (ResponseView { data: Some(data@), ..self@ }),
    {
        let mut response = self;
        response.data = Some(data);
        response
    }
}

/// Whether a response holds an attribute of a given key.
pub open spec fn has_attribute(response: ResponseView, key: Seq<char>) -> bool {
    exists|i: int| 0 <= i < response.attributes.len() && response.attributes[i].key == key
}

/// Whether a position is that of the first attribute of a given key in a response.
pub open spec fn is_first_attribute(response: ResponseView, key: Seq<char>, i: int) -> bool {
    &&& 0 <= i < response.attributes.len()
    &&& response.attributes[i].key == key
    &&& forall|j: int| 0 <= j < i ==> response.attributes[j].key != key
}

/// Gives the value of the first attribute of a response that has the given key.
///
/// # Parameters
///
/// * `response` The response to look into.  It holds an attribute of the key.
/// * `key` The key to look for.
pub fn single_attribute_for_key<'a>(response: &'a Response, key: &str) -> (r: &'a str)
    requires
        has_attribute(response@, key@),
    ensures
        exists|i: int| #[trigger]
            is_first_attribute(response@, key@, i) && r@ == response@.attributes[i].value,
{
    let wanted = String::from_str(key);
    let mut i: usize = 0;
    while i < response.attributes.len()
        invariant
            i <= response.attributes.len(),
            wanted@ == key@,
            has_attribute(response@, key@),
            forall|j: int| 0 <= j < i ==> response@.attributes[j].key != key@,
        decreases response.attributes.len() - i,
    {
        if response.attributes[i].key == wanted {
            let value = response.attributes[i].value.as_str();
            assert(is_first_attribute(response@, key@, i as int) && value@
                == response@.attributes[i as int].value);
            return value;
        }
        i = i + 1;
    }
    proof {
        let k = choose|k: int|
            0 <= k < response@.attributes.len() && response@.attributes[k].key == key@;
        assert(response@.attributes[k].key != key@);
    }
    ""
}

} // verus!
