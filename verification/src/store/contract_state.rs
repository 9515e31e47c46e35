use crate::types::error::ContractError;
use vstd::prelude::*;
use vstd::string::StringExecFns;

verus! {

/// The type of this contract.  A stored instance can only be migrated to code of its own type.
pub const CONTRACT_TYPE: &'static str = "group_member_approval";

/// The version of this contract's code.  A stored instance can only be migrated to code of a
/// higher version than its own.
pub const CONTRACT_VERSION: &'static str = "1.0.0";

/// The name of the record under which the contract state is kept.
pub const NAMESPACE_CONTRACT_STATE: &'static str = "contract_state";

/// Stores the core contract configurations created on instantiation and modified on migration.
#[derive(Debug, PartialEq, Eq)]
pub struct ContractState {
    /// The bech32 address of the account that has admin rights within this contract.
    pub admin: String,
    /// The fully-qualified name that is used to bind attributes to accounts when consenting to
    /// group membership.
    pub attribute_name: String,
    /// A free-form name defining this particular contract instance.  Used for identification on
    /// query purposes only.
    pub contract_name: String,
    /// The contract's type, used to ensure that newly-migrated instances match the same contract
    /// format.
    pub contract_type: String,
    /// The contract's version, used to ensure that newly-migrated instances do not attempt to use
    /// an identical or older version.
    pub contract_version: String,
}

/// What a [`ContractState`] holds, as mathematical values.
pub ghost struct ContractStateView {
    pub admin: Seq<char>,
    pub attribute_name: Seq<char>,
    pub contract_name: Seq<char>,
    pub contract_type: Seq<char>,
    pub contract_version: Seq<char>,
}

impl View for ContractState {
    type V = ContractStateView;

    open spec fn view(&self) -> ContractStateView {
        ContractStateView {
            admin: self.admin@,
            attribute_name: self.attribute_name@,
            contract_name: self.contract_name@,
            contract_type: self.contract_type@,
            contract_version: self.contract_version@,
        }
    }
}

impl Clone for ContractState {
    fn clone(&self) -> (r: Self)
        ensures
            r@ == self@,
    {
        ContractState {
            admin: self.admin.clone(),
            attribute_name: self.attribute_name.clone(),
            contract_name: self.contract_name.clone(),
            contract_type: self.contract_type.clone(),
            contract_version: self.contract_version.clone(),
        }
    }
}

impl ContractState {
    /// Constructs a new instance of this struct, of this code's own type and version.
    ///
    /// # Parameters
    ///
    /// * `admin` The bech32 address of the account that has admin rights within this contract.
    /// * `attribute_name` The fully-qualified name that is used to bind attributes to accounts
    /// when consenting to group membership.
    /// * `contract_name` A free-form name defining this particular contract instance.  Used for
    /// identification on query purposes only.
    pub fn new(admin: &str, attribute_name: &str, contract_name: &str) -> (r: Self)
        ensures
            r@ == (ContractStateView {
                admin: admin@,
                attribute_name: attribute_name@,
                contract_name: contract_name@,
                contract_type: CONTRACT_TYPE@,
                contract_version: CONTRACT_VERSION@,
            }),
    {
        Self {
            admin: String::from_str(admin),
            attribute_name: String::from_str(attribute_name),
            contract_name: String::from_str(contract_name),
            contract_type: String::from_str(CONTRACT_TYPE),
            contract_version: String::from_str(CONTRACT_VERSION),
        }
    }
}

/// Whether the names that the contract works with are in place: neither the attribute name nor
/// the contract name is empty.  This holds of the contract state from the instantiation on.
pub open spec fn is_named(contract_state: ContractStateView) -> bool {
    contract_state.attribute_name.len() > 0 && contract_state.contract_name.len() > 0
}

/// The contract's own storage: the single record that holds the contract state, which is empty
/// until the contract has been instantiated.
#[derive(Debug, PartialEq, Eq)]
pub struct ContractStorage {
    /// The stored contract state, if there is one.
    pub contract_state: Option<ContractState>,
}

impl View for ContractStorage {
    type V = Option<ContractStateView>;

    open spec fn view(&self) -> Option<ContractStateView> {
        match self.contract_state {
            Some(state) => Some(state@),
            None => None,
        }
    }
}

impl ContractStorage {
    /// A storage that holds nothing yet.
    pub fn new() -> (r: Self)
        ensures
            r@ is None,
    {
        ContractStorage { contract_state: None }
    }
}

/// The message of the error that a missing contract state is reported with.
pub open spec fn missing_state_message() -> Seq<char> {
    "contract state has not been stored"@
}

/// Whether a result and a storage are what writing a contract state owes: the write goes
/// through, and the storage holds the written state and nothing else.
pub open spec fn is_set_outcome(
    written: ContractStateView,
    after: Option<ContractStateView>,
    r: Result<(), ContractError>,
) -> bool {
    r is Ok && after == Some(written)
}

/// Overwrites the existing singleton contract storage instance of [ContractState] with the input
/// reference.
///
/// # Parameters
///
/// * `storage` A mutable instance of the contract storage value, allowing internal store
/// manipulation.
/// * `contract_state` The new value for which an internal storage write will be done.
pub fn set_contract_state(storage: &mut ContractStorage, contract_state: &ContractState) -> (r:
    Result<(), ContractError>)
    ensures
        is_set_outcome(contract_state@, final(storage)@, r),
{
    storage.contract_state = Some(contract_state.clone());
    Ok(())
}

/// Fetches the current contract instance of contract state.  This call should never fail because
/// the state is set on contract instantiation, but a storage error is returned where no state
/// has been stored yet.
///
/// # Parameters
///
/// * `storage` An immutable instance of the contract storage value, allowing internal store data
/// fetches.
pub fn get_contract_state(storage: &ContractStorage) -> (r: Result<ContractState, ContractError>)
    ensures
        is_get_outcome(storage@, r),
{
    match &storage.contract_state {
        Some(state) => Ok(state.clone()),
        None => Err(
            ContractError::StorageError {
                message: String::from_str("contract state has not been stored"),
            },
        ),
    }
}

/// Whether a result is the one that reading a storage owes: the stored contract state as it
/// stands, or a storage error where none is stored.
pub open spec fn is_get_outcome(
    stored: Option<ContractStateView>,
    r: Result<ContractState, ContractError>,
) -> bool {
    match stored {
        Some(state) => r matches Ok(found) && found@ == state,
        None => r matches Err(ContractError::StorageError { message }) && message@
            == missing_state_message(),
    }
}

/// What is written is what is read.  After any contract state has been written to a storage,
/// whatever the storage held before, reading the storage succeeds and gives a contract state
/// that is equal to the written one in every field.
pub proof fn lemma_set_then_get(
    written: ContractState,
    after: Option<ContractStateView>,
    set: Result<(), ContractError>,
    got: Result<ContractState, ContractError>,
)
    requires
        is_set_outcome(written@, after, set),
        is_get_outcome(after, got),
    ensures
        set is Ok,
        got matches Ok(read) && read.admin@ == written.admin@ && read.attribute_name@
            == written.attribute_name@ && read.contract_name@ == written.contract_name@
            && read.contract_type@ == written.contract_type@ && read.contract_version@
            == written.contract_version@,
{
}

} // verus!
