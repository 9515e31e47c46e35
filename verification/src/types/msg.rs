use vstd::prelude::*;

verus! {

/// The msg that is sent to the chain in order to instantiate a new instance of this contract.
#[derive(Clone, Debug, PartialEq, Eq)]
pub struct InstantiateMsg {
    /// A free-form name defining this particular contract instance.  Used for identification on
    /// query purposes only.
    pub contract_name: String,
    /// The fully-qualified name that is used to bind attributes to accounts when consenting to
    /// group membership.
    pub attribute_name: String,
    /// If true, the attribute name is bound directly to the contract as a restricted name when
    /// the contract is instantiated.
    pub bind_attribute_name: bool,
}

/// All defined payloads to be used when executing routes on this contract instance.
#[derive(Clone, Debug, PartialEq, Eq)]
pub enum ExecuteMsg {
    /// A route that allows the signing account to approve its membership in a group by adding an
    /// attribute to its account that holds the given group id.
    ApproveGroupMembership {
        /// The unique identifier of the group for which the signing account consents to membership.
        group_id: u64,
    },
}

/// All defined payloads to be used when querying routes on this contract instance.
#[derive(Clone, Debug, PartialEq, Eq)]
pub enum QueryMsg {
    /// A route that returns the contract state as it is currently stored.
    QueryContractState {},
}

/// All defined payloads to be used when migrating to a new instance of this contract.
#[derive(Clone, Debug, PartialEq, Eq)]
pub enum MigrateMsg {
    /// The standard migration route that raises the stored contract version to the version of
    /// the running code.
    ContractUpgrade {},
}

} // verus!
