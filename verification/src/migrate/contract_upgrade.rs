use crate::store::contract_state::{
    get_contract_state, is_named, missing_state_message, set_contract_state, ContractState,
    ContractStateView, ContractStorage, CONTRACT_TYPE, CONTRACT_VERSION,
};
use crate::types::chain::{event_attribute, Response, ResponseView};
use crate::types::error::ContractError;
use crate::util::version::{is_semver, parse_version, semver_at_least, version_at_least};
use vstd::prelude::*;
use vstd::string::StringExecFns;

verus! {

/// The message of the error that code of another contract type is refused with.
pub open spec fn type_mismatch_message(target_type: Seq<char>, stored_type: Seq<char>) -> Seq<
    char,
> {
    "target migration contract type ["@ + target_type
        + "] does not match stored contract type ["@ + stored_type + "]"@
}

/// The message of the error that code of the stored version, or of a lower one, is refused with.
pub open spec fn version_too_low_message(
    target_version: Seq<char>,
    stored_version: Seq<char>,
) -> Seq<char> {
    "target migration contract version ["@ + target_version
        + "] is too low to use. stored contract version is ["@ + stored_version + "]"@
}

/// Whether a target version is strictly higher than a stored one: both are semantic versions,
/// and the stored one is not at or above the target.
pub open spec fn is_higher_version(target_version: Seq<char>, stored_version: Seq<char>) -> bool {
    is_semver(stored_version) && is_semver(target_version) && !semver_at_least(
        stored_version,
        target_version,
    )
}

/// Whether code of a given type and version may be migrated over a stored contract state: the
/// types are the same text, and the code's version is strictly higher than the stored one.
pub open spec fn is_valid_migration(
    contract_state: ContractStateView,
    target_type: Seq<char>,
    target_version: Seq<char>,
) -> bool {
    target_type == contract_state.contract_type && is_higher_version(
        target_version,
        contract_state.contract_version,
    )
}

/// Whether a result is the one that the check of a migration owes: success where the migration
/// is valid, and else the first of these errors that applies: a migration error that names
/// both types where they differ; the parser's error where the stored version, or else the
/// target version, is no semantic version; a migration error that names both versions where
/// the stored version is at or above the target.
pub open spec fn is_migration_check_outcome(
    contract_state: ContractStateView,
    target_type: Seq<char>,
    target_version: Seq<char>,
    r: Result<(), ContractError>,
) -> bool {
    if target_type != contract_state.contract_type {
        r matches Err(ContractError::MigrationError { message }) && message@
            == type_mismatch_message(target_type, contract_state.contract_type)
    } else if !is_semver(contract_state.contract_version) || !is_semver(target_version) {
        r matches Err(ContractError::SemVerError(_))
    } else if semver_at_least(contract_state.contract_version, target_version) {
        r matches Err(ContractError::MigrationError { message }) && message@
            == version_too_low_message(target_version, contract_state.contract_version)
    } else {
        r is Ok
    }
}

/// Turns the outcome of comparing the stored version with the target version into the verdict
/// on the migration: only a target that the stored version is not at or above is let through.
///
/// # Parameters
///
/// * `stored_at_least_target` Whether the stored version is at or above the target version.
/// * `target_version` The text of the version that the migration leads to.
/// * `stored_version` The text of the version that is stored.
pub fn check_version_increase(
    stored_at_least_target: bool,
    target_version: &str,
    stored_version: &str,
) -> (r: Result<(), ContractError>)
    ensures
        stored_at_least_target ==> (r matches Err(ContractError::MigrationError { message })
            && message@ == version_too_low_message(target_version@, stored_version@)),
        !stored_at_least_target ==> r is Ok,
{
    // Ensure only new contract versions are allowed
    if stored_at_least_target {
        let mut message = String::from_str("target migration contract version [");
        message.append(target_version);
        message.append("] is too low to use. stored contract version is [");
        message.append(stored_version);
        message.append("]");
        return Err(ContractError::MigrationError { message });
    }
    Ok(())
}

/// Verifies that a migration to code of the given type and version is valid for the
/// currently-stored values.
///
/// # Parameters
///
/// * `contract_state` The current contract state instance from the store.
/// * `target_type` The contract type of the code that the migration leads to.
/// * `target_version` The version of the code that the migration leads to.
pub fn check_valid_migration(
    contract_state: &ContractState,
    target_type: &str,
    target_version: &str,
) -> (r: Result<(), ContractError>)
    ensures
        is_migration_check_outcome(contract_state@, target_type@, target_version@, r),
        r is Ok <==> is_valid_migration(contract_state@, target_type@, target_version@),
        target_type@ == contract_state.contract_type@ && target_version@
            == contract_state.contract_version@ && is_semver(target_version@) ==> r matches Err(
            ContractError::MigrationError { .. },
        ),
{
    // Prevent other contracts of different types from migrating over this one
    if String::from_str(target_type) != contract_state.contract_type {
        let mut message = String::from_str("target migration contract type [");
        message.append(target_type);
        message.append("] does not match stored contract type [");
        message.append(contract_state.contract_type.as_str());
        message.append("]");
        return Err(ContractError::MigrationError { message });
    }
    let existing_contract_version = match parse_version(contract_state.contract_version.as_str()) {
        Ok(version) => version,
        Err(e) => {
            return Err(ContractError::SemVerError(e));
        },
    };
    let new_contract_version = match parse_version(target_version) {
        Ok(version) => version,
        Err(e) => {
            return Err(ContractError::SemVerError(e));
        },
    };
    check_version_increase(
        version_at_least(&existing_contract_version, &new_contract_version),
        target_version,
        contract_state.contract_version.as_str(),
    )
}

/// The contract state that a migration to this code's version leaves: the stored one, with
/// nothing but its version changed.
pub open spec fn upgraded_state(contract_state: ContractStateView) -> ContractStateView {
    ContractStateView { contract_version: CONTRACT_VERSION@, ..contract_state }
}

/// The response to a migration that has gone through: no directive, the attributes that report
/// the action and the new version, and the new contract state as the result.
pub open spec fn upgrade_response(new_state: ContractStateView) -> ResponseView {
    ResponseView {
        messages: seq![],
        attributes: seq![
            event_attribute("action"@, "migrate_contract"@),
            event_attribute("new_version"@, CONTRACT_VERSION@),
        ],
        data: Some(new_state),
    }
}

/// Whether a result and a storage are what a migration to this code owes.  Without a stored
/// contract state it is a storage error.  A valid migration leaves the upgraded state in the
/// storage and answers with it.  Any other is refused with the error that the check of the
/// migration gives, and leaves the storage as it was.
pub open spec fn is_upgrade_outcome(
    before: Option<ContractStateView>,
    after: Option<ContractStateView>,
    r: Result<Response, ContractError>,
) -> bool {
    match before {
        None => after == before && (r matches Err(ContractError::StorageError { message })
            && message@ == missing_state_message()),
        Some(state) => if is_valid_migration(state, CONTRACT_TYPE@, CONTRACT_VERSION@) {
            after == Some(upgraded_state(state)) && (r matches Ok(response) && response@
                == upgrade_response(upgraded_state(state)))
        } else {
            after == before && (r matches Err(e) && is_migration_check_outcome(
                state,
                CONTRACT_TYPE@,
                CONTRACT_VERSION@,
                Err(e),
            ))
        },
    }
}

/// The main entrypoint function for running a code migration.  Verifies that this code is of
/// the stored contract's type and of a newer version than the stored one, and then modifies the
/// contract state to reflect the new version.  A migration that is refused leaves the storage
/// as it was.
///
/// # Parameters
///
/// * `storage` The contract's storage, in which the contract state is read and overwritten.
pub fn contract_upgrade(storage: &mut ContractStorage) -> (r: Result<Response, ContractError>)
    ensures
        is_upgrade_outcome(old(storage)@, final(storage)@, r),
        old(storage)@ matches Some(state) ==> (r is Ok <==> is_valid_migration(
            state,
            CONTRACT_TYPE@,
            CONTRACT_VERSION@,
        )),
        old(storage)@ matches Some(state) && is_named(state) ==> (final(storage)@ matches Some(
            kept,
        ) && is_named(kept)),
        old(storage)@ matches Some(state) && state.contract_type == CONTRACT_TYPE@
            && state.contract_version == CONTRACT_VERSION@ && is_semver(CONTRACT_VERSION@)
            ==> r matches Err(ContractError::MigrationError { .. }),
{
    let mut contract_state = match get_contract_state(storage) {
        Ok(state) => state,
        Err(e) => {
            return Err(e);
        },
    };
    match check_valid_migration(&contract_state, CONTRACT_TYPE, CONTRACT_VERSION) {
        Ok(_) => {},
        Err(e) => {
            return Err(e);
        },
    }
    contract_state.contract_version = String::from_str(CONTRACT_VERSION);
    match set_contract_state(storage, &contract_state) {
        Ok(_) => {},
        Err(e) => {
            return Err(e);
        },
    }
    let response = Response::new().add_attribute("action", "migrate_contract").add_attribute(
        "new_version",
        CONTRACT_VERSION,
    ).set_data(contract_state);
    proof {
        let expected = upgrade_response(upgraded_state(old(storage)@.unwrap()));
        assert(response@.attributes =~= expected.attributes);
    }
    Ok(response)
}

/// The stored version never goes down.  A migration that goes through leaves a contract state
/// whose version is a semantic version that the version stored before was not at or above, and
/// changes no other field of the contract state.
pub proof fn lemma_upgrade_raises_the_version(
    before: Option<ContractStateView>,
    after: Option<ContractStateView>,
    r: Result<Response, ContractError>,
)
    requires
        is_upgrade_outcome(before, after, r),
        r is Ok,
    ensures
        before matches Some(stored) && after matches Some(kept) && is_semver(
            kept.contract_version,
        ) && !semver_at_least(stored.contract_version, kept.contract_version) && kept == (
            ContractStateView { contract_version: kept.contract_version, ..stored }
        ),
{
}

} // verus!
