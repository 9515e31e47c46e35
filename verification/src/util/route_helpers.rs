use crate::types::chain::MessageInfo;
use crate::types::error::ContractError;
use vstd::prelude::*;
use vstd::string::StringExecFns;

verus! {

/// The message of the error that provided funds are refused with.
pub open spec fn funds_present_message() -> Seq<char> {
    "route requires no funds be present"@
}

/// Verifies that the provided info does not include any funds, ensuring that the account invoking
/// the contract does not accidentally store funds in the contract that cannot be retrieved due to
/// lack of tracking.
///
/// # Parameters
///
/// * `info` A message information object.  Describes the sender of the message, as well as the
/// funds provided as an amount during the transaction.
pub fn check_funds_are_empty(info: &MessageInfo) -> (r: Result<(), ContractError>)
    ensures
        info.funds@.len() == 0 ==> r is Ok,
        info.funds@.len() > 0 ==> (r matches Err(ContractError::InvalidFundsError { message })
            && message@ == funds_present_message()),
{
    if info.funds.len() > 0 {
        Err(
            ContractError::InvalidFundsError {
                message: String::from_str("route requires no funds be present"),
            },
        )
    } else {
        Ok(())
    }
}

} // verus!
