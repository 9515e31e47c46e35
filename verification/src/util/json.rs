use crate::util::text::decimal_text;
use vstd::prelude::*;

verus! {

/// The error type of the chain's standard library.
#[verifier::external_type_specification]
#[verifier::external_body]
pub struct ExStdError(cosmwasm_std::StdError);

/// The bytes of the decimal numeral of a number, one ASCII digit each.
pub open spec fn decimal_bytes(n: nat) -> Seq<u8> {
    decimal_text(n).map_values(|c: char| c as u8)
}

/// The number that `cosmwasm_std::from_json` reads from bytes of JSON text when it is asked for
/// a `u64`; `None` where it refuses the bytes.
pub uninterp spec fn json_u64(bytes: Seq<u8>) -> Option<u64>;

/// Calls `cosmwasm_std::to_json_vec` on a `u64`.
///
/// The serializer behind it writes an unsigned number as its decimal digits, without a sign,
/// leading zeros or anything around them, into a growing buffer, and has no way to fail on
/// one.  The same digits, read back by `cosmwasm_std::from_json` as a `u64`, give the number
/// that was written.
#[verifier::external_body]
pub(crate) fn to_json_vec_u64(value: u64) -> (r: Result<Vec<u8>, cosmwasm_std::StdError>)
    ensures
        match r {
            Ok(bytes) => bytes@ == decimal_bytes(value as nat) && json_u64(bytes@) == Some(value),
            Err(_) => false,
        },
{
    cosmwasm_std::to_json_vec(&value)
}

/// Calls `cosmwasm_std::from_json` for a `u64`.
///
/// The outcome depends on the bytes alone: the number that was read, or an error where the
/// bytes are no JSON text of a single unsigned number that fits.
#[verifier::external_body]
pub(crate) fn from_json_u64(bytes: &Vec<u8>) -> (r: Result<u64, cosmwasm_std::StdError>)
    ensures
        match r {
            Ok(value) => json_u64(bytes@) == Some(value),
            Err(_) => json_u64(bytes@) is None,
        },
{
    cosmwasm_std::from_json::<u64>(bytes)
}

} // verus!
