//! Contains the functionality used in the [contract file](crate::contract) to instantiate an
//! instance of the contract.

/// The main functionality executed when the smart contract is first instantiated.
pub mod instantiate_contract;
