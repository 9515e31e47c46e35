use vstd::prelude::*;

verus! {

/// The base error enum that is used to wrap any errors that occur throughout contract execution.
#[derive(Debug)]
pub enum ContractError {
    /// Occurs when an error is encountered during a contract execute route invocation.
    ExecuteError {
        /// The route on which the error occurred.
        route: String,
        /// A free-form message describing the nature of the error.
        message: String,
    },
    /// Occurs when an error is encountered during contract instantiation.
    InstantiationError {
        /// A free-form message describing the nature of the error.
        message: String,
    },
    /// An error that occurs when an invalid text format is detected.
    InvalidFormatError {
        /// A free-form message describing the nature of the error.
        message: String,
    },
    /// Occurs when the account invoking a contract route provides an incorrect amount of funds.
    InvalidFundsError {
        /// A free-form message describing the nature of the error.
        message: String,
    },
    /// Occurs when an error is encountered during a contract migration.
    MigrationError {
        /// A free-form message describing the nature of the error.
        message: String,
    },
    /// Occurs when a version text is no semantic version.  Wraps the parser's own error.
    SemVerError(semver::Error),
    /// Occurs when the chain's standard library fails an operation.  Wraps its error.
    Std(cosmwasm_std::StdError),
    /// Occurs when an error is encountered during contract store communication.
    StorageError {
        /// A free-form message describing the nature of the error.
        message: String,
    },
}

} // verus!
