//! The ways a vault operation can fail.
use vstd::prelude::*;

verus! {

/// Why an operation was refused. Every failure is final for its call: nothing
/// is retried and nothing is applied in part.
#[derive(Clone, Copy, Debug, PartialEq, Eq, Structural)]
pub enum VaultError {
    /// The accounts handed in do not stand in the required relation: a wrong
    /// owner, a wrong mint, a record at the wrong address.
    ValidationError,
    /// The caller did not sign, or is not the recorded manager.
    AuthorizationError,
    /// No vault address can be derived for the program.
    DerivationError,
    /// The vault already has a manager; the record was left as it was.
    AlreadyInitialized,
    /// The source account holds less than the amount to move.
    InsufficientBalance,
    /// The authorizing identity does not own the source account.
    Unauthorized,
    /// The transfer could not be carried out for another reason.
    TransferFailure,
}

} // verus!
