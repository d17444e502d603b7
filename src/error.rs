use vstd::prelude::*;

verus! {

/// Every way an instruction of this program can fail.
#[derive(Debug, Clone, Copy, PartialEq, Eq, Structural)]
pub enum PayStreamError {
    /// A tick or a close on a session that is not active.
    StreamInactive,
    /// The revealed preimage does not hash to the committed value.
    InvalidSecret,
    /// A tick would push the accumulated amount past the deposit.
    InsufficientFunds,
    /// A token account lacks the funds that a transfer out of it needs.
    InsufficientBalance,
    /// The derivation inputs do not reproduce the expected address.
    AddressMismatch,
    /// The record named by the instruction does not exist.
    AccountNotInitialized,
    /// The record that an initialisation would create already exists.
    AccountAlreadyInUse,
}

} // verus!
