use vstd::prelude::*;

verus! {

/// Failure taxonomy of the escrow subsystem.
///
/// Every violation is fatal to the instruction that detected it: the caller
/// receives exactly one of these values and no account state changes.
#[derive(Clone, Copy, Debug, PartialEq, Eq, Structural)]
pub enum EscrowError {
    /// Fewer accounts were supplied than the instruction's positional list needs.
    NotEnoughAccountKeys,
    /// A signature is missing, an account has the wrong owning program, or the
    /// supplied record address does not match the re-derived one.
    InvalidAccountOwner,
    /// An account's stored bytes do not have the expected shape or linkage.
    InvalidAccountData,
    /// The payload has the wrong length, an unknown selector, or a zero amount.
    InvalidInstructionData,
    /// A value-transfer or account-creation authority did not sign.
    MissingRequiredSignature,
    /// A balance account's recorded owner is not the presented authority.
    OwnerMismatch,
    /// A balance account's recorded asset id is not the expected one.
    MintMismatch,
    /// The decimal precision handed to a checked transfer is not the asset's.
    DecimalsMismatch,
    /// A transfer asks for more than the source balance holds.
    InsufficientFunds,
    /// The funding account cannot pay the minimum-balance deposit.
    InsufficientLamports,
    /// An account slot that must be uninitialized is already in use.
    AccountAlreadyInUse,
    /// A custodial account cannot be closed while it still holds assets.
    NonZeroTokenBalance,
    /// A balance update would exceed the 64-bit range.
    ArithmeticOverflow,
}

} // verus!
