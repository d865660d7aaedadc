use vstd::prelude::*;

verus! {

/// Why a call on the token was refused. A refused call changes nothing.
#[derive(Debug, Clone, Copy, PartialEq, Eq, Structural)]
pub enum FtError {
    /// A transfer to oneself, or of a zero amount.
    InvalidRequest,
    /// The sender, the receiver or the caller holds no storage registration.
    NotRegistered,
    /// The sender holds less than the amount.
    InsufficientBalance,
    /// The attached deposit is below the registration fee.
    InsufficientDeposit,
    /// A storage withdrawal of more than the available balance, which is zero.
    ExcessWithdrawal,
    /// Unregistering an account that still holds tokens, without force.
    NonZeroBalance,
    /// The caller is not the owner.
    NotOwner,
    /// The new owner is empty.
    InvalidOwner,
    /// An update of the metadata that changes the decimals.
    DecimalsImmutable,
    /// The call did not carry exactly one yoctoNEAR.
    InsufficientAuthorizationPayment,
    /// The metadata is not well formed.
    InvalidMetadata,
    /// Too little gas was attached for the receiver's call and the resolution.
    InsufficientGas,
    /// Every transfer-call identifier has been handed out.
    TransferIdsExhausted,
}

} // verus!
