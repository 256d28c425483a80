use vstd::prelude::*;

verus! {

/// Why an operation was refused. A refused operation changes nothing and
/// plans no movement.
#[derive(Clone, Copy, Debug, PartialEq, Eq, Structural)]
pub enum TransferFeeError {
    /// The requested fee rate is above 1000 basis points.
    FeeTooHigh,
    /// The requested fee recipient is the null address.
    InvalidFeeRecipient,
    /// The asset of a relayed transfer is on the blacklist.
    TokenBlacklisted,
    /// The source of a movement does not hold the amount.
    InsufficientBalance,
    /// The caller did not sign, or is not the stored authority.
    Unauthorized,
    /// The record is not at the address derived from its seed and bump.
    AddressMismatch,
    /// The fee recipient named in a transfer is not the stored one.
    FeeRecipientMismatch,
    /// The fee does not fit under the gross amount.
    ArithmeticOverflow,
    /// The record exists already.
    AlreadyInitialized,
}

impl TransferFeeError {
    /// The text shown to a user for this error.
    pub fn message(&self) -> (r: &'static str)
        ensures
            r@ == match *self {
                TransferFeeError::FeeTooHigh => "Fee cannot exceed 10% (1000 BPS)"@,
                TransferFeeError::InvalidFeeRecipient => "Invalid fee recipient address"@,
                TransferFeeError::TokenBlacklisted => "Token is blacklisted"@,
                TransferFeeError::InsufficientBalance => "Insufficient balance"@,
                TransferFeeError::Unauthorized => "Caller is not authorized"@,
                TransferFeeError::AddressMismatch => "Record is not at its derived address"@,
                TransferFeeError::FeeRecipientMismatch => "Fee recipient does not match"@,
                TransferFeeError::ArithmeticOverflow => "Arithmetic overflow"@,
                TransferFeeError::AlreadyInitialized => "Record is already initialized"@,
            },
    {
        match self {
            TransferFeeError::FeeTooHigh => "Fee cannot exceed 10% (1000 BPS)",
            TransferFeeError::InvalidFeeRecipient => "Invalid fee recipient address",
            TransferFeeError::TokenBlacklisted => "Token is blacklisted",
            TransferFeeError::InsufficientBalance => "Insufficient balance",
            TransferFeeError::Unauthorized => "Caller is not authorized",
            TransferFeeError::AddressMismatch => "Record is not at its derived address",
            TransferFeeError::FeeRecipientMismatch => "Fee recipient does not match",
            TransferFeeError::ArithmeticOverflow => "Arithmetic overflow",
            TransferFeeError::AlreadyInitialized => "Record is already initialized",
        }
    }
}

} // verus!
