use vstd::prelude::*;
use crate::address::Address;

verus! {

/// What a relayed transfer did: who sent, who received, which asset, how
/// much arrived and how much went to the fee recipient.
#[derive(Clone, Copy, Debug, PartialEq, Eq)]
pub struct TransferWithFeeEvent {
    pub from: Address,
    pub to: Address,
    pub token_mint: Address,
    pub amount: u64,
    pub fee_amount: u64,
}

/// The fee rate and recipient that an update set.
#[derive(Clone, Copy, Debug, PartialEq, Eq)]
pub struct FeeConfigUpdatedEvent {
    pub new_fee_bps: u16,
    pub new_fee_recipient: Address,
}

/// The asset whose blacklist membership was set, and to what.
#[derive(Clone, Copy, Debug, PartialEq, Eq)]
pub struct TokenBlacklistedEvent {
    pub token_mint: Address,
    pub blacklisted: bool,
}

} // verus!
