use vstd::prelude::*;
use crate::address::{null_address, Address, Caller};
use crate::relay::TransferRequest;

verus! {

/// The accounts of `initialize`: the program, the address at which the record
/// is to stand, who creates it and becomes its authority, and who is to
/// receive the fees.
#[derive(Clone, Copy, Debug, PartialEq, Eq)]
pub struct Initialize {
    pub program_id: Address,
    pub fee_collector: Address,
    pub authority: Caller,
    pub fee_recipient: Address,
}

/// The accounts of a relayed transfer of native balance.
#[derive(Clone, Copy, Debug, PartialEq, Eq)]
pub struct TransferSolWithFee {
    pub program_id: Address,
    pub fee_collector: Address,
    pub sender: Caller,
    pub recipient: Address,
    pub fee_recipient: Address,
}

/// The accounts of a relayed transfer of a token.
#[derive(Clone, Copy, Debug, PartialEq, Eq)]
pub struct TransferSplWithFee {
    pub program_id: Address,
    pub fee_collector: Address,
    pub sender: Caller,
    pub sender_token_account: Address,
    pub recipient_token_account: Address,
    pub fee_recipient_token_account: Address,
    pub token_mint: Address,
    pub fee_recipient: Address,
}

/// The accounts of an update of rate and recipient.
#[derive(Clone, Copy, Debug, PartialEq, Eq)]
pub struct UpdateFeeConfig {
    pub program_id: Address,
    pub fee_collector: Address,
    pub authority: Caller,
}

/// The accounts of a change of the blacklist.
#[derive(Clone, Copy, Debug, PartialEq, Eq)]
pub struct SetTokenBlacklist {
    pub program_id: Address,
    pub fee_collector: Address,
    pub authority: Caller,
}

/// The accounts of a withdrawal of native balance.
#[derive(Clone, Copy, Debug, PartialEq, Eq)]
pub struct EmergencyWithdraw {
    pub program_id: Address,
    pub fee_collector: Address,
    pub authority: Caller,
}

/// The accounts of a withdrawal of a token.
#[derive(Clone, Copy, Debug, PartialEq, Eq)]
pub struct EmergencyWithdrawSpl {
    pub program_id: Address,
    pub fee_collector: Address,
    pub authority: Caller,
    pub program_token_account: Address,
    pub authority_token_account: Address,
}

impl TransferSolWithFee {
    /// The request that these accounts make for an amount: the parties hold
    /// the balances themselves, and the asset is the null address.
    pub open spec fn request(&self, amount: u64) -> TransferRequest {
        TransferRequest {
            sender: self.sender,
            source: self.sender.key,
            destination: self.recipient,
            fee_destination: self.fee_recipient,
            recipient: self.recipient,
            fee_recipient: self.fee_recipient,
            asset: null_address(),
            amount,
        }
    }

    /// Builds the request of these accounts for an amount.
    pub fn to_request(&self, amount: u64) -> (r: TransferRequest)
        ensures
            r == self.request(amount),
    {
        TransferRequest {
            sender: self.sender,
            source: self.sender.key,
            destination: self.recipient,
            fee_destination: self.fee_recipient,
            recipient: self.recipient,
            fee_recipient: self.fee_recipient,
            asset: Address::null(),
            amount,
        }
    }
}

impl TransferSplWithFee {
    /// The request that these accounts make for an amount: the balances are
    /// held by token accounts, the recipient is known by its token account,
    /// and the asset is the token's mint.
    pub open spec fn request(&self, amount: u64) -> TransferRequest {
        TransferRequest {
            sender: self.sender,
            source: self.sender_token_account,
            destination: self.recipient_token_account,
            fee_destination: self.fee_recipient_token_account,
            recipient: self.recipient_token_account,
            fee_recipient: self.fee_recipient,
            asset: self.token_mint,
            amount,
        }
    }

    /// Builds the request of these accounts for an amount.
    pub fn to_request(&self, amount: u64) -> (r: TransferRequest)
        ensures
            r == self.request(amount),
    {
        TransferRequest {
            sender: self.sender,
            source: self.sender_token_account,
            destination: self.recipient_token_account,
            fee_destination: self.fee_recipient_token_account,
            recipient: self.recipient_token_account,
            fee_recipient: self.fee_recipient,
            asset: self.token_mint,
            amount,
        }
    }
}

} // verus!
