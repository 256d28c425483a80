use vstd::prelude::*;
use crate::accounts::{
    EmergencyWithdraw, EmergencyWithdrawSpl, TransferSolWithFee, TransferSplWithFee,
};
use crate::address::{
    collector_address, collector_seeds, null_bytes, opt_view, program_address, Address, Caller,
};
use crate::config::FeeCollector;
use crate::error::TransferFeeError;
use crate::events::TransferWithFeeEvent;
use crate::fee::{compute_split, split_of};

verus! {

/// One movement of value for the host to perform: `amount` from `from` to
/// `to`, on the authority of `authority`.
#[derive(Clone, Copy, Debug, PartialEq, Eq)]
pub struct Movement {
    pub from: Address,
    pub to: Address,
    pub authority: Address,
    pub amount: u64,
}

/// A request to relay `amount` of `asset`. `source`, `destination` and
/// `fee_destination` are the accounts that hold the balances; `recipient` and
/// `fee_recipient` are the parties.
#[derive(Clone, Copy, Debug, PartialEq, Eq)]
pub struct TransferRequest {
    pub sender: Caller,
    pub source: Address,
    pub destination: Address,
    pub fee_destination: Address,
    pub recipient: Address,
    pub fee_recipient: Address,
    pub asset: Address,
    pub amount: u64,
}

/// The outcome of a relayed transfer: two movements that the host performs
/// together or not at all, and the event to emit once both are done.
#[derive(Clone, Copy, Debug, PartialEq, Eq)]
pub struct TransferPlan {
    pub principal: Movement,
    pub fee: Movement,
    pub event: TransferWithFeeEvent,
}

/// One account of an instruction.
#[derive(Clone, Copy, Debug, PartialEq, Eq)]
pub struct AccountRef {
    pub key: Address,
    pub is_signer: bool,
    pub is_writable: bool,
}

/// An instruction for another program.
#[derive(Clone, Debug, PartialEq, Eq)]
pub struct Instruction {
    pub program_id: Address,
    pub accounts: Vec<AccountRef>,
    pub data: Vec<u8>,
}

/// A relayed transfer of the native balance: the plan, and the system
/// program's instruction for each of its movements.
#[derive(Clone, Debug, PartialEq, Eq)]
pub struct SolTransfer {
    pub plan: TransferPlan,
    pub to_recipient: Instruction,
    pub to_fee_recipient: Instruction,
}

/// A withdrawal of native balance from the record's own address: the
/// movement, and the system program's instruction for it.
#[derive(Clone, Debug, PartialEq, Eq)]
pub struct SolWithdrawal {
    pub movement: Movement,
    pub instruction: Instruction,
}

/// The data bytes of the system program's transfer instruction for an
/// amount.
pub uninterp spec fn system_transfer_data(lamports: u64) -> Seq<u8>;

/// Whether an instruction is the system program's transfer for a movement:
/// addressed to the system program, whose address is null; the source first,
/// signing and writable; the destination second, writable; the data that of
/// the amount.
pub open spec fn system_transfer_of(ix: Instruction, m: Movement) -> bool {
    &&& ix.program_id@ == null_bytes()
    &&& ix.accounts@.len() == 2
    &&& ix.accounts@[0] == (AccountRef { key: m.from, is_signer: true, is_writable: true })
    &&& ix.accounts@[1] == (AccountRef { key: m.to, is_signer: false, is_writable: true })
    &&& ix.data@ == system_transfer_data(m.amount)
}

/// Calls `system_instruction::transfer` of solana_program (through
/// anchor_lang). Trusted: the instruction is addressed to the system
/// program, whose address is thirty-two zero bytes; it names the source as
/// signer and writable, then the destination as writable and no signer; its
/// data depend on the amount alone and are named `system_transfer_data`.
#[verifier::external_body]
pub(crate) fn system_transfer(from: &Address, to: &Address, lamports: u64) -> (r: Instruction)
    ensures
        r.program_id@ == null_bytes(),
        r.accounts@.len() == 2,
        r.accounts@[0] == (AccountRef { key: *from, is_signer: true, is_writable: true }),
        r.accounts@[1] == (AccountRef { key: *to, is_signer: false, is_writable: true }),
        r.data@ == system_transfer_data(lamports),
{
    let source = anchor_lang::prelude::Pubkey::new_from_array(from.bytes);
    let target = anchor_lang::prelude::Pubkey::new_from_array(to.bytes);
    let ix = anchor_lang::solana_program::system_instruction::transfer(&source, &target, lamports);
    Instruction {
        program_id: Address { bytes: ix.program_id.to_bytes() },
        accounts: ix.accounts.iter().map(|m| AccountRef {
            key: Address { bytes: m.pubkey.to_bytes() },
            is_signer: m.is_signer,
            is_writable: m.is_writable,
        }).collect(),
        data: ix.data,
    }
}

/// What a relayed transfer returns. The checks come in this order: the
/// record's binding, the sender's signature, the fee recipient, the
/// blacklist, the split.
pub open spec fn transfer_result(
    c: FeeCollector,
    derived: Option<Seq<u8>>,
    key: Seq<u8>,
    req: TransferRequest,
) -> Result<TransferPlan, TransferFeeError> {
    if !FeeCollector::bound(derived, key) {
        Err(TransferFeeError::AddressMismatch)
    } else if !req.sender.is_signer {
        Err(TransferFeeError::Unauthorized)
    } else if req.fee_recipient@ != c.fee_recipient@ {
        Err(TransferFeeError::FeeRecipientMismatch)
    } else if c.blacklist().contains(req.asset@) {
        Err(TransferFeeError::TokenBlacklisted)
    } else {
        match split_of(req.amount, c.fee_bps) {
            Err(e) => Err(e),
            Ok((net, fee)) => Ok(
                (TransferPlan {
                    principal: Movement {
                        from: req.source,
                        to: req.destination,
                        authority: req.sender.key,
                        amount: net,
                    },
                    fee: Movement {
                        from: req.source,
                        to: req.fee_destination,
                        authority: req.sender.key,
                        amount: fee,
                    },
                    event: TransferWithFeeEvent {
                        from: req.sender.key,
                        to: req.recipient,
                        token_mint: req.asset,
                        amount: net,
                        fee_amount: fee,
                    },
                }),
            ),
        }
    }
}

/// What a withdrawal returns: the movement from `source` to `destination` on
/// the record's own authority, where the record is bound and the caller is
/// the authority.
pub open spec fn withdrawal_result(
    c: FeeCollector,
    derived: Option<Seq<u8>>,
    key: Address,
    caller: Caller,
    source: Address,
    destination: Address,
    amount: u64,
) -> Result<Movement, TransferFeeError> {
    if let Some(e) = c.admin_refusal(derived, key@, caller) {
        Err(e)
    } else {
        Ok((Movement { from: source, to: destination, authority: key, amount }))
    }
}

impl FeeCollector {
    /// Plans a relayed transfer, given the address derived for the record.
    pub fn plan_transfer(&self, derived: &Option<Address>, key: &Address, req: &TransferRequest) -> (r:
        Result<TransferPlan, TransferFeeError>)
        ensures
            r == transfer_result(*self, opt_view(*derived), key@, *req),
    {
        if !Self::check_binding(derived, key) {
            return Err(TransferFeeError::AddressMismatch);
        }
        if !req.sender.is_signer {
            return Err(TransferFeeError::Unauthorized);
        }
        if !req.fee_recipient.same(&self.fee_recipient) {
            return Err(TransferFeeError::FeeRecipientMismatch);
        }
        if self.is_blacklisted(&req.asset) {
            return Err(TransferFeeError::TokenBlacklisted);
        }
        match compute_split(req.amount, self.fee_bps) {
            Err(e) => Err(e),
            Ok((net, fee)) => Ok(
                TransferPlan {
                    principal: Movement {
                        from: req.source,
                        to: req.destination,
                        authority: req.sender.key,
                        amount: net,
                    },
                    fee: Movement {
                        from: req.source,
                        to: req.fee_destination,
                        authority: req.sender.key,
                        amount: fee,
                    },
                    event: TransferWithFeeEvent {
                        from: req.sender.key,
                        to: req.recipient,
                        token_mint: req.asset,
                        amount: net,
                        fee_amount: fee,
                    },
                },
            ),
        }
    }

    /// Plans a withdrawal from the record's custody, given the address
    /// derived for the record.
    pub fn plan_withdrawal(
        &self,
        derived: &Option<Address>,
        key: &Address,
        caller: &Caller,
        source: &Address,
        destination: &Address,
        amount: u64,
    ) -> (r: Result<Movement, TransferFeeError>)
        ensures
            r == withdrawal_result(
                *self,
                opt_view(*derived),
                *key,
                *caller,
                *source,
                *destination,
                amount,
            ),
    {
        match self.check_admin(derived, key, caller) {
            Err(e) => Err(e),
            Ok(_) => Ok(Movement { from: *source, to: *destination, authority: *key, amount }),
        }
    }
}

/// Relays `amount` of native balance from the sender: the net amount to
/// the recipient, the fee to the fee recipient, who must be the stored one.
pub fn transfer_sol_with_fee(cfg: &FeeCollector, accounts: &TransferSolWithFee, amount: u64) -> (r:
    Result<SolTransfer, TransferFeeError>)
    ensures
        match r {
            Ok(t) => {
                &&& transfer_result(
                    *cfg,
                    program_address(collector_seeds(cfg.bump), accounts.program_id@),
                    accounts.fee_collector@,
                    accounts.request(amount),
                ) == Ok::<TransferPlan, TransferFeeError>(t.plan)
                &&& system_transfer_of(t.to_recipient, t.plan.principal)
                &&& system_transfer_of(t.to_fee_recipient, t.plan.fee)
            },
            Err(e) => transfer_result(
                *cfg,
                program_address(collector_seeds(cfg.bump), accounts.program_id@),
                accounts.fee_collector@,
                accounts.request(amount),
            ) == Err::<TransferPlan, TransferFeeError>(e),
        },
{
    let derived = collector_address(&accounts.program_id, cfg.bump);
    let req = accounts.to_request(amount);
    match cfg.plan_transfer(&derived, &accounts.fee_collector, &req) {
        Err(e) => Err(e),
        Ok(plan) => {
            let to_recipient = system_transfer(
                &plan.principal.from,
                &plan.principal.to,
                plan.principal.amount,
            );
            let to_fee_recipient = system_transfer(&plan.fee.from, &plan.fee.to, plan.fee.amount);
            Ok(SolTransfer { plan, to_recipient, to_fee_recipient })
        },
    }
}

/// Relays `amount` of a token from the sender's token account: the net
/// amount to the recipient's token account, the fee to the fee recipient's.
/// The sender signs for both movements.
pub fn transfer_spl_with_fee(cfg: &FeeCollector, accounts: &TransferSplWithFee, amount: u64) -> (r:
    Result<TransferPlan, TransferFeeError>)
    ensures
        r == transfer_result(
            *cfg,
            program_address(collector_seeds(cfg.bump), accounts.program_id@),
            accounts.fee_collector@,
            accounts.request(amount),
        ),
{
    let derived = collector_address(&accounts.program_id, cfg.bump);
    let req = accounts.to_request(amount);
    cfg.plan_transfer(&derived, &accounts.fee_collector, &req)
}

/// Withdraws `amount` of native balance from the record's own address to the
/// authority.
pub fn emergency_withdraw(cfg: &FeeCollector, accounts: &EmergencyWithdraw, amount: u64) -> (r:
    Result<SolWithdrawal, TransferFeeError>)
    ensures
        match r {
            Ok(w) => {
                &&& withdrawal_result(
                    *cfg,
                    program_address(collector_seeds(cfg.bump), accounts.program_id@),
                    accounts.fee_collector,
                    accounts.authority,
                    accounts.fee_collector,
                    accounts.authority.key,
                    amount,
                ) == Ok::<Movement, TransferFeeError>(w.movement)
                &&& system_transfer_of(w.instruction, w.movement)
            },
            Err(e) => withdrawal_result(
                *cfg,
                program_address(collector_seeds(cfg.bump), accounts.program_id@),
                accounts.fee_collector,
                accounts.authority,
                accounts.fee_collector,
                accounts.authority.key,
                amount,
            ) == Err::<Movement, TransferFeeError>(e),
        },
{
    let derived = collector_address(&accounts.program_id, cfg.bump);
    match cfg.plan_withdrawal(
        &derived,
        &accounts.fee_collector,
        &accounts.authority,
        &accounts.fee_collector,
        &accounts.authority.key,
        amount,
    ) {
        Err(e) => Err(e),
        Ok(movement) => {
            let instruction = system_transfer(&movement.from, &movement.to, movement.amount);
            Ok(SolWithdrawal { movement, instruction })
        },
    }
}

/// Withdraws `amount` of a token from a token account that the record's own
/// address owns to a token account of the authority.
pub fn emergency_withdraw_spl(
    cfg: &FeeCollector,
    accounts: &EmergencyWithdrawSpl,
    amount: u64,
) -> (r: Result<Movement, TransferFeeError>)
    ensures
        r == withdrawal_result(
            *cfg,
            program_address(collector_seeds(cfg.bump), accounts.program_id@),
            accounts.fee_collector,
            accounts.authority,
            accounts.program_token_account,
            accounts.authority_token_account,
            amount,
        ),
{
    let derived = collector_address(&accounts.program_id, cfg.bump);
    cfg.plan_withdrawal(
        &derived,
        &accounts.fee_collector,
        &accounts.authority,
        &accounts.program_token_account,
        &accounts.authority_token_account,
        amount,
    )
}

} // verus!
