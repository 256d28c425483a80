use vstd::prelude::*;
use crate::address::{null_bytes, Address, Caller};
use crate::config::{
    blacklist_outcome, fee_update_result, fee_update_state, fresh_record, FeeCollector,
};
use crate::error::TransferFeeError;
use crate::events::TokenBlacklistedEvent;
use crate::fee::{fee_of, lemma_fee_bounded, split_of};
use crate::relay::{transfer_result, withdrawal_result, TransferRequest};

verus! {

/// At any rate of at most one hundred percent the split succeeds, the two
/// parts add up to the gross amount, and the fee is the product of amount and
/// rate divided by 10000, rounded down.
pub proof fn lemma_split_conserves(gross: u64, rate_bps: u16)
    requires
        rate_bps <= 10000,
    ensures
        split_of(gross, rate_bps) matches Ok((net, fee)) && net + fee == gross && fee == (gross
            * rate_bps) / 10000,
{
    lemma_fee_bounded(gross, rate_bps);
}

/// At rate zero nothing is taken.
pub proof fn lemma_zero_rate_takes_nothing(gross: u64)
    ensures
        split_of(gross, 0) == Ok::<(u64, u64), TransferFeeError>((gross, 0u64)),
{
    assert(fee_of(gross, 0) == 0) by (nonlinear_arith);
}

/// Of nothing, nothing is taken and nothing arrives, whatever the rate.
pub proof fn lemma_zero_gross_splits_to_zero(rate_bps: u16)
    ensures
        split_of(0, rate_bps) == Ok::<(u64, u64), TransferFeeError>((0u64, 0u64)),
{
    assert(fee_of(0, rate_bps) == 0) by (nonlinear_arith);
}

/// An update to a rate above 1000 basis points is refused and leaves the
/// record as it was, whoever asks; from the authority of a bound record it is
/// refused as too high.
pub proof fn lemma_rate_above_ceiling_refused(
    c: FeeCollector,
    derived: Option<Seq<u8>>,
    key: Seq<u8>,
    caller: Caller,
    new_fee_bps: u16,
    new_fee_recipient: Address,
)
    requires
        new_fee_bps > 1000,
    ensures
        fee_update_result(c, derived, key, caller, new_fee_bps, new_fee_recipient) is Err,
        fee_update_state(c, derived, key, caller, new_fee_bps, new_fee_recipient) == c,
        c.admin_refusal(derived, key, caller) is None ==> fee_update_result(
            c,
            derived,
            key,
            caller,
            new_fee_bps,
            new_fee_recipient,
        ) == Err::<crate::events::FeeConfigUpdatedEvent, TransferFeeError>(
            TransferFeeError::FeeTooHigh,
        ),
{
}

/// An update to the null address as fee recipient is refused and leaves the
/// record as it was, whoever asks; from the authority of a bound record it is
/// refused for the rate, where that is too high, and else for the recipient.
pub proof fn lemma_null_recipient_refused(
    c: FeeCollector,
    derived: Option<Seq<u8>>,
    key: Seq<u8>,
    caller: Caller,
    new_fee_bps: u16,
    new_fee_recipient: Address,
)
    requires
        new_fee_recipient@ == null_bytes(),
    ensures
        fee_update_result(c, derived, key, caller, new_fee_bps, new_fee_recipient) is Err,
        fee_update_state(c, derived, key, caller, new_fee_bps, new_fee_recipient) == c,
        c.admin_refusal(derived, key, caller) is None ==> fee_update_result(
            c,
            derived,
            key,
            caller,
            new_fee_bps,
            new_fee_recipient,
        ) == Err::<crate::events::FeeConfigUpdatedEvent, TransferFeeError>(
            if new_fee_bps > 1000 {
                TransferFeeError::FeeTooHigh
            } else {
                TransferFeeError::InvalidFeeRecipient
            },
        ),
{
}

/// On a bound record, a caller who did not sign or is not the stored
/// authority is refused as unauthorized by every administrative operation:
/// the update of rate and recipient, the change of the blacklist and the
/// withdrawals. The record stays as it was and no movement is planned.
pub proof fn lemma_stranger_refused(
    c: FeeCollector,
    after: FeeCollector,
    listed: Result<TokenBlacklistedEvent, TransferFeeError>,
    derived: Option<Seq<u8>>,
    key: Address,
    caller: Caller,
    new_fee_bps: u16,
    new_fee_recipient: Address,
    token_mint: Address,
    blacklisted: bool,
    source: Address,
    destination: Address,
    amount: u64,
)
    requires
        FeeCollector::bound(derived, key@),
        !c.is_authority(caller),
        blacklist_outcome(c, after, listed, derived, key@, caller, token_mint, blacklisted),
    ensures
        fee_update_result(c, derived, key@, caller, new_fee_bps, new_fee_recipient) == Err::<
            crate::events::FeeConfigUpdatedEvent,
            TransferFeeError,
        >(TransferFeeError::Unauthorized),
        fee_update_state(c, derived, key@, caller, new_fee_bps, new_fee_recipient) == c,
        listed == Err::<TokenBlacklistedEvent, TransferFeeError>(TransferFeeError::Unauthorized),
        after == c,
        withdrawal_result(c, derived, key, caller, source, destination, amount) == Err::<
            crate::relay::Movement,
            TransferFeeError,
        >(TransferFeeError::Unauthorized),
{
}

/// In a record that lists no asset twice, a listed asset stands in the list
/// exactly once.
pub proof fn lemma_listed_once(c: FeeCollector, asset: Seq<u8>)
    requires
        c.wf(),
        c.blacklist().contains(asset),
    ensures
        c.listed_once(asset),
{
    let tokens = c.blacklisted_tokens@;
    let i = choose|i: int| 0 <= i < tokens.len() && (#[trigger] tokens[i])@ == asset;
    assert forall|j: int| 0 <= j < tokens.len() && j != i implies (#[trigger] tokens[j])@
        != asset by {
        if j < i {
            assert(tokens[j]@ != tokens[i]@);
        } else {
            assert(tokens[i]@ != tokens[j]@);
        }
    }
}

/// Blacklisting an asset twice in a row is the same as blacklisting it once:
/// where the first call succeeds, the second succeeds too and leaves the
/// record as the first left it, and the asset stands in the list exactly
/// once.
pub proof fn lemma_blacklist_twice(
    c0: FeeCollector,
    c1: FeeCollector,
    c2: FeeCollector,
    r1: Result<TokenBlacklistedEvent, TransferFeeError>,
    r2: Result<TokenBlacklistedEvent, TransferFeeError>,
    derived: Option<Seq<u8>>,
    key: Seq<u8>,
    caller: Caller,
    token_mint: Address,
)
    requires
        blacklist_outcome(c0, c1, r1, derived, key, caller, token_mint, true),
        blacklist_outcome(c1, c2, r2, derived, key, caller, token_mint, true),
        r1 is Ok,
    ensures
        r2 is Ok,
        r2 == r1,
        c2 == c1,
        c2.blacklist().contains(token_mint@),
        c2.listed_once(token_mint@),
{
    assert(c1.blacklist().contains(token_mint@));
    lemma_listed_once(c1, token_mint@);
}

/// A relayed transfer that names another fee recipient than the stored one
/// is refused, so nothing moves; on a bound record and with the sender's
/// signature it is refused for that mismatch.
pub proof fn lemma_wrong_fee_recipient_refused(
    c: FeeCollector,
    derived: Option<Seq<u8>>,
    key: Seq<u8>,
    req: TransferRequest,
)
    requires
        req.fee_recipient@ != c.fee_recipient@,
    ensures
        transfer_result(c, derived, key, req) is Err,
        FeeCollector::bound(derived, key) && req.sender.is_signer ==> transfer_result(
            c,
            derived,
            key,
            req,
        ) == Err::<crate::relay::TransferPlan, TransferFeeError>(
            TransferFeeError::FeeRecipientMismatch,
        ),
{
}

/// A record created with a rate relays at that rate: whatever a transfer
/// on the fresh record moves is what the split of the gross amount at that
/// rate gives; and a transfer that passes the checks on binding, signature
/// and fee recipient succeeds exactly where the split does, and fails as the
/// split fails.
pub proof fn lemma_fresh_record_splits_at_its_rate(
    c: FeeCollector,
    authority: Address,
    fee_recipient: Address,
    rate_bps: u16,
    bump: u8,
    derived: Option<Seq<u8>>,
    key: Seq<u8>,
    req: TransferRequest,
)
    requires
        fresh_record(c, authority, fee_recipient, rate_bps, bump),
    ensures
        transfer_result(c, derived, key, req) matches Ok(plan) ==> split_of(req.amount, rate_bps)
            == Ok::<(u64, u64), TransferFeeError>((plan.principal.amount, plan.fee.amount)),
        FeeCollector::bound(derived, key) && req.sender.is_signer && req.fee_recipient@
            == fee_recipient@ ==> match split_of(req.amount, rate_bps) {
            Ok((net, fee)) => transfer_result(c, derived, key, req) matches Ok(plan)
                && plan.principal.amount == net && plan.fee.amount == fee && plan.event.amount
                == net && plan.event.fee_amount == fee,
            Err(e) => transfer_result(c, derived, key, req) == Err::<
                crate::relay::TransferPlan,
                TransferFeeError,
            >(e),
        },
{
    assert(!c.blacklist().contains(req.asset@));
}

/// What an update writes is within the ceiling: after an update that
/// succeeds the rate is at most 1000 basis points and the fee recipient is
/// not the null address, so every later split succeeds.
pub proof fn lemma_update_keeps_the_ceiling(
    c: FeeCollector,
    derived: Option<Seq<u8>>,
    key: Seq<u8>,
    caller: Caller,
    new_fee_bps: u16,
    new_fee_recipient: Address,
    gross: u64,
)
    requires
        fee_update_result(c, derived, key, caller, new_fee_bps, new_fee_recipient) is Ok,
    ensures
        ({
            let after = fee_update_state(c, derived, key, caller, new_fee_bps, new_fee_recipient);
            &&& after.fee_bps == new_fee_bps
            &&& after.fee_bps <= 1000
            &&& after.fee_recipient == new_fee_recipient
            &&& after.fee_recipient@ != null_bytes()
            &&& after.authority == c.authority
            &&& after.bump == c.bump
            &&& after.blacklisted_tokens == c.blacklisted_tokens
            &&& split_of(gross, after.fee_bps) is Ok
        }),
{
    lemma_fee_bounded(gross, new_fee_bps);
}

/// A relayed transfer is one operation on one amount: where it succeeds,
/// the two movements leave the same source on the sender's authority, the
/// first to the destination and the second to the fee destination, and what
/// they move adds up to the gross amount.
pub proof fn lemma_plan_conserves(
    c: FeeCollector,
    derived: Option<Seq<u8>>,
    key: Seq<u8>,
    req: TransferRequest,
)
    ensures
        transfer_result(c, derived, key, req) matches Ok(plan) ==> {
            &&& plan.principal.amount + plan.fee.amount == req.amount
            &&& plan.fee.amount == fee_of(req.amount, c.fee_bps)
            &&& plan.principal.from == req.source
            &&& plan.fee.from == req.source
            &&& plan.principal.to == req.destination
            &&& plan.fee.to == req.fee_destination
            &&& plan.principal.authority == req.sender.key
            &&& plan.fee.authority == req.sender.key
            &&& req.fee_recipient@ == c.fee_recipient@
            &&& !c.blacklist().contains(req.asset@)
        },
{
}

/// No operation on the record changes its authority or its bump.
pub proof fn lemma_authority_is_fixed(
    c: FeeCollector,
    after: FeeCollector,
    listed: Result<TokenBlacklistedEvent, TransferFeeError>,
    derived: Option<Seq<u8>>,
    key: Seq<u8>,
    caller: Caller,
    new_fee_bps: u16,
    new_fee_recipient: Address,
    token_mint: Address,
    blacklisted: bool,
)
    requires
        blacklist_outcome(c, after, listed, derived, key, caller, token_mint, blacklisted),
    ensures
        after.authority == c.authority,
        after.bump == c.bump,
        fee_update_state(c, derived, key, caller, new_fee_bps, new_fee_recipient).authority
            == c.authority,
        fee_update_state(c, derived, key, caller, new_fee_bps, new_fee_recipient).bump == c.bump,
{
}

} // verus!
