use vstd::prelude::*;
use crate::error::TransferFeeError;

verus! {

/// One hundred percent, in basis points.
pub const BPS_DENOMINATOR: u16 = 10000;

/// The highest fee rate that an update may set: ten percent.
pub const MAX_FEE_BPS: u16 = 1000;

/// The fee on `gross` at `rate_bps` basis points, rounded down.
pub open spec fn fee_of(gross: u64, rate_bps: u16) -> int {
    (gross as int * rate_bps as int) / 10000
}

/// The split of `gross` into what the recipient gets and the fee, in that
/// order; an error where the fee would exceed the gross amount.
pub open spec fn split_of(gross: u64, rate_bps: u16) -> Result<(u64, u64), TransferFeeError> {
    if fee_of(gross, rate_bps) <= gross as int {
        Ok(((gross as int - fee_of(gross, rate_bps)) as u64, fee_of(gross, rate_bps) as u64))
    } else {
        Err(TransferFeeError::ArithmeticOverflow)
    }
}

/// At a rate of at most one hundred percent the fee is never negative and
/// never more than the gross amount.
pub proof fn lemma_fee_bounded(gross: u64, rate_bps: u16)
    requires
        rate_bps <= 10000,
    ensures
        0 <= fee_of(gross, rate_bps) <= gross,
{
    assert(0 <= (gross as int * rate_bps as int) / 10000 <= gross as int) by (nonlinear_arith)
        requires
            0 <= gross as int,
            0 <= rate_bps as int <= 10000,
    ;
}

/// Splits `gross` into the net amount and the fee at `rate_bps` basis points.
/// The fee is rounded down; what the rounding drops stays with the recipient.
pub fn compute_split(gross: u64, rate_bps: u16) -> (r: Result<(u64, u64), TransferFeeError>)
    ensures
        r == split_of(gross, rate_bps),
        rate_bps <= 10000 ==> r is Ok,
        r matches Ok((net, fee)) ==> net + fee == gross && fee == fee_of(gross, rate_bps),
        rate_bps == 0 ==> r == Ok::<(u64, u64), TransferFeeError>((gross, 0u64)),
        gross == 0 ==> r == Ok::<(u64, u64), TransferFeeError>((0u64, 0u64)),
{
    proof {
        if rate_bps <= 10000 {
            lemma_fee_bounded(gross, rate_bps);
        }
        assert(0 <= gross as int * rate_bps as int <= 0xffff_ffff_ffff_ffff * 0xffff)
            by (nonlinear_arith)
            requires
                0 <= gross as int <= 0xffff_ffff_ffff_ffff,
                0 <= rate_bps as int <= 0xffff,
        ;
        assert(rate_bps == 0 ==> gross as int * rate_bps as int == 0) by (nonlinear_arith);
        assert(gross == 0 ==> gross as int * rate_bps as int == 0) by (nonlinear_arith);
    }
    let wide: u128 = (gross as u128) * (rate_bps as u128);
    let fee_wide: u128 = wide / (BPS_DENOMINATOR as u128);
    if fee_wide <= gross as u128 {
        let fee: u64 = fee_wide as u64;
        Ok((gross - fee, fee))
    } else {
        Err(TransferFeeError::ArithmeticOverflow)
    }
}

} // verus!
