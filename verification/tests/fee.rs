use transfer_fee_collector::compute_split;
use transfer_fee_collector::TransferFeeError;

#[test]
fn split_of_a_million_at_two_and_a_half_percent() {
    assert_eq!(compute_split(1_000_000, 250), Ok((975_000, 25_000)));
}

#[test]
fn split_rounds_the_fee_down() {
    assert_eq!(compute_split(7, 1), Ok((7, 0)));
    assert_eq!(compute_split(9_999, 1), Ok((9_999, 0)));
    assert_eq!(compute_split(10_000, 1), Ok((9_999, 1)));
    assert_eq!(compute_split(19_999, 1), Ok((19_998, 1)));
}

#[test]
fn zero_rate_takes_nothing() {
    assert_eq!(compute_split(0, 0), Ok((0, 0)));
    assert_eq!(compute_split(123_456_789, 0), Ok((123_456_789, 0)));
    assert_eq!(compute_split(u64::MAX, 0), Ok((u64::MAX, 0)));
}

#[test]
fn zero_gross_splits_to_zero() {
    assert_eq!(compute_split(0, 250), Ok((0, 0)));
    assert_eq!(compute_split(0, 10_000), Ok((0, 0)));
    assert_eq!(compute_split(0, u16::MAX), Ok((0, 0)));
}

#[test]
fn parts_add_up_to_the_gross_amount() {
    let amounts: [u64; 6] = [1, 7, 9_999, 1_000_000, u64::MAX - 1, u64::MAX];
    let rates: [u16; 6] = [0, 1, 250, 1_000, 9_999, 10_000];
    for gross in amounts {
        for rate in rates {
            let (net, fee) = compute_split(gross, rate).unwrap();
            assert_eq!(net as u128 + fee as u128, gross as u128);
            assert_eq!(fee as u128, gross as u128 * rate as u128 / 10_000);
        }
    }
}

#[test]
fn split_of_the_largest_amount() {
    assert_eq!(compute_split(u64::MAX, 10_000), Ok((0, u64::MAX)));
    assert_eq!(
        compute_split(u64::MAX, 1_000),
        Ok((16_602_069_666_338_596_454, 1_844_674_407_370_955_161))
    );
}

#[test]
fn rate_above_one_hundred_percent_fails_closed() {
    assert_eq!(compute_split(1_000_000, 10_001), Err(TransferFeeError::ArithmeticOverflow));
    assert_eq!(compute_split(u64::MAX, u16::MAX), Err(TransferFeeError::ArithmeticOverflow));
    assert_eq!(compute_split(1, 20_000), Err(TransferFeeError::ArithmeticOverflow));
}

#[test]
fn rate_above_one_hundred_percent_passes_where_the_fee_fits() {
    assert_eq!(compute_split(1, 10_001), Ok((0, 1)));
    assert_eq!(compute_split(9_999, 10_001), Ok((0, 9_999)));
    assert_eq!(compute_split(10_000, 10_001), Err(TransferFeeError::ArithmeticOverflow));
}
