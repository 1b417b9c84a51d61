use treasury_controller::conversion::{pow10_u64, to_token_minor_units};

#[test]
fn powers_of_ten() {
    assert_eq!(pow10_u64(0), 1);
    assert_eq!(pow10_u64(1), 10);
    assert_eq!(pow10_u64(9), 1_000_000_000);
    assert_eq!(pow10_u64(18), 1_000_000_000_000_000_000);
}

#[test]
fn scenario_conversion() {
    // 0.4 native units at 0.05 native per token, token with 6 decimals:
    // floor(400_000_000 / (10^3 * 0.05)) = 8_000_000 minor units.
    assert_eq!(to_token_minor_units(400_000_000, 50_000_000, 6), 8_000_000);
}

#[test]
fn conversion_handles_decimals_above_nine() {
    // Same amount and price, 12-decimal mint: the denominator 10^(9-12) is
    // below one, so the minor-unit count grows by 10^6.
    assert_eq!(
        to_token_minor_units(400_000_000, 50_000_000, 12),
        8_000_000_000_000
    );
}

#[test]
fn conversion_truncates_toward_zero() {
    // One native minor unit cannot pay for a three-unit token.
    assert_eq!(to_token_minor_units(1, 3, 0), 0);
    // 10 / 3 truncates.
    assert_eq!(to_token_minor_units(10, 3, 0), 3);
}

#[test]
fn conversion_at_nine_decimals_and_unit_price_is_identity() {
    // A 9-decimal token priced at one whole native unit per token swaps
    // minor units one for one.
    assert_eq!(to_token_minor_units(123_456_789, 1_000_000_000, 9), 123_456_789);
}

#[test]
fn conversion_saturates_at_the_word_limit() {
    assert_eq!(to_token_minor_units(u64::MAX, 1, 18), u64::MAX);
}

#[test]
fn conversion_round_trips_within_one_token_price() {
    // Scaling the result back by the price recovers the scaled native amount
    // to strictly less than one token's price, for decimals on both sides
    // of the native currency's nine.
    // Values are picked so the exact quotient fits a machine word: past the
    // saturation point only the floor bound survives, not the round trip.
    for (native, price, decimals) in [
        (400_000_000u64, 50_000_000u64, 6u8),
        (999_999_999, 700_000, 12),
        (123_456_789, 987_654_321, 0),
        (1_000_000_007, 1_000_000_000_007, 18),
    ] {
        let minor = to_token_minor_units(native, price, decimals) as u128;
        let scale = pow10_u64(decimals) as u128;
        let scaled_native = native as u128 * scale;
        let recovered = minor * price as u128;
        assert!(recovered <= scaled_native);
        assert!(scaled_native - recovered < price as u128);
        assert!(recovered / scale <= native as u128);
    }
}
