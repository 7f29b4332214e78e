use starfish::utils::calculate_platform_fee::execute as calculate_platform_fee;

#[test]
fn example() {
    assert_eq!(calculate_platform_fee(9600), 424)
}

#[test]
fn fee_is_forty_cents_below_a_dollar() {
    assert_eq!(calculate_platform_fee(0), 40);
    assert_eq!(calculate_platform_fee(99), 40);
}

#[test]
fn fee_counts_whole_dollars_only() {
    assert_eq!(calculate_platform_fee(100), 44);
    assert_eq!(calculate_platform_fee(199), 44);
    assert_eq!(calculate_platform_fee(10_000), 440);
}

#[test]
fn fee_on_negative_amount_truncates_toward_zero() {
    assert_eq!(calculate_platform_fee(-150), 36);
    assert_eq!(calculate_platform_fee(-99), 40);
}
