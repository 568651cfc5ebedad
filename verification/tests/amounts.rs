use stellar_aid::amounts::{calculate_fee, calculate_net_amount, validate_amount, validate_donation_amount};

#[test]
fn test_validate_amount() {
    assert!(validate_amount(100));
    assert!(!validate_amount(0));
    assert!(!validate_amount(-100));
}

#[test]
fn test_validate_donation_amount() {
    assert!(validate_donation_amount(100).is_ok());
    assert!(validate_donation_amount(1).is_ok());
    assert_eq!(validate_donation_amount(0), Err("Donation amount must be positive"));
    assert_eq!(validate_donation_amount(-100), Err("Donation amount must be positive"));
}

#[test]
fn test_calculate_fee() {
    assert_eq!(calculate_fee(100), 1);
    assert_eq!(calculate_fee(1000), 10);
}

#[test]
fn test_calculate_net_amount() {
    assert_eq!(calculate_net_amount(100), 99);
    assert_eq!(calculate_net_amount(1000), 990);
}

#[test]
fn fee_rounds_toward_zero() {
    assert_eq!(calculate_fee(199), 1);
    assert_eq!(calculate_fee(99), 0);
    assert_eq!(calculate_fee(-150), -1);
    assert_eq!(calculate_net_amount(-150), -149);
}

#[test]
fn fee_and_net_at_the_extremes() {
    assert_eq!(calculate_fee(i128::MAX), i128::MAX / 100);
    assert_eq!(calculate_net_amount(i128::MAX), i128::MAX - i128::MAX / 100);
    assert_eq!(calculate_net_amount(i128::MIN), i128::MIN - i128::MIN / 100);
}
