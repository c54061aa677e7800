use stakeflow::rate::{split_fee, RateAccountant};
use stakeflow::types::VaultError;

#[test]
fn split_fee_exact_values() {
    assert_eq!(split_fee(10, 500), (0, 10));
    assert_eq!(split_fee(10_000, 500), (500, 9_500));
    assert_eq!(split_fee(19_999, 1_000), (1_999, 18_000));
    assert_eq!(split_fee(0, 1_000), (0, 0));
    assert_eq!(split_fee(u128::MAX, 10_000), (u128::MAX, 0));
    assert_eq!(split_fee(u128::MAX, 1_000), (u128::MAX / 10, u128::MAX - u128::MAX / 10));
}

#[test]
fn accountant_conversions() {
    let rate = RateAccountant::new();
    assert_eq!(rate.rate(), 1_000_000_000);
    assert_eq!(rate.to_claim_tokens(12_345), Ok(12_345));
    assert_eq!(rate.to_base_asset(12_345), Ok(12_345));
    assert_eq!(rate.to_claim_tokens(u128::MAX), Err(VaultError::Overflow));
}

#[test]
fn accountant_compound_and_rebase() {
    let mut rate = RateAccountant::new();
    assert_eq!(rate.compound(0, 500, 100, 100), Err(VaultError::ZeroYield));
    assert_eq!(rate.compound(20, 500, 100, 100), Ok((1, 19)));
    assert_eq!(rate.rate(), 1_190_000_000);
    assert_eq!(rate.to_base_asset(100), Ok(119));
    assert_eq!(rate.to_claim_tokens(119), Ok(100));
    assert_eq!(rate.compound(20, 500, u128::MAX, 100), Err(VaultError::Overflow));
    assert_eq!(rate.rate(), 1_190_000_000);
    assert_eq!(rate.rebase(500, 0), Ok(()));
    assert_eq!(rate.rate(), 1_190_000_000);
    assert_eq!(rate.rebase(500, 250), Ok(()));
    assert_eq!(rate.rate(), 2_000_000_000);
}
