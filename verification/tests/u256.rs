use worm_miner::u256::U256;

fn big(l0: u64, l1: u64, l2: u64, l3: u64) -> U256 {
    U256 { l0, l1, l2, l3 }
}

#[test]
fn comparison_goes_by_the_most_significant_limb() {
    assert!(big(u64::MAX, 0, 0, 0).lt(&big(0, 1, 0, 0)));
    assert!(!big(0, 0, 0, 1).lt(&big(u64::MAX, u64::MAX, u64::MAX, 0)));
    assert!(!U256::from_u64(5).lt(&U256::from_u64(5)));
    assert!(U256::zero().lt(&U256::from_u64(1)));
}

#[test]
fn subtraction_borrows_across_limbs() {
    assert_eq!(big(0, 1, 0, 0).wrapping_sub(&U256::from_u64(1)), big(u64::MAX, 0, 0, 0));
    assert_eq!(U256::from_u64(10).wrapping_sub(&U256::from_u64(3)), U256::from_u64(7));
}

#[test]
fn subtraction_wraps_below_zero() {
    assert_eq!(
        U256::from_u64(0).wrapping_sub(&U256::from_u64(1)),
        big(u64::MAX, u64::MAX, u64::MAX, u64::MAX)
    );
    assert_eq!(U256::from_u64(3).wrapping_sub(&U256::from_u64(5)).wrapping_sub(&big(u64::MAX - 1, u64::MAX, u64::MAX, u64::MAX)), U256::zero());
}

#[test]
fn division_by_a_word_carries_remainders_down() {
    assert_eq!(U256::from_u64(7).div_u64(2), U256::from_u64(3));
    assert_eq!(big(0, 1, 0, 0).div_u64(2), big(1 << 63, 0, 0, 0));
    assert_eq!(big(0, 0, 0, 1).div_u64(1 << 32), big(0, 0, 1 << 32, 0));
    assert_eq!(big(u64::MAX, u64::MAX, u64::MAX, u64::MAX).div_u64(u64::MAX), big(1, 1, 1, 1));
    assert_eq!(U256::from_u64(5).div_u64(6), U256::zero());
}
