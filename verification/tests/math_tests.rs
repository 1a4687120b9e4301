use bet_placing_market::sqrt_u128;

#[test]
fn isqrt_of_zero_is_zero() {
    assert_eq!(sqrt_u128(0), 0);
}

#[test]
fn isqrt_of_perfect_squares() {
    assert_eq!(sqrt_u128(1), 1);
    assert_eq!(sqrt_u128(4), 2);
    assert_eq!(sqrt_u128(16), 4);
    assert_eq!(sqrt_u128(25), 5);
    assert_eq!(sqrt_u128(1_000_000), 1000);
}

#[test]
fn isqrt_floors_non_squares() {
    assert_eq!(sqrt_u128(2), 1);
    assert_eq!(sqrt_u128(3), 1);
    assert_eq!(sqrt_u128(8), 2);
    assert_eq!(sqrt_u128(15), 3);
    assert_eq!(sqrt_u128(24), 4);
    assert_eq!(sqrt_u128(26), 5);
    assert_eq!(sqrt_u128(99), 9);
}

#[test]
fn isqrt_of_extreme_values() {
    let max_root: u128 = u64::MAX as u128;
    assert_eq!(sqrt_u128(max_root * max_root), max_root);
    assert_eq!(sqrt_u128(max_root * max_root - 1), max_root - 1);
    assert_eq!(sqrt_u128(u128::MAX), max_root);
}

#[test]
fn isqrt_brackets_every_small_input() {
    for x in 0u128..2000 {
        let r = sqrt_u128(x);
        assert!(r * r <= x, "root too large for {x}");
        assert!(x < (r + 1) * (r + 1), "root too small for {x}");
    }
}
