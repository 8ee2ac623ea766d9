use the_hat_chooses_the_wizard::number::FixedNumber;

#[test]
fn new_scales_by_1024() {
    assert_eq!(FixedNumber::new(3).to_raw(), 3 * 1024);
    assert_eq!(FixedNumber::new(-3).to_raw(), -3 * 1024);
    assert_eq!(FixedNumber::new(0), FixedNumber::zero());
    assert_eq!(FixedNumber::new(2_097_151).to_raw(), 2_147_482_624);
    assert_eq!(FixedNumber::new(-2_097_152).to_raw(), i32::MIN);
}

#[test]
fn raw_round_trips() {
    assert_eq!(FixedNumber::from_raw(-77).to_raw(), -77);
    assert_eq!(FixedNumber::from_raw(i32::MAX).raw, i32::MAX);
}

#[test]
fn add_sub_neg_abs() {
    let a = FixedNumber::from_raw(1500);
    let b = FixedNumber::from_raw(-2000);
    assert_eq!(a.add(b).to_raw(), -500);
    assert_eq!(a.sub(b).to_raw(), 3500);
    assert_eq!(b.neg().to_raw(), 2000);
    assert_eq!(b.abs().to_raw(), 2000);
    assert_eq!(a.abs().to_raw(), 1500);
}

#[test]
fn mul_int_and_div_int() {
    let a = FixedNumber::from_raw(-1000);
    assert_eq!(a.mul_int(54).to_raw(), -54_000);
    // division by an integer rounds towards zero
    assert_eq!(FixedNumber::from_raw(-54_000).div_int(64).to_raw(), -843);
    assert_eq!(FixedNumber::from_raw(54_000).div_int(64).to_raw(), 843);
    assert_eq!(FixedNumber::from_raw(7).div_int(-2).to_raw(), -3);
    assert_eq!(FixedNumber::from_raw(-7).div_int(-2).to_raw(), 3);
    assert_eq!(FixedNumber::new(4).div_int(3).to_raw(), 1365);
}

#[test]
fn mul_rounds_down() {
    // 1.5 * 2.5 = 3.75
    let a = FixedNumber::from_raw(1536);
    let b = FixedNumber::from_raw(2560);
    assert_eq!(a.mul(b).to_raw(), 3840);
    // -1/1024 * 1/1024 rounds down to -1/1024
    assert_eq!(FixedNumber::from_raw(-1).mul(FixedNumber::from_raw(1)).to_raw(), -1);
    assert_eq!(FixedNumber::from_raw(1).mul(FixedNumber::from_raw(1)).to_raw(), 0);
    assert_eq!(FixedNumber::from_raw(-1535).mul(FixedNumber::from_raw(1365)).to_raw(), -2047);
    // a product that needs more than 32 bits before the shift
    assert_eq!(
        FixedNumber::from_raw(1_000_000).mul(FixedNumber::from_raw(1_000_000)).to_raw(),
        976_562_500
    );
    assert_eq!(
        FixedNumber::from_raw(-1_000_000).mul(FixedNumber::from_raw(1_000_000)).to_raw(),
        -976_562_500
    );
}

#[test]
fn mul_agrees_with_wide_arithmetic() {
    let samples: [i32; 9] = [0, 1, -1, 1023, -1025, 40_000, -46_000, 1_048_575, -1_048_575];
    for &a in samples.iter() {
        for &b in samples.iter() {
            let expected = ((a as i64) * (b as i64)).div_euclid(1024);
            if expected >= i32::MIN as i64 && expected <= i32::MAX as i64 {
                assert_eq!(
                    FixedNumber::from_raw(a).mul(FixedNumber::from_raw(b)).to_raw() as i64,
                    expected
                );
            }
        }
    }
}

#[test]
fn div_rounds_towards_zero() {
    let one = FixedNumber::new(1);
    let three = FixedNumber::new(3);
    assert_eq!(one.div(three).to_raw(), 341);
    assert_eq!(one.neg().div(three).to_raw(), -341);
    assert_eq!(one.div(three.neg()).to_raw(), -341);
    assert_eq!(one.neg().div(three.neg()).to_raw(), 341);
    assert_eq!(FixedNumber::from_raw(54).div(FixedNumber::from_raw(32)).to_raw(), 1728);
    assert_eq!(FixedNumber::from_raw(2_097_151).div(FixedNumber::from_raw(1024)).to_raw(), 2_097_151);
}

#[test]
fn sqrt_is_a_multiple_of_one_thirty_second() {
    assert_eq!(FixedNumber::new(16).sqrt().to_raw(), 4 * 1024);
    assert_eq!(FixedNumber::new(2).sqrt().to_raw(), 45 * 32);
    assert_eq!(FixedNumber::from_raw(0).sqrt().to_raw(), 0);
    assert_eq!(FixedNumber::from_raw(1).sqrt().to_raw(), 32);
    assert_eq!(FixedNumber::from_raw(3).sqrt().to_raw(), 32);
    assert_eq!(FixedNumber::from_raw(4).sqrt().to_raw(), 64);
    assert_eq!(FixedNumber::from_raw(i32::MAX).sqrt().to_raw(), 46_340 * 32);
}

#[test]
fn sqrt_is_the_integer_root_of_the_raw_value() {
    let mut a: i64 = 0;
    while a <= i32::MAX as i64 {
        let r = FixedNumber::from_raw(a as i32).sqrt().to_raw() as i64;
        assert_eq!(r % 32, 0);
        let c = r / 32;
        assert!(c * c <= a, "root of {} too large", a);
        assert!(a < (c + 1) * (c + 1), "root of {} too small", a);
        a = a * 3 + 7;
    }
    for a in 0..5000i64 {
        let r = FixedNumber::from_raw(a as i32).sqrt().to_raw() as i64;
        let c = r / 32;
        assert!(r % 32 == 0 && c * c <= a && a < (c + 1) * (c + 1));
    }
}

#[test]
fn floor_rounds_down() {
    assert_eq!(FixedNumber::from_raw(1023).floor(), 0);
    assert_eq!(FixedNumber::from_raw(1024).floor(), 1);
    assert_eq!(FixedNumber::from_raw(-1).floor(), -1);
    assert_eq!(FixedNumber::from_raw(-1024).floor(), -1);
    assert_eq!(FixedNumber::from_raw(-1025).floor(), -2);
    assert_eq!(FixedNumber::from_raw(i32::MIN).floor(), -2_097_152);
}

#[test]
fn clamp_limits_to_the_range() {
    let low = FixedNumber::new(0);
    let high = FixedNumber::new(10);
    assert_eq!(FixedNumber::new(-3).clamp(low, high), low);
    assert_eq!(FixedNumber::new(13).clamp(low, high), high);
    assert_eq!(FixedNumber::new(7).clamp(low, high), FixedNumber::new(7));
    assert_eq!(FixedNumber::new(7).clamp(high, high), high);
}
