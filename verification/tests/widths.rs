use saturating::{
    HasSaturatingAdd, HasSaturatingMul, HasSaturatingSub, SaturatingNumber, SaturatingU128,
    SaturatingU32,
};

#[test]
fn thirty_two_bit_numbers_clamp_at_their_own_ceiling() {
    assert_eq!(
        SaturatingU32::from(u32::MAX) + SaturatingU32::from(1),
        SaturatingU32::from(u32::MAX)
    );
    assert_eq!(
        SaturatingU32::from(4_000_000_000) + SaturatingU32::from(294_967_295),
        SaturatingU32::from(u32::MAX)
    );
    assert_eq!(
        SaturatingU32::from(4_000_000_000) + SaturatingU32::from(294_967_294),
        SaturatingU32::from(4_294_967_294)
    );
    assert_eq!(
        SaturatingU32::from(3) - SaturatingU32::from(4),
        SaturatingU32::from(0)
    );
    assert_eq!(
        SaturatingU32::from(65_536) * SaturatingU32::from(65_536),
        SaturatingU32::from(u32::MAX)
    );
    assert_eq!(
        SaturatingU32::from(65_536) * SaturatingU32::from(65_535),
        SaturatingU32::from(4_294_901_760)
    );
}

#[test]
fn hundred_twenty_eight_bit_numbers_clamp_at_their_own_ceiling() {
    assert_eq!(
        SaturatingU128::from(u128::MAX) + SaturatingU128::from(1),
        SaturatingU128::from(u128::MAX)
    );
    // Above the 64-bit ceiling nothing is clamped yet.
    assert_eq!(
        SaturatingU128::from(u64::MAX as u128) + SaturatingU128::from(10),
        SaturatingU128::from(18_446_744_073_709_551_625)
    );
    assert_eq!(
        SaturatingU128::from(u64::MAX as u128) * SaturatingU128::from(u64::MAX as u128),
        SaturatingU128::from(340_282_366_920_938_463_426_481_119_284_349_108_225)
    );
    assert_eq!(
        SaturatingU128::from(1 << 64) * SaturatingU128::from(1 << 64),
        SaturatingU128::from(u128::MAX)
    );
    assert_eq!(
        SaturatingU128::from(0) - SaturatingU128::from(u128::MAX),
        SaturatingU128::from(0)
    );
    assert_eq!(
        SaturatingU128::from(u128::MAX) - SaturatingU128::from(1),
        SaturatingU128::from(u128::MAX - 1)
    );
}

#[test]
fn capabilities_of_the_primitive_types() {
    assert_eq!(200u32.do_saturating_add(100), 300);
    assert_eq!(u32::MAX.do_saturating_add(100), u32::MAX);
    assert_eq!(100u32.do_saturating_sub(30), 70);
    assert_eq!(30u32.do_saturating_sub(100), 0);
    assert_eq!(1000u32.do_saturating_mul(1000), 1_000_000);
    assert_eq!(100_000u32.do_saturating_mul(100_000), u32::MAX);

    assert_eq!(200u64.do_saturating_add(100), 300);
    assert_eq!(u64::MAX.do_saturating_add(100), u64::MAX);
    assert_eq!(100u64.do_saturating_sub(30), 70);
    assert_eq!(30u64.do_saturating_sub(100), 0);
    assert_eq!(100_000u64.do_saturating_mul(100_000), 10_000_000_000);
    assert_eq!(u64::MAX.do_saturating_mul(2), u64::MAX);

    assert_eq!(200u128.do_saturating_add(100), 300);
    assert_eq!(u128::MAX.do_saturating_add(100), u128::MAX);
    assert_eq!(100u128.do_saturating_sub(30), 70);
    assert_eq!(30u128.do_saturating_sub(100), 0);
    assert_eq!(
        u64::MAX as u128 + 1,
        (1u128 << 32).do_saturating_mul(1u128 << 32)
    );
    assert_eq!(u128::MAX.do_saturating_mul(2), u128::MAX);
}

#[test]
fn capabilities_agree_with_the_standard_operations() {
    let samples: [u32; 8] = [0, 1, 2, 3, 65_535, 65_536, u32::MAX - 1, u32::MAX];
    for a in samples {
        for b in samples {
            assert_eq!(a.do_saturating_add(b), a.saturating_add(b));
            assert_eq!(a.do_saturating_sub(b), a.saturating_sub(b));
            assert_eq!(a.do_saturating_mul(b), a.saturating_mul(b));
            let (a64, b64) = (a as u64 * 4_294_967_297, b as u64 * 4_294_967_297);
            assert_eq!(a64.do_saturating_add(b64), a64.saturating_add(b64));
            assert_eq!(a64.do_saturating_sub(b64), a64.saturating_sub(b64));
            assert_eq!(a64.do_saturating_mul(b64), a64.saturating_mul(b64));
            let (a128, b128) = (a64 as u128 * 18_446_744_073_709_551_617, b64 as u128 + 1);
            assert_eq!(a128.do_saturating_add(b128), a128.saturating_add(b128));
            assert_eq!(a128.do_saturating_sub(b128), a128.saturating_sub(b128));
            assert_eq!(a128.do_saturating_mul(b128), a128.saturating_mul(b128));
        }
    }
}

#[test]
fn generic_wrapper_is_the_same_type_as_its_aliases() {
    let a: SaturatingNumber<u32> = SaturatingNumber::from(9);
    let b: SaturatingU32 = SaturatingU32::from(9);
    assert_eq!(a, b);
    let c: SaturatingNumber<u128> = 9u128.into();
    assert_eq!(c, SaturatingU128::from(9));
}
