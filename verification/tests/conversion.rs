use cartpole_sim::binary32::{
    check_nan, check_positive, check_zero, exponent_field, fraction_field, has_sign_bit,
    seconds_to_nanos,
};
use std::time::Duration;

fn std_nanos(bits: u32) -> Option<u128> {
    Duration::try_from_secs_f32(f32::from_bits(bits)).ok().map(|d| d.as_nanos())
}

#[test]
fn fields_of_one() {
    let bits = 1.0f32.to_bits();
    assert_eq!(bits, 0x3F80_0000);
    assert_eq!(exponent_field(bits), 127);
    assert_eq!(fraction_field(bits), 0);
    assert!(!has_sign_bit(bits));
}

#[test]
fn fields_of_minus_one_and_a_half() {
    let bits = (-1.5f32).to_bits();
    assert_eq!(exponent_field(bits), 127);
    assert_eq!(fraction_field(bits), 0x40_0000);
    assert!(has_sign_bit(bits));
}

#[test]
fn classification_agrees_with_the_numbers() {
    let samples = [
        0.0f32,
        -0.0,
        1.0,
        -1.0,
        0.012,
        f32::MIN_POSITIVE,
        f32::MAX,
        f32::MIN,
        f32::INFINITY,
        f32::NEG_INFINITY,
        f32::NAN,
        -f32::NAN,
        1.0e-45,
        -1.0e-45,
    ];
    for v in samples {
        let bits = v.to_bits();
        assert_eq!(check_nan(bits), v.is_nan(), "nan {v}");
        assert_eq!(check_zero(bits), v == 0.0, "zero {v}");
        assert_eq!(check_positive(bits), v > 0.0, "positive {v}");
        assert_eq!(has_sign_bit(bits), v.is_sign_negative(), "sign {v}");
    }
}

#[test]
fn twelve_milliseconds() {
    assert_eq!(seconds_to_nanos(0.012f32.to_bits()), Some(12_000_000));
    assert_eq!(seconds_to_nanos(0x3C44_9BA6), Some(12_000_000));
}

#[test]
fn exact_values() {
    assert_eq!(seconds_to_nanos(0.0f32.to_bits()), Some(0));
    assert_eq!(seconds_to_nanos(1.0f32.to_bits()), Some(1_000_000_000));
    assert_eq!(seconds_to_nanos(0.5f32.to_bits()), Some(500_000_000));
    assert_eq!(seconds_to_nanos(3.0f32.to_bits()), Some(3_000_000_000));
    assert_eq!(seconds_to_nanos(2.7f32.to_bits()), Some(2_700_000_048));
    assert_eq!(seconds_to_nanos(4.2e-7f32.to_bits()), Some(420));
    assert_eq!(seconds_to_nanos(1.0e-20f32.to_bits()), Some(0));
    assert_eq!(seconds_to_nanos(1.0e10f32.to_bits()), Some(10_000_000_000_000_000_000));
}

#[test]
fn rounds_to_nearest_with_ties_to_even() {
    // 2^-31 s is 0.4657 ns and 2^-30 s is 0.9313 ns.
    assert_eq!(seconds_to_nanos(0x3000_0000), Some(0));
    assert_eq!(seconds_to_nanos(0x3080_0000), Some(1));
    assert_eq!(seconds_to_nanos(0.999e-9f32.to_bits()), Some(1));
    // 2^-29 s is 1.8626 ns, 2^-28 s is 3.7253 ns.
    assert_eq!(seconds_to_nanos(0x3100_0000), Some(2));
    assert_eq!(seconds_to_nanos(0x3180_0000), Some(4));
    // 2^-9 s is 1_953_125 ns exactly; halving it eight more times ends in
    // 7629.39453125, and 2^-10 s is 976_562.5 ns: a tie, which goes to the
    // even neighbour.
    assert_eq!(seconds_to_nanos(2.0f32.powi(-9).to_bits()), Some(1_953_125));
    assert_eq!(seconds_to_nanos(2.0f32.powi(-10).to_bits()), Some(976_562));
    // 3 * 2^-10 s is 2_929_687.5 ns: a tie whose even neighbour is above.
    assert_eq!(seconds_to_nanos((3.0f32 * 2.0f32.powi(-10)).to_bits()), Some(2_929_688));
}

#[test]
fn spans_without_a_duration() {
    assert_eq!(seconds_to_nanos((-1.0f32).to_bits()), None);
    assert_eq!(seconds_to_nanos((-1.0e-45f32).to_bits()), None);
    assert_eq!(seconds_to_nanos(f32::INFINITY.to_bits()), None);
    assert_eq!(seconds_to_nanos(f32::NEG_INFINITY.to_bits()), None);
    assert_eq!(seconds_to_nanos(f32::NAN.to_bits()), None);
    assert_eq!(seconds_to_nanos(f32::MAX.to_bits()), None);
    // 2^64 itself is out, the number just below it is in.
    assert_eq!(seconds_to_nanos(0x5F80_0000), None);
    assert_eq!(
        seconds_to_nanos(0x5F7F_FFFF),
        Some(18_446_742_974_197_923_840_000_000_000)
    );
    assert_eq!(seconds_to_nanos((-0.0f32).to_bits()), Some(0));
}

#[test]
fn agrees_with_the_standard_library_on_a_sweep() {
    let mut bits: u32 = 0;
    let mut checked: u32 = 0;
    loop {
        assert_eq!(seconds_to_nanos(bits), std_nanos(bits), "bits {bits:#010x}");
        checked += 1;
        match bits.checked_add(40_009) {
            Some(next) => bits = next,
            None => break,
        }
    }
    assert!(checked > 100_000);
}

#[test]
fn agrees_with_the_standard_library_near_the_edges() {
    let centres = [
        0x0000_0000u32,
        0x0080_0000,
        0x2F80_0000,
        0x3000_0000,
        0x3080_0000,
        0x3C44_9BA6,
        0x3F80_0000,
        0x4B00_0000,
        0x4B80_0000,
        0x5F00_0000,
        0x5F80_0000,
        0x7F80_0000,
        0x8000_0000,
        0xFF80_0000,
    ];
    for centre in centres {
        for offset in 0..2_000u32 {
            let up = centre.wrapping_add(offset);
            let down = centre.wrapping_sub(offset);
            assert_eq!(seconds_to_nanos(up), std_nanos(up), "bits {up:#010x}");
            assert_eq!(seconds_to_nanos(down), std_nanos(down), "bits {down:#010x}");
        }
    }
}
