use zerg_monitor::reading::decode;

fn reference(value: f32) -> u32 {
    if value.is_nan() || value.is_sign_negative() {
        return 0;
    }
    let scaled = (value as f64 * 1_000_000.0).floor();
    if scaled >= 100_000_000.0 {
        100_000_000
    } else {
        scaled as u32
    }
}

fn decoded(value: f32) -> u32 {
    decode(value.to_bits()).micro_percent()
}

#[test]
fn whole_percentages() {
    assert_eq!(decoded(0.0), 0);
    assert_eq!(decoded(1.0), 1_000_000);
    assert_eq!(decoded(10.0), 10_000_000);
    assert_eq!(decoded(20.0), 20_000_000);
    assert_eq!(decoded(25.0), 25_000_000);
    assert_eq!(decoded(30.0), 30_000_000);
    assert_eq!(decoded(40.0), 40_000_000);
    assert_eq!(decoded(99.0), 99_000_000);
    assert_eq!(decoded(100.0), 100_000_000);
}

#[test]
fn known_bit_patterns() {
    assert_eq!(decode(0x0000_0000).micro_percent(), 0);
    assert_eq!(decode(0x3F80_0000).micro_percent(), 1_000_000);
    assert_eq!(decode(0x4120_0000).micro_percent(), 10_000_000);
    assert_eq!(decode(0x41C8_0000).micro_percent(), 25_000_000);
    assert_eq!(decode(0x42C8_0000).micro_percent(), 100_000_000);
}

#[test]
fn binary_fractions_are_exact() {
    assert_eq!(decoded(0.5), 500_000);
    assert_eq!(decoded(0.25), 250_000);
    assert_eq!(decoded(12.5), 12_500_000);
    assert_eq!(decoded(47.125), 47_125_000);
    assert_eq!(decoded(99.984375), 99_984_375);
    assert_eq!(decoded(0.015625), 15_625);
}

#[test]
fn other_fractions_round_down_to_a_millionth() {
    // The nearest single-precision numbers are 33.33333206..., 0.100000001...
    // and 66.66666412...
    assert_eq!(decoded(33.333332), 33_333_332);
    assert_eq!(decoded(0.1), 100_000);
    assert_eq!(decoded(66.666664), 66_666_664);
    // 0.000001 is held as 0.00000099999999747..., which has no whole millionth.
    assert_eq!(decoded(0.000001), 0);
    assert_eq!(decoded(0.000002), 1);
    assert_eq!(decoded(0.0000015), 1);
}

#[test]
fn more_than_full_is_held_at_full() {
    assert_eq!(decoded(100.00001), 100_000_000);
    assert_eq!(decoded(127.99999), 100_000_000);
    assert_eq!(decoded(128.0), 100_000_000);
    assert_eq!(decoded(150.0), 100_000_000);
    assert_eq!(decoded(1.0e9), 100_000_000);
    assert_eq!(decoded(f32::MAX), 100_000_000);
    assert_eq!(decoded(f32::INFINITY), 100_000_000);
}

#[test]
fn just_below_full_is_kept() {
    // The greatest single-precision number below 100.
    assert_eq!(decode(0x42C7_FFFF).micro_percent(), 99_999_992);
    assert_eq!(decoded(99.99999), 99_999_992);
}

#[test]
fn negative_readings_count_as_idle() {
    assert_eq!(decoded(-0.0), 0);
    assert_eq!(decoded(-1.0), 0);
    assert_eq!(decoded(-50.0), 0);
    assert_eq!(decoded(-1.0e30), 0);
    assert_eq!(decoded(f32::NEG_INFINITY), 0);
    assert_eq!(decode(0xFFC0_0000).micro_percent(), 0);
}

#[test]
fn not_a_number_counts_as_idle() {
    assert_eq!(decoded(f32::NAN), 0);
    assert_eq!(decode(0x7FC0_0000).micro_percent(), 0);
    assert_eq!(decode(0x7F80_0001).micro_percent(), 0);
    assert_eq!(decode(0x7FFF_FFFF).micro_percent(), 0);
}

#[test]
fn tiny_and_subnormal_readings_count_as_idle() {
    assert_eq!(decode(0x0000_0001).micro_percent(), 0);
    assert_eq!(decode(0x007F_FFFF).micro_percent(), 0);
    assert_eq!(decoded(f32::MIN_POSITIVE), 0);
    assert_eq!(decoded(1.0e-20), 0);
    assert_eq!(decoded(9.0e-7), 0);
}

#[test]
fn boundaries_of_the_exponent_cases() {
    // Exponent fields 106 and 107: just below and at two to the power -20.
    assert_eq!(decode(0x357F_FFFF).micro_percent(), reference(f32::from_bits(0x357F_FFFF)));
    assert_eq!(decode(0x3580_0000).micro_percent(), reference(f32::from_bits(0x3580_0000)));
    assert_eq!(decode(0x357F_FFFF).micro_percent(), 0);
    assert_eq!(decode(0x3580_0000).micro_percent(), 0);
    // The least reading with a whole millionth in it.
    assert_eq!(decode(0x3586_37BD).micro_percent(), 0);
    assert_eq!(decode(0x3586_37BE).micro_percent(), 1);
    // Exponent fields 133 and 134: just below and at 128.
    assert_eq!(decode(0x42FF_FFFF).micro_percent(), 100_000_000);
    assert_eq!(decode(0x4300_0000).micro_percent(), 100_000_000);
}

#[test]
fn agrees_with_double_precision_arithmetic_on_a_sweep_of_patterns() {
    let mut bits: u32 = 0;
    loop {
        let value = f32::from_bits(bits);
        assert_eq!(decode(bits).micro_percent(), reference(value), "pattern {:#010x}", bits);
        match bits.checked_add(65_521) {
            Some(next) => bits = next,
            None => break,
        }
    }
}

#[test]
fn agrees_with_double_precision_arithmetic_between_zero_and_full() {
    let mut bits: u32 = 0x3000_0000;
    while bits <= 0x4300_0000 {
        let value = f32::from_bits(bits);
        assert_eq!(decode(bits).micro_percent(), reference(value), "pattern {:#010x}", bits);
        bits += 4_099;
    }
}

#[test]
fn decoding_is_monotonic_on_non_negative_numbers() {
    let mut previous: u32 = 0;
    let mut bits: u32 = 0;
    while bits <= 0x7F80_0000 {
        let current = decode(bits).micro_percent();
        assert!(previous <= current);
        previous = current;
        bits += 32_749;
    }
}
