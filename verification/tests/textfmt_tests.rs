use listui::store::ListItemData;
use listui::textfmt::{format_f32_bits, format_f64_bits, label_text, value_display_text};

#[test]
fn doubles_match_std_fixed_two_places() {
    let samples: Vec<f64> = vec![
        0.0,
        -0.0,
        1.0,
        -1.0,
        0.005,
        -0.004,
        0.125,
        0.135,
        2.675,
        0.1,
        0.99,
        1.005,
        123.456,
        -9876.54321,
        1e-300,
        -1e-300,
        1e15,
        1.23e17,
        9007199254740993.0,
        f64::MAX,
        f64::MIN,
        f64::MIN_POSITIVE,
        5e-324,
        f64::INFINITY,
        f64::NEG_INFINITY,
    ];
    for x in samples {
        assert_eq!(
            format_f64_bits(x.to_bits()),
            format!("{:.2}", x),
            "for {:e}",
            x
        );
    }
    assert_eq!(format_f64_bits(f64::NAN.to_bits()), "NaN");
}

#[test]
fn singles_match_std_fixed_two_places() {
    let samples: Vec<f32> = vec![
        0.0,
        -0.0,
        1.0,
        -1.5,
        0.125,
        0.375,
        16777216.0,
        3.14159,
        f32::MAX,
        f32::MIN,
        f32::MIN_POSITIVE,
        1e-45,
        f32::INFINITY,
        f32::NEG_INFINITY,
    ];
    for x in samples {
        assert_eq!(
            format_f32_bits(x.to_bits()),
            format!("{:.2}", x),
            "for {:e}",
            x
        );
    }
    assert_eq!(format_f32_bits(f32::NAN.to_bits()), "NaN");
}

#[test]
fn zero_double_displays_as_two_places() {
    assert_eq!(format_f64_bits(0.0f64.to_bits()), "0.00");
}

#[test]
fn integers_display_fixed_to_two_places() {
    assert_eq!(value_display_text(&ListItemData::I32(0)), "0.00");
    assert_eq!(value_display_text(&ListItemData::I32(-5)), "-5.00");
    assert_eq!(value_display_text(&ListItemData::U32(7)), "7.00");
    assert_eq!(
        value_display_text(&ListItemData::U64(u64::MAX)),
        "18446744073709551615.00"
    );
    assert_eq!(
        value_display_text(&ListItemData::I64(i64::MIN)),
        "-9223372036854775808.00"
    );
}

#[test]
fn booleans_and_text_display_verbatim() {
    assert_eq!(value_display_text(&ListItemData::Bool(true)), "true");
    assert_eq!(value_display_text(&ListItemData::Bool(false)), "false");
    assert_eq!(
        value_display_text(&ListItemData::Text("banana".to_string())),
        "banana"
    );
}

#[test]
fn labels_get_colon_and_space() {
    assert_eq!(label_text("time"), "time: ");
    assert_eq!(label_text(""), ": ");
}

#[test]
fn pseudo_random_double_bit_patterns_match_std() {
    // A fixed linear-congruential sweep over bit patterns, including
    // subnormals, huge magnitudes, NaNs and infinities.
    let mut x: u64 = 0x243F_6A88_85A3_08D3;
    for _ in 0..3_000 {
        x = x.wrapping_mul(6364136223846793005).wrapping_add(1442695040888963407);
        let v = f64::from_bits(x);
        let expected = if v.is_nan() { "NaN".to_string() } else { format!("{:.2}", v) };
        assert_eq!(format_f64_bits(x), expected, "bits {:#x}", x);
    }
}

#[test]
fn pseudo_random_single_bit_patterns_match_std() {
    let mut x: u32 = 0x9E37_79B9;
    for _ in 0..3_000 {
        x = x.wrapping_mul(747796405).wrapping_add(2891336453);
        let v = f32::from_bits(x);
        let expected = if v.is_nan() { "NaN".to_string() } else { format!("{:.2}", v) };
        assert_eq!(format_f32_bits(x), expected, "bits {:#x}", x);
    }
}
