use fuji::exif::{find, find_chars, ExifData};
use fuji::number::ConversionError;
use fuji::recipe::{
    Clarity, Color, ColorChromeEffect, ColorChromeEffectFxBlue, DRangePriority, DynamicRange,
    FilmSimulation, GrainEffect, GrainSize, GrainStrength, HighISONoiseReduction,
    MonochromaticColor, MonochromaticColorShift, MonochromaticFilter, SettingStrength, Sharpness,
    Tone, ToneCurve, TransSensor, WBShift, WhiteBalance,
};

#[test]
fn clarity_it_parses_positive_numbers() {
    let exif: Vec<ExifData> = vec![ExifData::new("Clarity", "3")];

    assert_eq!(Clarity::from_exif(&exif), Some(Clarity { value: 3 }));
}

#[test]
fn clarity_it_parses_negative_numbers() {
    let exif: Vec<ExifData> = vec![ExifData::new("Clarity", "-3")];

    assert_eq!(Clarity::from_exif(&exif), Some(Clarity { value: -3 }));
}

#[test]
fn clarity_it_does_not_parse_when_not_found() {
    let exif: Vec<ExifData> = vec![ExifData::new("Foo", "3")];

    assert_eq!(Clarity::from_exif(&exif), None);
}

#[test]
fn color_it_parses_positive_numbers() {
    let exif: Vec<ExifData> = vec![ExifData::new("Saturation", "3")];

    assert_eq!(Color::from_exif(&exif), Some(Color { value: 3 }));
}

#[test]
fn color_it_parses_negative_numbers() {
    let exif: Vec<ExifData> = vec![ExifData::new("Saturation", "-3")];

    assert_eq!(Color::from_exif(&exif), Some(Color { value: -3 }));
}

#[test]
fn color_it_does_not_parse_when_not_found() {
    let exif: Vec<ExifData> = vec![ExifData::new("Foo", "3")];

    assert_eq!(Color::from_exif(&exif), None);
}

#[test]
fn find_returns_the_first_entry_with_the_name() {
    let exif = vec![
        ExifData::new("Foo", "1"),
        ExifData::new("Clarity", "2"),
        ExifData::new("Clarity", "5"),
    ];

    let found = find(&exif, "Clarity").unwrap();
    assert_eq!(found.tag(), "Clarity");
    assert_eq!(found.value(), "2");
    assert_eq!(Clarity::from_exif(&exif), Some(Clarity { value: 2 }));
}

#[test]
fn find_is_case_sensitive() {
    let exif = vec![ExifData::new("clarity", "2")];

    assert!(find(&exif, "Clarity").is_none());
    assert_eq!(find_chars(&exif, "Clarity"), None);
    assert_eq!(find_chars(&exif, "clarity"), Some(vec!['2']));
}

#[test]
fn find_in_an_empty_store_gives_nothing() {
    let exif: Vec<ExifData> = vec![];

    assert!(find(&exif, "Make").is_none());
}

#[test]
fn values_are_coerced_to_numbers() {
    assert_eq!(ExifData::new("A", "42").value_as_i64(), Ok(42));
    assert_eq!(ExifData::new("A", "-42").value_as_i64(), Ok(-42));
    assert_eq!(ExifData::new("A", "+42").value_as_i64(), Ok(42));
    assert_eq!(ExifData::new("A", "4700").value_as_i32(), Ok(4700));
    assert_eq!(ExifData::new("A", "1.5").value_as_tenths(), Ok(15));
    assert_eq!(ExifData::new("A", "-2").value_as_tenths(), Ok(-20));
}

#[test]
fn values_that_are_no_numbers_are_conversion_errors() {
    assert_eq!(ExifData::new("A", "").value_as_i64(), Err(ConversionError::Malformed));
    assert_eq!(ExifData::new("A", "-").value_as_i64(), Err(ConversionError::Malformed));
    assert_eq!(ExifData::new("A", "3 (high)").value_as_i64(), Err(ConversionError::Malformed));
    assert_eq!(ExifData::new("A", "1.5").value_as_i64(), Err(ConversionError::Malformed));
    assert_eq!(
        ExifData::new("A", "9223372036854775808").value_as_i64(),
        Err(ConversionError::OutOfRange)
    );
    assert_eq!(ExifData::new("A", "2147483648").value_as_i32(), Err(ConversionError::OutOfRange));
    assert_eq!(ExifData::new("A", "1.25").value_as_tenths(), Err(ConversionError::Malformed));
}

#[test]
fn malformed_numbers_decode_to_nothing() {
    assert_eq!(Color::from_exif(&[ExifData::new("Saturation", "high")]), None);
    assert_eq!(Clarity::from_exif(&[ExifData::new("Clarity", "")]), None);
    assert_eq!(Sharpness::from_exif(&[ExifData::new("Sharpness", "1.5")]), None);
    assert_eq!(
        HighISONoiseReduction::from_exif(&[ExifData::new("NoiseReduction", "99999999999999999999")]),
        None
    );
}

#[test]
fn every_decoder_gives_nothing_without_its_tag() {
    let exif = vec![ExifData::new("Foo", "3")];

    assert_eq!(TransSensor::from_exif(&exif), None);
    assert_eq!(FilmSimulation::from_exif(&exif), None);
    assert_eq!(WhiteBalance::from_exif(&exif), None);
    assert_eq!(DynamicRange::from_exif(&exif), None);
    assert_eq!(DRangePriority::from_exif(&exif), None);
    assert_eq!(GrainEffect::from_exif(&exif), None);
    assert_eq!(ColorChromeEffect::from_exif(&exif), None);
    assert_eq!(ColorChromeEffectFxBlue::from_exif(&exif), None);
    assert_eq!(ToneCurve::from_exif(&exif), None);
    assert_eq!(Color::from_exif(&exif), None);
    assert_eq!(MonochromaticColor::from_exif(&exif), None);
    assert_eq!(Sharpness::from_exif(&exif), None);
    assert_eq!(HighISONoiseReduction::from_exif(&exif), None);
    assert_eq!(Clarity::from_exif(&exif), None);
}

#[test]
fn sharpness_and_noise_reduction_read_their_own_tags() {
    let exif = vec![ExifData::new("Sharpness", "-2"), ExifData::new("NoiseReduction", "-4")];

    assert_eq!(Sharpness::from_exif(&exif), Some(Sharpness { value: -2 }));
    assert_eq!(
        HighISONoiseReduction::from_exif(&exif),
        Some(HighISONoiseReduction { value: -4 })
    );
}

#[test]
fn enum_decoders_read_canonical_names() {
    let exif = vec![
        ExifData::new("SensorGeneration", "Trans Sensor IV"),
        ExifData::new("FilmMode", "Acros +R"),
        ExifData::new("DynamicRange", "DR400"),
        ExifData::new("DRangePriority", "Weak"),
        ExifData::new("ColorChromeEffect", "Weak"),
        ExifData::new("ColorChromeFXBlue", "Strong"),
    ];

    assert_eq!(TransSensor::from_exif(&exif), Some(TransSensor::TransIV));
    assert_eq!(
        FilmSimulation::from_exif(&exif),
        Some(FilmSimulation::Acros { filter: MonochromaticFilter::Red })
    );
    assert_eq!(DynamicRange::from_exif(&exif), Some(DynamicRange::DR400));
    assert_eq!(DRangePriority::from_exif(&exif), Some(DRangePriority::Weak));
    assert_eq!(
        ColorChromeEffect::from_exif(&exif),
        Some(ColorChromeEffect { strength: SettingStrength::Weak })
    );
    assert_eq!(
        ColorChromeEffectFxBlue::from_exif(&exif),
        Some(ColorChromeEffectFxBlue { strength: SettingStrength::Strong })
    );
}

#[test]
fn unknown_names_decode_to_nothing() {
    let exif = vec![
        ExifData::new("SensorGeneration", "Trans Sensor VI"),
        ExifData::new("FilmMode", "Kodachrome"),
        ExifData::new("DynamicRange", "DR800"),
        ExifData::new("GrainEffect", "Strong, Huge"),
        ExifData::new("WhiteBalance", "Moonlight"),
    ];

    assert_eq!(TransSensor::from_exif(&exif), None);
    assert_eq!(FilmSimulation::from_exif(&exif), None);
    assert_eq!(DynamicRange::from_exif(&exif), None);
    assert_eq!(GrainEffect::from_exif(&exif), None);
    assert_eq!(WhiteBalance::from_exif(&exif), None);
}

#[test]
fn grain_effect_decodes_its_three_shapes() {
    assert_eq!(
        GrainEffect::from_exif(&[ExifData::new("GrainEffect", "Off")]),
        Some(GrainEffect::Off)
    );
    assert_eq!(
        GrainEffect::from_exif(&[ExifData::new("GrainEffect", "Weak")]),
        Some(GrainEffect::OnlyStrength { strength: GrainStrength::Weak })
    );
    assert_eq!(
        GrainEffect::from_exif(&[ExifData::new("GrainEffect", "Strong, Small")]),
        Some(GrainEffect::StrengthAndSize {
            strength: GrainStrength::Strong,
            size: GrainSize::Small
        })
    );
}

#[test]
fn tone_curve_needs_both_tags() {
    let both = vec![ExifData::new("HighlightTone", "-1.5"), ExifData::new("ShadowTone", "2")];
    assert_eq!(
        ToneCurve::from_exif(&both),
        Some(ToneCurve { highlights: Tone { tenths: -15 }, shadows: Tone { tenths: 20 } })
    );

    let one = vec![ExifData::new("HighlightTone", "-1.5")];
    assert_eq!(ToneCurve::from_exif(&one), None);

    let malformed = vec![ExifData::new("HighlightTone", "soft"), ExifData::new("ShadowTone", "2")];
    assert_eq!(ToneCurve::from_exif(&malformed), None);
}

#[test]
fn monochromatic_color_decodes_both_shapes() {
    assert_eq!(
        MonochromaticColor::from_exif(&[ExifData::new("MonochromaticColor", "WC2 MG-3")]),
        Some(MonochromaticColor::ColorShift { shift: MonochromaticColorShift { wc: 2, mg: -3 } })
    );
    assert_eq!(
        MonochromaticColor::from_exif(&[ExifData::new("MonochromaticColor", "-5")]),
        Some(MonochromaticColor::Strength { value: -5 })
    );
    assert_eq!(MonochromaticColor::from_exif(&[ExifData::new("MonochromaticColor", "WC2")]), None);
}

#[test]
fn white_balance_takes_its_shift_from_the_fine_tune_tag() {
    let exif = vec![
        ExifData::new("WhiteBalance", "4700K"),
        ExifData::new("WhiteBalanceFineTune", "R4 B-2"),
    ];

    assert_eq!(
        WhiteBalance::from_exif(&exif),
        Some(WhiteBalance::Kelvin { temperature: 4700, shift: WBShift { red: 4, blue: -2 } })
    );
}

#[test]
fn white_balance_fine_tune_replaces_the_shift_of_the_mode() {
    let exif = vec![
        ExifData::new("WhiteBalance", "Daylight, R1 B1"),
        ExifData::new("WhiteBalanceFineTune", "R-3 B5"),
    ];

    assert_eq!(
        WhiteBalance::from_exif(&exif),
        Some(WhiteBalance::Daylight { shift: WBShift { red: -3, blue: 5 } })
    );
}

#[test]
fn white_balance_without_fine_tune_keeps_what_the_mode_says() {
    assert_eq!(
        WhiteBalance::from_exif(&[ExifData::new("WhiteBalance", "Auto")]),
        Some(WhiteBalance::Auto { shift: WBShift { red: 0, blue: 0 } })
    );
    assert_eq!(
        WhiteBalance::from_exif(&[ExifData::new("WhiteBalance", "Cloudy, R2 B-1")]),
        Some(WhiteBalance::Cloudy { shift: WBShift { red: 2, blue: -1 } })
    );
}

#[test]
fn white_balance_with_a_malformed_fine_tune_decodes_to_nothing() {
    let exif = vec![
        ExifData::new("WhiteBalance", "Auto"),
        ExifData::new("WhiteBalanceFineTune", "Red 4, Blue 2"),
    ];

    assert_eq!(WhiteBalance::from_exif(&exif), None);
}
