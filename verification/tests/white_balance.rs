use fuji::recipe::{
    Clarity, Color, ColorChromeEffect, ColorChromeEffectFxBlue, DRangePriority, DynamicRange,
    GrainEffect, GrainSize, GrainStrength, HighISONoiseReduction, MonochromaticColor,
    MonochromaticColorShift, MonochromaticFilter, SettingStrength, Settings, Sharpness, Tone,
    ToneCurve, TransIISettings, TransIVSettings, TransSensor, WBShift, WhiteBalance,
};

fn every_mode(shift: WBShift) -> Vec<WhiteBalance> {
    vec![
        WhiteBalance::Auto { shift },
        WhiteBalance::AutoWhitePriority { shift },
        WhiteBalance::AutoAmbiencePriority { shift },
        WhiteBalance::Custom1 { shift },
        WhiteBalance::Custom2 { shift },
        WhiteBalance::Custom3 { shift },
        WhiteBalance::Kelvin { temperature: 5600, shift },
        WhiteBalance::Daylight { shift },
        WhiteBalance::Cloudy { shift },
        WhiteBalance::FluorescentLight1 { shift },
        WhiteBalance::FluorescentLight2 { shift },
        WhiteBalance::FluorescentLight3 { shift },
        WhiteBalance::Incandescent { shift },
        WhiteBalance::Underwater { shift },
    ]
}

#[test]
fn get_shift_reads_the_shift_of_every_mode() {
    let shift = WBShift { red: 3, blue: -7 };
    for balance in every_mode(shift) {
        assert_eq!(*balance.get_shift(), shift);
    }
}

#[test]
fn set_shift_replaces_the_shift_of_every_mode() {
    let before = every_mode(WBShift { red: 1, blue: 2 });
    let after = every_mode(WBShift { red: -4, blue: 9 });
    for (mut balance, expected) in before.into_iter().zip(after) {
        balance.set_shift(WBShift { red: -4, blue: 9 });
        assert_eq!(balance, expected);
    }
}

#[test]
fn set_shift_on_kelvin_keeps_the_temperature() {
    let mut balance = WhiteBalance::Kelvin { temperature: 4700, shift: WBShift { red: 0, blue: 0 } };
    balance.set_shift(WBShift { red: 4, blue: -2 });

    assert_eq!(
        balance,
        WhiteBalance::Kelvin { temperature: 4700, shift: WBShift { red: 4, blue: -2 } }
    );
}

#[test]
fn defaults_are_the_neutral_values() {
    assert_eq!(WhiteBalance::default(), WhiteBalance::Auto { shift: WBShift { red: 0, blue: 0 } });
    assert_eq!(WBShift::default(), WBShift { red: 0, blue: 0 });
    assert_eq!(MonochromaticFilter::default(), MonochromaticFilter::Std);
    assert_eq!(GrainStrength::default(), GrainStrength::Weak);
    assert_eq!(GrainSize::default(), GrainSize::Small);
    assert_eq!(GrainEffect::default(), GrainEffect::Off);
    assert_eq!(SettingStrength::default(), SettingStrength::Off);
    assert_eq!(DynamicRange::default(), DynamicRange::Auto);
    assert_eq!(DRangePriority::default(), DRangePriority::Off);
    assert_eq!(
        MonochromaticColor::default(),
        MonochromaticColor::ColorShift { shift: MonochromaticColorShift { wc: 0, mg: 0 } }
    );
    assert_eq!(MonochromaticColorShift::default(), MonochromaticColorShift { wc: 0, mg: 0 });
    assert_eq!(ColorChromeEffect::default().strength, SettingStrength::Off);
    assert_eq!(ColorChromeEffectFxBlue::default().strength, SettingStrength::Off);
    assert_eq!(Tone::default(), Tone { tenths: 0 });
    assert_eq!(ToneCurve::default().highlights, Tone { tenths: 0 });
    assert_eq!(Color::default(), Color { value: 0 });
    assert_eq!(Sharpness::default(), Sharpness { value: 0 });
    assert_eq!(HighISONoiseReduction::default(), HighISONoiseReduction { value: 0 });
    assert_eq!(Clarity::default(), Clarity { value: 0 });
}

#[test]
fn get_values_of_an_early_generation_leaves_later_fields_out() {
    let settings = Settings::TransII(TransIISettings {
        white_balance: WhiteBalance::Cloudy { shift: WBShift { red: 1, blue: 2 } },
        dynamic_range: DynamicRange::DR100,
        tone_curve: ToneCurve { highlights: Tone { tenths: 10 }, shadows: Tone { tenths: -10 } },
        color: Color { value: 2 },
        sharpness: Sharpness { value: -1 },
        high_iso_noise_reduction: HighISONoiseReduction { value: 3 },
    });

    assert_eq!(
        settings.get_values(),
        (
            WhiteBalance::Cloudy { shift: WBShift { red: 1, blue: 2 } },
            DynamicRange::DR100,
            None,
            ToneCurve { highlights: Tone { tenths: 10 }, shadows: Tone { tenths: -10 } },
            Color { value: 2 },
            Sharpness { value: -1 },
            None,
            HighISONoiseReduction { value: 3 },
            None,
            None,
            None,
            None,
        )
    );
    assert_eq!(settings.get_sensor(), TransSensor::TransII);
}

#[test]
fn get_values_of_a_late_generation_holds_every_field() {
    let settings = Settings::TransIV(TransIVSettings {
        white_balance: WhiteBalance::Auto { shift: WBShift { red: 0, blue: 0 } },
        dynamic_range: DynamicRange::DR400,
        d_range_priority: DRangePriority::Strong,
        grain_effect: GrainEffect::OnlyStrength { strength: GrainStrength::Strong },
        color_chrome_fx_blue: ColorChromeEffectFxBlue { strength: SettingStrength::Weak },
        color_chrome_effect: ColorChromeEffect { strength: SettingStrength::Strong },
        tone_curve: ToneCurve { highlights: Tone { tenths: 5 }, shadows: Tone { tenths: 15 } },
        color: Color { value: -2 },
        monochromatic_color: MonochromaticColor::Strength { value: 4 },
        sharpness: Sharpness { value: 1 },
        high_iso_noise_reduction: HighISONoiseReduction { value: -3 },
        clarity: Clarity { value: 5 },
    });

    assert_eq!(
        settings.get_values(),
        (
            WhiteBalance::Auto { shift: WBShift { red: 0, blue: 0 } },
            DynamicRange::DR400,
            Some(DRangePriority::Strong),
            ToneCurve { highlights: Tone { tenths: 5 }, shadows: Tone { tenths: 15 } },
            Color { value: -2 },
            Sharpness { value: 1 },
            Some(Clarity { value: 5 }),
            HighISONoiseReduction { value: -3 },
            Some(GrainEffect::OnlyStrength { strength: GrainStrength::Strong }),
            Some(ColorChromeEffect { strength: SettingStrength::Strong }),
            Some(ColorChromeEffectFxBlue { strength: SettingStrength::Weak }),
            Some(MonochromaticColor::Strength { value: 4 }),
        )
    );
}
