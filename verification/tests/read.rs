use fuji::exif::ExifData;
use fuji::recipe::read::{self, DecodedFields, Error, Field};
use fuji::recipe::{
    Clarity, Color, ColorChromeEffect, ColorChromeEffectFxBlue, DRangePriority, DynamicRange,
    FilmSimulation, FujifilmRecipe, FujifilmRecipeDetails, GrainEffect, GrainSize, GrainStrength,
    HighISONoiseReduction, MonochromaticColor, MonochromaticFilter, SettingStrength, Settings,
    Sharpness, Tone, ToneCurve, TransIIISettings, TransISettings, TransSensor, TransVSettings,
    WBShift, WhiteBalance,
};

fn tone(value: f64) -> Tone {
    Tone { tenths: (value * 10.0).round() as i64 }
}

fn classic_neg_tags() -> Vec<ExifData> {
    vec![
        ExifData::new("Make", "FUJIFILM"),
        ExifData::new("Model", "X-T5"),
        ExifData::new("SensorGeneration", "Trans Sensor V"),
        ExifData::new("FilmMode", "Classic Negative"),
        ExifData::new("WhiteBalance", "4700K"),
        ExifData::new("WhiteBalanceFineTune", "R4 B-2"),
        ExifData::new("DynamicRange", "DR200"),
        ExifData::new("DRangePriority", "Off"),
        ExifData::new("GrainEffect", "Strong, Small"),
        ExifData::new("ColorChromeEffect", "Strong"),
        ExifData::new("ColorChromeFXBlue", "Off"),
        ExifData::new("HighlightTone", "-2"),
        ExifData::new("ShadowTone", "0"),
        ExifData::new("NoiseReduction", "-4"),
        ExifData::new("Saturation", "4"),
        ExifData::new("Sharpness", "0"),
        ExifData::new("Clarity", "0"),
        ExifData::new("MonochromaticColor", "WC0 MG0"),
    ]
}

fn without(tags: Vec<ExifData>, name: &str) -> Vec<ExifData> {
    tags.into_iter().filter(|entry| entry.tag() != name).collect()
}

fn replaced(tags: Vec<ExifData>, name: &str, value: &str) -> Vec<ExifData> {
    tags.into_iter()
        .map(|entry| if entry.tag() == name { ExifData::new(name, value) } else { entry })
        .collect()
}

#[test]
fn test_classic_neg() {
    let result = classic_neg_tags();
    let recipe = read::from_exif(result.as_slice()).unwrap();

    let expected = Some(FujifilmRecipeDetails {
        film_simulation: FilmSimulation::ClassicNeg,
        sensor: TransSensor::TransV,
        settings: Settings::TransV(TransVSettings {
            white_balance: WhiteBalance::Kelvin {
                temperature: 4700,
                shift: WBShift { red: 4, blue: -2 },
            },
            dynamic_range: DynamicRange::DR200,
            d_range_priority: DRangePriority::default(),
            grain_effect: GrainEffect::StrengthAndSize {
                strength: GrainStrength::Strong,
                size: GrainSize::Small,
            },
            color_chrome_effect: ColorChromeEffect { strength: SettingStrength::Strong },
            color_chrome_fx_blue: ColorChromeEffectFxBlue::default(),
            tone_curve: ToneCurve { highlights: tone(-2.), shadows: tone(0.) },
            high_iso_noise_reduction: HighISONoiseReduction { value: -4 },
            color: Color { value: 4 },
            sharpness: Sharpness::default(),
            clarity: Clarity::default(),
            monochromatic_color: MonochromaticColor::default(),
        }),
    });
    assert_eq!(recipe, expected);
}

#[test]
fn test_classic_chrome() {
    let result = vec![
        ExifData::new("Make", "FUJIFILM"),
        ExifData::new("SensorGeneration", "TransV"),
        ExifData::new("FilmMode", "Classic Chrome"),
        ExifData::new("WhiteBalance", "5600K, R1 B1"),
        ExifData::new("DynamicRange", "DR200"),
        ExifData::new("DRangePriority", "Off"),
        ExifData::new("GrainEffect", "Weak, Large"),
        ExifData::new("ColorChromeEffect", "Strong"),
        ExifData::new("ColorChromeFXBlue", "Off"),
        ExifData::new("HighlightTone", "-2"),
        ExifData::new("ShadowTone", "1"),
        ExifData::new("NoiseReduction", "-4"),
        ExifData::new("Saturation", "3"),
        ExifData::new("Sharpness", "0"),
        ExifData::new("Clarity", "2"),
        ExifData::new("MonochromaticColor", "WC0 MG0"),
    ];
    let recipe = read::from_exif(result.as_slice()).unwrap();

    let expected = Some(FujifilmRecipeDetails {
        film_simulation: FilmSimulation::ClassicChrome,
        sensor: TransSensor::TransV,
        settings: Settings::TransV(TransVSettings {
            white_balance: WhiteBalance::Kelvin {
                temperature: 5600,
                shift: WBShift { red: 1, blue: 1 },
            },
            dynamic_range: DynamicRange::DR200,
            d_range_priority: DRangePriority::default(),
            grain_effect: GrainEffect::StrengthAndSize {
                strength: GrainStrength::Weak,
                size: GrainSize::Large,
            },
            color_chrome_effect: ColorChromeEffect { strength: SettingStrength::Strong },
            color_chrome_fx_blue: ColorChromeEffectFxBlue::default(),
            tone_curve: ToneCurve { highlights: tone(-2.), shadows: tone(1.) },
            high_iso_noise_reduction: HighISONoiseReduction { value: -4 },
            color: Color { value: 3 },
            sharpness: Sharpness::default(),
            clarity: Clarity { value: 2 },
            monochromatic_color: MonochromaticColor::default(),
        }),
    });
    assert_eq!(recipe, expected);
}

#[test]
fn another_maker_gives_no_recipe() {
    let tags = replaced(classic_neg_tags(), "Make", "Canon");

    assert_eq!(read::from_exif(&tags), Ok(None));
}

#[test]
fn another_maker_needs_no_other_tag() {
    let tags = vec![ExifData::new("Make", "Canon")];

    assert_eq!(read::from_exif(&tags), Ok(None));
}

#[test]
fn no_maker_is_an_error() {
    let tags = without(classic_neg_tags(), "Make");

    assert_eq!(read::from_exif(&tags), Err(Error::MakerNotFound));
    assert_eq!(read::from_exif(&[]), Err(Error::MakerNotFound));
}

#[test]
fn the_maker_is_compared_without_regard_to_case() {
    for maker in ["fujifilm", "Fujifilm", "FUJIFILM", "FujiFilm"] {
        let tags = replaced(classic_neg_tags(), "Make", maker);
        let recipe = read::from_exif(&tags).unwrap().unwrap();
        assert_eq!(recipe.film_simulation, FilmSimulation::ClassicNeg);
    }
    for maker in ["FUJI", "FUJIFILM ", "FUJIFILM Corporation", ""] {
        let tags = replaced(classic_neg_tags(), "Make", maker);
        assert_eq!(read::from_exif(&tags), Ok(None));
    }
}

#[test]
fn the_first_maker_tag_decides() {
    let mut tags = vec![ExifData::new("Make", "Canon")];
    tags.extend(classic_neg_tags());

    assert_eq!(read::from_exif(&tags), Ok(None));
}

#[test]
fn a_missing_generation_is_reported() {
    let tags = without(classic_neg_tags(), "SensorGeneration");

    assert_eq!(
        read::from_exif(&tags),
        Err(Error::RequiredFieldMissing { field: Field::SensorGeneration })
    );
}

#[test]
fn a_missing_film_simulation_is_reported() {
    let tags = without(classic_neg_tags(), "FilmMode");

    assert_eq!(
        read::from_exif(&tags),
        Err(Error::RequiredFieldMissing { field: Field::FilmSimulation })
    );
}

#[test]
fn each_missing_field_of_the_generation_is_reported() {
    let cases = [
        ("WhiteBalance", Field::WhiteBalance),
        ("DynamicRange", Field::DynamicRange),
        ("DRangePriority", Field::DRangePriority),
        ("GrainEffect", Field::GrainEffect),
        ("ColorChromeEffect", Field::ColorChromeEffect),
        ("ColorChromeFXBlue", Field::ColorChromeFxBlue),
        ("HighlightTone", Field::ToneCurve),
        ("ShadowTone", Field::ToneCurve),
        ("Saturation", Field::Color),
        ("MonochromaticColor", Field::MonochromaticColor),
        ("Sharpness", Field::Sharpness),
        ("NoiseReduction", Field::HighIsoNoiseReduction),
        ("Clarity", Field::Clarity),
    ];
    for (name, field) in cases {
        let tags = without(classic_neg_tags(), name);
        assert_eq!(read::from_exif(&tags), Err(Error::RequiredFieldMissing { field }));
    }
}

#[test]
fn a_malformed_field_is_reported_as_missing() {
    let tags = replaced(classic_neg_tags(), "Clarity", "+2 (high)");

    assert_eq!(
        read::from_exif(&tags),
        Err(Error::RequiredFieldMissing { field: Field::Clarity })
    );
}

#[test]
fn the_first_missing_field_in_the_order_of_the_settings_is_reported() {
    let tags = without(without(classic_neg_tags(), "Clarity"), "DynamicRange");

    assert_eq!(
        read::from_exif(&tags),
        Err(Error::RequiredFieldMissing { field: Field::DynamicRange })
    );
}

#[test]
fn a_generation_takes_only_the_fields_it_defines() {
    let tags = replaced(classic_neg_tags(), "SensorGeneration", "Trans Sensor I");
    let recipe = read::from_exif(&tags).unwrap().unwrap();

    assert_eq!(recipe.sensor, TransSensor::TransI);
    assert_eq!(
        recipe.settings,
        Settings::TransI(TransISettings {
            white_balance: WhiteBalance::Kelvin {
                temperature: 4700,
                shift: WBShift { red: 4, blue: -2 },
            },
            dynamic_range: DynamicRange::DR200,
            tone_curve: ToneCurve { highlights: tone(-2.), shadows: tone(0.) },
            color: Color { value: 4 },
            sharpness: Sharpness { value: 0 },
            high_iso_noise_reduction: HighISONoiseReduction { value: -4 },
        })
    );
}

#[test]
fn a_generation_does_not_ask_for_fields_it_lacks() {
    let mut tags = classic_neg_tags();
    for name in ["Clarity", "DRangePriority", "ColorChromeEffect", "ColorChromeFXBlue"] {
        tags = without(tags, name);
    }
    let third = replaced(tags.clone(), "SensorGeneration", "TransIII");
    let recipe = read::from_exif(&third).unwrap().unwrap();
    assert_eq!(
        recipe.settings,
        Settings::TransIII(TransIIISettings {
            white_balance: WhiteBalance::Kelvin {
                temperature: 4700,
                shift: WBShift { red: 4, blue: -2 },
            },
            dynamic_range: DynamicRange::DR200,
            grain_effect: GrainEffect::StrengthAndSize {
                strength: GrainStrength::Strong,
                size: GrainSize::Small,
            },
            tone_curve: ToneCurve { highlights: tone(-2.), shadows: tone(0.) },
            color: Color { value: 4 },
            monochromatic_color: MonochromaticColor::default(),
            sharpness: Sharpness { value: 0 },
            high_iso_noise_reduction: HighISONoiseReduction { value: -4 },
        })
    );

    let fourth = replaced(tags.clone(), "SensorGeneration", "TransIV");
    assert_eq!(
        read::from_exif(&fourth),
        Err(Error::RequiredFieldMissing { field: Field::DRangePriority })
    );

    let second = without(without(tags, "GrainEffect"), "MonochromaticColor");
    let second = replaced(second, "SensorGeneration", "TransII");
    assert_eq!(read::from_exif(&second).unwrap().unwrap().sensor, TransSensor::TransII);
    let third = replaced(second, "SensorGeneration", "TransIII");
    assert_eq!(
        read::from_exif(&third),
        Err(Error::RequiredFieldMissing { field: Field::GrainEffect })
    );
}

#[test]
fn the_sensor_names_the_shape_of_the_settings() {
    for (name, sensor) in [
        ("Trans Sensor I", TransSensor::TransI),
        ("Trans Sensor II", TransSensor::TransII),
        ("Trans Sensor III", TransSensor::TransIII),
        ("Trans Sensor IV", TransSensor::TransIV),
        ("Trans Sensor V", TransSensor::TransV),
    ] {
        let tags = replaced(classic_neg_tags(), "SensorGeneration", name);
        let recipe = read::from_exif(&tags).unwrap().unwrap();
        assert_eq!(recipe.sensor, sensor);
        assert_eq!(recipe.settings.get_sensor(), sensor);
        assert_eq!(recipe.settings.to_canonical_string(), sensor.to_canonical_string());
    }
}

#[test]
fn details_are_read_without_looking_at_the_maker() {
    let tags = without(classic_neg_tags(), "Make");
    let details = FujifilmRecipeDetails::from_exif(&tags).unwrap();

    assert_eq!(details.film_simulation, FilmSimulation::ClassicNeg);
    assert_eq!(FujifilmRecipe::new(details).details, details);
}

#[test]
fn monochrome_recipes_carry_their_filter() {
    let tags = replaced(classic_neg_tags(), "FilmMode", "Monochrome +Ye");
    let recipe = read::from_exif(&tags).unwrap().unwrap();

    assert_eq!(
        recipe.film_simulation,
        FilmSimulation::Monochrome { filter: MonochromaticFilter::Yellow }
    );
}

#[test]
fn decoded_fields_know_what_is_missing() {
    let tags = without(classic_neg_tags(), "Clarity");
    let fields = DecodedFields::from_exif(&tags);

    assert_eq!(fields.clarity, None);
    assert_eq!(fields.color, Some(Color { value: 4 }));
    assert!(!fields.is_present(Field::Clarity));
    assert!(fields.is_present(Field::Color));
    assert_eq!(fields.find_first_missing(TransSensor::TransV), Some(Field::Clarity));
    assert_eq!(fields.find_first_missing(TransSensor::TransIII), None);
    assert!(fields.assemble(TransSensor::TransIII).is_ok());
    assert_eq!(
        fields.assemble(TransSensor::TransIV),
        Err(Error::RequiredFieldMissing { field: Field::Clarity })
    );
}

#[test]
fn generations_define_more_and_more_fields() {
    let all = [
        Field::WhiteBalance,
        Field::DynamicRange,
        Field::DRangePriority,
        Field::GrainEffect,
        Field::ColorChromeEffect,
        Field::ColorChromeFxBlue,
        Field::ToneCurve,
        Field::Color,
        Field::MonochromaticColor,
        Field::Sharpness,
        Field::HighIsoNoiseReduction,
        Field::Clarity,
    ];
    let sensors = [
        TransSensor::TransI,
        TransSensor::TransII,
        TransSensor::TransIII,
        TransSensor::TransIV,
        TransSensor::TransV,
    ];
    let counts: Vec<usize> =
        sensors.iter().map(|s| all.iter().filter(|f| s.has_field(**f)).count()).collect();
    assert_eq!(counts, vec![6, 6, 8, 12, 12]);
    for pair in sensors.windows(2) {
        for field in all {
            assert!(!pair[0].has_field(field) || pair[1].has_field(field));
        }
    }
    assert!(!TransSensor::TransV.has_field(Field::SensorGeneration));
    assert!(!TransSensor::TransV.has_field(Field::FilmSimulation));
}

#[test]
fn errors_are_put_in_words() {
    assert_eq!(Error::MakerNotFound.message(), "Failed to find Camera Maker");
    assert_eq!(
        Error::RequiredFieldMissing { field: Field::ToneCurve }.message(),
        "Could not find Fujifilm Recipe details in EXIF: tone_curve"
    );
    assert_eq!(Field::HighIsoNoiseReduction.name(), "high_iso_noise_reduction");
    assert_eq!(Field::SensorGeneration.name(), "sensor");
}
