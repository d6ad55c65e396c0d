//! Assembly of the whole recipe from the tag store.
//!
//! The decoders are tolerant: a tag that is missing or malformed gives
//! nothing. The assembly is strict: a field that the sensor generation
//! defines and that gave nothing is an error, and names the field.
//!
//! The sensor generation is read from the tag `SensorGeneration`, which
//! holds the generation's name in its long form (`Trans Sensor V`) or its
//! short form (`TransV`). The settings are never used to guess it.

use vstd::prelude::*;
use crate::exif::{find_chars, has_tag, lemma_absent_tag, lookup, ExifData};
use crate::recipe::{
    Clarity, Color, ColorChromeEffect, ColorChromeEffectFxBlue, DRangePriority, DynamicRange,
    FilmSimulation, FujifilmRecipeDetails, GrainEffect, HighISONoiseReduction,
    MonochromaticColor, Settings, Sharpness, ToneCurve, TransIISettings, TransIIISettings,
    TransISettings, TransIVSettings, TransSensor, TransVSettings, WhiteBalance,
};
use crate::text::{chars_eq, lowered, lowered_chars};

verus! {

/// The parts of a recipe that the assembly can find missing.
#[derive(Debug, Clone, Copy, PartialEq, Eq, Structural)]
pub enum Field {
    SensorGeneration,
    FilmSimulation,
    WhiteBalance,
    DynamicRange,
    DRangePriority,
    GrainEffect,
    ColorChromeEffect,
    ColorChromeFxBlue,
    ToneCurve,
    Color,
    MonochromaticColor,
    Sharpness,
    HighIsoNoiseReduction,
    Clarity,
}

/// Why no recipe could be assembled.
#[derive(Debug, Clone, Copy, PartialEq, Eq, Structural)]
pub enum Error {
    /// The tag store holds no `Make` tag.
    MakerNotFound,
    /// A part that the recipe must have gave nothing.
    RequiredFieldMissing { field: Field },
}

impl Field {
    /// The name of the field as the recipe spells it.
    pub open spec fn name_text(&self) -> Seq<char> {
        match *self {
            Field::SensorGeneration => "sensor"@,
            Field::FilmSimulation => "film_simulation"@,
            Field::WhiteBalance => "white_balance"@,
            Field::DynamicRange => "dynamic_range"@,
            Field::DRangePriority => "d_range_priority"@,
            Field::GrainEffect => "grain_effect"@,
            Field::ColorChromeEffect => "color_chrome_effect"@,
            Field::ColorChromeFxBlue => "color_chrome_fx_blue"@,
            Field::ToneCurve => "tone_curve"@,
            Field::Color => "color"@,
            Field::MonochromaticColor => "monochromatic_color"@,
            Field::Sharpness => "sharpness"@,
            Field::HighIsoNoiseReduction => "high_iso_noise_reduction"@,
            Field::Clarity => "clarity"@,
        }
    }

    /// The name of the field as the recipe spells it.
    pub fn name(&self) -> (text: &'static str)
        ensures
            text@ == self.name_text(),
    {
        match self {
            Field::SensorGeneration => "sensor",
            Field::FilmSimulation => "film_simulation",
            Field::WhiteBalance => "white_balance",
            Field::DynamicRange => "dynamic_range",
            Field::DRangePriority => "d_range_priority",
            Field::GrainEffect => "grain_effect",
            Field::ColorChromeEffect => "color_chrome_effect",
            Field::ColorChromeFxBlue => "color_chrome_fx_blue",
            Field::ToneCurve => "tone_curve",
            Field::Color => "color",
            Field::MonochromaticColor => "monochromatic_color",
            Field::Sharpness => "sharpness",
            Field::HighIsoNoiseReduction => "high_iso_noise_reduction",
            Field::Clarity => "clarity",
        }
    }
}

impl Error {
    /// The error in words; a missing field is named.
    pub open spec fn message_text(&self) -> Seq<char> {
        match *self {
            Error::MakerNotFound => "Failed to find Camera Maker"@,
            Error::RequiredFieldMissing { field } => "Could not find Fujifilm Recipe details in EXIF: "@
                + field.name_text(),
        }
    }

    /// The error in words.
    pub fn message(&self) -> (text: String)
        ensures
            text@ == self.message_text(),
    {
        match self {
            Error::MakerNotFound => "Failed to find Camera Maker".to_owned(),
            Error::RequiredFieldMissing { field } => {
                let mut text = "Could not find Fujifilm Recipe details in EXIF: ".to_owned();
                text.append(field.name());
                text
            },
        }
    }
}

impl TransSensor {
    /// Whether settings of this generation have the field.
    pub open spec fn defines(&self, field: Field) -> bool {
        match field {
            Field::SensorGeneration | Field::FilmSimulation => false,
            Field::WhiteBalance
            | Field::DynamicRange
            | Field::ToneCurve
            | Field::Color
            | Field::Sharpness
            | Field::HighIsoNoiseReduction => true,
            Field::GrainEffect | Field::MonochromaticColor => *self == TransSensor::TransIII
                || *self == TransSensor::TransIV || *self == TransSensor::TransV,
            Field::DRangePriority
            | Field::ColorChromeEffect
            | Field::ColorChromeFxBlue
            | Field::Clarity => *self == TransSensor::TransIV || *self == TransSensor::TransV,
        }
    }

    /// Whether settings of this generation have the field.
    pub fn has_field(&self, field: Field) -> (defined: bool)
        ensures
            defined == self.defines(field),
    {
        match field {
            Field::SensorGeneration | Field::FilmSimulation => false,
            Field::WhiteBalance
            | Field::DynamicRange
            | Field::ToneCurve
            | Field::Color
            | Field::Sharpness
            | Field::HighIsoNoiseReduction => true,
            Field::GrainEffect | Field::MonochromaticColor => match self {
                TransSensor::TransIII | TransSensor::TransIV | TransSensor::TransV => true,
                _ => false,
            },
            Field::DRangePriority
            | Field::ColorChromeEffect
            | Field::ColorChromeFxBlue
            | Field::Clarity => match self {
                TransSensor::TransIV | TransSensor::TransV => true,
                _ => false,
            },
        }
    }
}

/// What every field decoder gave for one tag store.
#[derive(Debug, Clone, Copy, PartialEq, Eq, Structural)]
pub struct DecodedFields {
    pub white_balance: Option<WhiteBalance>,
    pub dynamic_range: Option<DynamicRange>,
    pub d_range_priority: Option<DRangePriority>,
    pub grain_effect: Option<GrainEffect>,
    pub color_chrome_effect: Option<ColorChromeEffect>,
    pub color_chrome_fx_blue: Option<ColorChromeEffectFxBlue>,
    pub tone_curve: Option<ToneCurve>,
    pub color: Option<Color>,
    pub monochromatic_color: Option<MonochromaticColor>,
    pub sharpness: Option<Sharpness>,
    pub high_iso_noise_reduction: Option<HighISONoiseReduction>,
    pub clarity: Option<Clarity>,
}

impl DecodedFields {
    /// The result of every decoder on the tag store.
    pub open spec fn decode(tags: Seq<ExifData>) -> Self {
        DecodedFields {
            white_balance: WhiteBalance::decode(tags),
            dynamic_range: DynamicRange::decode(tags),
            d_range_priority: DRangePriority::decode(tags),
            grain_effect: GrainEffect::decode(tags),
            color_chrome_effect: ColorChromeEffect::decode(tags),
            color_chrome_fx_blue: ColorChromeEffectFxBlue::decode(tags),
            tone_curve: ToneCurve::decode(tags),
            color: Color::decode(tags),
            monochromatic_color: MonochromaticColor::decode(tags),
            sharpness: Sharpness::decode(tags),
            high_iso_noise_reduction: HighISONoiseReduction::decode(tags),
            clarity: Clarity::decode(tags),
        }
    }

    /// Runs every decoder, whatever the generation will turn out to be.
    pub fn from_exif(data: &[ExifData]) -> (fields: Self)
        ensures
            fields == Self::decode(data@),
    {
        DecodedFields {
            white_balance: WhiteBalance::from_exif(data),
            dynamic_range: DynamicRange::from_exif(data),
            d_range_priority: DRangePriority::from_exif(data),
            grain_effect: GrainEffect::from_exif(data),
            color_chrome_effect: ColorChromeEffect::from_exif(data),
            color_chrome_fx_blue: ColorChromeEffectFxBlue::from_exif(data),
            tone_curve: ToneCurve::from_exif(data),
            color: Color::from_exif(data),
            monochromatic_color: MonochromaticColor::from_exif(data),
            sharpness: Sharpness::from_exif(data),
            high_iso_noise_reduction: HighISONoiseReduction::from_exif(data),
            clarity: Clarity::from_exif(data),
        }
    }

    /// Whether the decoder of a settings field gave a value.
    pub open spec fn present(&self, field: Field) -> bool {
        match field {
            Field::SensorGeneration | Field::FilmSimulation => false,
            Field::WhiteBalance => self.white_balance is Some,
            Field::DynamicRange => self.dynamic_range is Some,
            Field::DRangePriority => self.d_range_priority is Some,
            Field::GrainEffect => self.grain_effect is Some,
            Field::ColorChromeEffect => self.color_chrome_effect is Some,
            Field::ColorChromeFxBlue => self.color_chrome_fx_blue is Some,
            Field::ToneCurve => self.tone_curve is Some,
            Field::Color => self.color is Some,
            Field::MonochromaticColor => self.monochromatic_color is Some,
            Field::Sharpness => self.sharpness is Some,
            Field::HighIsoNoiseReduction => self.high_iso_noise_reduction is Some,
            Field::Clarity => self.clarity is Some,
        }
    }

    /// Whether the decoder of a settings field gave a value.
    pub fn is_present(&self, field: Field) -> (there: bool)
        ensures
            there == self.present(field),
    {
        match field {
            Field::SensorGeneration | Field::FilmSimulation => false,
            Field::WhiteBalance => self.white_balance.is_some(),
            Field::DynamicRange => self.dynamic_range.is_some(),
            Field::DRangePriority => self.d_range_priority.is_some(),
            Field::GrainEffect => self.grain_effect.is_some(),
            Field::ColorChromeEffect => self.color_chrome_effect.is_some(),
            Field::ColorChromeFxBlue => self.color_chrome_fx_blue.is_some(),
            Field::ToneCurve => self.tone_curve.is_some(),
            Field::Color => self.color.is_some(),
            Field::MonochromaticColor => self.monochromatic_color.is_some(),
            Field::Sharpness => self.sharpness.is_some(),
            Field::HighIsoNoiseReduction => self.high_iso_noise_reduction.is_some(),
            Field::Clarity => self.clarity.is_some(),
        }
    }

    /// The generation defines the field and its decoder gave nothing.
    pub open spec fn lacks(&self, sensor: TransSensor, field: Field) -> bool {
        sensor.defines(field) && !self.present(field)
    }

    /// The first field, in the order of the settings, that the generation
    /// defines and that is not there.
    pub open spec fn first_missing(&self, sensor: TransSensor) -> Option<Field> {
        if self.lacks(sensor, Field::WhiteBalance) {
            Some(Field::WhiteBalance)
        } else if self.lacks(sensor, Field::DynamicRange) {
            Some(Field::DynamicRange)
        } else if self.lacks(sensor, Field::DRangePriority) {
            Some(Field::DRangePriority)
        } else if self.lacks(sensor, Field::GrainEffect) {
            Some(Field::GrainEffect)
        } else if self.lacks(sensor, Field::ColorChromeEffect) {
            Some(Field::ColorChromeEffect)
        } else if self.lacks(sensor, Field::ColorChromeFxBlue) {
            Some(Field::ColorChromeFxBlue)
        } else if self.lacks(sensor, Field::ToneCurve) {
            Some(Field::ToneCurve)
        } else if self.lacks(sensor, Field::Color) {
            Some(Field::Color)
        } else if self.lacks(sensor, Field::MonochromaticColor) {
            Some(Field::MonochromaticColor)
        } else if self.lacks(sensor, Field::Sharpness) {
            Some(Field::Sharpness)
        } else if self.lacks(sensor, Field::HighIsoNoiseReduction) {
            Some(Field::HighIsoNoiseReduction)
        } else if self.lacks(sensor, Field::Clarity) {
            Some(Field::Clarity)
        } else {
            None
        }
    }

    fn is_lacking(&self, sensor: TransSensor, field: Field) -> (lacking: bool)
        ensures
            lacking == self.lacks(sensor, field),
    {
        sensor.has_field(field) && !self.is_present(field)
    }

    /// The first field that the generation defines and that is not there.
    pub fn find_first_missing(&self, sensor: TransSensor) -> (missing: Option<Field>)
        ensures
            missing == self.first_missing(sensor),
    {
        if self.is_lacking(sensor, Field::WhiteBalance) {
            Some(Field::WhiteBalance)
        } else if self.is_lacking(sensor, Field::DynamicRange) {
            Some(Field::DynamicRange)
        } else if self.is_lacking(sensor, Field::DRangePriority) {
            Some(Field::DRangePriority)
        } else if self.is_lacking(sensor, Field::GrainEffect) {
            Some(Field::GrainEffect)
        } else if self.is_lacking(sensor, Field::ColorChromeEffect) {
            Some(Field::ColorChromeEffect)
        } else if self.is_lacking(sensor, Field::ColorChromeFxBlue) {
            Some(Field::ColorChromeFxBlue)
        } else if self.is_lacking(sensor, Field::ToneCurve) {
            Some(Field::ToneCurve)
        } else if self.is_lacking(sensor, Field::Color) {
            Some(Field::Color)
        } else if self.is_lacking(sensor, Field::MonochromaticColor) {
            Some(Field::MonochromaticColor)
        } else if self.is_lacking(sensor, Field::Sharpness) {
            Some(Field::Sharpness)
        } else if self.is_lacking(sensor, Field::HighIsoNoiseReduction) {
            Some(Field::HighIsoNoiseReduction)
        } else if self.is_lacking(sensor, Field::Clarity) {
            Some(Field::Clarity)
        } else {
            None
        }
    }

    /// The settings in the shape of the generation, from the fields that the
    /// generation defines. The other fields are not looked at.
    pub open spec fn shaped(&self, sensor: TransSensor) -> Settings
        recommends
            self.first_missing(sensor) is None,
    {
        match sensor {
            TransSensor::TransI => Settings::TransI(
                TransISettings {
                    white_balance: self.white_balance->0,
                    dynamic_range: self.dynamic_range->0,
                    tone_curve: self.tone_curve->0,
                    color: self.color->0,
                    sharpness: self.sharpness->0,
                    high_iso_noise_reduction: self.high_iso_noise_reduction->0,
                },
            ),
            TransSensor::TransII => Settings::TransII(
                TransIISettings {
                    white_balance: self.white_balance->0,
                    dynamic_range: self.dynamic_range->0,
                    tone_curve: self.tone_curve->0,
                    color: self.color->0,
                    sharpness: self.sharpness->0,
                    high_iso_noise_reduction: self.high_iso_noise_reduction->0,
                },
            ),
            TransSensor::TransIII => Settings::TransIII(
                TransIIISettings {
                    white_balance: self.white_balance->0,
                    dynamic_range: self.dynamic_range->0,
                    grain_effect: self.grain_effect->0,
                    tone_curve: self.tone_curve->0,
                    color: self.color->0,
                    monochromatic_color: self.monochromatic_color->0,
                    sharpness: self.sharpness->0,
                    high_iso_noise_reduction: self.high_iso_noise_reduction->0,
                },
            ),
            TransSensor::TransIV => Settings::TransIV(
                TransIVSettings {
                    white_balance: self.white_balance->0,
                    dynamic_range: self.dynamic_range->0,
                    d_range_priority: self.d_range_priority->0,
                    grain_effect: self.grain_effect->0,
                    color_chrome_fx_blue: self.color_chrome_fx_blue->0,
                    color_chrome_effect: self.color_chrome_effect->0,
                    tone_curve: self.tone_curve->0,
                    color: self.color->0,
                    monochromatic_color: self.monochromatic_color->0,
                    sharpness: self.sharpness->0,
                    high_iso_noise_reduction: self.high_iso_noise_reduction->0,
                    clarity: self.clarity->0,
                },
            ),
            TransSensor::TransV => Settings::TransV(
                TransVSettings {
                    white_balance: self.white_balance->0,
                    dynamic_range: self.dynamic_range->0,
                    d_range_priority: self.d_range_priority->0,
                    grain_effect: self.grain_effect->0,
                    color_chrome_effect: self.color_chrome_effect->0,
                    color_chrome_fx_blue: self.color_chrome_fx_blue->0,
                    tone_curve: self.tone_curve->0,
                    color: self.color->0,
                    monochromatic_color: self.monochromatic_color->0,
                    sharpness: self.sharpness->0,
                    high_iso_noise_reduction: self.high_iso_noise_reduction->0,
                    clarity: self.clarity->0,
                },
            ),
        }
    }

    /// What assembling the settings of a generation gives: the error that
    /// names the first missing field, or the settings.
    pub open spec fn settings(&self, sensor: TransSensor) -> Result<Settings, Error> {
        match self.first_missing(sensor) {
            Some(field) => Err(Error::RequiredFieldMissing { field }),
            None => Ok(self.shaped(sensor)),
        }
    }

    /// Assembles the settings of a generation.
    pub fn assemble(&self, sensor: TransSensor) -> (assembled: Result<Settings, Error>)
        ensures
            assembled == self.settings(sensor),
            assembled is Ok ==> assembled->Ok_0.sensor() == sensor,
    {
        if let Some(field) = self.find_first_missing(sensor) {
            return Err(Error::RequiredFieldMissing { field });
        }
        assert(!self.lacks(sensor, Field::WhiteBalance));
        assert(!self.lacks(sensor, Field::DynamicRange));
        assert(!self.lacks(sensor, Field::DRangePriority));
        assert(!self.lacks(sensor, Field::GrainEffect));
        assert(!self.lacks(sensor, Field::ColorChromeEffect));
        assert(!self.lacks(sensor, Field::ColorChromeFxBlue));
        assert(!self.lacks(sensor, Field::ToneCurve));
        assert(!self.lacks(sensor, Field::Color));
        assert(!self.lacks(sensor, Field::MonochromaticColor));
        assert(!self.lacks(sensor, Field::Sharpness));
        assert(!self.lacks(sensor, Field::HighIsoNoiseReduction));
        assert(!self.lacks(sensor, Field::Clarity));
        let settings = match sensor {
            TransSensor::TransI => Settings::TransI(
                TransISettings {
                    white_balance: self.white_balance.unwrap(),
                    dynamic_range: self.dynamic_range.unwrap(),
                    tone_curve: self.tone_curve.unwrap(),
                    color: self.color.unwrap(),
                    sharpness: self.sharpness.unwrap(),
                    high_iso_noise_reduction: self.high_iso_noise_reduction.unwrap(),
                },
            ),
            TransSensor::TransII => Settings::TransII(
                TransIISettings {
                    white_balance: self.white_balance.unwrap(),
                    dynamic_range: self.dynamic_range.unwrap(),
                    tone_curve: self.tone_curve.unwrap(),
                    color: self.color.unwrap(),
                    sharpness: self.sharpness.unwrap(),
                    high_iso_noise_reduction: self.high_iso_noise_reduction.unwrap(),
                },
            ),
            TransSensor::TransIII => Settings::TransIII(
                TransIIISettings {
                    white_balance: self.white_balance.unwrap(),
                    dynamic_range: self.dynamic_range.unwrap(),
                    grain_effect: self.grain_effect.unwrap(),
                    tone_curve: self.tone_curve.unwrap(),
                    color: self.color.unwrap(),
                    monochromatic_color: self.monochromatic_color.unwrap(),
                    sharpness: self.sharpness.unwrap(),
                    high_iso_noise_reduction: self.high_iso_noise_reduction.unwrap(),
                },
            ),
            TransSensor::TransIV => Settings::TransIV(
                TransIVSettings {
                    white_balance: self.white_balance.unwrap(),
                    dynamic_range: self.dynamic_range.unwrap(),
                    d_range_priority: self.d_range_priority.unwrap(),
                    grain_effect: self.grain_effect.unwrap(),
                    color_chrome_fx_blue: self.color_chrome_fx_blue.unwrap(),
                    color_chrome_effect: self.color_chrome_effect.unwrap(),
                    tone_curve: self.tone_curve.unwrap(),
                    color: self.color.unwrap(),
                    monochromatic_color: self.monochromatic_color.unwrap(),
                    sharpness: self.sharpness.unwrap(),
                    high_iso_noise_reduction: self.high_iso_noise_reduction.unwrap(),
                    clarity: self.clarity.unwrap(),
                },
            ),
            TransSensor::TransV => Settings::TransV(
                TransVSettings {
                    white_balance: self.white_balance.unwrap(),
                    dynamic_range: self.dynamic_range.unwrap(),
                    d_range_priority: self.d_range_priority.unwrap(),
                    grain_effect: self.grain_effect.unwrap(),
                    color_chrome_effect: self.color_chrome_effect.unwrap(),
                    color_chrome_fx_blue: self.color_chrome_fx_blue.unwrap(),
                    tone_curve: self.tone_curve.unwrap(),
                    color: self.color.unwrap(),
                    monochromatic_color: self.monochromatic_color.unwrap(),
                    sharpness: self.sharpness.unwrap(),
                    high_iso_noise_reduction: self.high_iso_noise_reduction.unwrap(),
                    clarity: self.clarity.unwrap(),
                },
            ),
        };
        Ok(settings)
    }
}

/// Whether a maker's name is Fujifilm's, in capital or small letters.
pub open spec fn is_fujifilm(maker: Seq<char>) -> bool {
    lowered(maker) == "fujifilm"@
}

/// Whether a maker's name is Fujifilm's, in capital or small letters.
pub fn maker_is_fujifilm(maker: &[char]) -> (fuji: bool)
    ensures
        fuji == is_fujifilm(maker@),
{
    let lower = lowered_chars(maker);
    chars_eq(lower.as_slice(), "fujifilm")
}

impl FujifilmRecipeDetails {
    /// The recipe of a Fujifilm picture: the generation and the film
    /// simulation must be there, then the settings of that generation.
    pub open spec fn decode(tags: Seq<ExifData>) -> Result<Self, Error> {
        match TransSensor::decode(tags) {
            None => Err(Error::RequiredFieldMissing { field: Field::SensorGeneration }),
            Some(sensor) => match FilmSimulation::decode(tags) {
                None => Err(Error::RequiredFieldMissing { field: Field::FilmSimulation }),
                Some(film_simulation) => match DecodedFields::decode(tags).settings(sensor) {
                    Err(error) => Err(error),
                    Ok(settings) => Ok(FujifilmRecipeDetails { film_simulation, sensor, settings }),
                },
            },
        }
    }

    /// Decodes the value from the tag store.
    pub fn from_exif(data: &[ExifData]) -> (decoded: Result<Self, Error>)
        ensures
            decoded == Self::decode(data@),
            decoded is Ok ==> decoded->Ok_0.wf(),
    {
        let fields = DecodedFields::from_exif(data);
        let sensor = match TransSensor::from_exif(data) {
            Some(sensor) => sensor,
            None => {
                return Err(Error::RequiredFieldMissing { field: Field::SensorGeneration });
            },
        };
        let film_simulation = match FilmSimulation::from_exif(data) {
            Some(film_simulation) => film_simulation,
            None => {
                return Err(Error::RequiredFieldMissing { field: Field::FilmSimulation });
            },
        };
        match fields.assemble(sensor) {
            Err(error) => Err(error),
            Ok(settings) => Ok(FujifilmRecipeDetails { film_simulation, sensor, settings }),
        }
    }
}

/// What reading a tag store gives: an error where it names no maker, no
/// recipe where the maker is not Fujifilm, and for a Fujifilm picture its
/// recipe or the reason why there is none.
pub open spec fn recipe_of(tags: Seq<ExifData>) -> Result<Option<FujifilmRecipeDetails>, Error> {
    match lookup(tags, "Make"@) {
        None => Err(Error::MakerNotFound),
        Some(maker) => if is_fujifilm(maker) {
            match FujifilmRecipeDetails::decode(tags) {
                Ok(details) => Ok(Some(details)),
                Err(error) => Err(error),
            }
        } else {
            Ok(None)
        },
    }
}

/// Reads the recipe of a picture from its tags.
pub fn from_exif(data: &[ExifData]) -> (recipe: Result<Option<FujifilmRecipeDetails>, Error>)
    ensures
        recipe == recipe_of(data@),
        !has_tag(data@, "Make"@) ==> recipe == Err::<Option<FujifilmRecipeDetails>, Error>(
            Error::MakerNotFound,
        ),
        recipe matches Ok(Some(details)) ==> details.wf(),
{
    let maker = match find_chars(data, "Make") {
        Some(maker) => maker,
        None => {
            return Err(Error::MakerNotFound);
        },
    };
    proof {
        if !has_tag(data@, "Make"@) {
            lemma_absent_tag(data@, "Make"@);
        }
    }
    if maker_is_fujifilm(maker.as_slice()) {
        match FujifilmRecipeDetails::from_exif(data) {
            Ok(details) => Ok(Some(details)),
            Err(error) => Err(error),
        }
    } else {
        Ok(None)
    }
}

/// Whatever the tag store holds: a recipe that is assembled names, as its
/// sensor generation, the generation whose shape its settings have.
pub proof fn lemma_sensor_names_the_shape(tags: Seq<ExifData>)
    ensures
        recipe_of(tags) matches Ok(Some(details)) ==> details.wf(),
        forall|sensor: TransSensor|
            (#[trigger] DecodedFields::decode(tags).settings(sensor)) matches Ok(settings)
                ==> settings.sensor() == sensor,
{
}

/// A tag store without a `Make` tag gives the error `MakerNotFound`; one whose
/// first `Make` tag does not name Fujifilm gives no recipe and no error.
pub proof fn lemma_maker_decides(tags: Seq<ExifData>)
    ensures
        !has_tag(tags, "Make"@) ==> recipe_of(tags) == Err::<Option<FujifilmRecipeDetails>, Error>(
            Error::MakerNotFound,
        ),
        lookup(tags, "Make"@) matches Some(maker) && !is_fujifilm(maker) ==> recipe_of(tags)
            == Ok::<Option<FujifilmRecipeDetails>, Error>(None),
{
    if !has_tag(tags, "Make"@) {
        lemma_absent_tag(tags, "Make"@);
    }
}

/// A field that the generation does not define has no part in the settings:
/// two decodings that agree on the fields the generation defines assemble to
/// the same result.
pub proof fn lemma_undefined_fields_are_not_read(
    a: DecodedFields,
    b: DecodedFields,
    sensor: TransSensor,
)
    requires
        sensor.defines(Field::WhiteBalance) ==> a.white_balance == b.white_balance,
        sensor.defines(Field::DynamicRange) ==> a.dynamic_range == b.dynamic_range,
        sensor.defines(Field::DRangePriority) ==> a.d_range_priority == b.d_range_priority,
        sensor.defines(Field::GrainEffect) ==> a.grain_effect == b.grain_effect,
        sensor.defines(Field::ColorChromeEffect) ==> a.color_chrome_effect
            == b.color_chrome_effect,
        sensor.defines(Field::ColorChromeFxBlue) ==> a.color_chrome_fx_blue
            == b.color_chrome_fx_blue,
        sensor.defines(Field::ToneCurve) ==> a.tone_curve == b.tone_curve,
        sensor.defines(Field::Color) ==> a.color == b.color,
        sensor.defines(Field::MonochromaticColor) ==> a.monochromatic_color
            == b.monochromatic_color,
        sensor.defines(Field::Sharpness) ==> a.sharpness == b.sharpness,
        sensor.defines(Field::HighIsoNoiseReduction) ==> a.high_iso_noise_reduction
            == b.high_iso_noise_reduction,
        sensor.defines(Field::Clarity) ==> a.clarity == b.clarity,
    ensures
        a.settings(sensor) == b.settings(sensor),
{
}

impl TransSensor {
    /// The place of the generation among the five, from the first on.
    pub open spec fn rank(&self) -> nat {
        match *self {
            TransSensor::TransI => 1,
            TransSensor::TransII => 2,
            TransSensor::TransIII => 3,
            TransSensor::TransIV => 4,
            TransSensor::TransV => 5,
        }
    }

    /// A field that one generation defines, every later generation defines
    /// too.
    pub proof fn lemma_later_generations_keep_fields(self, later: TransSensor, field: Field)
        requires
            self.rank() <= later.rank(),
            self.defines(field),
        ensures
            later.defines(field),
    {
    }
}

} // verus!
