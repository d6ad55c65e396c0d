//! The typed recipe: the settings a Fujifilm camera applied to a photograph.

use vstd::prelude::*;

pub mod codec;
pub mod from_exif;
pub mod read;

verus! {

/// A recipe as it is handed on to a presentation layer.
#[derive(Debug, Clone, Copy, PartialEq, Eq, Structural)]
pub struct FujifilmRecipe {
    pub details: FujifilmRecipeDetails,
}

impl FujifilmRecipe {
    /// Wraps the details of a recipe.
    pub fn new(details: FujifilmRecipeDetails) -> (recipe: Self)
        ensures
            recipe.details == details,
    {
        FujifilmRecipe { details }
    }
}

/// The film simulation, the sensor generation and the settings that the
/// generation defines. `sensor` always names the shape of `settings`.
#[derive(Debug, Clone, Copy, PartialEq, Eq, Structural)]
pub struct FujifilmRecipeDetails {
    pub film_simulation: FilmSimulation,
    pub sensor: TransSensor,
    pub settings: Settings,
}

impl FujifilmRecipeDetails {
    /// The sensor generation and the shape of the settings agree.
    pub open spec fn wf(&self) -> bool {
        self.sensor == self.settings.sensor()
    }
}

/// The settings of one photograph, in the shape of its sensor generation.
#[derive(Debug, Clone, Copy, PartialEq, Eq, Structural)]
pub enum Settings {
    TransI(TransISettings),
    TransII(TransIISettings),
    TransIII(TransIIISettings),
    TransIV(TransIVSettings),
    TransV(TransVSettings),
}

/// The five sensor generations.
#[derive(Debug, Clone, Copy, PartialEq, Eq, Structural)]
pub enum TransSensor {
    TransI,
    TransII,
    TransIII,
    TransIV,
    TransV,
}

#[derive(Debug, Clone, Copy, PartialEq, Eq, Structural)]
pub enum FilmSimulation {
    ProviaStandard,
    VelviaVivid,
    AstiaSoft,
    ClassicChrome,
    RealaAce,
    ProNegHi,
    ProNegStd,
    ClassicNeg,
    NostalgicNeg,
    EternaCinema,
    BleachBypass,
    Acros { filter: MonochromaticFilter },
    Monochrome { filter: MonochromaticFilter },
    Sepia,
}

#[derive(Debug, Clone, Copy, PartialEq, Eq, Structural)]
pub enum MonochromaticFilter {
    Std,
    Yellow,
    Red,
    Green,
}

impl Default for MonochromaticFilter {
    fn default() -> (filter: Self)
        ensures
            filter == MonochromaticFilter::Std,
    {
        MonochromaticFilter::Std
    }
}

#[derive(Debug, Clone, Copy, PartialEq, Eq, Structural)]
pub enum GrainStrength {
    Weak,
    Strong,
}

impl Default for GrainStrength {
    fn default() -> (strength: Self)
        ensures
            strength == GrainStrength::Weak,
    {
        GrainStrength::Weak
    }
}

#[derive(Debug, Clone, Copy, PartialEq, Eq, Structural)]
pub enum GrainSize {
    Small,
    Large,
}

impl Default for GrainSize {
    fn default() -> (size: Self)
        ensures
            size == GrainSize::Small,
    {
        GrainSize::Small
    }
}

/// Film grain: off, a strength alone, or a strength and a grain size.
#[derive(Debug, Clone, Copy, PartialEq, Eq, Structural)]
pub enum GrainEffect {
    Off,
    OnlyStrength { strength: GrainStrength },
    StrengthAndSize { strength: GrainStrength, size: GrainSize },
}

impl Default for GrainEffect {
    fn default() -> (effect: Self)
        ensures
            effect == GrainEffect::Off,
    {
        GrainEffect::Off
    }
}

#[derive(Debug, Clone, Copy, PartialEq, Eq, Structural)]
pub enum SettingStrength {
    Off,
    Weak,
    Strong,
}

impl Default for SettingStrength {
    fn default() -> (strength: Self)
        ensures
            strength == SettingStrength::Off,
    {
        SettingStrength::Off
    }
}

/// The red and blue offsets laid over a white-balance mode.
#[derive(Debug, Clone, Copy, PartialEq, Eq, Structural)]
pub struct WBShift {
    pub red: i32,
    pub blue: i32,
}

impl Default for WBShift {
    fn default() -> (shift: Self)
        ensures
            shift == (WBShift { red: 0, blue: 0 }),
    {
        WBShift { red: 0, blue: 0 }
    }
}

/// The white-balance mode. Every mode carries a shift; `Kelvin` also carries
/// its colour temperature.
#[derive(Debug, Clone, Copy, PartialEq, Eq, Structural)]
pub enum WhiteBalance {
    Auto { shift: WBShift },
    AutoWhitePriority { shift: WBShift },
    AutoAmbiencePriority { shift: WBShift },
    Custom1 { shift: WBShift },
    Custom2 { shift: WBShift },
    Custom3 { shift: WBShift },
    Kelvin { temperature: i32, shift: WBShift },
    Daylight { shift: WBShift },
    Cloudy { shift: WBShift },
    FluorescentLight1 { shift: WBShift },
    FluorescentLight2 { shift: WBShift },
    FluorescentLight3 { shift: WBShift },
    Incandescent { shift: WBShift },
    Underwater { shift: WBShift },
}

impl WhiteBalance {
    /// The shift that the mode carries.
    pub open spec fn shift(&self) -> WBShift {
        match *self {
            WhiteBalance::Auto { shift } => shift,
            WhiteBalance::AutoWhitePriority { shift } => shift,
            WhiteBalance::AutoAmbiencePriority { shift } => shift,
            WhiteBalance::Custom1 { shift } => shift,
            WhiteBalance::Custom2 { shift } => shift,
            WhiteBalance::Custom3 { shift } => shift,
            WhiteBalance::Kelvin { shift, .. } => shift,
            WhiteBalance::Daylight { shift } => shift,
            WhiteBalance::Cloudy { shift } => shift,
            WhiteBalance::FluorescentLight1 { shift } => shift,
            WhiteBalance::FluorescentLight2 { shift } => shift,
            WhiteBalance::FluorescentLight3 { shift } => shift,
            WhiteBalance::Incandescent { shift } => shift,
            WhiteBalance::Underwater { shift } => shift,
        }
    }

    /// The same mode, with the same temperature where it has one, carrying
    /// the shift `s`.
    pub open spec fn with_shift(&self, s: WBShift) -> WhiteBalance {
        match *self {
            WhiteBalance::Auto { .. } => WhiteBalance::Auto { shift: s },
            WhiteBalance::AutoWhitePriority { .. } => WhiteBalance::AutoWhitePriority { shift: s },
            WhiteBalance::AutoAmbiencePriority { .. } => WhiteBalance::AutoAmbiencePriority {
                shift: s,
            },
            WhiteBalance::Custom1 { .. } => WhiteBalance::Custom1 { shift: s },
            WhiteBalance::Custom2 { .. } => WhiteBalance::Custom2 { shift: s },
            WhiteBalance::Custom3 { .. } => WhiteBalance::Custom3 { shift: s },
            WhiteBalance::Kelvin { temperature, .. } => WhiteBalance::Kelvin {
                temperature,
                shift: s,
            },
            WhiteBalance::Daylight { .. } => WhiteBalance::Daylight { shift: s },
            WhiteBalance::Cloudy { .. } => WhiteBalance::Cloudy { shift: s },
            WhiteBalance::FluorescentLight1 { .. } => WhiteBalance::FluorescentLight1 { shift: s },
            WhiteBalance::FluorescentLight2 { .. } => WhiteBalance::FluorescentLight2 { shift: s },
            WhiteBalance::FluorescentLight3 { .. } => WhiteBalance::FluorescentLight3 { shift: s },
            WhiteBalance::Incandescent { .. } => WhiteBalance::Incandescent { shift: s },
            WhiteBalance::Underwater { .. } => WhiteBalance::Underwater { shift: s },
        }
    }

    /// The colour temperature, which only `Kelvin` has.
    pub open spec fn temperature(&self) -> Option<i32> {
        match *self {
            WhiteBalance::Kelvin { temperature, .. } => Some(temperature),
            _ => None,
        }
    }

    /// The shift that the mode carries.
    pub fn get_shift(&self) -> (shift: &WBShift)
        ensures
            *shift == self.shift(),
    {
        match self {
            WhiteBalance::Auto { shift }
            | WhiteBalance::AutoWhitePriority { shift }
            | WhiteBalance::AutoAmbiencePriority { shift }
            | WhiteBalance::Custom1 { shift }
            | WhiteBalance::Custom2 { shift }
            | WhiteBalance::Custom3 { shift }
            | WhiteBalance::Daylight { shift }
            | WhiteBalance::Cloudy { shift }
            | WhiteBalance::FluorescentLight1 { shift }
            | WhiteBalance::FluorescentLight2 { shift }
            | WhiteBalance::FluorescentLight3 { shift }
            | WhiteBalance::Incandescent { shift }
            | WhiteBalance::Underwater { shift } => shift,
            WhiteBalance::Kelvin { shift, .. } => shift,
        }
    }

    /// Replaces the shift and nothing else: the mode stays, and so does the
    /// temperature of `Kelvin`.
    pub fn set_shift(&mut self, s: WBShift)
        ensures
            *final(self) == old(self).with_shift(s),
            final(self).shift() == s,
            final(self).temperature() == old(self).temperature(),
    {
        match self {
            WhiteBalance::Auto { shift } => *shift = s,
            WhiteBalance::AutoWhitePriority { shift } => *shift = s,
            WhiteBalance::AutoAmbiencePriority { shift } => *shift = s,
            WhiteBalance::Custom1 { shift } => *shift = s,
            WhiteBalance::Custom2 { shift } => *shift = s,
            WhiteBalance::Custom3 { shift } => *shift = s,
            WhiteBalance::Daylight { shift } => *shift = s,
            WhiteBalance::Cloudy { shift } => *shift = s,
            WhiteBalance::FluorescentLight1 { shift } => *shift = s,
            WhiteBalance::FluorescentLight2 { shift } => *shift = s,
            WhiteBalance::FluorescentLight3 { shift } => *shift = s,
            WhiteBalance::Incandescent { shift } => *shift = s,
            WhiteBalance::Underwater { shift } => *shift = s,
            WhiteBalance::Kelvin { shift, .. } => {
                *shift = WBShift { blue: s.blue, red: s.red }
            },
        }
    }
}

impl Default for WhiteBalance {
    fn default() -> (balance: Self)
        ensures
            balance == (WhiteBalance::Auto { shift: WBShift { red: 0, blue: 0 } }),
    {
        WhiteBalance::Auto { shift: WBShift::default() }
    }
}

#[derive(Debug, Clone, Copy, PartialEq, Eq, Structural)]
pub enum DynamicRange {
    Auto,
    DR100,
    DR200,
    DR400,
}

impl Default for DynamicRange {
    fn default() -> (value: Self)
        ensures
            value == (DynamicRange::Auto),
    {
        DynamicRange::Auto
    }
}

#[derive(Debug, Clone, Copy, PartialEq, Eq, Structural)]
pub enum DRangePriority {
    Off,
    Auto,
    Weak,
    Strong,
}

impl Default for DRangePriority {
    fn default() -> (value: Self)
        ensures
            value == (DRangePriority::Off),
    {
        DRangePriority::Off
    }
}

/// The tint of a monochrome picture: a warm-cool and magenta-green shift, or
/// the single strength of earlier cameras.
#[derive(Debug, Clone, Copy, PartialEq, Eq, Structural)]
pub enum MonochromaticColor {
    ColorShift { shift: MonochromaticColorShift },
    Strength { value: i64 },
}

impl Default for MonochromaticColor {
    fn default() -> (value: Self)
        ensures
            value == (MonochromaticColor::ColorShift { shift: MonochromaticColorShift { mg: 0, wc: 0 } }),
    {
        MonochromaticColor::ColorShift { shift: MonochromaticColorShift { mg: 0, wc: 0 } }
    }
}

#[derive(Debug, Clone, Copy, PartialEq, Eq, Structural)]
pub struct MonochromaticColorShift {
    pub wc: i64,
    pub mg: i64,
}

impl Default for MonochromaticColorShift {
    fn default() -> (value: Self)
        ensures
            value == (MonochromaticColorShift { wc: 0, mg: 0 }),
    {
        MonochromaticColorShift { wc: 0, mg: 0 }
    }
}

#[derive(Debug, Clone, Copy, PartialEq, Eq, Structural)]
pub struct ColorChromeEffect {
    pub strength: SettingStrength,
}

impl Default for ColorChromeEffect {
    fn default() -> (value: Self)
        ensures
            value == (ColorChromeEffect { strength: SettingStrength::Off }),
    {
        ColorChromeEffect { strength: SettingStrength::Off }
    }
}

#[derive(Debug, Clone, Copy, PartialEq, Eq, Structural)]
pub struct ColorChromeEffectFxBlue {
    pub strength: SettingStrength,
}

impl Default for ColorChromeEffectFxBlue {
    fn default() -> (value: Self)
        ensures
            value == (ColorChromeEffectFxBlue { strength: SettingStrength::Off }),
    {
        ColorChromeEffectFxBlue { strength: SettingStrength::Off }
    }
}

/// One value of the tone curve, counted in tenths: 15 stands for 1.5, -20
/// for -2.
#[derive(Debug, Clone, Copy, PartialEq, Eq, Structural)]
pub struct Tone {
    pub tenths: i64,
}

impl Default for Tone {
    fn default() -> (value: Self)
        ensures
            value == (Tone { tenths: 0 }),
    {
        Tone { tenths: 0 }
    }
}

#[derive(Debug, Clone, Copy, PartialEq, Eq, Structural)]
pub struct ToneCurve {
    pub highlights: Tone,
    pub shadows: Tone,
}

impl Default for ToneCurve {
    fn default() -> (value: Self)
        ensures
            value == (ToneCurve { highlights: Tone { tenths: 0 }, shadows: Tone { tenths: 0 } }),
    {
        ToneCurve { highlights: Tone { tenths: 0 }, shadows: Tone { tenths: 0 } }
    }
}

#[derive(Debug, Clone, Copy, PartialEq, Eq, Structural)]
pub struct Color {
    pub value: i64,
}

impl Default for Color {
    fn default() -> (value: Self)
        ensures
            value == (Color { value: 0 }),
    {
        Color { value: 0 }
    }
}

#[derive(Debug, Clone, Copy, PartialEq, Eq, Structural)]
pub struct Sharpness {
    pub value: i64,
}

impl Default for Sharpness {
    fn default() -> (value: Self)
        ensures
            value == (Sharpness { value: 0 }),
    {
        Sharpness { value: 0 }
    }
}

#[derive(Debug, Clone, Copy, PartialEq, Eq, Structural)]
pub struct HighISONoiseReduction {
    pub value: i64,
}

impl Default for HighISONoiseReduction {
    fn default() -> (value: Self)
        ensures
            value == (HighISONoiseReduction { value: 0 }),
    {
        HighISONoiseReduction { value: 0 }
    }
}

#[derive(Debug, Clone, Copy, PartialEq, Eq, Structural)]
pub struct Clarity {
    pub value: i64,
}

impl Default for Clarity {
    fn default() -> (value: Self)
        ensures
            value == (Clarity { value: 0 }),
    {
        Clarity { value: 0 }
    }
}

#[derive(Debug, Clone, Copy, PartialEq, Eq, Structural)]
pub struct TransVSettings {
    pub white_balance: WhiteBalance,
    pub dynamic_range: DynamicRange,
    pub d_range_priority: DRangePriority,
    pub grain_effect: GrainEffect,
    pub color_chrome_effect: ColorChromeEffect,
    pub color_chrome_fx_blue: ColorChromeEffectFxBlue,
    pub tone_curve: ToneCurve,
    pub color: Color,
    pub monochromatic_color: MonochromaticColor,
    pub sharpness: Sharpness,
    pub high_iso_noise_reduction: HighISONoiseReduction,
    pub clarity: Clarity,
}

#[derive(Debug, Clone, Copy, PartialEq, Eq, Structural)]
pub struct TransIVSettings {
    pub white_balance: WhiteBalance,
    pub dynamic_range: DynamicRange,
    pub d_range_priority: DRangePriority,
    pub grain_effect: GrainEffect,
    pub color_chrome_fx_blue: ColorChromeEffectFxBlue,
    pub color_chrome_effect: ColorChromeEffect,
    pub tone_curve: ToneCurve,
    pub color: Color,
    pub monochromatic_color: MonochromaticColor,
    pub sharpness: Sharpness,
    pub high_iso_noise_reduction: HighISONoiseReduction,
    pub clarity: Clarity,
}

#[derive(Debug, Clone, Copy, PartialEq, Eq, Structural)]
pub struct TransIIISettings {
    pub white_balance: WhiteBalance,
    pub dynamic_range: DynamicRange,
    pub grain_effect: GrainEffect,
    pub tone_curve: ToneCurve,
    pub color: Color,
    pub monochromatic_color: MonochromaticColor,
    pub sharpness: Sharpness,
    pub high_iso_noise_reduction: HighISONoiseReduction,
}

#[derive(Debug, Clone, Copy, PartialEq, Eq, Structural)]
pub struct TransIISettings {
    pub white_balance: WhiteBalance,
    pub dynamic_range: DynamicRange,
    pub tone_curve: ToneCurve,
    pub color: Color,
    pub sharpness: Sharpness,
    pub high_iso_noise_reduction: HighISONoiseReduction,
}

#[derive(Debug, Clone, Copy, PartialEq, Eq, Structural)]
pub struct TransISettings {
    pub white_balance: WhiteBalance,
    pub dynamic_range: DynamicRange,
    pub tone_curve: ToneCurve,
    pub color: Color,
    pub sharpness: Sharpness,
    pub high_iso_noise_reduction: HighISONoiseReduction,
}

/// Every field a recipe can have, those that a generation lacks as `None`.
pub type SettingsTuple = (
    WhiteBalance,
    DynamicRange,
    Option<DRangePriority>,
    ToneCurve,
    Color,
    Sharpness,
    Option<Clarity>,
    HighISONoiseReduction,
    Option<GrainEffect>,
    Option<ColorChromeEffect>,
    Option<ColorChromeEffectFxBlue>,
    Option<MonochromaticColor>,
);

impl Settings {
    /// The generation whose shape these settings have.
    pub open spec fn sensor(&self) -> TransSensor {
        match *self {
            Settings::TransI(_) => TransSensor::TransI,
            Settings::TransII(_) => TransSensor::TransII,
            Settings::TransIII(_) => TransSensor::TransIII,
            Settings::TransIV(_) => TransSensor::TransIV,
            Settings::TransV(_) => TransSensor::TransV,
        }
    }

    /// The fields as one tuple, whatever the generation.
    pub open spec fn values(&self) -> SettingsTuple {
        match *self {
            Settings::TransI(s) => (
                s.white_balance,
                s.dynamic_range,
                None,
                s.tone_curve,
                s.color,
                s.sharpness,
                None,
                s.high_iso_noise_reduction,
                None,
                None,
                None,
                None,
            ),
            Settings::TransII(s) => (
                s.white_balance,
                s.dynamic_range,
                None,
                s.tone_curve,
                s.color,
                s.sharpness,
                None,
                s.high_iso_noise_reduction,
                None,
                None,
                None,
                None,
            ),
            Settings::TransIII(s) => (
                s.white_balance,
                s.dynamic_range,
                None,
                s.tone_curve,
                s.color,
                s.sharpness,
                None,
                s.high_iso_noise_reduction,
                Some(s.grain_effect),
                None,
                None,
                Some(s.monochromatic_color),
            ),
            Settings::TransIV(s) => (
                s.white_balance,
                s.dynamic_range,
                Some(s.d_range_priority),
                s.tone_curve,
                s.color,
                s.sharpness,
                Some(s.clarity),
                s.high_iso_noise_reduction,
                Some(s.grain_effect),
                Some(s.color_chrome_effect),
                Some(s.color_chrome_fx_blue),
                Some(s.monochromatic_color),
            ),
            Settings::TransV(s) => (
                s.white_balance,
                s.dynamic_range,
                Some(s.d_range_priority),
                s.tone_curve,
                s.color,
                s.sharpness,
                Some(s.clarity),
                s.high_iso_noise_reduction,
                Some(s.grain_effect),
                Some(s.color_chrome_effect),
                Some(s.color_chrome_fx_blue),
                Some(s.monochromatic_color),
            ),
        }
    }

    /// The generation whose shape these settings have.
    pub fn get_sensor(&self) -> (sensor: TransSensor)
        ensures
            sensor == self.sensor(),
    {
        match self {
            Settings::TransI(_) => TransSensor::TransI,
            Settings::TransII(_) => TransSensor::TransII,
            Settings::TransIII(_) => TransSensor::TransIII,
            Settings::TransIV(_) => TransSensor::TransIV,
            Settings::TransV(_) => TransSensor::TransV,
        }
    }

    /// The fields as one tuple, those that the generation lacks as `None`.
    pub fn get_values(&self) -> (values: SettingsTuple)
        ensures
            values == self.values(),
    {
        match *self {
            Settings::TransI(settings) => (
                settings.white_balance,
                settings.dynamic_range,
                None,
                settings.tone_curve,
                settings.color,
                settings.sharpness,
                None,
                settings.high_iso_noise_reduction,
                None,
                None,
                None,
                None,
            ),
            Settings::TransII(settings) => (
                settings.white_balance,
                settings.dynamic_range,
                None,
                settings.tone_curve,
                settings.color,
                settings.sharpness,
                None,
                settings.high_iso_noise_reduction,
                None,
                None,
                None,
                None,
            ),
            Settings::TransIII(settings) => (
                settings.white_balance,
                settings.dynamic_range,
                None,
                settings.tone_curve,
                settings.color,
                settings.sharpness,
                None,
                settings.high_iso_noise_reduction,
                Some(settings.grain_effect),
                None,
                None,
                Some(settings.monochromatic_color),
            ),
            Settings::TransIV(settings) => (
                settings.white_balance,
                settings.dynamic_range,
                Some(settings.d_range_priority),
                settings.tone_curve,
                settings.color,
                settings.sharpness,
                Some(settings.clarity),
                settings.high_iso_noise_reduction,
                Some(settings.grain_effect),
                Some(settings.color_chrome_effect),
                Some(settings.color_chrome_fx_blue),
                Some(settings.monochromatic_color),
            ),
            Settings::TransV(settings) => (
                settings.white_balance,
                settings.dynamic_range,
                Some(settings.d_range_priority),
                settings.tone_curve,
                settings.color,
                settings.sharpness,
                Some(settings.clarity),
                settings.high_iso_noise_reduction,
                Some(settings.grain_effect),
                Some(settings.color_chrome_effect),
                Some(settings.color_chrome_fx_blue),
                Some(settings.monochromatic_color),
            ),
        }
    }
}

/// Setting a shift replaces the shift and nothing else: the mode stays, and
/// `Kelvin` keeps its temperature.
pub proof fn lemma_with_shift_keeps_the_mode(balance: WhiteBalance, s: WBShift)
    ensures
        balance.with_shift(s).shift() == s,
        balance.with_shift(s).temperature() == balance.temperature(),
        balance.with_shift(balance.shift()) == balance,
        balance matches WhiteBalance::Kelvin { temperature, .. } ==> balance.with_shift(s) == (
        WhiteBalance::Kelvin { temperature, shift: s }),
{
}

} // verus!
