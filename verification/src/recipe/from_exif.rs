//! The field decoders: each reads one setting out of the tag store, and
//! gives nothing, never an error, where the tag is missing or malformed.

use vstd::prelude::*;
use crate::exif::{find_chars, has_tag, lemma_absent_tag, lookup, ExifData};
use crate::recipe::{
    Clarity, Color, ColorChromeEffect, ColorChromeEffectFxBlue, DRangePriority, DynamicRange,
    FilmSimulation, GrainEffect, HighISONoiseReduction, MonochromaticColor, Sharpness, Tone,
    ToneCurve, TransSensor, WBShift, WhiteBalance,
};

verus! {

impl TransSensor {
    /// What the tag `SensorGeneration` gives for the sensor generation: its value where the first such
    /// tag holds a canonical text, nothing where the tag is missing or holds
    /// anything else.
    pub open spec fn decode(tags: Seq<ExifData>) -> Option<Self> {
        match lookup(tags, "SensorGeneration"@) {
            Some(raw) => Self::from_canonical_text(raw),
            None => None,
        }
    }

    /// Decodes the value from the tag store.
    pub fn from_exif(data: &[ExifData]) -> (decoded: Option<Self>)
        ensures
            decoded == Self::decode(data@),
            !has_tag(data@, "SensorGeneration"@) ==> decoded is None,
    {
        match find_chars(data, "SensorGeneration") {
            Some(raw) => Self::parse_chars(raw.as_slice()),
            None => None,
        }
    }
}

impl FilmSimulation {
    /// What the tag `FilmMode` gives for the film simulation: its value where the first such
    /// tag holds a canonical text, nothing where the tag is missing or holds
    /// anything else.
    pub open spec fn decode(tags: Seq<ExifData>) -> Option<Self> {
        match lookup(tags, "FilmMode"@) {
            Some(raw) => Self::from_canonical_text(raw),
            None => None,
        }
    }

    /// Decodes the value from the tag store.
    pub fn from_exif(data: &[ExifData]) -> (decoded: Option<Self>)
        ensures
            decoded == Self::decode(data@),
            !has_tag(data@, "FilmMode"@) ==> decoded is None,
    {
        match find_chars(data, "FilmMode") {
            Some(raw) => Self::parse_chars(raw.as_slice()),
            None => None,
        }
    }
}

impl DynamicRange {
    /// What the tag `DynamicRange` gives for the dynamic range: its value where the first such
    /// tag holds a canonical text, nothing where the tag is missing or holds
    /// anything else.
    pub open spec fn decode(tags: Seq<ExifData>) -> Option<Self> {
        match lookup(tags, "DynamicRange"@) {
            Some(raw) => Self::from_canonical_text(raw),
            None => None,
        }
    }

    /// Decodes the value from the tag store.
    pub fn from_exif(data: &[ExifData]) -> (decoded: Option<Self>)
        ensures
            decoded == Self::decode(data@),
            !has_tag(data@, "DynamicRange"@) ==> decoded is None,
    {
        match find_chars(data, "DynamicRange") {
            Some(raw) => Self::parse_chars(raw.as_slice()),
            None => None,
        }
    }
}

impl DRangePriority {
    /// What the tag `DRangePriority` gives for the dynamic range priority: its value where the first such
    /// tag holds a canonical text, nothing where the tag is missing or holds
    /// anything else.
    pub open spec fn decode(tags: Seq<ExifData>) -> Option<Self> {
        match lookup(tags, "DRangePriority"@) {
            Some(raw) => Self::from_canonical_text(raw),
            None => None,
        }
    }

    /// Decodes the value from the tag store.
    pub fn from_exif(data: &[ExifData]) -> (decoded: Option<Self>)
        ensures
            decoded == Self::decode(data@),
            !has_tag(data@, "DRangePriority"@) ==> decoded is None,
    {
        match find_chars(data, "DRangePriority") {
            Some(raw) => Self::parse_chars(raw.as_slice()),
            None => None,
        }
    }
}

impl GrainEffect {
    /// What the tag `GrainEffect` gives for the grain effect: its value where the first such
    /// tag holds a canonical text, nothing where the tag is missing or holds
    /// anything else.
    pub open spec fn decode(tags: Seq<ExifData>) -> Option<Self> {
        match lookup(tags, "GrainEffect"@) {
            Some(raw) => Self::from_canonical_text(raw),
            None => None,
        }
    }

    /// Decodes the value from the tag store.
    pub fn from_exif(data: &[ExifData]) -> (decoded: Option<Self>)
        ensures
            decoded == Self::decode(data@),
            !has_tag(data@, "GrainEffect"@) ==> decoded is None,
    {
        match find_chars(data, "GrainEffect") {
            Some(raw) => Self::parse_chars(raw.as_slice()),
            None => None,
        }
    }
}

impl ColorChromeEffect {
    /// What the tag `ColorChromeEffect` gives for the colour chrome effect: its value where the first such
    /// tag holds a canonical text, nothing where the tag is missing or holds
    /// anything else.
    pub open spec fn decode(tags: Seq<ExifData>) -> Option<Self> {
        match lookup(tags, "ColorChromeEffect"@) {
            Some(raw) => Self::from_canonical_text(raw),
            None => None,
        }
    }

    /// Decodes the value from the tag store.
    pub fn from_exif(data: &[ExifData]) -> (decoded: Option<Self>)
        ensures
            decoded == Self::decode(data@),
            !has_tag(data@, "ColorChromeEffect"@) ==> decoded is None,
    {
        match find_chars(data, "ColorChromeEffect") {
            Some(raw) => Self::parse_chars(raw.as_slice()),
            None => None,
        }
    }
}

impl ColorChromeEffectFxBlue {
    /// What the tag `ColorChromeFXBlue` gives for the colour chrome FX blue effect: its value where the first such
    /// tag holds a canonical text, nothing where the tag is missing or holds
    /// anything else.
    pub open spec fn decode(tags: Seq<ExifData>) -> Option<Self> {
        match lookup(tags, "ColorChromeFXBlue"@) {
            Some(raw) => Self::from_canonical_text(raw),
            None => None,
        }
    }

    /// Decodes the value from the tag store.
    pub fn from_exif(data: &[ExifData]) -> (decoded: Option<Self>)
        ensures
            decoded == Self::decode(data@),
            !has_tag(data@, "ColorChromeFXBlue"@) ==> decoded is None,
    {
        match find_chars(data, "ColorChromeFXBlue") {
            Some(raw) => Self::parse_chars(raw.as_slice()),
            None => None,
        }
    }
}

impl Color {
    /// What the tag `Saturation` gives for the saturation: its value where the first such
    /// tag holds a canonical text, nothing where the tag is missing or holds
    /// anything else.
    pub open spec fn decode(tags: Seq<ExifData>) -> Option<Self> {
        match lookup(tags, "Saturation"@) {
            Some(raw) => Self::from_canonical_text(raw),
            None => None,
        }
    }

    /// Decodes the value from the tag store.
    pub fn from_exif(data: &[ExifData]) -> (decoded: Option<Self>)
        ensures
            decoded == Self::decode(data@),
            !has_tag(data@, "Saturation"@) ==> decoded is None,
    {
        match find_chars(data, "Saturation") {
            Some(raw) => Self::parse_chars(raw.as_slice()),
            None => None,
        }
    }
}

impl MonochromaticColor {
    /// What the tag `MonochromaticColor` gives for the monochrome tint: its value where the first such
    /// tag holds a canonical text, nothing where the tag is missing or holds
    /// anything else.
    pub open spec fn decode(tags: Seq<ExifData>) -> Option<Self> {
        match lookup(tags, "MonochromaticColor"@) {
            Some(raw) => Self::from_canonical_text(raw),
            None => None,
        }
    }

    /// Decodes the value from the tag store.
    pub fn from_exif(data: &[ExifData]) -> (decoded: Option<Self>)
        ensures
            decoded == Self::decode(data@),
            !has_tag(data@, "MonochromaticColor"@) ==> decoded is None,
    {
        match find_chars(data, "MonochromaticColor") {
            Some(raw) => Self::parse_chars(raw.as_slice()),
            None => None,
        }
    }
}

impl Sharpness {
    /// What the tag `Sharpness` gives for the sharpness: its value where the first such
    /// tag holds a canonical text, nothing where the tag is missing or holds
    /// anything else.
    pub open spec fn decode(tags: Seq<ExifData>) -> Option<Self> {
        match lookup(tags, "Sharpness"@) {
            Some(raw) => Self::from_canonical_text(raw),
            None => None,
        }
    }

    /// Decodes the value from the tag store.
    pub fn from_exif(data: &[ExifData]) -> (decoded: Option<Self>)
        ensures
            decoded == Self::decode(data@),
            !has_tag(data@, "Sharpness"@) ==> decoded is None,
    {
        match find_chars(data, "Sharpness") {
            Some(raw) => Self::parse_chars(raw.as_slice()),
            None => None,
        }
    }
}

impl HighISONoiseReduction {
    /// What the tag `NoiseReduction` gives for the noise reduction: its value where the first such
    /// tag holds a canonical text, nothing where the tag is missing or holds
    /// anything else.
    pub open spec fn decode(tags: Seq<ExifData>) -> Option<Self> {
        match lookup(tags, "NoiseReduction"@) {
            Some(raw) => Self::from_canonical_text(raw),
            None => None,
        }
    }

    /// Decodes the value from the tag store.
    pub fn from_exif(data: &[ExifData]) -> (decoded: Option<Self>)
        ensures
            decoded == Self::decode(data@),
            !has_tag(data@, "NoiseReduction"@) ==> decoded is None,
    {
        match find_chars(data, "NoiseReduction") {
            Some(raw) => Self::parse_chars(raw.as_slice()),
            None => None,
        }
    }
}

impl Clarity {
    /// What the tag `Clarity` gives for the clarity: its value where the first such
    /// tag holds a canonical text, nothing where the tag is missing or holds
    /// anything else.
    pub open spec fn decode(tags: Seq<ExifData>) -> Option<Self> {
        match lookup(tags, "Clarity"@) {
            Some(raw) => Self::from_canonical_text(raw),
            None => None,
        }
    }

    /// Decodes the value from the tag store.
    pub fn from_exif(data: &[ExifData]) -> (decoded: Option<Self>)
        ensures
            decoded == Self::decode(data@),
            !has_tag(data@, "Clarity"@) ==> decoded is None,
    {
        match find_chars(data, "Clarity") {
            Some(raw) => Self::parse_chars(raw.as_slice()),
            None => None,
        }
    }
}

impl ToneCurve {
    /// What the tags `HighlightTone` and `ShadowTone` give for the tone
    /// curve: nothing unless both are there and both hold a decimal.
    pub open spec fn decode(tags: Seq<ExifData>) -> Option<Self> {
        match (lookup(tags, "HighlightTone"@), lookup(tags, "ShadowTone"@)) {
            (Some(h), Some(s)) => match (Tone::from_canonical_text(h), Tone::from_canonical_text(s)) {
                (Some(highlights), Some(shadows)) => Some(ToneCurve { highlights, shadows }),
                _ => None,
            },
            _ => None,
        }
    }

    /// Decodes the value from the tag store.
    pub fn from_exif(data: &[ExifData]) -> (decoded: Option<Self>)
        ensures
            decoded == Self::decode(data@),
            !has_tag(data@, "HighlightTone"@) ==> decoded is None,
            !has_tag(data@, "ShadowTone"@) ==> decoded is None,
    {
        match (find_chars(data, "HighlightTone"), find_chars(data, "ShadowTone")) {
            (Some(h), Some(s)) => match (
                Tone::parse_chars(h.as_slice()),
                Tone::parse_chars(s.as_slice()),
            ) {
                (Some(highlights), Some(shadows)) => Some(ToneCurve { highlights, shadows }),
                _ => None,
            },
            _ => None,
        }
    }
}

impl WhiteBalance {
    /// What the tags `WhiteBalance` and `WhiteBalanceFineTune` give for the
    /// white balance. The first holds the mode, with or without a shift. The
    /// second, where it is there, holds the shift that replaces the mode's own;
    /// where it is there and malformed, nothing is decoded.
    pub open spec fn decode(tags: Seq<ExifData>) -> Option<Self> {
        match lookup(tags, "WhiteBalance"@) {
            None => None,
            Some(raw) => match Self::from_canonical_text(raw) {
                None => None,
                Some(balance) => match lookup(tags, "WhiteBalanceFineTune"@) {
                    None => Some(balance),
                    Some(fine) => match WBShift::from_canonical_text(fine) {
                        Some(shift) => Some(balance.with_shift(shift)),
                        None => None,
                    },
                },
            },
        }
    }

    /// Decodes the value from the tag store.
    pub fn from_exif(data: &[ExifData]) -> (decoded: Option<Self>)
        ensures
            decoded == Self::decode(data@),
            !has_tag(data@, "WhiteBalance"@) ==> decoded is None,
    {
        let raw = match find_chars(data, "WhiteBalance") {
            Some(raw) => raw,
            None => {
                return None;
            },
        };
        let mut balance = match Self::parse_chars(raw.as_slice()) {
            Some(balance) => balance,
            None => {
                return None;
            },
        };
        match find_chars(data, "WhiteBalanceFineTune") {
            None => Some(balance),
            Some(fine) => match WBShift::parse_chars(fine.as_slice()) {
                Some(shift) => {
                    balance.set_shift(shift);
                    Some(balance)
                },
                None => None,
            },
        }
    }
}

/// A decoder whose tag is not in the tag store gives nothing.
pub proof fn lemma_absent_tag_decodes_to_nothing(tags: Seq<ExifData>)
    ensures
        !has_tag(tags, "SensorGeneration"@) ==> TransSensor::decode(tags) is None,
        !has_tag(tags, "FilmMode"@) ==> FilmSimulation::decode(tags) is None,
        !has_tag(tags, "WhiteBalance"@) ==> WhiteBalance::decode(tags) is None,
        !has_tag(tags, "DynamicRange"@) ==> DynamicRange::decode(tags) is None,
        !has_tag(tags, "DRangePriority"@) ==> DRangePriority::decode(tags) is None,
        !has_tag(tags, "GrainEffect"@) ==> GrainEffect::decode(tags) is None,
        !has_tag(tags, "ColorChromeEffect"@) ==> ColorChromeEffect::decode(tags) is None,
        !has_tag(tags, "ColorChromeFXBlue"@) ==> ColorChromeEffectFxBlue::decode(tags) is None,
        !has_tag(tags, "HighlightTone"@) ==> ToneCurve::decode(tags) is None,
        !has_tag(tags, "ShadowTone"@) ==> ToneCurve::decode(tags) is None,
        !has_tag(tags, "Saturation"@) ==> Color::decode(tags) is None,
        !has_tag(tags, "MonochromaticColor"@) ==> MonochromaticColor::decode(tags) is None,
        !has_tag(tags, "Sharpness"@) ==> Sharpness::decode(tags) is None,
        !has_tag(tags, "NoiseReduction"@) ==> HighISONoiseReduction::decode(tags) is None,
        !has_tag(tags, "Clarity"@) ==> Clarity::decode(tags) is None,
{
    if !has_tag(tags, "SensorGeneration"@) {
        lemma_absent_tag(tags, "SensorGeneration"@);
    }
    if !has_tag(tags, "FilmMode"@) {
        lemma_absent_tag(tags, "FilmMode"@);
    }
    if !has_tag(tags, "WhiteBalance"@) {
        lemma_absent_tag(tags, "WhiteBalance"@);
    }
    if !has_tag(tags, "DynamicRange"@) {
        lemma_absent_tag(tags, "DynamicRange"@);
    }
    if !has_tag(tags, "DRangePriority"@) {
        lemma_absent_tag(tags, "DRangePriority"@);
    }
    if !has_tag(tags, "GrainEffect"@) {
        lemma_absent_tag(tags, "GrainEffect"@);
    }
    if !has_tag(tags, "ColorChromeEffect"@) {
        lemma_absent_tag(tags, "ColorChromeEffect"@);
    }
    if !has_tag(tags, "ColorChromeFXBlue"@) {
        lemma_absent_tag(tags, "ColorChromeFXBlue"@);
    }
    if !has_tag(tags, "HighlightTone"@) {
        lemma_absent_tag(tags, "HighlightTone"@);
    }
    if !has_tag(tags, "ShadowTone"@) {
        lemma_absent_tag(tags, "ShadowTone"@);
    }
    if !has_tag(tags, "Saturation"@) {
        lemma_absent_tag(tags, "Saturation"@);
    }
    if !has_tag(tags, "MonochromaticColor"@) {
        lemma_absent_tag(tags, "MonochromaticColor"@);
    }
    if !has_tag(tags, "Sharpness"@) {
        lemma_absent_tag(tags, "Sharpness"@);
    }
    if !has_tag(tags, "NoiseReduction"@) {
        lemma_absent_tag(tags, "NoiseReduction"@);
    }
    if !has_tag(tags, "Clarity"@) {
        lemma_absent_tag(tags, "Clarity"@);
    }
}

} // verus!
