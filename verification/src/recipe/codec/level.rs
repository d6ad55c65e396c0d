//! The settings that are one level: a signed whole number, or a strength.

use vstd::prelude::*;
use crate::number::{i64_of_text, int_text, lemma_int_text_round_trip, parse_i64, push_int};
use crate::recipe::{
    Clarity, Color, ColorChromeEffect, ColorChromeEffectFxBlue, HighISONoiseReduction,
    SettingStrength, Sharpness,
};
use crate::text::chars_of;

verus! {

impl Color {
    /// The saturation, written without a `+`.
    pub open spec fn canonical_text(&self) -> Seq<char> {
        int_text(self.value as int)
    }

    /// The value that a text denotes, if it is an integer within range.
    pub open spec fn from_canonical_text(s: Seq<char>) -> Option<Self> {
        match i64_of_text(s) {
            Ok(value) => Some(Color { value }),
            Err(_) => None,
        }
    }

    /// Writes the value in its canonical notation.
    pub fn to_canonical_string(&self) -> (text: String)
        ensures
            text@ == self.canonical_text(),
    {
        let mut text = String::new();
        push_int(&mut text, self.value);
        assert(text@ =~= self.canonical_text());
        text
    }

    /// Reads a value from the characters of its canonical notation.
    pub fn parse_chars(chars: &[char]) -> (parsed: Option<Self>)
        ensures
            parsed == Self::from_canonical_text(chars@),
    {
        match parse_i64(chars) {
            Ok(value) => Some(Color { value }),
            Err(_) => None,
        }
    }

    /// Reads a value from its canonical notation.
    pub fn parse_canonical_string(text: &str) -> (parsed: Option<Self>)
        ensures
            parsed == Self::from_canonical_text(text@),
    {
        let chars = chars_of(text);
        Self::parse_chars(chars.as_slice())
    }

    /// Parsing the canonical text of a value gives the value back.
    pub proof fn round_trip(self)
        ensures
            Self::from_canonical_text(self.canonical_text()) == Some(self),
    {
        lemma_int_text_round_trip(self.value as int);
    }
}

impl Sharpness {
    /// The sharpness, written without a `+`.
    pub open spec fn canonical_text(&self) -> Seq<char> {
        int_text(self.value as int)
    }

    /// The value that a text denotes, if it is an integer within range.
    pub open spec fn from_canonical_text(s: Seq<char>) -> Option<Self> {
        match i64_of_text(s) {
            Ok(value) => Some(Sharpness { value }),
            Err(_) => None,
        }
    }

    /// Writes the value in its canonical notation.
    pub fn to_canonical_string(&self) -> (text: String)
        ensures
            text@ == self.canonical_text(),
    {
        let mut text = String::new();
        push_int(&mut text, self.value);
        assert(text@ =~= self.canonical_text());
        text
    }

    /// Reads a value from the characters of its canonical notation.
    pub fn parse_chars(chars: &[char]) -> (parsed: Option<Self>)
        ensures
            parsed == Self::from_canonical_text(chars@),
    {
        match parse_i64(chars) {
            Ok(value) => Some(Sharpness { value }),
            Err(_) => None,
        }
    }

    /// Reads a value from its canonical notation.
    pub fn parse_canonical_string(text: &str) -> (parsed: Option<Self>)
        ensures
            parsed == Self::from_canonical_text(text@),
    {
        let chars = chars_of(text);
        Self::parse_chars(chars.as_slice())
    }

    /// Parsing the canonical text of a value gives the value back.
    pub proof fn round_trip(self)
        ensures
            Self::from_canonical_text(self.canonical_text()) == Some(self),
    {
        lemma_int_text_round_trip(self.value as int);
    }
}

impl HighISONoiseReduction {
    /// The noise reduction, written without a `+`.
    pub open spec fn canonical_text(&self) -> Seq<char> {
        int_text(self.value as int)
    }

    /// The value that a text denotes, if it is an integer within range.
    pub open spec fn from_canonical_text(s: Seq<char>) -> Option<Self> {
        match i64_of_text(s) {
            Ok(value) => Some(HighISONoiseReduction { value }),
            Err(_) => None,
        }
    }

    /// Writes the value in its canonical notation.
    pub fn to_canonical_string(&self) -> (text: String)
        ensures
            text@ == self.canonical_text(),
    {
        let mut text = String::new();
        push_int(&mut text, self.value);
        assert(text@ =~= self.canonical_text());
        text
    }

    /// Reads a value from the characters of its canonical notation.
    pub fn parse_chars(chars: &[char]) -> (parsed: Option<Self>)
        ensures
            parsed == Self::from_canonical_text(chars@),
    {
        match parse_i64(chars) {
            Ok(value) => Some(HighISONoiseReduction { value }),
            Err(_) => None,
        }
    }

    /// Reads a value from its canonical notation.
    pub fn parse_canonical_string(text: &str) -> (parsed: Option<Self>)
        ensures
            parsed == Self::from_canonical_text(text@),
    {
        let chars = chars_of(text);
        Self::parse_chars(chars.as_slice())
    }

    /// Parsing the canonical text of a value gives the value back.
    pub proof fn round_trip(self)
        ensures
            Self::from_canonical_text(self.canonical_text()) == Some(self),
    {
        lemma_int_text_round_trip(self.value as int);
    }
}

impl Clarity {
    /// The clarity, written without a `+`.
    pub open spec fn canonical_text(&self) -> Seq<char> {
        int_text(self.value as int)
    }

    /// The value that a text denotes, if it is an integer within range.
    pub open spec fn from_canonical_text(s: Seq<char>) -> Option<Self> {
        match i64_of_text(s) {
            Ok(value) => Some(Clarity { value }),
            Err(_) => None,
        }
    }

    /// Writes the value in its canonical notation.
    pub fn to_canonical_string(&self) -> (text: String)
        ensures
            text@ == self.canonical_text(),
    {
        let mut text = String::new();
        push_int(&mut text, self.value);
        assert(text@ =~= self.canonical_text());
        text
    }

    /// Reads a value from the characters of its canonical notation.
    pub fn parse_chars(chars: &[char]) -> (parsed: Option<Self>)
        ensures
            parsed == Self::from_canonical_text(chars@),
    {
        match parse_i64(chars) {
            Ok(value) => Some(Clarity { value }),
            Err(_) => None,
        }
    }

    /// Reads a value from its canonical notation.
    pub fn parse_canonical_string(text: &str) -> (parsed: Option<Self>)
        ensures
            parsed == Self::from_canonical_text(text@),
    {
        let chars = chars_of(text);
        Self::parse_chars(chars.as_slice())
    }

    /// Parsing the canonical text of a value gives the value back.
    pub proof fn round_trip(self)
        ensures
            Self::from_canonical_text(self.canonical_text()) == Some(self),
    {
        lemma_int_text_round_trip(self.value as int);
    }
}

impl ColorChromeEffect {
    /// The strength of the effect as the camera's menu writes it.
    pub open spec fn canonical_text(&self) -> Seq<char> {
        self.strength.canonical_text()
    }

    /// The effect whose strength a text names.
    pub open spec fn from_canonical_text(s: Seq<char>) -> Option<Self> {
        match SettingStrength::from_canonical_text(s) {
            Some(strength) => Some(ColorChromeEffect { strength }),
            None => None,
        }
    }

    /// Writes the value in its canonical notation.
    pub fn to_canonical_string(&self) -> (text: String)
        ensures
            text@ == self.canonical_text(),
    {
        self.strength.to_canonical_string()
    }

    /// Reads a value from the characters of its canonical notation.
    pub fn parse_chars(chars: &[char]) -> (parsed: Option<Self>)
        ensures
            parsed == Self::from_canonical_text(chars@),
    {
        match SettingStrength::parse_chars(chars) {
            Some(strength) => Some(ColorChromeEffect { strength }),
            None => None,
        }
    }

    /// Reads a value from its canonical notation.
    pub fn parse_canonical_string(text: &str) -> (parsed: Option<Self>)
        ensures
            parsed == Self::from_canonical_text(text@),
    {
        let chars = chars_of(text);
        Self::parse_chars(chars.as_slice())
    }

    /// Parsing the canonical text of a value gives the value back.
    pub proof fn round_trip(self)
        ensures
            Self::from_canonical_text(self.canonical_text()) == Some(self),
    {
        self.strength.round_trip();
    }

    /// A text that is parsed is the canonical text of what it is parsed to.
    pub proof fn only_canonical(s: Seq<char>)
        ensures
            Self::from_canonical_text(s) matches Some(value) ==> value.canonical_text() == s,
    {
    }
}

impl ColorChromeEffectFxBlue {
    /// The strength of the effect as the camera's menu writes it.
    pub open spec fn canonical_text(&self) -> Seq<char> {
        self.strength.canonical_text()
    }

    /// The effect whose strength a text names.
    pub open spec fn from_canonical_text(s: Seq<char>) -> Option<Self> {
        match SettingStrength::from_canonical_text(s) {
            Some(strength) => Some(ColorChromeEffectFxBlue { strength }),
            None => None,
        }
    }

    /// Writes the value in its canonical notation.
    pub fn to_canonical_string(&self) -> (text: String)
        ensures
            text@ == self.canonical_text(),
    {
        self.strength.to_canonical_string()
    }

    /// Reads a value from the characters of its canonical notation.
    pub fn parse_chars(chars: &[char]) -> (parsed: Option<Self>)
        ensures
            parsed == Self::from_canonical_text(chars@),
    {
        match SettingStrength::parse_chars(chars) {
            Some(strength) => Some(ColorChromeEffectFxBlue { strength }),
            None => None,
        }
    }

    /// Reads a value from its canonical notation.
    pub fn parse_canonical_string(text: &str) -> (parsed: Option<Self>)
        ensures
            parsed == Self::from_canonical_text(text@),
    {
        let chars = chars_of(text);
        Self::parse_chars(chars.as_slice())
    }

    /// Parsing the canonical text of a value gives the value back.
    pub proof fn round_trip(self)
        ensures
            Self::from_canonical_text(self.canonical_text()) == Some(self),
    {
        self.strength.round_trip();
    }

    /// A text that is parsed is the canonical text of what it is parsed to.
    pub proof fn only_canonical(s: Seq<char>)
        ensures
            Self::from_canonical_text(s) matches Some(value) ==> value.canonical_text() == s,
    {
    }
}

} // verus!
