//! The grain effect: off, a strength, or a strength and a size.

use vstd::prelude::*;
use crate::recipe::{GrainEffect, GrainSize, GrainStrength};
use crate::text::{
    chars_eq, chars_of, lemma_first_index_none, lemma_split_joined, lemma_split_parts,
    lemma_strip_joined, lemma_strip_parts, split_at_char, split_at_char_spec, strip_prefix,
    strip_prefix_spec,
};

verus! {

impl GrainStrength {
    /// The name of a strength holds no comma.
    pub proof fn lemma_no_comma(self)
        ensures
            forall|j: int|
                0 <= j < self.canonical_text().len() ==> self.canonical_text()[j] != ',',
    {
        reveal_strlit("Weak");
        reveal_strlit("Strong");
        assert("Weak"@ =~= seq!['W', 'e', 'a', 'k']);
        assert("Strong"@ =~= seq!['S', 't', 'r', 'o', 'n', 'g']);
    }
}

impl GrainEffect {
    /// `Off`, the strength alone, or the strength, a comma, a blank and the
    /// size.
    pub open spec fn canonical_text(&self) -> Seq<char> {
        match *self {
            GrainEffect::Off => "Off"@,
            GrainEffect::OnlyStrength { strength } => strength.canonical_text(),
            GrainEffect::StrengthAndSize { strength, size } => strength.canonical_text() + ", "@
                + size.canonical_text(),
        }
    }

    /// The effect that a text denotes.
    pub open spec fn from_canonical_text(s: Seq<char>) -> Option<Self> {
        if s == "Off"@ {
            Some(GrainEffect::Off)
        } else {
            match split_at_char_spec(s, ',') {
                None => match GrainStrength::from_canonical_text(s) {
                    Some(strength) => Some(GrainEffect::OnlyStrength { strength }),
                    None => None,
                },
                Some((first, rest)) => match (
                    GrainStrength::from_canonical_text(first),
                    strip_prefix_spec(rest, " "@),
                ) {
                    (Some(strength), Some(second)) => match GrainSize::from_canonical_text(second) {
                        Some(size) => Some(GrainEffect::StrengthAndSize { strength, size }),
                        None => None,
                    },
                    _ => None,
                },
            }
        }
    }

    /// Writes the value in its canonical notation.
    pub fn to_canonical_string(&self) -> (text: String)
        ensures
            text@ == self.canonical_text(),
    {
        match self {
            GrainEffect::Off => "Off".to_owned(),
            GrainEffect::OnlyStrength { strength } => strength.to_canonical_string(),
            GrainEffect::StrengthAndSize { strength, size } => {
                let mut text = strength.to_canonical_string();
                text.append(", ");
                text.append(size.as_str());
                text
            },
        }
    }

    /// Reads a value from the characters of its canonical notation.
    pub fn parse_chars(chars: &[char]) -> (parsed: Option<Self>)
        ensures
            parsed == Self::from_canonical_text(chars@),
    {
        if chars_eq(chars, "Off") {
            return Some(GrainEffect::Off);
        }
        match split_at_char(chars, ',') {
            None => match GrainStrength::parse_chars(chars) {
                Some(strength) => Some(GrainEffect::OnlyStrength { strength }),
                None => None,
            },
            Some((first, rest)) => match (
                GrainStrength::parse_chars(first),
                strip_prefix(rest, " "),
            ) {
                (Some(strength), Some(second)) => match GrainSize::parse_chars(second) {
                    Some(size) => Some(GrainEffect::StrengthAndSize { strength, size }),
                    None => None,
                },
                _ => None,
            },
        }
    }

    /// Reads a value from its canonical notation.
    pub fn parse_canonical_string(text: &str) -> (parsed: Option<Self>)
        ensures
            parsed == Self::from_canonical_text(text@),
    {
        let chars = chars_of(text);
        Self::parse_chars(chars.as_slice())
    }

    /// Parsing the canonical text of a grain effect gives the effect back.
    pub proof fn round_trip(self)
        ensures
            Self::from_canonical_text(self.canonical_text()) == Some(self),
    {
        let s = self.canonical_text();
        reveal_strlit("Off");
        GrainStrength::lemma_known_texts();
        GrainSize::lemma_known_texts();
        match self {
            GrainEffect::Off => {},
            GrainEffect::OnlyStrength { strength } => {
                strength.lemma_no_comma();
                lemma_first_index_none(s, ',');
                strength.round_trip();
            },
            GrainEffect::StrengthAndSize { strength, size } => {
                reveal_strlit(", ");
                reveal_strlit(" ");
                let first = strength.canonical_text();
                let second = size.canonical_text();
                assert(", "@ =~= seq![','] + " "@);
                assert(s =~= first + seq![','] + (" "@ + second));
                strength.lemma_no_comma();
                lemma_split_joined(first, ',', " "@ + second);
                lemma_strip_joined(" "@, second);
                strength.round_trip();
                size.round_trip();
            },
        }
    }

    /// A text that is parsed is the canonical text of what it is parsed to.
    pub proof fn only_canonical(s: Seq<char>)
        ensures
            Self::from_canonical_text(s) matches Some(value) ==> value.canonical_text() == s,
    {
        if s != "Off"@ && Self::from_canonical_text(s) is Some {
            match split_at_char_spec(s, ',') {
                None => {},
                Some((first, rest)) => {
                    reveal_strlit(", ");
                    reveal_strlit(" ");
                    lemma_split_parts(s, ',');
                    lemma_strip_parts(rest, " "@);
                    let second = strip_prefix_spec(rest, " "@)->0;
                    assert(", "@ =~= seq![','] + " "@);
                    assert(s =~= first + ", "@ + second);
                },
            }
        }
    }
}

} // verus!
