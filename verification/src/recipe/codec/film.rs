//! Film simulations, and the monochrome filter that two of them carry in
//! their name.

use vstd::prelude::*;
use crate::text::{
    chars_eq, chars_of, lemma_strip_joined, lemma_strip_parts, strip_prefix, strip_prefix_spec,
};
use crate::recipe::{FilmSimulation, MonochromaticFilter};

verus! {

impl MonochromaticFilter {
    /// The filter that a suffix of a film simulation's name stands for.
    pub open spec fn from_suffix(s: Seq<char>) -> Option<Self> {
        if s == ""@ {
            Some(MonochromaticFilter::Std)
        } else if s == " +Ye"@ {
            Some(MonochromaticFilter::Yellow)
        } else if s == " +R"@ {
            Some(MonochromaticFilter::Red)
        } else if s == " +G"@ {
            Some(MonochromaticFilter::Green)
        } else {
            None
        }
    }

    /// Reads a filter from the characters of its suffix.
    pub fn parse_suffix(chars: &[char]) -> (parsed: Option<Self>)
        ensures
            parsed == Self::from_suffix(chars@),
    {
        if chars_eq(chars, "") {
            Some(MonochromaticFilter::Std)
        } else if chars_eq(chars, " +Ye") {
            Some(MonochromaticFilter::Yellow)
        } else if chars_eq(chars, " +R") {
            Some(MonochromaticFilter::Red)
        } else if chars_eq(chars, " +G") {
            Some(MonochromaticFilter::Green)
        } else {
            None
        }
    }

    /// Reading a filter's suffix gives the filter back.
    pub proof fn suffix_round_trip(self)
        ensures
            Self::from_suffix(self.canonical_text()) == Some(self),
    {
        Self::lemma_known_texts();
    }
}

impl FilmSimulation {
    /// The name of the simulation; `Acros` and `Monochrome` with the suffix of
    /// their filter joined on.
    pub open spec fn canonical_text(&self) -> Seq<char> {
        match *self {
            FilmSimulation::ProviaStandard => "Provia"@,
            FilmSimulation::VelviaVivid => "Velvia"@,
            FilmSimulation::AstiaSoft => "Astia"@,
            FilmSimulation::ClassicChrome => "Classic Chrome"@,
            FilmSimulation::RealaAce => "Reala Ace"@,
            FilmSimulation::ProNegHi => "Pro Neg. Hi"@,
            FilmSimulation::ProNegStd => "Pro Neg. Std"@,
            FilmSimulation::ClassicNeg => "Classic Negative"@,
            FilmSimulation::NostalgicNeg => "Nostalgic Negative"@,
            FilmSimulation::EternaCinema => "Eterna"@,
            FilmSimulation::BleachBypass => "Eterna Bleach Bypass"@,
            FilmSimulation::Acros { filter } => "Acros"@ + filter.canonical_text(),
            FilmSimulation::Monochrome { filter } => "Monochrome"@ + filter.canonical_text(),
            FilmSimulation::Sepia => "Sepia"@,
        }
    }

    /// The simulation without a filter that a text names.
    pub open spec fn from_plain_name(s: Seq<char>) -> Option<Self> {
        if s == "Provia"@ {
            Some(FilmSimulation::ProviaStandard)
        } else if s == "Velvia"@ {
            Some(FilmSimulation::VelviaVivid)
        } else if s == "Astia"@ {
            Some(FilmSimulation::AstiaSoft)
        } else if s == "Classic Chrome"@ {
            Some(FilmSimulation::ClassicChrome)
        } else if s == "Reala Ace"@ {
            Some(FilmSimulation::RealaAce)
        } else if s == "Pro Neg. Hi"@ {
            Some(FilmSimulation::ProNegHi)
        } else if s == "Pro Neg. Std"@ {
            Some(FilmSimulation::ProNegStd)
        } else if s == "Classic Negative"@ {
            Some(FilmSimulation::ClassicNeg)
        } else if s == "Nostalgic Negative"@ {
            Some(FilmSimulation::NostalgicNeg)
        } else if s == "Eterna"@ {
            Some(FilmSimulation::EternaCinema)
        } else if s == "Eterna Bleach Bypass"@ {
            Some(FilmSimulation::BleachBypass)
        } else if s == "Sepia"@ {
            Some(FilmSimulation::Sepia)
        } else {
            None
        }
    }

    /// The simulation that a text names: a plain name, or `Acros` or
    /// `Monochrome` followed by a filter's suffix.
    pub open spec fn from_canonical_text(s: Seq<char>) -> Option<Self> {
        if Self::from_plain_name(s) is Some {
            Self::from_plain_name(s)
        } else if strip_prefix_spec(s, "Acros"@) is Some {
            match MonochromaticFilter::from_suffix(strip_prefix_spec(s, "Acros"@)->0) {
                Some(filter) => Some(FilmSimulation::Acros { filter }),
                None => None,
            }
        } else if strip_prefix_spec(s, "Monochrome"@) is Some {
            match MonochromaticFilter::from_suffix(strip_prefix_spec(s, "Monochrome"@)->0) {
                Some(filter) => Some(FilmSimulation::Monochrome { filter }),
                None => None,
            }
        } else {
            None
        }
    }

    /// Writes the value in its canonical notation.
    pub fn to_canonical_string(&self) -> (text: String)
        ensures
            text@ == self.canonical_text(),
    {
        match self {
            FilmSimulation::ProviaStandard => "Provia".to_owned(),
            FilmSimulation::VelviaVivid => "Velvia".to_owned(),
            FilmSimulation::AstiaSoft => "Astia".to_owned(),
            FilmSimulation::ClassicChrome => "Classic Chrome".to_owned(),
            FilmSimulation::RealaAce => "Reala Ace".to_owned(),
            FilmSimulation::ProNegHi => "Pro Neg. Hi".to_owned(),
            FilmSimulation::ProNegStd => "Pro Neg. Std".to_owned(),
            FilmSimulation::ClassicNeg => "Classic Negative".to_owned(),
            FilmSimulation::NostalgicNeg => "Nostalgic Negative".to_owned(),
            FilmSimulation::EternaCinema => "Eterna".to_owned(),
            FilmSimulation::BleachBypass => "Eterna Bleach Bypass".to_owned(),
            FilmSimulation::Acros { filter } => {
                let mut text = "Acros".to_owned();
                text.append(filter.as_str());
                text
            },
            FilmSimulation::Monochrome { filter } => {
                let mut text = "Monochrome".to_owned();
                text.append(filter.as_str());
                text
            },
            FilmSimulation::Sepia => "Sepia".to_owned(),
        }
    }

    fn parse_plain_name(chars: &[char]) -> (parsed: Option<Self>)
        ensures
            parsed == Self::from_plain_name(chars@),
    {
        if chars_eq(chars, "Provia") {
            Some(FilmSimulation::ProviaStandard)
        } else if chars_eq(chars, "Velvia") {
            Some(FilmSimulation::VelviaVivid)
        } else if chars_eq(chars, "Astia") {
            Some(FilmSimulation::AstiaSoft)
        } else if chars_eq(chars, "Classic Chrome") {
            Some(FilmSimulation::ClassicChrome)
        } else if chars_eq(chars, "Reala Ace") {
            Some(FilmSimulation::RealaAce)
        } else if chars_eq(chars, "Pro Neg. Hi") {
            Some(FilmSimulation::ProNegHi)
        } else if chars_eq(chars, "Pro Neg. Std") {
            Some(FilmSimulation::ProNegStd)
        } else if chars_eq(chars, "Classic Negative") {
            Some(FilmSimulation::ClassicNeg)
        } else if chars_eq(chars, "Nostalgic Negative") {
            Some(FilmSimulation::NostalgicNeg)
        } else if chars_eq(chars, "Eterna") {
            Some(FilmSimulation::EternaCinema)
        } else if chars_eq(chars, "Eterna Bleach Bypass") {
            Some(FilmSimulation::BleachBypass)
        } else if chars_eq(chars, "Sepia") {
            Some(FilmSimulation::Sepia)
        } else {
            None
        }
    }

    /// Reads a value from the characters of its canonical notation.
    pub fn parse_chars(chars: &[char]) -> (parsed: Option<Self>)
        ensures
            parsed == Self::from_canonical_text(chars@),
    {
        let plain = Self::parse_plain_name(chars);
        if plain.is_some() {
            return plain;
        }
        if let Some(rest) = strip_prefix(chars, "Acros") {
            return match MonochromaticFilter::parse_suffix(rest) {
                Some(filter) => Some(FilmSimulation::Acros { filter }),
                None => None,
            };
        }
        if let Some(rest) = strip_prefix(chars, "Monochrome") {
            return match MonochromaticFilter::parse_suffix(rest) {
                Some(filter) => Some(FilmSimulation::Monochrome { filter }),
                None => None,
            };
        }
        None
    }

    /// Reads a value from its canonical notation.
    pub fn parse_canonical_string(text: &str) -> (parsed: Option<Self>)
        ensures
            parsed == Self::from_canonical_text(text@),
    {
        let chars = chars_of(text);
        Self::parse_chars(chars.as_slice())
    }
}

impl FilmSimulation {
    /// The lengths of the plain names, and that no two of them are the same.
    pub proof fn lemma_plain_names()
        ensures
            "Provia"@.len() == 6,
            "Velvia"@.len() == 6,
            "Astia"@.len() == 5,
            "Classic Chrome"@.len() == 14,
            "Reala Ace"@.len() == 9,
            "Pro Neg. Hi"@.len() == 11,
            "Pro Neg. Std"@.len() == 12,
            "Classic Negative"@.len() == 16,
            "Nostalgic Negative"@.len() == 18,
            "Eterna"@.len() == 6,
            "Eterna Bleach Bypass"@.len() == 20,
            "Sepia"@.len() == 5,
            "Provia"@ != "Velvia"@,
            "Provia"@ != "Eterna"@,
            "Velvia"@ != "Eterna"@,
            "Astia"@ != "Sepia"@,
            "Astia"@[1] == 's',
            "Sepia"@[0] == 'S',
            "Reala Ace"@[0] == 'R',
            "Classic Chrome"@[0] == 'C',
    {
        reveal_strlit("Provia");
        reveal_strlit("Velvia");
        reveal_strlit("Astia");
        reveal_strlit("Classic Chrome");
        reveal_strlit("Reala Ace");
        reveal_strlit("Pro Neg. Hi");
        reveal_strlit("Pro Neg. Std");
        reveal_strlit("Classic Negative");
        reveal_strlit("Nostalgic Negative");
        reveal_strlit("Eterna");
        reveal_strlit("Eterna Bleach Bypass");
        reveal_strlit("Sepia");
        assert("Provia"@[0] != "Velvia"@[0]);
        assert("Provia"@[0] != "Eterna"@[0]);
        assert("Velvia"@[0] != "Eterna"@[0]);
        assert("Astia"@[0] != "Sepia"@[0]);
    }

    /// Parsing the canonical text of a film simulation gives it back.
    pub proof fn round_trip(self)
        ensures
            Self::from_canonical_text(self.canonical_text()) == Some(self),
    {
        Self::lemma_plain_names();
        let s = self.canonical_text();
        match self {
            FilmSimulation::Acros { filter } => {
                reveal_strlit("Acros");
                filter.suffix_round_trip();
                MonochromaticFilter::lemma_known_texts();
                let suffix = filter.canonical_text();
                assert(s[0] == 'A' && s[1] == 'c') by {
                    assert("Acros"@[0] == 'A' && "Acros"@[1] == 'c');
                }
                assert(s.len() == 5 + suffix.len());
                assert(Self::from_plain_name(s) is None);
                lemma_strip_joined("Acros"@, suffix);
            },
            FilmSimulation::Monochrome { filter } => {
                reveal_strlit("Acros");
                reveal_strlit("Monochrome");
                filter.suffix_round_trip();
                MonochromaticFilter::lemma_known_texts();
                let suffix = filter.canonical_text();
                assert(s[0] == 'M') by {
                    assert("Monochrome"@[0] == 'M');
                }
                assert(s.len() == 10 + suffix.len());
                assert(Self::from_plain_name(s) is None);
                assert(strip_prefix_spec(s, "Acros"@) is None) by {
                    if "Acros"@.is_prefix_of(s) {
                        assert(s.subrange(0, 5)[0] == "Acros"@[0]);
                    }
                }
                lemma_strip_joined("Monochrome"@, suffix);
            },
            _ => {},
        }
    }

    /// A text that is parsed is the canonical text of what it is parsed to.
    pub proof fn only_canonical(s: Seq<char>)
        ensures
            Self::from_canonical_text(s) matches Some(value) ==> value.canonical_text() == s,
    {
        if Self::from_plain_name(s) is None {
            if strip_prefix_spec(s, "Acros"@) is Some {
                lemma_strip_parts(s, "Acros"@);
            } else if strip_prefix_spec(s, "Monochrome"@) is Some {
                lemma_strip_parts(s, "Monochrome"@);
            }
        }
    }
}

} // verus!
