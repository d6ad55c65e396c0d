//! The tint of a monochrome picture.

use vstd::prelude::*;
use crate::number::{
    i64_of_text, int_text, lemma_int_text_chars, lemma_int_text_round_trip, parse_i64, push_int,
};
use crate::recipe::{MonochromaticColor, MonochromaticColorShift};
use crate::text::{
    chars_of, labelled_pair, labelled_pair_spec, labelled_pair_text, lemma_labelled_pair,
    strip_prefix, strip_prefix_spec,
};

verus! {

impl MonochromaticColorShift {
    /// `WC`, the warm-cool shift, a blank, `MG`, the magenta-green shift.
    pub open spec fn canonical_text(&self) -> Seq<char> {
        labelled_pair_text("WC"@, int_text(self.wc as int), "MG"@, int_text(self.mg as int))
    }

    /// The shift that a text of that form denotes.
    pub open spec fn from_canonical_text(s: Seq<char>) -> Option<Self> {
        match labelled_pair_spec(s, "WC"@, "MG"@) {
            None => None,
            Some((w, m)) => match (i64_of_text(w), i64_of_text(m)) {
                (Ok(wc), Ok(mg)) => Some(MonochromaticColorShift { wc, mg }),
                _ => None,
            },
        }
    }

    /// Writes the value in its canonical notation.
    pub fn to_canonical_string(&self) -> (text: String)
        ensures
            text@ == self.canonical_text(),
    {
        let mut text = "WC".to_owned();
        push_int(&mut text, self.wc);
        text.append(" ");
        text.append("MG");
        push_int(&mut text, self.mg);
        proof {
            reveal_strlit(" ");
            assert(" "@ =~= seq![' ']);
            assert(text@ =~= self.canonical_text());
        }
        text
    }

    /// Reads a value from the characters of its canonical notation.
    pub fn parse_chars(chars: &[char]) -> (parsed: Option<Self>)
        ensures
            parsed == Self::from_canonical_text(chars@),
    {
        match labelled_pair(chars, "WC", "MG") {
            None => None,
            Some((w, m)) => match (parse_i64(w), parse_i64(m)) {
                (Ok(wc), Ok(mg)) => Some(MonochromaticColorShift { wc, mg }),
                _ => None,
            },
        }
    }

    /// Reads a value from its canonical notation.
    pub fn parse_canonical_string(text: &str) -> (parsed: Option<Self>)
        ensures
            parsed == Self::from_canonical_text(text@),
    {
        let chars = chars_of(text);
        Self::parse_chars(chars.as_slice())
    }

    /// Parsing the canonical text of a shift gives the shift back.
    pub proof fn round_trip(self)
        ensures
            Self::from_canonical_text(self.canonical_text()) == Some(self),
    {
        lemma_int_text_chars(self.wc as int);
        lemma_labelled_pair("WC"@, int_text(self.wc as int), "MG"@, int_text(self.mg as int));
        lemma_int_text_round_trip(self.wc as int);
        lemma_int_text_round_trip(self.mg as int);
    }
}

impl MonochromaticColor {
    /// A shift in its own notation; a strength as a whole number.
    pub open spec fn canonical_text(&self) -> Seq<char> {
        match *self {
            MonochromaticColor::ColorShift { shift } => shift.canonical_text(),
            MonochromaticColor::Strength { value } => int_text(value as int),
        }
    }

    /// The tint that a text denotes: a shift where the text begins with `WC`,
    /// a strength otherwise.
    pub open spec fn from_canonical_text(s: Seq<char>) -> Option<Self> {
        if strip_prefix_spec(s, "WC"@) is Some {
            match MonochromaticColorShift::from_canonical_text(s) {
                Some(shift) => Some(MonochromaticColor::ColorShift { shift }),
                None => None,
            }
        } else {
            match i64_of_text(s) {
                Ok(value) => Some(MonochromaticColor::Strength { value }),
                Err(_) => None,
            }
        }
    }

    /// Writes the value in its canonical notation.
    pub fn to_canonical_string(&self) -> (text: String)
        ensures
            text@ == self.canonical_text(),
    {
        match self {
            MonochromaticColor::ColorShift { shift } => shift.to_canonical_string(),
            MonochromaticColor::Strength { value } => {
                let mut text = String::new();
                push_int(&mut text, *value);
                assert(text@ =~= self.canonical_text());
                text
            },
        }
    }

    /// Reads a value from the characters of its canonical notation.
    pub fn parse_chars(chars: &[char]) -> (parsed: Option<Self>)
        ensures
            parsed == Self::from_canonical_text(chars@),
    {
        if strip_prefix(chars, "WC").is_some() {
            match MonochromaticColorShift::parse_chars(chars) {
                Some(shift) => Some(MonochromaticColor::ColorShift { shift }),
                None => None,
            }
        } else {
            match parse_i64(chars) {
                Ok(value) => Some(MonochromaticColor::Strength { value }),
                Err(_) => None,
            }
        }
    }

    /// Reads a value from its canonical notation.
    pub fn parse_canonical_string(text: &str) -> (parsed: Option<Self>)
        ensures
            parsed == Self::from_canonical_text(text@),
    {
        let chars = chars_of(text);
        Self::parse_chars(chars.as_slice())
    }

    /// Parsing the canonical text of a tint gives the tint back.
    pub proof fn round_trip(self)
        ensures
            Self::from_canonical_text(self.canonical_text()) == Some(self),
    {
        let s = self.canonical_text();
        match self {
            MonochromaticColor::ColorShift { shift } => {
                shift.round_trip();
            },
            MonochromaticColor::Strength { value } => {
                reveal_strlit("WC");
                lemma_int_text_chars(value as int);
                lemma_int_text_round_trip(value as int);
                assert(strip_prefix_spec(s, "WC"@) is None) by {
                    if "WC"@.is_prefix_of(s) {
                        assert(s.subrange(0, 2)[0] == "WC"@[0]);
                        assert(s[0] == 'W');
                    }
                }
            },
        }
    }
}

} // verus!
