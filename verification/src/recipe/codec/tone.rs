//! The tone curve: highlights and shadows, each a decimal with at most one
//! digit after the point.

use vstd::prelude::*;
use crate::number::{
    i64_tenths_of_text, lemma_tenths_text_chars, lemma_tenths_text_round_trip, parse_tenths,
    push_tenths, tenths_text,
};
use crate::recipe::{Tone, ToneCurve};
use crate::text::{
    chars_of, labelled_pair, labelled_pair_spec, labelled_pair_text, lemma_labelled_pair,
};

verus! {

impl Tone {
    /// The value in decimal: no point where the fraction is zero, and never a
    /// `+`.
    pub open spec fn canonical_text(&self) -> Seq<char> {
        tenths_text(self.tenths as int)
    }

    /// The value that a text denotes, if it is such a decimal within range.
    pub open spec fn from_canonical_text(s: Seq<char>) -> Option<Self> {
        match i64_tenths_of_text(s) {
            Ok(tenths) => Some(Tone { tenths }),
            Err(_) => None,
        }
    }

    /// Writes the value in its canonical notation.
    pub fn to_canonical_string(&self) -> (text: String)
        ensures
            text@ == self.canonical_text(),
    {
        let mut text = String::new();
        push_tenths(&mut text, self.tenths);
        assert(text@ =~= self.canonical_text());
        text
    }

    /// Reads a value from the characters of its canonical notation.
    pub fn parse_chars(chars: &[char]) -> (parsed: Option<Self>)
        ensures
            parsed == Self::from_canonical_text(chars@),
    {
        match parse_tenths(chars) {
            Ok(tenths) => Some(Tone { tenths }),
            Err(_) => None,
        }
    }

    /// Reads a value from its canonical notation.
    pub fn parse_canonical_string(text: &str) -> (parsed: Option<Self>)
        ensures
            parsed == Self::from_canonical_text(text@),
    {
        let chars = chars_of(text);
        Self::parse_chars(chars.as_slice())
    }

    /// Parsing the canonical text of a value gives the value back.
    pub proof fn round_trip(self)
        ensures
            Self::from_canonical_text(self.canonical_text()) == Some(self),
    {
        lemma_tenths_text_round_trip(self.tenths as int);
    }
}

impl ToneCurve {
    /// `H`, the highlights, a blank, `S`, the shadows.
    pub open spec fn canonical_text(&self) -> Seq<char> {
        labelled_pair_text(
            "H"@,
            self.highlights.canonical_text(),
            "S"@,
            self.shadows.canonical_text(),
        )
    }

    /// The curve that a text of that form denotes.
    pub open spec fn from_canonical_text(s: Seq<char>) -> Option<Self> {
        match labelled_pair_spec(s, "H"@, "S"@) {
            None => None,
            Some((h, s)) => match (Tone::from_canonical_text(h), Tone::from_canonical_text(s)) {
                (Some(highlights), Some(shadows)) => Some(ToneCurve { highlights, shadows }),
                _ => None,
            },
        }
    }

    /// Writes the value in its canonical notation.
    pub fn to_canonical_string(&self) -> (text: String)
        ensures
            text@ == self.canonical_text(),
    {
        let mut text = "H".to_owned();
        push_tenths(&mut text, self.highlights.tenths);
        text.append(" ");
        text.append("S");
        push_tenths(&mut text, self.shadows.tenths);
        proof {
            reveal_strlit(" ");
            assert(" "@ =~= seq![' ']);
            assert(text@ =~= self.canonical_text());
        }
        text
    }

    /// Reads a value from the characters of its canonical notation.
    pub fn parse_chars(chars: &[char]) -> (parsed: Option<Self>)
        ensures
            parsed == Self::from_canonical_text(chars@),
    {
        match labelled_pair(chars, "H", "S") {
            None => None,
            Some((h, s)) => match (Tone::parse_chars(h), Tone::parse_chars(s)) {
                (Some(highlights), Some(shadows)) => Some(ToneCurve { highlights, shadows }),
                _ => None,
            },
        }
    }

    /// Reads a value from its canonical notation.
    pub fn parse_canonical_string(text: &str) -> (parsed: Option<Self>)
        ensures
            parsed == Self::from_canonical_text(text@),
    {
        let chars = chars_of(text);
        Self::parse_chars(chars.as_slice())
    }

    /// Parsing the canonical text of a curve gives the curve back.
    pub proof fn round_trip(self)
        ensures
            Self::from_canonical_text(self.canonical_text()) == Some(self),
    {
        let h = self.highlights.canonical_text();
        let s = self.shadows.canonical_text();
        lemma_tenths_text_chars(self.highlights.tenths as int);
        lemma_labelled_pair("H"@, h, "S"@, s);
        self.highlights.round_trip();
        self.shadows.round_trip();
    }
}

} // verus!
