//! White balance: the mode, the temperature of the Kelvin mode, and the shift
//! that every mode carries.

use vstd::prelude::*;
use crate::number::{
    i32_of_text, int_text, lemma_int_text_chars, lemma_int_text_round_trip, parse_i32, push_int,
};
use crate::recipe::{WBShift, WhiteBalance};
use crate::text::{
    chars_eq, chars_of, labelled_pair, labelled_pair_spec, labelled_pair_text,
    lemma_first_index_none, lemma_labelled_pair, lemma_split_joined, lemma_strip_joined,
    split_at_char, split_at_char_spec, strip_prefix, strip_prefix_spec,
};
use vstd::slice::slice_subrange;

verus! {

impl WBShift {
    /// `R`, the red shift, a blank, `B`, the blue shift.
    pub open spec fn canonical_text(&self) -> Seq<char> {
        labelled_pair_text("R"@, int_text(self.red as int), "B"@, int_text(self.blue as int))
    }

    /// The shift that a text of that form denotes.
    pub open spec fn from_canonical_text(s: Seq<char>) -> Option<Self> {
        match labelled_pair_spec(s, "R"@, "B"@) {
            None => None,
            Some((r, b)) => match (i32_of_text(r), i32_of_text(b)) {
                (Ok(red), Ok(blue)) => Some(WBShift { red, blue }),
                _ => None,
            },
        }
    }

    /// Writes the value in its canonical notation.
    pub fn to_canonical_string(&self) -> (text: String)
        ensures
            text@ == self.canonical_text(),
    {
        let mut text = "R".to_owned();
        push_int(&mut text, self.red as i64);
        text.append(" ");
        text.append("B");
        push_int(&mut text, self.blue as i64);
        proof {
            reveal_strlit(" ");
            assert(" "@ =~= seq![' ']);
            assert(text@ =~= self.canonical_text());
        }
        text
    }

    /// Reads a value from the characters of its canonical notation.
    pub fn parse_chars(chars: &[char]) -> (parsed: Option<Self>)
        ensures
            parsed == Self::from_canonical_text(chars@),
    {
        match labelled_pair(chars, "R", "B") {
            None => None,
            Some((r, b)) => match (parse_i32(r), parse_i32(b)) {
                (Ok(red), Ok(blue)) => Some(WBShift { red, blue }),
                _ => None,
            },
        }
    }

    /// Reads a value from its canonical notation.
    pub fn parse_canonical_string(text: &str) -> (parsed: Option<Self>)
        ensures
            parsed == Self::from_canonical_text(text@),
    {
        let chars = chars_of(text);
        Self::parse_chars(chars.as_slice())
    }

    /// Parsing the canonical text of a shift gives the shift back.
    pub proof fn round_trip(self)
        ensures
            Self::from_canonical_text(self.canonical_text()) == Some(self),
    {
        lemma_int_text_chars(self.red as int);
        lemma_labelled_pair("R"@, int_text(self.red as int), "B"@, int_text(self.blue as int));
        lemma_int_text_round_trip(self.red as int);
        lemma_int_text_round_trip(self.blue as int);
    }
}

/// The shift of a mode that was read without one.
pub open spec fn no_shift() -> WBShift {
    WBShift { red: 0, blue: 0 }
}

impl WhiteBalance {
    /// The name of the mode; for `Kelvin` the temperature followed by `K`.
    pub open spec fn mode_text(&self) -> Seq<char> {
        match *self {
            WhiteBalance::Auto { .. } => "Auto"@,
            WhiteBalance::AutoWhitePriority { .. } => "Auto White Priority"@,
            WhiteBalance::AutoAmbiencePriority { .. } => "Auto Ambience Priority"@,
            WhiteBalance::Custom1 { .. } => "Custom 1"@,
            WhiteBalance::Custom2 { .. } => "Custom 2"@,
            WhiteBalance::Custom3 { .. } => "Custom 3"@,
            WhiteBalance::Kelvin { temperature, .. } => int_text(temperature as int) + "K"@,
            WhiteBalance::Daylight { .. } => "Daylight"@,
            WhiteBalance::Cloudy { .. } => "Cloudy"@,
            WhiteBalance::FluorescentLight1 { .. } => "Fluorescent Light 1"@,
            WhiteBalance::FluorescentLight2 { .. } => "Fluorescent Light 2"@,
            WhiteBalance::FluorescentLight3 { .. } => "Fluorescent Light 3"@,
            WhiteBalance::Incandescent { .. } => "Incandescent"@,
            WhiteBalance::Underwater { .. } => "Underwater"@,
        }
    }

    /// The mode that a name stands for, carrying no shift.
    pub open spec fn from_mode_text(s: Seq<char>) -> Option<Self> {
        if s == "Auto"@ {
            Some(WhiteBalance::Auto { shift: no_shift() })
        } else if s == "Auto White Priority"@ {
            Some(WhiteBalance::AutoWhitePriority { shift: no_shift() })
        } else if s == "Auto Ambience Priority"@ {
            Some(WhiteBalance::AutoAmbiencePriority { shift: no_shift() })
        } else if s == "Custom 1"@ {
            Some(WhiteBalance::Custom1 { shift: no_shift() })
        } else if s == "Custom 2"@ {
            Some(WhiteBalance::Custom2 { shift: no_shift() })
        } else if s == "Custom 3"@ {
            Some(WhiteBalance::Custom3 { shift: no_shift() })
        } else if s == "Daylight"@ {
            Some(WhiteBalance::Daylight { shift: no_shift() })
        } else if s == "Cloudy"@ {
            Some(WhiteBalance::Cloudy { shift: no_shift() })
        } else if s == "Fluorescent Light 1"@ {
            Some(WhiteBalance::FluorescentLight1 { shift: no_shift() })
        } else if s == "Fluorescent Light 2"@ {
            Some(WhiteBalance::FluorescentLight2 { shift: no_shift() })
        } else if s == "Fluorescent Light 3"@ {
            Some(WhiteBalance::FluorescentLight3 { shift: no_shift() })
        } else if s == "Incandescent"@ {
            Some(WhiteBalance::Incandescent { shift: no_shift() })
        } else if s == "Underwater"@ {
            Some(WhiteBalance::Underwater { shift: no_shift() })
        } else if s.len() > 0 && s.last() == 'K' {
            match i32_of_text(s.drop_last()) {
                Ok(temperature) => Some(WhiteBalance::Kelvin { temperature, shift: no_shift() }),
                Err(_) => None,
            }
        } else {
            None
        }
    }

    /// The mode, a comma, a blank and the shift.
    pub open spec fn canonical_text(&self) -> Seq<char> {
        self.mode_text() + ", "@ + self.shift().canonical_text()
    }

    /// The white balance that a text denotes: a mode alone, which then carries
    /// no shift, or a mode, a comma, a blank and a shift.
    pub open spec fn from_canonical_text(s: Seq<char>) -> Option<Self> {
        match split_at_char_spec(s, ',') {
            None => Self::from_mode_text(s),
            Some((first, rest)) => match (Self::from_mode_text(first), strip_prefix_spec(rest, " "@)) {
                (Some(mode), Some(second)) => match WBShift::from_canonical_text(second) {
                    Some(shift) => Some(mode.with_shift(shift)),
                    None => None,
                },
                _ => None,
            },
        }
    }

    /// The name of the mode.
    pub fn to_mode_string(&self) -> (text: String)
        ensures
            text@ == self.mode_text(),
    {
        match self {
            WhiteBalance::Auto { .. } => "Auto".to_owned(),
            WhiteBalance::AutoWhitePriority { .. } => "Auto White Priority".to_owned(),
            WhiteBalance::AutoAmbiencePriority { .. } => "Auto Ambience Priority".to_owned(),
            WhiteBalance::Custom1 { .. } => "Custom 1".to_owned(),
            WhiteBalance::Custom2 { .. } => "Custom 2".to_owned(),
            WhiteBalance::Custom3 { .. } => "Custom 3".to_owned(),
            WhiteBalance::Kelvin { temperature, .. } => {
                let mut text = String::new();
                push_int(&mut text, *temperature as i64);
                text.append("K");
                assert(text@ =~= self.mode_text());
                text
            },
            WhiteBalance::Daylight { .. } => "Daylight".to_owned(),
            WhiteBalance::Cloudy { .. } => "Cloudy".to_owned(),
            WhiteBalance::FluorescentLight1 { .. } => "Fluorescent Light 1".to_owned(),
            WhiteBalance::FluorescentLight2 { .. } => "Fluorescent Light 2".to_owned(),
            WhiteBalance::FluorescentLight3 { .. } => "Fluorescent Light 3".to_owned(),
            WhiteBalance::Incandescent { .. } => "Incandescent".to_owned(),
            WhiteBalance::Underwater { .. } => "Underwater".to_owned(),
        }
    }

    /// Writes the value in its canonical notation.
    pub fn to_canonical_string(&self) -> (text: String)
        ensures
            text@ == self.canonical_text(),
    {
        let mut text = self.to_mode_string();
        text.append(", ");
        let shift = self.get_shift().to_canonical_string();
        text.append(shift.as_str());
        text
    }

    /// Reads the name of a mode.
    pub fn parse_mode(chars: &[char]) -> (parsed: Option<Self>)
        ensures
            parsed == Self::from_mode_text(chars@),
    {
        let shift = WBShift { red: 0, blue: 0 };
        if chars_eq(chars, "Auto") {
            Some(WhiteBalance::Auto { shift })
        } else if chars_eq(chars, "Auto White Priority") {
            Some(WhiteBalance::AutoWhitePriority { shift })
        } else if chars_eq(chars, "Auto Ambience Priority") {
            Some(WhiteBalance::AutoAmbiencePriority { shift })
        } else if chars_eq(chars, "Custom 1") {
            Some(WhiteBalance::Custom1 { shift })
        } else if chars_eq(chars, "Custom 2") {
            Some(WhiteBalance::Custom2 { shift })
        } else if chars_eq(chars, "Custom 3") {
            Some(WhiteBalance::Custom3 { shift })
        } else if chars_eq(chars, "Daylight") {
            Some(WhiteBalance::Daylight { shift })
        } else if chars_eq(chars, "Cloudy") {
            Some(WhiteBalance::Cloudy { shift })
        } else if chars_eq(chars, "Fluorescent Light 1") {
            Some(WhiteBalance::FluorescentLight1 { shift })
        } else if chars_eq(chars, "Fluorescent Light 2") {
            Some(WhiteBalance::FluorescentLight2 { shift })
        } else if chars_eq(chars, "Fluorescent Light 3") {
            Some(WhiteBalance::FluorescentLight3 { shift })
        } else if chars_eq(chars, "Incandescent") {
            Some(WhiteBalance::Incandescent { shift })
        } else if chars_eq(chars, "Underwater") {
            Some(WhiteBalance::Underwater { shift })
        } else if chars.len() > 0 && chars[chars.len() - 1] == 'K' {
            let digits = slice_subrange(chars, 0, chars.len() - 1);
            assert(digits@ =~= chars@.drop_last());
            match parse_i32(digits) {
                Ok(temperature) => Some(WhiteBalance::Kelvin { temperature, shift }),
                Err(_) => None,
            }
        } else {
            None
        }
    }

    /// Reads a value from the characters of its canonical notation.
    pub fn parse_chars(chars: &[char]) -> (parsed: Option<Self>)
        ensures
            parsed == Self::from_canonical_text(chars@),
    {
        match split_at_char(chars, ',') {
            None => Self::parse_mode(chars),
            Some((first, rest)) => match (Self::parse_mode(first), strip_prefix(rest, " ")) {
                (Some(mode), Some(second)) => match WBShift::parse_chars(second) {
                    Some(shift) => {
                        let mut balance = mode;
                        balance.set_shift(shift);
                        Some(balance)
                    },
                    None => None,
                },
                _ => None,
            },
        }
    }

    /// Reads a value from its canonical notation.
    pub fn parse_canonical_string(text: &str) -> (parsed: Option<Self>)
        ensures
            parsed == Self::from_canonical_text(text@),
    {
        let chars = chars_of(text);
        Self::parse_chars(chars.as_slice())
    }

    /// The lengths and first letters of the mode names, and that no two names
    /// are the same.
    pub proof fn lemma_mode_names()
        ensures
            "Auto"@.len() == 4,
            "Auto White Priority"@.len() == 19,
            "Auto Ambience Priority"@.len() == 22,
            "Custom 1"@.len() == 8,
            "Custom 2"@.len() == 8,
            "Custom 3"@.len() == 8,
            "Daylight"@.len() == 8,
            "Cloudy"@.len() == 6,
            "Fluorescent Light 1"@.len() == 19,
            "Fluorescent Light 2"@.len() == 19,
            "Fluorescent Light 3"@.len() == 19,
            "Incandescent"@.len() == 12,
            "Underwater"@.len() == 10,
            "Auto"@[0] == 'A',
            "Auto White Priority"@[0] == 'A',
            "Auto Ambience Priority"@[0] == 'A',
            "Custom 1"@[0] == 'C',
            "Custom 2"@[0] == 'C',
            "Custom 3"@[0] == 'C',
            "Daylight"@[0] == 'D',
            "Cloudy"@[0] == 'C',
            "Fluorescent Light 1"@[0] == 'F',
            "Fluorescent Light 2"@[0] == 'F',
            "Fluorescent Light 3"@[0] == 'F',
            "Incandescent"@[0] == 'I',
            "Underwater"@[0] == 'U',
            "Auto White Priority"@ != "Fluorescent Light 1"@,
            "Auto White Priority"@ != "Fluorescent Light 2"@,
            "Auto White Priority"@ != "Fluorescent Light 3"@,
            "Custom 1"@ != "Custom 2"@,
            "Custom 1"@ != "Custom 3"@,
            "Custom 1"@ != "Daylight"@,
            "Custom 2"@ != "Custom 3"@,
            "Custom 2"@ != "Daylight"@,
            "Custom 3"@ != "Daylight"@,
            "Fluorescent Light 1"@ != "Fluorescent Light 2"@,
            "Fluorescent Light 1"@ != "Fluorescent Light 3"@,
            "Fluorescent Light 2"@ != "Fluorescent Light 3"@,
    {
        reveal_strlit("Auto");
        reveal_strlit("Auto White Priority");
        reveal_strlit("Auto Ambience Priority");
        reveal_strlit("Custom 1");
        reveal_strlit("Custom 2");
        reveal_strlit("Custom 3");
        reveal_strlit("Daylight");
        reveal_strlit("Cloudy");
        reveal_strlit("Fluorescent Light 1");
        reveal_strlit("Fluorescent Light 2");
        reveal_strlit("Fluorescent Light 3");
        reveal_strlit("Incandescent");
        reveal_strlit("Underwater");
        assert("Auto White Priority"@[0] != "Fluorescent Light 1"@[0]);
        assert("Auto White Priority"@[0] != "Fluorescent Light 2"@[0]);
        assert("Auto White Priority"@[0] != "Fluorescent Light 3"@[0]);
        assert("Custom 1"@[7] != "Custom 2"@[7]);
        assert("Custom 1"@[7] != "Custom 3"@[7]);
        assert("Custom 1"@[0] != "Daylight"@[0]);
        assert("Custom 2"@[7] != "Custom 3"@[7]);
        assert("Custom 2"@[0] != "Daylight"@[0]);
        assert("Custom 3"@[0] != "Daylight"@[0]);
        assert("Fluorescent Light 1"@[18] != "Fluorescent Light 2"@[18]);
        assert("Fluorescent Light 1"@[18] != "Fluorescent Light 3"@[18]);
        assert("Fluorescent Light 2"@[18] != "Fluorescent Light 3"@[18]);
    }

    /// The name of a mode holds no comma.
    pub proof fn lemma_mode_no_comma(self)
        ensures
            forall|j: int| 0 <= j < self.mode_text().len() ==> self.mode_text()[j] != ',',
    {
        match self {
            WhiteBalance::Auto { .. } => {
                reveal_strlit("Auto");
                assert("Auto"@ =~= seq!['A', 'u', 't', 'o']);
            },
            WhiteBalance::AutoWhitePriority { .. } => {
                reveal_strlit("Auto White Priority");
                assert("Auto White Priority"@ =~= seq!['A', 'u', 't', 'o', ' ', 'W', 'h', 'i', 't', 'e', ' ', 'P', 'r', 'i', 'o', 'r', 'i', 't', 'y']);
            },
            WhiteBalance::AutoAmbiencePriority { .. } => {
                reveal_strlit("Auto Ambience Priority");
                assert("Auto Ambience Priority"@ =~= seq!['A', 'u', 't', 'o', ' ', 'A', 'm', 'b', 'i', 'e', 'n', 'c', 'e', ' ', 'P', 'r', 'i', 'o', 'r', 'i', 't', 'y']);
            },
            WhiteBalance::Custom1 { .. } => {
                reveal_strlit("Custom 1");
                assert("Custom 1"@ =~= seq!['C', 'u', 's', 't', 'o', 'm', ' ', '1']);
            },
            WhiteBalance::Custom2 { .. } => {
                reveal_strlit("Custom 2");
                assert("Custom 2"@ =~= seq!['C', 'u', 's', 't', 'o', 'm', ' ', '2']);
            },
            WhiteBalance::Custom3 { .. } => {
                reveal_strlit("Custom 3");
                assert("Custom 3"@ =~= seq!['C', 'u', 's', 't', 'o', 'm', ' ', '3']);
            },
            WhiteBalance::Kelvin { temperature, .. } => {
                reveal_strlit("K");
                lemma_int_text_chars(temperature as int);
                let digits = int_text(temperature as int);
                let s = self.mode_text();
                assert forall|j: int| 0 <= j < s.len() implies s[j] != ',' by {
                    if j < digits.len() {
                        assert(s[j] == digits[j]);
                    } else {
                        assert(s[j] == "K"@[j - digits.len()]);
                    }
                }
            },
            WhiteBalance::Daylight { .. } => {
                reveal_strlit("Daylight");
                assert("Daylight"@ =~= seq!['D', 'a', 'y', 'l', 'i', 'g', 'h', 't']);
            },
            WhiteBalance::Cloudy { .. } => {
                reveal_strlit("Cloudy");
                assert("Cloudy"@ =~= seq!['C', 'l', 'o', 'u', 'd', 'y']);
            },
            WhiteBalance::FluorescentLight1 { .. } => {
                reveal_strlit("Fluorescent Light 1");
                assert("Fluorescent Light 1"@ =~= seq!['F', 'l', 'u', 'o', 'r', 'e', 's', 'c', 'e', 'n', 't', ' ', 'L', 'i', 'g', 'h', 't', ' ', '1']);
            },
            WhiteBalance::FluorescentLight2 { .. } => {
                reveal_strlit("Fluorescent Light 2");
                assert("Fluorescent Light 2"@ =~= seq!['F', 'l', 'u', 'o', 'r', 'e', 's', 'c', 'e', 'n', 't', ' ', 'L', 'i', 'g', 'h', 't', ' ', '2']);
            },
            WhiteBalance::FluorescentLight3 { .. } => {
                reveal_strlit("Fluorescent Light 3");
                assert("Fluorescent Light 3"@ =~= seq!['F', 'l', 'u', 'o', 'r', 'e', 's', 'c', 'e', 'n', 't', ' ', 'L', 'i', 'g', 'h', 't', ' ', '3']);
            },
            WhiteBalance::Incandescent { .. } => {
                reveal_strlit("Incandescent");
                assert("Incandescent"@ =~= seq!['I', 'n', 'c', 'a', 'n', 'd', 'e', 's', 'c', 'e', 'n', 't']);
            },
            WhiteBalance::Underwater { .. } => {
                reveal_strlit("Underwater");
                assert("Underwater"@ =~= seq!['U', 'n', 'd', 'e', 'r', 'w', 'a', 't', 'e', 'r']);
            },
        }
    }

    /// Reading the name of a mode gives the mode back, without its shift.
    pub proof fn mode_round_trip(self)
        ensures
            Self::from_mode_text(self.mode_text()) == Some(self.with_shift(no_shift())),
    {
        Self::lemma_mode_names();
        match self {
            WhiteBalance::Kelvin { temperature, .. } => {
                reveal_strlit("K");
                let digits = int_text(temperature as int);
                let s = self.mode_text();
                lemma_int_text_chars(temperature as int);
                lemma_int_text_round_trip(temperature as int);
                assert(s[0] == digits[0]);
                assert(s.last() == "K"@[0]);
                assert(s.drop_last() =~= digits);
            },
            _ => {},
        }
    }

    /// Parsing the canonical text of a white balance gives it back: the mode,
    /// the temperature where there is one, and the shift.
    pub proof fn round_trip(self)
        ensures
            Self::from_canonical_text(self.canonical_text()) == Some(self),
    {
        let s = self.canonical_text();
        let first = self.mode_text();
        let second = self.shift().canonical_text();
        let rest = " "@ + second;
        assert(split_at_char_spec(s, ',') == Some((first, rest))) by {
            reveal_strlit(", ");
            reveal_strlit(" ");
            assert(", "@ =~= seq![','] + " "@);
            assert(s =~= first + seq![','] + rest);
            self.lemma_mode_no_comma();
            lemma_split_joined(first, ',', rest);
        }
        assert(strip_prefix_spec(rest, " "@) == Some(second)) by {
            lemma_strip_joined(" "@, second);
        }
        assert(Self::from_mode_text(first) == Some(self.with_shift(no_shift()))) by {
            self.mode_round_trip();
        }
        assert(WBShift::from_canonical_text(second) == Some(self.shift())) by {
            self.shift().round_trip();
        }
        assert(self.with_shift(no_shift()).with_shift(self.shift()) == self);
    }

    /// A mode written alone reads as that mode without a shift.
    pub proof fn mode_alone(self)
        ensures
            Self::from_canonical_text(self.mode_text()) == Some(self.with_shift(no_shift())),
    {
        self.lemma_mode_no_comma();
        lemma_first_index_none(self.mode_text(), ',');
        self.mode_round_trip();
    }
}

} // verus!
