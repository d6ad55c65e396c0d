//! The canonical strings: each value written as the camera writes it, and
//! read back from that notation.

use vstd::prelude::*;
use crate::recipe::{
    DRangePriority, DynamicRange, GrainSize, GrainStrength, MonochromaticFilter, SettingStrength,
    Settings, TransSensor,
};
use crate::text::{chars_eq, chars_of};

pub mod balance;
pub mod film;
pub mod grain;
pub mod level;
pub mod mono;
pub mod tone;

verus! {

impl TransSensor {
    /// The short form of the generation's name.
    pub open spec fn canonical_text(&self) -> Seq<char> {
        match *self {
            TransSensor::TransI => "TransI"@,
            TransSensor::TransII => "TransII"@,
            TransSensor::TransIII => "TransIII"@,
            TransSensor::TransIV => "TransIV"@,
            TransSensor::TransV => "TransV"@,
        }
    }

    /// The long form of the generation's name.
    pub open spec fn long_text(&self) -> Seq<char> {
        match *self {
            TransSensor::TransI => "Trans Sensor I"@,
            TransSensor::TransII => "Trans Sensor II"@,
            TransSensor::TransIII => "Trans Sensor III"@,
            TransSensor::TransIV => "Trans Sensor IV"@,
            TransSensor::TransV => "Trans Sensor V"@,
        }
    }

    /// The value that a text names, if it names one.
    pub open spec fn from_canonical_text(s: Seq<char>) -> Option<Self> {
        if s == "TransI"@ {
            Some(TransSensor::TransI)
        } else if s == "TransII"@ {
            Some(TransSensor::TransII)
        } else if s == "TransIII"@ {
            Some(TransSensor::TransIII)
        } else if s == "TransIV"@ {
            Some(TransSensor::TransIV)
        } else if s == "TransV"@ {
            Some(TransSensor::TransV)
        } else if s == "Trans Sensor I"@ {
            Some(TransSensor::TransI)
        } else if s == "Trans Sensor II"@ {
            Some(TransSensor::TransII)
        } else if s == "Trans Sensor III"@ {
            Some(TransSensor::TransIII)
        } else if s == "Trans Sensor IV"@ {
            Some(TransSensor::TransIV)
        } else if s == "Trans Sensor V"@ {
            Some(TransSensor::TransV)
        } else {
            None
        }
    }

    /// The canonical text, borrowed.
    pub fn as_str(&self) -> (text: &'static str)
        ensures
            text@ == self.canonical_text(),
    {
        match self {
            TransSensor::TransI => "TransI",
            TransSensor::TransII => "TransII",
            TransSensor::TransIII => "TransIII",
            TransSensor::TransIV => "TransIV",
            TransSensor::TransV => "TransV",
        }
    }

    /// Writes the value in its canonical notation.
    pub fn to_canonical_string(&self) -> (text: String)
        ensures
            text@ == self.canonical_text(),
    {
        self.as_str().to_owned()
    }

    /// Writes the generation's name in its long form.
    pub fn to_long_string(&self) -> (text: String)
        ensures
            text@ == self.long_text(),
    {
        match self {
            TransSensor::TransI => "Trans Sensor I".to_owned(),
            TransSensor::TransII => "Trans Sensor II".to_owned(),
            TransSensor::TransIII => "Trans Sensor III".to_owned(),
            TransSensor::TransIV => "Trans Sensor IV".to_owned(),
            TransSensor::TransV => "Trans Sensor V".to_owned(),
        }
    }

    /// Reads a value from the characters of its canonical notation.
    pub fn parse_chars(chars: &[char]) -> (parsed: Option<Self>)
        ensures
            parsed == Self::from_canonical_text(chars@),
    {
        if chars_eq(chars, "TransI") {
            Some(TransSensor::TransI)
        } else if chars_eq(chars, "TransII") {
            Some(TransSensor::TransII)
        } else if chars_eq(chars, "TransIII") {
            Some(TransSensor::TransIII)
        } else if chars_eq(chars, "TransIV") {
            Some(TransSensor::TransIV)
        } else if chars_eq(chars, "TransV") {
            Some(TransSensor::TransV)
        } else if chars_eq(chars, "Trans Sensor I") {
            Some(TransSensor::TransI)
        } else if chars_eq(chars, "Trans Sensor II") {
            Some(TransSensor::TransII)
        } else if chars_eq(chars, "Trans Sensor III") {
            Some(TransSensor::TransIII)
        } else if chars_eq(chars, "Trans Sensor IV") {
            Some(TransSensor::TransIV)
        } else if chars_eq(chars, "Trans Sensor V") {
            Some(TransSensor::TransV)
        } else {
            None
        }
    }

    /// Reads a value from its canonical notation.
    pub fn parse_canonical_string(text: &str) -> (parsed: Option<Self>)
        ensures
            parsed == Self::from_canonical_text(text@),
    {
        let chars = chars_of(text);
        Self::parse_chars(chars.as_slice())
    }

    /// The lengths of the texts that the parser knows, and that no two of them
    /// are the same.
    pub proof fn lemma_known_texts()
        ensures
            "TransI"@.len() == 6,
            "TransII"@.len() == 7,
            "TransIII"@.len() == 8,
            "TransIV"@.len() == 7,
            "TransV"@.len() == 6,
            "Trans Sensor I"@.len() == 14,
            "Trans Sensor II"@.len() == 15,
            "Trans Sensor III"@.len() == 16,
            "Trans Sensor IV"@.len() == 15,
            "Trans Sensor V"@.len() == 14,
            "TransI"@ != "TransV"@,
            "TransII"@ != "TransIV"@,
            "Trans Sensor I"@ != "Trans Sensor V"@,
            "Trans Sensor II"@ != "Trans Sensor IV"@,
    {
        reveal_strlit("TransI");
        reveal_strlit("TransII");
        reveal_strlit("TransIII");
        reveal_strlit("TransIV");
        reveal_strlit("TransV");
        reveal_strlit("Trans Sensor I");
        reveal_strlit("Trans Sensor II");
        reveal_strlit("Trans Sensor III");
        reveal_strlit("Trans Sensor IV");
        reveal_strlit("Trans Sensor V");
        assert("TransI"@[5] != "TransV"@[5]);
        assert("TransII"@[6] != "TransIV"@[6]);
        assert("Trans Sensor I"@[13] != "Trans Sensor V"@[13]);
        assert("Trans Sensor II"@[14] != "Trans Sensor IV"@[14]);
    }

    /// Parsing the canonical text of a value gives the value back.
    pub proof fn round_trip(self)
        ensures
            Self::from_canonical_text(self.canonical_text()) == Some(self),
    {
        Self::lemma_known_texts();
    }

    /// Parsing the long form of a value gives the value back.
    pub proof fn round_trip_long(self)
        ensures
            Self::from_canonical_text(self.long_text()) == Some(self),
    {
        Self::lemma_known_texts();
    }

    /// A text that is parsed is the short or the long form of what it is
    /// parsed to.
    pub proof fn only_short_or_long(s: Seq<char>)
        ensures
            Self::from_canonical_text(s) matches Some(value) ==> value.canonical_text() == s
                || value.long_text() == s,
    {
    }
}

impl MonochromaticFilter {
    /// The suffix that the filter adds to a film simulation's name.
    pub open spec fn canonical_text(&self) -> Seq<char> {
        match *self {
            MonochromaticFilter::Std => ""@,
            MonochromaticFilter::Yellow => " +Ye"@,
            MonochromaticFilter::Red => " +R"@,
            MonochromaticFilter::Green => " +G"@,
        }
    }

    /// The value that a text names, if it names one.
    pub open spec fn from_canonical_text(s: Seq<char>) -> Option<Self> {
        if s == ""@ {
            Some(MonochromaticFilter::Std)
        } else if s == " +Ye"@ {
            Some(MonochromaticFilter::Yellow)
        } else if s == " +R"@ {
            Some(MonochromaticFilter::Red)
        } else if s == " +G"@ {
            Some(MonochromaticFilter::Green)
        } else if s == "Standard"@ {
            Some(MonochromaticFilter::Std)
        } else if s == "Yellow"@ {
            Some(MonochromaticFilter::Yellow)
        } else if s == "Red"@ {
            Some(MonochromaticFilter::Red)
        } else if s == "Green"@ {
            Some(MonochromaticFilter::Green)
        } else {
            None
        }
    }

    /// The canonical text, borrowed.
    pub fn as_str(&self) -> (text: &'static str)
        ensures
            text@ == self.canonical_text(),
    {
        match self {
            MonochromaticFilter::Std => "",
            MonochromaticFilter::Yellow => " +Ye",
            MonochromaticFilter::Red => " +R",
            MonochromaticFilter::Green => " +G",
        }
    }

    /// Writes the value in its canonical notation.
    pub fn to_canonical_string(&self) -> (text: String)
        ensures
            text@ == self.canonical_text(),
    {
        self.as_str().to_owned()
    }

    /// Reads a value from the characters of its canonical notation.
    pub fn parse_chars(chars: &[char]) -> (parsed: Option<Self>)
        ensures
            parsed == Self::from_canonical_text(chars@),
    {
        if chars_eq(chars, "") {
            Some(MonochromaticFilter::Std)
        } else if chars_eq(chars, " +Ye") {
            Some(MonochromaticFilter::Yellow)
        } else if chars_eq(chars, " +R") {
            Some(MonochromaticFilter::Red)
        } else if chars_eq(chars, " +G") {
            Some(MonochromaticFilter::Green)
        } else if chars_eq(chars, "Standard") {
            Some(MonochromaticFilter::Std)
        } else if chars_eq(chars, "Yellow") {
            Some(MonochromaticFilter::Yellow)
        } else if chars_eq(chars, "Red") {
            Some(MonochromaticFilter::Red)
        } else if chars_eq(chars, "Green") {
            Some(MonochromaticFilter::Green)
        } else {
            None
        }
    }

    /// Reads a value from its canonical notation.
    pub fn parse_canonical_string(text: &str) -> (parsed: Option<Self>)
        ensures
            parsed == Self::from_canonical_text(text@),
    {
        let chars = chars_of(text);
        Self::parse_chars(chars.as_slice())
    }

    /// The lengths of the texts that the parser knows, and that no two of them
    /// are the same.
    pub proof fn lemma_known_texts()
        ensures
            ""@.len() == 0,
            " +Ye"@.len() == 4,
            " +R"@.len() == 3,
            " +G"@.len() == 3,
            "Standard"@.len() == 8,
            "Yellow"@.len() == 6,
            "Red"@.len() == 3,
            "Green"@.len() == 5,
            " +R"@ != " +G"@,
            " +R"@ != "Red"@,
            " +G"@ != "Red"@,
    {
        reveal_strlit("");
        reveal_strlit(" +Ye");
        reveal_strlit(" +R");
        reveal_strlit(" +G");
        reveal_strlit("Standard");
        reveal_strlit("Yellow");
        reveal_strlit("Red");
        reveal_strlit("Green");
        assert(" +R"@[2] != " +G"@[2]);
        assert(" +R"@[0] != "Red"@[0]);
        assert(" +G"@[0] != "Red"@[0]);
    }

    /// Parsing the canonical text of a value gives the value back.
    pub proof fn round_trip(self)
        ensures
            Self::from_canonical_text(self.canonical_text()) == Some(self),
    {
        Self::lemma_known_texts();
    }

    /// The filter's name in full.
    pub open spec fn name_text(&self) -> Seq<char> {
        match *self {
            MonochromaticFilter::Std => "Standard"@,
            MonochromaticFilter::Yellow => "Yellow"@,
            MonochromaticFilter::Red => "Red"@,
            MonochromaticFilter::Green => "Green"@,
        }
    }

    /// Writes the filter's name in full.
    pub fn to_name_string(&self) -> (text: String)
        ensures
            text@ == self.name_text(),
    {
        match self {
            MonochromaticFilter::Std => "Standard".to_owned(),
            MonochromaticFilter::Yellow => "Yellow".to_owned(),
            MonochromaticFilter::Red => "Red".to_owned(),
            MonochromaticFilter::Green => "Green".to_owned(),
        }
    }

    /// Parsing the full name of a filter gives the filter back.
    pub proof fn round_trip_name(self)
        ensures
            Self::from_canonical_text(self.name_text()) == Some(self),
    {
        Self::lemma_known_texts();
    }

    /// A text that is parsed is the suffix or the full name of what it is
    /// parsed to.
    pub proof fn only_suffix_or_name(s: Seq<char>)
        ensures
            Self::from_canonical_text(s) matches Some(value) ==> value.canonical_text() == s
                || value.name_text() == s,
    {
    }
}

impl GrainStrength {
    /// The strength as the camera's menu writes it.
    pub open spec fn canonical_text(&self) -> Seq<char> {
        match *self {
            GrainStrength::Weak => "Weak"@,
            GrainStrength::Strong => "Strong"@,
        }
    }

    /// The value that a text names, if it names one.
    pub open spec fn from_canonical_text(s: Seq<char>) -> Option<Self> {
        if s == "Weak"@ {
            Some(GrainStrength::Weak)
        } else if s == "Strong"@ {
            Some(GrainStrength::Strong)
        } else {
            None
        }
    }

    /// The canonical text, borrowed.
    pub fn as_str(&self) -> (text: &'static str)
        ensures
            text@ == self.canonical_text(),
    {
        match self {
            GrainStrength::Weak => "Weak",
            GrainStrength::Strong => "Strong",
        }
    }

    /// Writes the value in its canonical notation.
    pub fn to_canonical_string(&self) -> (text: String)
        ensures
            text@ == self.canonical_text(),
    {
        self.as_str().to_owned()
    }

    /// Reads a value from the characters of its canonical notation.
    pub fn parse_chars(chars: &[char]) -> (parsed: Option<Self>)
        ensures
            parsed == Self::from_canonical_text(chars@),
    {
        if chars_eq(chars, "Weak") {
            Some(GrainStrength::Weak)
        } else if chars_eq(chars, "Strong") {
            Some(GrainStrength::Strong)
        } else {
            None
        }
    }

    /// Reads a value from its canonical notation.
    pub fn parse_canonical_string(text: &str) -> (parsed: Option<Self>)
        ensures
            parsed == Self::from_canonical_text(text@),
    {
        let chars = chars_of(text);
        Self::parse_chars(chars.as_slice())
    }

    /// The lengths of the texts that the parser knows, and that no two of them
    /// are the same.
    pub proof fn lemma_known_texts()
        ensures
            "Weak"@.len() == 4,
            "Strong"@.len() == 6,
    {
        reveal_strlit("Weak");
        reveal_strlit("Strong");
    }

    /// Parsing the canonical text of a value gives the value back.
    pub proof fn round_trip(self)
        ensures
            Self::from_canonical_text(self.canonical_text()) == Some(self),
    {
        Self::lemma_known_texts();
    }

    /// A text that is parsed is the canonical text of what it is parsed to.
    pub proof fn only_canonical(s: Seq<char>)
        ensures
            Self::from_canonical_text(s) matches Some(value) ==> value.canonical_text() == s,
    {
    }
}

impl GrainSize {
    /// The grain size as the camera's menu writes it.
    pub open spec fn canonical_text(&self) -> Seq<char> {
        match *self {
            GrainSize::Small => "Small"@,
            GrainSize::Large => "Large"@,
        }
    }

    /// The value that a text names, if it names one.
    pub open spec fn from_canonical_text(s: Seq<char>) -> Option<Self> {
        if s == "Small"@ {
            Some(GrainSize::Small)
        } else if s == "Large"@ {
            Some(GrainSize::Large)
        } else {
            None
        }
    }

    /// The canonical text, borrowed.
    pub fn as_str(&self) -> (text: &'static str)
        ensures
            text@ == self.canonical_text(),
    {
        match self {
            GrainSize::Small => "Small",
            GrainSize::Large => "Large",
        }
    }

    /// Writes the value in its canonical notation.
    pub fn to_canonical_string(&self) -> (text: String)
        ensures
            text@ == self.canonical_text(),
    {
        self.as_str().to_owned()
    }

    /// Reads a value from the characters of its canonical notation.
    pub fn parse_chars(chars: &[char]) -> (parsed: Option<Self>)
        ensures
            parsed == Self::from_canonical_text(chars@),
    {
        if chars_eq(chars, "Small") {
            Some(GrainSize::Small)
        } else if chars_eq(chars, "Large") {
            Some(GrainSize::Large)
        } else {
            None
        }
    }

    /// Reads a value from its canonical notation.
    pub fn parse_canonical_string(text: &str) -> (parsed: Option<Self>)
        ensures
            parsed == Self::from_canonical_text(text@),
    {
        let chars = chars_of(text);
        Self::parse_chars(chars.as_slice())
    }

    /// The lengths of the texts that the parser knows, and that no two of them
    /// are the same.
    pub proof fn lemma_known_texts()
        ensures
            "Small"@.len() == 5,
            "Large"@.len() == 5,
            "Small"@ != "Large"@,
    {
        reveal_strlit("Small");
        reveal_strlit("Large");
        assert("Small"@[0] != "Large"@[0]);
    }

    /// Parsing the canonical text of a value gives the value back.
    pub proof fn round_trip(self)
        ensures
            Self::from_canonical_text(self.canonical_text()) == Some(self),
    {
        Self::lemma_known_texts();
    }

    /// A text that is parsed is the canonical text of what it is parsed to.
    pub proof fn only_canonical(s: Seq<char>)
        ensures
            Self::from_canonical_text(s) matches Some(value) ==> value.canonical_text() == s,
    {
    }
}

impl SettingStrength {
    /// The strength as the camera's menu writes it.
    pub open spec fn canonical_text(&self) -> Seq<char> {
        match *self {
            SettingStrength::Off => "Off"@,
            SettingStrength::Weak => "Weak"@,
            SettingStrength::Strong => "Strong"@,
        }
    }

    /// The value that a text names, if it names one.
    pub open spec fn from_canonical_text(s: Seq<char>) -> Option<Self> {
        if s == "Off"@ {
            Some(SettingStrength::Off)
        } else if s == "Weak"@ {
            Some(SettingStrength::Weak)
        } else if s == "Strong"@ {
            Some(SettingStrength::Strong)
        } else {
            None
        }
    }

    /// The canonical text, borrowed.
    pub fn as_str(&self) -> (text: &'static str)
        ensures
            text@ == self.canonical_text(),
    {
        match self {
            SettingStrength::Off => "Off",
            SettingStrength::Weak => "Weak",
            SettingStrength::Strong => "Strong",
        }
    }

    /// Writes the value in its canonical notation.
    pub fn to_canonical_string(&self) -> (text: String)
        ensures
            text@ == self.canonical_text(),
    {
        self.as_str().to_owned()
    }

    /// Reads a value from the characters of its canonical notation.
    pub fn parse_chars(chars: &[char]) -> (parsed: Option<Self>)
        ensures
            parsed == Self::from_canonical_text(chars@),
    {
        if chars_eq(chars, "Off") {
            Some(SettingStrength::Off)
        } else if chars_eq(chars, "Weak") {
            Some(SettingStrength::Weak)
        } else if chars_eq(chars, "Strong") {
            Some(SettingStrength::Strong)
        } else {
            None
        }
    }

    /// Reads a value from its canonical notation.
    pub fn parse_canonical_string(text: &str) -> (parsed: Option<Self>)
        ensures
            parsed == Self::from_canonical_text(text@),
    {
        let chars = chars_of(text);
        Self::parse_chars(chars.as_slice())
    }

    /// The lengths of the texts that the parser knows, and that no two of them
    /// are the same.
    pub proof fn lemma_known_texts()
        ensures
            "Off"@.len() == 3,
            "Weak"@.len() == 4,
            "Strong"@.len() == 6,
    {
        reveal_strlit("Off");
        reveal_strlit("Weak");
        reveal_strlit("Strong");
    }

    /// Parsing the canonical text of a value gives the value back.
    pub proof fn round_trip(self)
        ensures
            Self::from_canonical_text(self.canonical_text()) == Some(self),
    {
        Self::lemma_known_texts();
    }

    /// A text that is parsed is the canonical text of what it is parsed to.
    pub proof fn only_canonical(s: Seq<char>)
        ensures
            Self::from_canonical_text(s) matches Some(value) ==> value.canonical_text() == s,
    {
    }
}

impl DynamicRange {
    /// The dynamic range as the camera's menu writes it.
    pub open spec fn canonical_text(&self) -> Seq<char> {
        match *self {
            DynamicRange::Auto => "Auto"@,
            DynamicRange::DR100 => "DR100"@,
            DynamicRange::DR200 => "DR200"@,
            DynamicRange::DR400 => "DR400"@,
        }
    }

    /// The value that a text names, if it names one.
    pub open spec fn from_canonical_text(s: Seq<char>) -> Option<Self> {
        if s == "Auto"@ {
            Some(DynamicRange::Auto)
        } else if s == "DR100"@ {
            Some(DynamicRange::DR100)
        } else if s == "DR200"@ {
            Some(DynamicRange::DR200)
        } else if s == "DR400"@ {
            Some(DynamicRange::DR400)
        } else {
            None
        }
    }

    /// The canonical text, borrowed.
    pub fn as_str(&self) -> (text: &'static str)
        ensures
            text@ == self.canonical_text(),
    {
        match self {
            DynamicRange::Auto => "Auto",
            DynamicRange::DR100 => "DR100",
            DynamicRange::DR200 => "DR200",
            DynamicRange::DR400 => "DR400",
        }
    }

    /// Writes the value in its canonical notation.
    pub fn to_canonical_string(&self) -> (text: String)
        ensures
            text@ == self.canonical_text(),
    {
        self.as_str().to_owned()
    }

    /// Reads a value from the characters of its canonical notation.
    pub fn parse_chars(chars: &[char]) -> (parsed: Option<Self>)
        ensures
            parsed == Self::from_canonical_text(chars@),
    {
        if chars_eq(chars, "Auto") {
            Some(DynamicRange::Auto)
        } else if chars_eq(chars, "DR100") {
            Some(DynamicRange::DR100)
        } else if chars_eq(chars, "DR200") {
            Some(DynamicRange::DR200)
        } else if chars_eq(chars, "DR400") {
            Some(DynamicRange::DR400)
        } else {
            None
        }
    }

    /// Reads a value from its canonical notation.
    pub fn parse_canonical_string(text: &str) -> (parsed: Option<Self>)
        ensures
            parsed == Self::from_canonical_text(text@),
    {
        let chars = chars_of(text);
        Self::parse_chars(chars.as_slice())
    }

    /// The lengths of the texts that the parser knows, and that no two of them
    /// are the same.
    pub proof fn lemma_known_texts()
        ensures
            "Auto"@.len() == 4,
            "DR100"@.len() == 5,
            "DR200"@.len() == 5,
            "DR400"@.len() == 5,
            "DR100"@ != "DR200"@,
            "DR100"@ != "DR400"@,
            "DR200"@ != "DR400"@,
    {
        reveal_strlit("Auto");
        reveal_strlit("DR100");
        reveal_strlit("DR200");
        reveal_strlit("DR400");
        assert("DR100"@[2] != "DR200"@[2]);
        assert("DR100"@[2] != "DR400"@[2]);
        assert("DR200"@[2] != "DR400"@[2]);
    }

    /// Parsing the canonical text of a value gives the value back.
    pub proof fn round_trip(self)
        ensures
            Self::from_canonical_text(self.canonical_text()) == Some(self),
    {
        Self::lemma_known_texts();
    }

    /// A text that is parsed is the canonical text of what it is parsed to.
    pub proof fn only_canonical(s: Seq<char>)
        ensures
            Self::from_canonical_text(s) matches Some(value) ==> value.canonical_text() == s,
    {
    }
}

impl DRangePriority {
    /// The priority as the camera's menu writes it.
    pub open spec fn canonical_text(&self) -> Seq<char> {
        match *self {
            DRangePriority::Off => "Off"@,
            DRangePriority::Auto => "Auto"@,
            DRangePriority::Weak => "Weak"@,
            DRangePriority::Strong => "Strong"@,
        }
    }

    /// The value that a text names, if it names one.
    pub open spec fn from_canonical_text(s: Seq<char>) -> Option<Self> {
        if s == "Off"@ {
            Some(DRangePriority::Off)
        } else if s == "Auto"@ {
            Some(DRangePriority::Auto)
        } else if s == "Weak"@ {
            Some(DRangePriority::Weak)
        } else if s == "Strong"@ {
            Some(DRangePriority::Strong)
        } else {
            None
        }
    }

    /// The canonical text, borrowed.
    pub fn as_str(&self) -> (text: &'static str)
        ensures
            text@ == self.canonical_text(),
    {
        match self {
            DRangePriority::Off => "Off",
            DRangePriority::Auto => "Auto",
            DRangePriority::Weak => "Weak",
            DRangePriority::Strong => "Strong",
        }
    }

    /// Writes the value in its canonical notation.
    pub fn to_canonical_string(&self) -> (text: String)
        ensures
            text@ == self.canonical_text(),
    {
        self.as_str().to_owned()
    }

    /// Reads a value from the characters of its canonical notation.
    pub fn parse_chars(chars: &[char]) -> (parsed: Option<Self>)
        ensures
            parsed == Self::from_canonical_text(chars@),
    {
        if chars_eq(chars, "Off") {
            Some(DRangePriority::Off)
        } else if chars_eq(chars, "Auto") {
            Some(DRangePriority::Auto)
        } else if chars_eq(chars, "Weak") {
            Some(DRangePriority::Weak)
        } else if chars_eq(chars, "Strong") {
            Some(DRangePriority::Strong)
        } else {
            None
        }
    }

    /// Reads a value from its canonical notation.
    pub fn parse_canonical_string(text: &str) -> (parsed: Option<Self>)
        ensures
            parsed == Self::from_canonical_text(text@),
    {
        let chars = chars_of(text);
        Self::parse_chars(chars.as_slice())
    }

    /// The lengths of the texts that the parser knows, and that no two of them
    /// are the same.
    pub proof fn lemma_known_texts()
        ensures
            "Off"@.len() == 3,
            "Auto"@.len() == 4,
            "Weak"@.len() == 4,
            "Strong"@.len() == 6,
            "Auto"@ != "Weak"@,
    {
        reveal_strlit("Off");
        reveal_strlit("Auto");
        reveal_strlit("Weak");
        reveal_strlit("Strong");
        assert("Auto"@[0] != "Weak"@[0]);
    }

    /// Parsing the canonical text of a value gives the value back.
    pub proof fn round_trip(self)
        ensures
            Self::from_canonical_text(self.canonical_text()) == Some(self),
    {
        Self::lemma_known_texts();
    }

    /// A text that is parsed is the canonical text of what it is parsed to.
    pub proof fn only_canonical(s: Seq<char>)
        ensures
            Self::from_canonical_text(s) matches Some(value) ==> value.canonical_text() == s,
    {
    }
}

impl Settings {
    /// The short name of the generation whose shape the settings have.
    pub open spec fn canonical_text(&self) -> Seq<char> {
        self.sensor().canonical_text()
    }

    /// Writes the value in its canonical notation.
    pub fn to_canonical_string(&self) -> (text: String)
        ensures
            text@ == self.canonical_text(),
    {
        self.get_sensor().to_canonical_string()
    }
}

} // verus!
