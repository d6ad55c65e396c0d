//! The tag store: an ordered list of named, textual metadata fields.
//!
//! Several entries may share a name; the first one is the one that counts.

use vstd::prelude::*;
use crate::number::{
    i32_of_text, i64_of_text, i64_tenths_of_text, parse_i32, parse_i64, parse_tenths,
    ConversionError,
};
use crate::text::{chars_of, str_eq};

verus! {

/// What an entry of the tag store holds: a name and a raw value.
pub struct Tag {
    pub name: Seq<char>,
    pub value: Seq<char>,
}

/// One metadata field of an image: a tag name and its raw textual value.
#[derive(Debug, Clone, PartialEq, Eq)]
pub struct ExifData {
    tag: String,
    value: String,
}

impl View for ExifData {
    type V = Tag;

    closed spec fn view(&self) -> Tag {
        Tag { name: self.tag@, value: self.value@ }
    }
}

impl ExifData {
    /// An entry with the given name and raw value.
    pub fn new(tag: &str, value: &str) -> (entry: ExifData)
        ensures
            entry@ == (Tag { name: tag@, value: value@ }),
    {
        ExifData { tag: tag.to_owned(), value: value.to_owned() }
    }

    /// The name of the tag.
    pub fn tag(&self) -> (name: &str)
        ensures
            name@ == self@.name,
    {
        self.tag.as_str()
    }

    /// The raw value of the tag.
    pub fn value(&self) -> (raw: &str)
        ensures
            raw@ == self@.value,
    {
        self.value.as_str()
    }

    /// The raw value read as a whole number.
    pub fn value_as_i64(&self) -> (parsed: Result<i64, ConversionError>)
        ensures
            parsed == i64_of_text(self@.value),
    {
        let chars = chars_of(self.value.as_str());
        parse_i64(chars.as_slice())
    }

    /// The raw value read as a whole number of 32 bits.
    pub fn value_as_i32(&self) -> (parsed: Result<i32, ConversionError>)
        ensures
            parsed == i32_of_text(self@.value),
    {
        let chars = chars_of(self.value.as_str());
        parse_i32(chars.as_slice())
    }

    /// The raw value read as a decimal with at most one digit after the
    /// point, counted in tenths.
    pub fn value_as_tenths(&self) -> (parsed: Result<i64, ConversionError>)
        ensures
            parsed == i64_tenths_of_text(self@.value),
    {
        let chars = chars_of(self.value.as_str());
        parse_tenths(chars.as_slice())
    }
}

/// Some entry carries the name.
pub open spec fn has_tag(tags: Seq<ExifData>, name: Seq<char>) -> bool {
    exists|i: int| 0 <= i < tags.len() && (#[trigger] tags[i])@.name == name
}

/// Entry `i` carries the name and no earlier entry does.
pub open spec fn is_first_match(tags: Seq<ExifData>, name: Seq<char>, i: int) -> bool {
    &&& 0 <= i < tags.len()
    &&& tags[i]@.name == name
    &&& forall|j: int| 0 <= j < i ==> (#[trigger] tags[j])@.name != name
}

/// The place of the first entry that carries the name.
pub open spec fn first_match(tags: Seq<ExifData>, name: Seq<char>) -> Option<int> {
    if exists|i: int| is_first_match(tags, name, i) {
        Some(choose|i: int| is_first_match(tags, name, i))
    } else {
        None
    }
}

/// The raw value of the first entry that carries the name.
pub open spec fn lookup(tags: Seq<ExifData>, name: Seq<char>) -> Option<Seq<char>> {
    match first_match(tags, name) {
        Some(i) => Some(tags[i]@.value),
        None => None,
    }
}

/// Where entry `i` is the first with the name, it is the one that is found.
pub proof fn lemma_first_match_at(tags: Seq<ExifData>, name: Seq<char>, i: int)
    requires
        is_first_match(tags, name, i),
    ensures
        first_match(tags, name) == Some(i),
        lookup(tags, name) == Some(tags[i]@.value),
{
    let k = choose|k: int| is_first_match(tags, name, k);
    assert(is_first_match(tags, name, k));
    if k < i {
        assert(tags[k]@.name != name);
    } else if i < k {
        assert(tags[i]@.name != name);
    }
}

/// A name that no entry carries is not found.
pub proof fn lemma_absent_tag(tags: Seq<ExifData>, name: Seq<char>)
    requires
        !has_tag(tags, name),
    ensures
        first_match(tags, name) is None,
        lookup(tags, name) is None,
{
    if exists|i: int| is_first_match(tags, name, i) {
        let i = choose|i: int| is_first_match(tags, name, i);
        assert(tags[i]@.name == name);
    }
}

/// A name that some entry carries is found.
pub proof fn lemma_present_tag(tags: Seq<ExifData>, name: Seq<char>)
    requires
        has_tag(tags, name),
    ensures
        first_match(tags, name) is Some,
        lookup(tags, name) is Some,
{
    let i = choose|i: int| 0 <= i < tags.len() && (#[trigger] tags[i])@.name == name;
    lemma_least_match(tags, name, i);
}

/// Below any entry with the name there is a first one.
proof fn lemma_least_match(tags: Seq<ExifData>, name: Seq<char>, i: int)
    requires
        0 <= i < tags.len(),
        tags[i]@.name == name,
    ensures
        exists|k: int| is_first_match(tags, name, k),
    decreases i,
{
    if exists|j: int| 0 <= j < i && (#[trigger] tags[j])@.name == name {
        let j = choose|j: int| 0 <= j < i && (#[trigger] tags[j])@.name == name;
        lemma_least_match(tags, name, j);
    } else {
        assert(is_first_match(tags, name, i));
    }
}

/// The first entry that carries the name, if any does.
pub fn find<'a>(data: &'a [ExifData], name: &str) -> (found: Option<&'a ExifData>)
    ensures
        match found {
            Some(entry) => first_match(data@, name@) is Some && *entry == data@[first_match(
                data@,
                name@,
            )->0],
            None => first_match(data@, name@) is None,
        },
        !has_tag(data@, name@) ==> found is None,
{
    let mut i: usize = 0;
    while i < data.len()
        invariant
            i <= data.len(),
            forall|j: int| 0 <= j < i ==> (#[trigger] data@[j])@.name != name@,
        decreases data.len() - i,
    {
        if str_eq(data[i].tag(), name) {
            proof {
                lemma_first_match_at(data@, name@, i as int);
            }
            return Some(&data[i]);
        }
        i += 1;
    }
    proof {
        lemma_absent_tag(data@, name@);
    }
    None
}

/// The characters of the raw value of the first entry that carries the name.
pub fn find_chars(data: &[ExifData], name: &str) -> (found: Option<Vec<char>>)
    ensures
        match found {
            Some(chars) => lookup(data@, name@) == Some(chars@),
            None => lookup(data@, name@) is None,
        },
        !has_tag(data@, name@) ==> found is None,
{
    match find(data, name) {
        Some(entry) => Some(chars_of(entry.value())),
        None => None,
    }
}

} // verus!
