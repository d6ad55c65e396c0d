//! Character-level helpers shared by the tag store and the string codec.

use vstd::prelude::*;
use vstd::slice::slice_subrange;

verus! {

/// The characters of `s`, in order.
pub fn chars_of(s: &str) -> (chars: Vec<char>)
    ensures
        chars@ == s@,
{
    let n: usize = s.unicode_len();
    let mut chars: Vec<char> = Vec::new();
    let mut i: usize = 0;
    while i < n
        invariant
            n == s@.len(),
            i <= n,
            chars@ == s@.subrange(0, i as int),
        decreases n - i,
    {
        let c = s.get_char(i);
        chars.push(c);
        i += 1;
        assert(chars@ =~= s@.subrange(0, i as int));
    }
    assert(s@.subrange(0, n as int) =~= s@);
    chars
}

/// Whether two strings hold the same characters.
pub fn str_eq(a: &str, b: &str) -> (same: bool)
    ensures
        same == (a@ == b@),
{
    let x = chars_of(a);
    let y = chars_of(b);
    if x.len() != y.len() {
        return false;
    }
    let mut i: usize = 0;
    while i < x.len()
        invariant
            x@ == a@,
            y@ == b@,
            x.len() == y.len(),
            i <= x.len(),
            x@.subrange(0, i as int) == y@.subrange(0, i as int),
        decreases x.len() - i,
    {
        if x[i] != y[i] {
            assert(a@[i as int] != b@[i as int]);
            return false;
        }
        i += 1;
        assert(x@.subrange(0, i as int) =~= x@.subrange(0, i - 1).push(x@[i - 1]));
        assert(y@.subrange(0, i as int) =~= y@.subrange(0, i - 1).push(y@[i - 1]));
    }
    assert(x@.subrange(0, x.len() as int) =~= x@);
    assert(y@.subrange(0, y.len() as int) =~= y@);
    true
}

/// Whether a run of characters is the given text.
pub fn chars_eq(chars: &[char], text: &str) -> (same: bool)
    ensures
        same == (chars@ == text@),
{
    let y = chars_of(text);
    if chars.len() != y.len() {
        return false;
    }
    let mut i: usize = 0;
    while i < chars.len()
        invariant
            y@ == text@,
            chars.len() == y.len(),
            i <= chars.len(),
            chars@.subrange(0, i as int) == y@.subrange(0, i as int),
        decreases chars.len() - i,
    {
        if chars[i] != y[i] {
            assert(chars@[i as int] != text@[i as int]);
            return false;
        }
        i += 1;
        assert(chars@.subrange(0, i as int) =~= chars@.subrange(0, i - 1).push(chars@[i - 1]));
        assert(y@.subrange(0, i as int) =~= y@.subrange(0, i - 1).push(y@[i - 1]));
    }
    assert(chars@.subrange(0, chars.len() as int) =~= chars@);
    assert(y@.subrange(0, y.len() as int) =~= y@);
    true
}

/// What is left of `s` once the leading `prefix` is taken off; `None` where
/// `s` does not begin with it.
pub open spec fn strip_prefix_spec(s: Seq<char>, prefix: Seq<char>) -> Option<Seq<char>> {
    if prefix.is_prefix_of(s) {
        Some(s.skip(prefix.len() as int))
    } else {
        None
    }
}

/// Takes the leading `prefix` off; `None` where the text does not begin with it.
pub fn strip_prefix<'a>(chars: &'a [char], prefix: &str) -> (rest: Option<&'a [char]>)
    ensures
        match rest {
            Some(r) => strip_prefix_spec(chars@, prefix@) == Some(r@),
            None => strip_prefix_spec(chars@, prefix@) is None,
        },
{
    let p = chars_of(prefix);
    if p.len() > chars.len() {
        return None;
    }
    let head = slice_subrange(chars, 0, p.len());
    if chars_eq(head, prefix) {
        let rest = slice_subrange(chars, p.len(), chars.len());
        assert(rest@ =~= chars@.skip(p.len() as int));
        Some(rest)
    } else {
        None
    }
}

/// `i` is the place of the first `c` in `s`.
pub open spec fn is_first_at(s: Seq<char>, c: char, i: int) -> bool {
    &&& 0 <= i < s.len()
    &&& s[i] == c
    &&& forall|j: int| 0 <= j < i ==> s[j] != c
}

/// The place of the first `c` in `s`, if there is one.
pub open spec fn first_index(s: Seq<char>, c: char) -> Option<int> {
    if exists|i: int| is_first_at(s, c, i) {
        Some(choose|i: int| is_first_at(s, c, i))
    } else {
        None
    }
}

/// Where `i` is the place of the first `c`, it is the one that is found.
pub proof fn lemma_first_index_at(s: Seq<char>, c: char, i: int)
    requires
        is_first_at(s, c, i),
    ensures
        first_index(s, c) == Some(i),
{
    let k = choose|k: int| is_first_at(s, c, k);
    assert(is_first_at(s, c, k));
    if k < i {
        assert(s[k] != c);
    } else if i < k {
        assert(s[i] != c);
    }
}

/// In a text without a `c` none is found.
pub proof fn lemma_first_index_none(s: Seq<char>, c: char)
    requires
        forall|j: int| 0 <= j < s.len() ==> s[j] != c,
    ensures
        first_index(s, c) is None,
{
}

/// The parts of `s` before and after its first `c`; `None` where it holds no
/// `c`.
pub open spec fn split_at_char_spec(s: Seq<char>, c: char) -> Option<(Seq<char>, Seq<char>)> {
    match first_index(s, c) {
        Some(i) => Some((s.take(i), s.skip(i + 1))),
        None => None,
    }
}

/// Splits at the first `c`; `None` where the text holds no `c`.
pub fn split_at_char<'a>(chars: &'a [char], c: char) -> (parts: Option<(&'a [char], &'a [char])>)
    ensures
        match parts {
            Some((before, after)) => split_at_char_spec(chars@, c) == Some((before@, after@)),
            None => split_at_char_spec(chars@, c) is None,
        },
{
    let mut i: usize = 0;
    while i < chars.len()
        invariant
            i <= chars.len(),
            forall|j: int| 0 <= j < i ==> chars@[j] != c,
        decreases chars.len() - i,
    {
        if chars[i] == c {
            proof {
                lemma_first_index_at(chars@, c, i as int);
            }
            let before = slice_subrange(chars, 0, i);
            let after = slice_subrange(chars, i + 1, chars.len());
            assert(before@ =~= chars@.take(i as int));
            assert(after@ =~= chars@.skip(i + 1));
            return Some((before, after));
        }
        i += 1;
    }
    proof {
        lemma_first_index_none(chars@, c);
    }
    None
}

/// Splitting `a + [c] + b` at the first `c` gives `a` and `b` back where `a`
/// holds no `c`.
pub proof fn lemma_split_joined(a: Seq<char>, c: char, b: Seq<char>)
    requires
        forall|j: int| 0 <= j < a.len() ==> a[j] != c,
    ensures
        split_at_char_spec(a + seq![c] + b, c) == Some((a, b)),
{
    let s = a + seq![c] + b;
    assert(is_first_at(s, c, a.len() as int)) by {
        assert(s[a.len() as int] == c);
        assert forall|j: int| 0 <= j < a.len() implies s[j] != c by {
            assert(s[j] == a[j]);
        }
    }
    lemma_first_index_at(s, c, a.len() as int);
    assert(s.take(a.len() as int) =~= a);
    assert(s.skip(a.len() as int + 1) =~= b);
}

/// Taking the prefix off `prefix + rest` gives `rest` back.
pub proof fn lemma_strip_joined(prefix: Seq<char>, rest: Seq<char>)
    ensures
        strip_prefix_spec(prefix + rest, prefix) == Some(rest),
{
    let s = prefix + rest;
    assert(s.subrange(0, prefix.len() as int) =~= prefix);
    assert(s.skip(prefix.len() as int) =~= rest);
}

/// Two values under their labels, a blank between them: `first`, the first
/// value, a blank, `second`, the second value.
pub open spec fn labelled_pair_text(
    first: Seq<char>,
    a: Seq<char>,
    second: Seq<char>,
    b: Seq<char>,
) -> Seq<char> {
    first + a + seq![' '] + second + b
}

/// The two values of a text made of two labelled values: what stands between
/// `first` and the first blank, and what follows `second` after that blank.
pub open spec fn labelled_pair_spec(s: Seq<char>, first: Seq<char>, second: Seq<char>) -> Option<
    (Seq<char>, Seq<char>),
> {
    match strip_prefix_spec(s, first) {
        None => None,
        Some(unlabelled) => match split_at_char_spec(unlabelled, ' ') {
            None => None,
            Some((a, rest)) => match strip_prefix_spec(rest, second) {
                None => None,
                Some(b) => Some((a, b)),
            },
        },
    }
}

/// Takes a text of two labelled values apart.
pub fn labelled_pair<'a>(chars: &'a [char], first: &str, second: &str) -> (parts: Option<
    (&'a [char], &'a [char]),
>)
    ensures
        match parts {
            Some((a, b)) => labelled_pair_spec(chars@, first@, second@) == Some((a@, b@)),
            None => labelled_pair_spec(chars@, first@, second@) is None,
        },
{
    match strip_prefix(chars, first) {
        None => None,
        Some(unlabelled) => match split_at_char(unlabelled, ' ') {
            None => None,
            Some((a, rest)) => match strip_prefix(rest, second) {
                None => None,
                Some(b) => Some((a, b)),
            },
        },
    }
}

/// Taking a text of two labelled values apart gives the two values back,
/// where the first holds no blank.
pub proof fn lemma_labelled_pair(first: Seq<char>, a: Seq<char>, second: Seq<char>, b: Seq<char>)
    requires
        forall|j: int| 0 <= j < a.len() ==> a[j] != ' ',
    ensures
        labelled_pair_spec(labelled_pair_text(first, a, second, b), first, second) == Some((a, b)),
{
    let s = labelled_pair_text(first, a, second, b);
    let unlabelled = a + seq![' '] + (second + b);
    assert(s =~= first + unlabelled);
    lemma_strip_joined(first, unlabelled);
    lemma_split_joined(a, ' ', second + b);
    lemma_strip_joined(second, b);
}

/// The small letter of a capital ASCII letter; any other character itself.
pub open spec fn ascii_lower(c: char) -> char {
    if 'A' <= c && c <= 'Z' {
        ((c as u8 + 32) as u8) as char
    } else {
        c
    }
}

/// The text with every capital ASCII letter made small.
pub open spec fn lowered(s: Seq<char>) -> Seq<char> {
    Seq::new(s.len(), |i: int| ascii_lower(s[i]))
}

/// The small letter of a capital ASCII letter; any other character itself.
pub fn to_ascii_lower(c: char) -> (lower: char)
    ensures
        lower == ascii_lower(c),
{
    if 'A' <= c && c <= 'Z' {
        (c as u8 + 32) as char
    } else {
        c
    }
}

/// The text with every capital ASCII letter made small.
pub fn lowered_chars(chars: &[char]) -> (lower: Vec<char>)
    ensures
        lower@ == lowered(chars@),
{
    let mut lower: Vec<char> = Vec::new();
    let mut i: usize = 0;
    while i < chars.len()
        invariant
            i <= chars.len(),
            lower@ == lowered(chars@.subrange(0, i as int)),
        decreases chars.len() - i,
    {
        lower.push(to_ascii_lower(chars[i]));
        i += 1;
        assert(lower@ =~= lowered(chars@.subrange(0, i as int)));
    }
    assert(chars@.subrange(0, chars.len() as int) =~= chars@);
    lower
}

/// What splitting gives, joined again around the `c`, is the text; and the
/// first part holds no `c`.
pub proof fn lemma_split_parts(s: Seq<char>, c: char)
    requires
        split_at_char_spec(s, c) is Some,
    ensures
        ({
            let (a, b) = split_at_char_spec(s, c)->0;
            &&& s == a + seq![c] + b
            &&& forall|j: int| 0 <= j < a.len() ==> a[j] != c
        }),
{
    let i = first_index(s, c)->0;
    assert(is_first_at(s, c, i));
    assert(s =~= s.take(i) + seq![c] + s.skip(i + 1));
}

/// What taking a prefix off leaves, joined to the prefix again, is the text.
pub proof fn lemma_strip_parts(s: Seq<char>, prefix: Seq<char>)
    requires
        strip_prefix_spec(s, prefix) is Some,
    ensures
        s == prefix + strip_prefix_spec(s, prefix)->0,
{
    assert(s =~= s.subrange(0, prefix.len() as int) + s.skip(prefix.len() as int));
}

} // verus!
