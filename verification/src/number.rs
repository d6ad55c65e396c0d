//! Decimal notation: what a run of characters denotes as a number, and how a
//! number is written.

use vstd::prelude::*;

verus! {

/// Why a raw text could not be read as a number.
#[derive(Debug, Clone, Copy, PartialEq, Eq, Structural)]
pub enum ConversionError {
    /// The text is not an optional sign followed by decimal digits.
    Malformed,
    /// The text denotes a number that the target type cannot hold.
    OutOfRange,
}

pub open spec fn is_digit(c: char) -> bool {
    '0' <= c && c <= '9'
}

/// The value of a decimal digit.
pub open spec fn digit_of(c: char) -> nat
    recommends
        is_digit(c),
{
    (c as u32 - '0' as u32) as nat
}

/// The character that writes a value below ten.
pub open spec fn digit_char(d: nat) -> char
    recommends
        d < 10,
{
    if d == 0 {
        '0'
    } else if d == 1 {
        '1'
    } else if d == 2 {
        '2'
    } else if d == 3 {
        '3'
    } else if d == 4 {
        '4'
    } else if d == 5 {
        '5'
    } else if d == 6 {
        '6'
    } else if d == 7 {
        '7'
    } else if d == 8 {
        '8'
    } else {
        '9'
    }
}

pub open spec fn all_digits(s: Seq<char>) -> bool {
    forall|i: int| 0 <= i < s.len() ==> is_digit(#[trigger] s[i])
}

/// A non-empty run of decimal digits.
pub open spec fn is_numeral(s: Seq<char>) -> bool {
    s.len() > 0 && all_digits(s)
}

/// The number that a run of digits denotes, most significant digit first.
pub open spec fn digits_value(s: Seq<char>) -> nat
    decreases s.len(),
{
    if s.len() == 0 {
        0
    } else {
        digits_value(s.drop_last()) * 10 + digit_of(s.last())
    }
}

/// Whether the text opens with a sign character.
pub open spec fn has_sign(s: Seq<char>) -> bool {
    s.len() > 0 && (s[0] == '-' || s[0] == '+')
}

/// The text without its sign character, if it has one.
pub open spec fn unsigned_part(s: Seq<char>) -> Seq<char> {
    if has_sign(s) {
        s.skip(1)
    } else {
        s
    }
}

pub open spec fn is_negative(s: Seq<char>) -> bool {
    s.len() > 0 && s[0] == '-'
}

pub open spec fn apply_sign(s: Seq<char>, magnitude: nat) -> int {
    if is_negative(s) {
        -(magnitude as int)
    } else {
        magnitude as int
    }
}

/// The integer that a text denotes: an optional `-` or `+`, then one or more
/// decimal digits and nothing else.
pub open spec fn int_of_text(s: Seq<char>) -> Option<int> {
    if is_numeral(unsigned_part(s)) {
        Some(apply_sign(s, digits_value(unsigned_part(s))))
    } else {
        None
    }
}

/// What reading a text as an `i64` gives.
pub open spec fn i64_of_text(s: Seq<char>) -> Result<i64, ConversionError> {
    match int_of_text(s) {
        None => Err(ConversionError::Malformed),
        Some(v) => if i64::MIN <= v <= i64::MAX {
            Ok(v as i64)
        } else {
            Err(ConversionError::OutOfRange)
        },
    }
}

/// What reading a text as an `i32` gives.
pub open spec fn i32_of_text(s: Seq<char>) -> Result<i32, ConversionError> {
    match int_of_text(s) {
        None => Err(ConversionError::Malformed),
        Some(v) => if i32::MIN <= v <= i32::MAX {
            Ok(v as i32)
        } else {
            Err(ConversionError::OutOfRange)
        },
    }
}

/// The magnitude, in tenths, of an unsigned decimal with at most one digit
/// after the point: `"2"` is 20, `"1.5"` is 15.
pub open spec fn unsigned_tenths(b: Seq<char>) -> Option<nat> {
    if is_numeral(b) {
        Some(digits_value(b) * 10)
    } else if b.len() >= 3 && b[b.len() - 2] == '.' && is_digit(b.last()) && is_numeral(
        b.take(b.len() - 2),
    ) {
        Some(digits_value(b.take(b.len() - 2)) * 10 + digit_of(b.last()))
    } else {
        None
    }
}

/// The number of tenths that a text denotes: an optional sign, digits, and
/// optionally a point and one more digit.
pub open spec fn tenths_of_text(s: Seq<char>) -> Option<int> {
    match unsigned_tenths(unsigned_part(s)) {
        Some(m) => Some(apply_sign(s, m)),
        None => None,
    }
}

/// What reading a text as a count of tenths in an `i64` gives.
pub open spec fn i64_tenths_of_text(s: Seq<char>) -> Result<i64, ConversionError> {
    match tenths_of_text(s) {
        None => Err(ConversionError::Malformed),
        Some(v) => if i64::MIN <= v <= i64::MAX {
            Ok(v as i64)
        } else {
            Err(ConversionError::OutOfRange)
        },
    }
}

/// A natural number in decimal, without leading zeros.
pub open spec fn nat_text(n: nat) -> Seq<char>
    decreases n,
{
    if n < 10 {
        seq![digit_char(n)]
    } else {
        nat_text(n / 10).push(digit_char(n % 10))
    }
}

pub open spec fn magnitude(v: int) -> nat {
    if v < 0 {
        (-v) as nat
    } else {
        v as nat
    }
}

pub open spec fn sign_text(v: int) -> Seq<char> {
    if v < 0 {
        seq!['-']
    } else {
        Seq::<char>::empty()
    }
}

/// An integer in decimal: a `-` for a negative one, never a `+`.
pub open spec fn int_text(v: int) -> Seq<char> {
    sign_text(v) + nat_text(magnitude(v))
}

/// A count of tenths in decimal: the whole part, and the point with one digit
/// only where the fraction is not zero.
pub open spec fn tenths_text(t: int) -> Seq<char> {
    let whole = sign_text(t) + nat_text(magnitude(t) / 10);
    if magnitude(t) % 10 == 0 {
        whole
    } else {
        whole + seq!['.', digit_char(magnitude(t) % 10)]
    }
}

/// The magnitude that fits in a `u64`, or the largest `u64` where it does not.
pub open spec fn saturated(n: nat) -> u64 {
    if n >= u64::MAX {
        u64::MAX
    } else {
        n as u64
    }
}

/// One more digit multiplies the value by ten and adds the digit.
pub proof fn lemma_digits_value_push(s: Seq<char>, c: char)
    ensures
        digits_value(s.push(c)) == digits_value(s) * 10 + digit_of(c),
{
    assert(s.push(c).drop_last() =~= s);
}

/// Whether `c` is a decimal digit.
pub fn is_digit_char(c: char) -> (digit: bool)
    ensures
        digit == is_digit(c),
{
    '0' <= c && c <= '9'
}

/// Reads `chars[start..end]` as a run of digits. `None` where the run is empty
/// or holds anything but digits; otherwise its value, held at `u64::MAX` where
/// it is that large or larger.
pub fn read_digits(chars: &[char], start: usize, end: usize) -> (magnitude: Option<u64>)
    requires
        start <= end <= chars.len(),
    ensures
        magnitude is Some <==> is_numeral(chars@.subrange(start as int, end as int)),
        magnitude is Some ==> magnitude->0 == saturated(
            digits_value(chars@.subrange(start as int, end as int)),
        ),
{
    let ghost run = chars@.subrange(start as int, end as int);
    if start == end {
        return None;
    }
    let mut acc: u64 = 0;
    let mut i: usize = start;
    while i < end
        invariant
            start <= i <= end <= chars.len(),
            run == chars@.subrange(start as int, end as int),
            all_digits(chars@.subrange(start as int, i as int)),
            acc == saturated(digits_value(chars@.subrange(start as int, i as int))),
        decreases end - i,
    {
        let c = chars[i];
        if !is_digit_char(c) {
            assert(run[i - start] == c);
            return None;
        }
        let d: u64 = (c as u32 - '0' as u32) as u64;
        proof {
            let before = chars@.subrange(start as int, i as int);
            assert(chars@.subrange(start as int, i + 1) =~= before.push(c));
            lemma_digits_value_push(before, c);
        }
        if acc > (u64::MAX - d) / 10 {
            acc = u64::MAX;
        } else {
            acc = acc * 10 + d;
        }
        i += 1;
    }
    Some(acc)
}

/// Whether `chars[start..]` opens with a sign, and whether that sign is `-`.
fn read_sign(chars: &[char]) -> (sign: (bool, bool))
    ensures
        sign.0 == has_sign(chars@),
        sign.1 == is_negative(chars@),
{
    if chars.len() == 0 {
        (false, false)
    } else {
        let c = chars[0];
        (c == '-' || c == '+', c == '-')
    }
}

/// Reads a text as an `i64`.
pub fn parse_i64(chars: &[char]) -> (parsed: Result<i64, ConversionError>)
    ensures
        parsed == i64_of_text(chars@),
{
    let (signed, negative) = read_sign(chars);
    let start: usize = if signed { 1 } else { 0 };
    assert(chars@.subrange(start as int, chars.len() as int) =~= unsigned_part(chars@));
    match read_digits(chars, start, chars.len()) {
        None => Err(ConversionError::Malformed),
        Some(m) => {
            if negative {
                if m > 0x8000_0000_0000_0000u64 {
                    Err(ConversionError::OutOfRange)
                } else if m == 0x8000_0000_0000_0000u64 {
                    Ok(i64::MIN)
                } else {
                    Ok(-(m as i64))
                }
            } else if m > 0x7fff_ffff_ffff_ffffu64 {
                Err(ConversionError::OutOfRange)
            } else {
                Ok(m as i64)
            }
        },
    }
}

/// Reads a text as an `i32`.
pub fn parse_i32(chars: &[char]) -> (parsed: Result<i32, ConversionError>)
    ensures
        parsed == i32_of_text(chars@),
{
    match parse_i64(chars) {
        Err(e) => Err(e),
        Ok(v) => {
            if v < -0x8000_0000i64 || v > 0x7fff_ffffi64 {
                Err(ConversionError::OutOfRange)
            } else {
                Ok(v as i32)
            }
        },
    }
}

/// Reads `chars[start..]` as an unsigned decimal with at most one digit after
/// the point. `None` where it is no such decimal; otherwise its magnitude in
/// tenths, exact where the whole part is below `u64::MAX`.
fn read_unsigned_tenths(chars: &[char], start: usize) -> (tenths: Option<u128>)
    requires
        start <= chars.len(),
    ensures
        tenths is Some <==> unsigned_tenths(chars@.skip(start as int)) is Some,
        tenths is Some ==> {
            let exact = unsigned_tenths(chars@.skip(start as int))->0;
            if exact < u64::MAX * 10 {
                tenths->0 == exact
            } else {
                tenths->0 >= u64::MAX * 10
            }
        },
{
    let n: usize = chars.len();
    let ghost body = chars@.skip(start as int);
    assert(body =~= chars@.subrange(start as int, n as int));
    if n - start >= 3 && chars[n - 2] == '.' {
        assert(body[body.len() - 2] == '.');
        assert(!is_numeral(body));
        assert(body.take(body.len() - 2) =~= chars@.subrange(start as int, n - 2));
        let last = chars[n - 1];
        assert(body.last() == last);
        if !is_digit_char(last) {
            return None;
        }
        match read_digits(chars, start, n - 2) {
            None => None,
            Some(whole) => {
                let d: u128 = (last as u32 - '0' as u32) as u128;
                Some(whole as u128 * 10 + d)
            },
        }
    } else {
        proof {
            if n - start >= 3 {
                assert(body[body.len() - 2] != '.');
            }
        }
        match read_digits(chars, start, n) {
            None => None,
            Some(whole) => Some(whole as u128 * 10),
        }
    }
}

/// Reads a text as a count of tenths.
pub fn parse_tenths(chars: &[char]) -> (parsed: Result<i64, ConversionError>)
    ensures
        parsed == i64_tenths_of_text(chars@),
{
    let (signed, negative) = read_sign(chars);
    let start: usize = if signed { 1 } else { 0 };
    assert(chars@.skip(start as int) =~= unsigned_part(chars@));
    match read_unsigned_tenths(chars, start) {
        None => Err(ConversionError::Malformed),
        Some(m) => {
            if negative {
                if m > 0x8000_0000_0000_0000u128 {
                    Err(ConversionError::OutOfRange)
                } else if m == 0x8000_0000_0000_0000u128 {
                    Ok(i64::MIN)
                } else {
                    Ok(-(m as i64))
                }
            } else if m > 0x7fff_ffff_ffff_ffffu128 {
                Err(ConversionError::OutOfRange)
            } else {
                Ok(m as i64)
            }
        },
    }
}

/// The one-character text of a value below ten.
fn digit_str(d: u64) -> (text: &'static str)
    requires
        d < 10,
    ensures
        text@ == seq![digit_char(d as nat)],
{
    proof {
        reveal_strlit("0");
        reveal_strlit("1");
        reveal_strlit("2");
        reveal_strlit("3");
        reveal_strlit("4");
        reveal_strlit("5");
        reveal_strlit("6");
        reveal_strlit("7");
        reveal_strlit("8");
        reveal_strlit("9");
    }
    let text = if d == 0 {
        "0"
    } else if d == 1 {
        "1"
    } else if d == 2 {
        "2"
    } else if d == 3 {
        "3"
    } else if d == 4 {
        "4"
    } else if d == 5 {
        "5"
    } else if d == 6 {
        "6"
    } else if d == 7 {
        "7"
    } else if d == 8 {
        "8"
    } else {
        "9"
    };
    assert(text@ =~= seq![digit_char(d as nat)]);
    text
}

/// Appends a natural number in decimal.
pub fn push_nat(out: &mut String, n: u64)
    ensures
        final(out)@ == old(out)@ + nat_text(n as nat),
    decreases n,
{
    if n < 10 {
        out.append(digit_str(n));
    } else {
        push_nat(out, n / 10);
        out.append(digit_str(n % 10));
        assert(final(out)@ =~= old(out)@ + nat_text(n as nat));
    }
}

/// The magnitude of an `i64`, which always fits in a `u64`.
fn magnitude_of(v: i64) -> (m: u64)
    ensures
        m == magnitude(v as int),
{
    if v < 0 {
        ((-(v + 1)) as u64) + 1
    } else {
        v as u64
    }
}

/// Appends an integer in decimal, with a `-` where it is negative.
pub fn push_int(out: &mut String, v: i64)
    ensures
        final(out)@ == old(out)@ + int_text(v as int),
{
    if v < 0 {
        out.append("-");
        proof {
            reveal_strlit("-");
            assert("-"@ =~= sign_text(v as int));
        }
    }
    push_nat(out, magnitude_of(v));
    assert(final(out)@ =~= old(out)@ + int_text(v as int));
}

/// Appends a count of tenths in decimal.
pub fn push_tenths(out: &mut String, t: i64)
    ensures
        final(out)@ == old(out)@ + tenths_text(t as int),
{
    let m = magnitude_of(t);
    if t < 0 {
        out.append("-");
        proof {
            reveal_strlit("-");
            assert("-"@ =~= sign_text(t as int));
        }
    }
    push_nat(out, m / 10);
    if m % 10 != 0 {
        out.append(".");
        out.append(digit_str(m % 10));
        proof {
            reveal_strlit(".");
            assert("."@ + seq![digit_char((m % 10) as nat)] =~= seq![
                '.',
                digit_char((m % 10) as nat),
            ]);
        }
    }
    assert(final(out)@ =~= old(out)@ + tenths_text(t as int));
}

/// A character that can occur in a written number.
pub open spec fn is_number_char(c: char) -> bool {
    is_digit(c) || c == '-' || c == '.'
}

/// A written natural number is a run of digits that denotes that number.
pub proof fn lemma_nat_text(n: nat)
    ensures
        is_numeral(nat_text(n)),
        digits_value(nat_text(n)) == n,
    decreases n,
{
    if n < 10 {
        assert(nat_text(n) =~= Seq::<char>::empty().push(digit_char(n)));
        lemma_digits_value_push(Seq::<char>::empty(), digit_char(n));
    } else {
        lemma_nat_text(n / 10);
        lemma_digits_value_push(nat_text(n / 10), digit_char(n % 10));
    }
}

/// Reading a written integer gives the integer back.
pub proof fn lemma_int_text_round_trip(v: int)
    ensures
        int_of_text(int_text(v)) == Some(v),
{
    let m = magnitude(v);
    lemma_nat_text(m);
    let t = int_text(v);
    if v < 0 {
        assert(t[0] == '-');
        assert(unsigned_part(t) =~= nat_text(m));
    } else {
        assert(t =~= nat_text(m));
        assert(is_digit(t[0]));
    }
}

/// Reading a written count of tenths gives the count back.
pub proof fn lemma_tenths_text_round_trip(t: int)
    ensures
        tenths_of_text(tenths_text(t)) == Some(t),
{
    let m = magnitude(t);
    let w = nat_text(m / 10);
    lemma_nat_text(m / 10);
    let text = tenths_text(t);
    let body = if m % 10 == 0 {
        w
    } else {
        w + seq!['.', digit_char(m % 10)]
    };
    if t < 0 {
        assert(text[0] == '-');
        assert(unsigned_part(text) =~= body);
    } else {
        assert(text =~= body);
        assert(is_digit(text[0]));
        assert(unsigned_part(text) =~= body);
    }
    if m % 10 != 0 {
        assert(body[body.len() - 2] == '.');
        assert(!is_numeral(body));
        assert(body.take(body.len() - 2) =~= w);
        assert(body.last() == digit_char(m % 10));
    }
}

/// A written integer holds digits and at most a leading `-`: no `+`, no
/// point, no blank.
pub proof fn lemma_int_text_chars(v: int)
    ensures
        int_text(v).len() > 0,
        forall|i: int|
            0 <= i < int_text(v).len() ==> is_digit(#[trigger] int_text(v)[i]) || int_text(v)[i]
                == '-',
{
    lemma_nat_text(magnitude(v));
    let t = int_text(v);
    assert forall|i: int| 0 <= i < t.len() implies is_digit(#[trigger] t[i]) || t[i] == '-' by {
        if v < 0 {
            if i > 0 {
                assert(t[i] == nat_text(magnitude(v))[i - 1]);
            }
        } else {
            assert(t[i] == nat_text(magnitude(v))[i]);
        }
    }
}

/// A written count of tenths holds only digits, `-` and `.`.
pub proof fn lemma_tenths_text_chars(t: int)
    ensures
        tenths_text(t).len() > 0,
        forall|i: int|
            0 <= i < tenths_text(t).len() ==> is_number_char(#[trigger] tenths_text(t)[i]),
{
    let m = magnitude(t);
    lemma_nat_text(m / 10);
    let w = nat_text(m / 10);
    let text = tenths_text(t);
    let s = sign_text(t);
    assert forall|i: int| 0 <= i < text.len() implies is_number_char(#[trigger] text[i]) by {
        if i < s.len() {
            assert(text[i] == '-');
        } else if i < s.len() + w.len() {
            assert(text[i] == w[i - s.len()]);
        } else {
            assert(m % 10 != 0);
            if i == s.len() + w.len() {
                assert(text[i] == '.');
            } else {
                assert(text[i] == digit_char(m % 10));
            }
        }
    }
}

} // verus!
