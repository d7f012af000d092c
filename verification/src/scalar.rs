//! Verified parsing of scalar values out of the text content of a node.
//!
//! The integer conversions accept the textual grammar of the fixed-width
//! integer types: an optional sign (`+` for the unsigned types, `+` or `-`
//! for the signed ones) followed by one or more decimal digits, with the
//! resulting value required to fit the target type.  The boolean conversion
//! accepts exactly the texts `true` and `false`.

use vstd::prelude::*;
use vstd::string::StrSliceExecFns;
use vstd::string::StringExecFns;
use crate::errors::XpathError;

verus! {

/// A decimal digit character.
pub open spec fn is_digit_char(c: char) -> bool {
    48 <= c as int && c as int <= 57
}

/// The numeric value of a decimal digit character.
pub open spec fn digit_value(c: char) -> int {
    c as int - 48
}

/// Whether every character of `s` is a decimal digit.
pub open spec fn all_digits(s: Seq<char>) -> bool {
    forall|i: int| 0 <= i < s.len() ==> is_digit_char(#[trigger] s[i])
}

/// The value of a sequence of decimal digit characters, most significant
/// digit first.
pub open spec fn digits_value(s: Seq<char>) -> int
    decreases s.len(),
{
    if s.len() == 0 {
        0
    } else {
        digits_value(s.drop_last()) * 10 + digit_value(s.last())
    }
}

/// The digit characters of an unsigned integer text: everything after an
/// optional leading `+`.
pub open spec fn unsigned_digits(s: Seq<char>) -> Seq<char> {
    if s.len() > 0 && s[0] == '+' {
        s.subrange(1, s.len() as int)
    } else {
        s
    }
}

/// Whether `s` is a well-formed unsigned integer text: an optional `+`
/// followed by one or more decimal digits.
pub open spec fn is_valid_unsigned(s: Seq<char>) -> bool {
    unsigned_digits(s).len() > 0 && all_digits(unsigned_digits(s))
}

/// The value of a well-formed unsigned integer text.
pub open spec fn unsigned_value(s: Seq<char>) -> int {
    digits_value(unsigned_digits(s))
}

/// The digit characters of a signed integer text: everything after an
/// optional leading `+` or `-`.
pub open spec fn signed_digits(s: Seq<char>) -> Seq<char> {
    if s.len() > 0 && (s[0] == '+' || s[0] == '-') {
        s.subrange(1, s.len() as int)
    } else {
        s
    }
}

/// Whether `s` is a well-formed signed integer text: an optional sign
/// followed by one or more decimal digits.
pub open spec fn is_valid_signed(s: Seq<char>) -> bool {
    signed_digits(s).len() > 0 && all_digits(signed_digits(s))
}

/// The value of a well-formed signed integer text.
pub open spec fn signed_value(s: Seq<char>) -> int {
    if s.len() > 0 && s[0] == '-' {
        -digits_value(signed_digits(s))
    } else {
        digits_value(signed_digits(s))
    }
}

/// The boolean denoted by a text, if any: exactly `true` or `false`.
pub open spec fn bool_text_value(s: Seq<char>) -> Option<bool> {
    if s == "true"@ {
        Some(true)
    } else if s == "false"@ {
        Some(false)
    } else {
        None
    }
}

/// A digit sequence has a non-negative value.
proof fn lemma_digits_value_nonneg(s: Seq<char>)
    requires
        all_digits(s),
    ensures
        digits_value(s) >= 0,
    decreases s.len(),
{
    if s.len() > 0 {
        assert(all_digits(s.drop_last()));
        lemma_digits_value_nonneg(s.drop_last());
    }
}

/// Extending a digit sequence never decreases its value.
proof fn lemma_digits_value_mono(s: Seq<char>, i: int)
    requires
        all_digits(s),
        0 <= i <= s.len(),
    ensures
        digits_value(s) >= digits_value(s.subrange(0, i)),
    decreases s.len() - i,
{
    if i == s.len() {
        assert(s.subrange(0, i) =~= s);
    } else {
        let p = s.subrange(0, i);
        let q = s.subrange(0, i + 1);
        assert(q.drop_last() =~= p);
        assert(q.last() == s[i]);
        assert forall|j: int| 0 <= j < p.len() implies is_digit_char(#[trigger] p[j]) by {
            assert(p[j] == s[j]);
        }
        lemma_digits_value_nonneg(p);
        assert(digits_value(q) == digits_value(p) * 10 + digit_value(s[i]));
        lemma_digits_value_mono(s, i + 1);
    }
}

/// Parses the decimal digits of `s` from position `start` to its end,
/// accepting only values up to `max`.
fn parse_digits(s: &str, start: usize, max: u64) -> (r: Option<u64>)
    requires
        start <= s@.len(),
    ensures
        ({
            let d = s@.subrange(start as int, s@.len() as int);
            &&& (r is Some <==> d.len() > 0 && all_digits(d) && digits_value(d) <= max)
            &&& (r matches Some(v) ==> v == digits_value(d))
        }),
{
    let ghost d = s@.subrange(start as int, s@.len() as int);
    let n = s.unicode_len();
    if start == n {
        return None;
    }
    let mut i: usize = start;
    let mut acc: u64 = 0;
    while i < n
        invariant
            start <= i <= n,
            n == s@.len(),
            start < n,
            d == s@.subrange(start as int, s@.len() as int),
            forall|j: int| start <= j < i ==> is_digit_char(#[trigger] s@[j]),
            acc == digits_value(s@.subrange(start as int, i as int)),
            acc <= max,
        decreases n - i,
    {
        let c = s.get_char(i);
        let cv = c as u32;
        if cv < 48 || cv > 57 {
            proof {
                assert(d[i - start] == s@[i as int]);
                assert(!is_digit_char(d[i - start]));
            }
            return None;
        }
        let dv = (cv - 48) as u64;
        proof {
            assert(dv == digit_value(s@[i as int]));
            assert(s@.subrange(start as int, i + 1).drop_last() =~= s@.subrange(
                start as int,
                i as int,
            ));
            assert(s@.subrange(start as int, i + 1).last() == s@[i as int]);
            assert(digits_value(s@.subrange(start as int, i + 1)) == acc * 10 + dv);
        }
        if dv > max || acc > (max - dv) / 10 {
            proof {
                if dv <= max {
                    let m = (max - dv) as int;
                    vstd::arithmetic::div_mod::lemma_fundamental_div_mod(m, 10);
                }
                assert(acc * 10 + dv > max);
                if all_digits(d) {
                    assert(s@.subrange(start as int, i + 1) =~= d.subrange(0, i + 1 - start));
                    lemma_digits_value_mono(d, i + 1 - start);
                    assert(digits_value(d) > max);
                }
            }
            return None;
        }
        proof {
            let m = (max - dv) as int;
            vstd::arithmetic::div_mod::lemma_fundamental_div_mod(m, 10);
            assert(acc * 10 + dv <= max);
        }
        acc = acc * 10 + dv;
        i = i + 1;
    }
    proof {
        assert(s@.subrange(start as int, i as int) =~= d);
        assert forall|k: int| 0 <= k < d.len() implies is_digit_char(#[trigger] d[k]) by {
            assert(d[k] == s@[k + start]);
        }
    }
    Some(acc)
}

/// Parses an unsigned integer text, accepting only values up to `max`.
pub fn parse_unsigned_text(s: &str, max: u64) -> (r: Option<u64>)
    ensures
        r is Some <==> is_valid_unsigned(s@) && unsigned_value(s@) <= max,
        r matches Some(v) ==> v == unsigned_value(s@),
{
    let n = s.unicode_len();
    let start: usize = if n > 0 && s.get_char(0) == '+' {
        1
    } else {
        0
    };
    proof {
        assert(s@.subrange(start as int, s@.len() as int) =~= unsigned_digits(s@));
    }
    parse_digits(s, start, max)
}

/// Parses a signed integer text, accepting only values `v` with
/// `-(max_pos + 1) <= v <= max_pos`.
pub fn parse_signed_text(s: &str, max_pos: u64) -> (r: Option<i64>)
    requires
        max_pos <= i64::MAX as u64,
    ensures
        r is Some <==> is_valid_signed(s@) && -(max_pos + 1) <= signed_value(s@) <= max_pos,
        r matches Some(v) ==> v == signed_value(s@),
{
    let n = s.unicode_len();
    let negative = n > 0 && s.get_char(0) == '-';
    let start: usize = if negative || (n > 0 && s.get_char(0) == '+') {
        1
    } else {
        0
    };
    proof {
        assert(s@.subrange(start as int, s@.len() as int) =~= signed_digits(s@));
    }
    let bound = if negative {
        max_pos + 1
    } else {
        max_pos
    };
    let parsed = parse_digits(s, start, bound);
    proof {
        let dseq = signed_digits(s@);
        if dseq.len() > 0 && all_digits(dseq) {
            lemma_digits_value_nonneg(dseq);
        }
    }
    match parsed {
        None => None,
        Some(mag) => {
            if negative {
                if mag == 0 {
                    Some(0)
                } else {
                    Some(-1 - ((mag - 1) as i64))
                }
            } else {
                Some(mag as i64)
            }
        },
    }
}

/// Parses a boolean text: exactly `true` or `false`.
pub fn parse_bool_text(s: &str) -> (r: Option<bool>)
    ensures
        r == bool_text_value(s@),
{
    let owned = s.to_owned();
    if owned == String::from_str("true") {
        Some(true)
    } else if owned == String::from_str("false") {
        Some(false)
    } else {
        None
    }
}

/// Wraps a failed scalar conversion in the shared error taxonomy.
pub fn conversion_error(what: &str) -> (r: XpathError)
    ensures
        r matches XpathError::FromXmlError(m) && m@ == what@,
{
    XpathError::FromXmlError(what.to_owned())
}

/// Converts a boolean text, failing on anything but `true` or `false`.
pub fn bool_from_text(s: &str) -> (r: Result<bool, XpathError>)
    ensures
        r matches Ok(b) ==> bool_text_value(s@) == Some(b),
        r is Err <==> bool_text_value(s@) is None,
        r matches Err(e) ==> e is FromXmlError,
{
    match parse_bool_text(s) {
        Some(b) => Ok(b),
        None => Err(conversion_error("provided string was not `true` or `false`")),
    }
}

/// Converts an unsigned integer text into a `u8`.
pub fn u8_from_text(s: &str) -> (r: Result<u8, XpathError>)
    ensures
        r is Ok <==> is_valid_unsigned(s@) && unsigned_value(s@) <= u8::MAX,
        r matches Ok(v) ==> v == unsigned_value(s@),
        r matches Err(e) ==> e is FromXmlError,
{
    match parse_unsigned_text(s, u8::MAX as u64) {
        Some(v) => Ok(v as u8),
        None => Err(conversion_error("invalid decimal integer text for the target type")),
    }
}

/// Converts an unsigned integer text into a `u16`.
pub fn u16_from_text(s: &str) -> (r: Result<u16, XpathError>)
    ensures
        r is Ok <==> is_valid_unsigned(s@) && unsigned_value(s@) <= u16::MAX,
        r matches Ok(v) ==> v == unsigned_value(s@),
        r matches Err(e) ==> e is FromXmlError,
{
    match parse_unsigned_text(s, u16::MAX as u64) {
        Some(v) => Ok(v as u16),
        None => Err(conversion_error("invalid decimal integer text for the target type")),
    }
}

/// Converts an unsigned integer text into a `u32`.
pub fn u32_from_text(s: &str) -> (r: Result<u32, XpathError>)
    ensures
        r is Ok <==> is_valid_unsigned(s@) && unsigned_value(s@) <= u32::MAX,
        r matches Ok(v) ==> v == unsigned_value(s@),
        r matches Err(e) ==> e is FromXmlError,
{
    match parse_unsigned_text(s, u32::MAX as u64) {
        Some(v) => Ok(v as u32),
        None => Err(conversion_error("invalid decimal integer text for the target type")),
    }
}

/// Converts an unsigned integer text into a `u64`.
pub fn u64_from_text(s: &str) -> (r: Result<u64, XpathError>)
    ensures
        r is Ok <==> is_valid_unsigned(s@) && unsigned_value(s@) <= u64::MAX,
        r matches Ok(v) ==> v == unsigned_value(s@),
        r matches Err(e) ==> e is FromXmlError,
{
    match parse_unsigned_text(s, u64::MAX) {
        Some(v) => Ok(v),
        None => Err(conversion_error("invalid decimal integer text for the target type")),
    }
}

/// Converts a signed integer text into an `i8`.
pub fn i8_from_text(s: &str) -> (r: Result<i8, XpathError>)
    ensures
        r is Ok <==> is_valid_signed(s@) && i8::MIN <= signed_value(s@) <= i8::MAX,
        r matches Ok(v) ==> v == signed_value(s@),
        r matches Err(e) ==> e is FromXmlError,
{
    match parse_signed_text(s, i8::MAX as u64) {
        Some(v) => Ok(v as i8),
        None => Err(conversion_error("invalid decimal integer text for the target type")),
    }
}

/// Converts a signed integer text into an `i16`.
pub fn i16_from_text(s: &str) -> (r: Result<i16, XpathError>)
    ensures
        r is Ok <==> is_valid_signed(s@) && i16::MIN <= signed_value(s@) <= i16::MAX,
        r matches Ok(v) ==> v == signed_value(s@),
        r matches Err(e) ==> e is FromXmlError,
{
    match parse_signed_text(s, i16::MAX as u64) {
        Some(v) => Ok(v as i16),
        None => Err(conversion_error("invalid decimal integer text for the target type")),
    }
}

/// Converts a signed integer text into an `i32`.
pub fn i32_from_text(s: &str) -> (r: Result<i32, XpathError>)
    ensures
        r is Ok <==> is_valid_signed(s@) && i32::MIN <= signed_value(s@) <= i32::MAX,
        r matches Ok(v) ==> v == signed_value(s@),
        r matches Err(e) ==> e is FromXmlError,
{
    match parse_signed_text(s, i32::MAX as u64) {
        Some(v) => Ok(v as i32),
        None => Err(conversion_error("invalid decimal integer text for the target type")),
    }
}

/// Converts a signed integer text into an `i64`.
pub fn i64_from_text(s: &str) -> (r: Result<i64, XpathError>)
    ensures
        r is Ok <==> is_valid_signed(s@) && i64::MIN <= signed_value(s@) <= i64::MAX,
        r matches Ok(v) ==> v == signed_value(s@),
        r matches Err(e) ==> e is FromXmlError,
{
    match parse_signed_text(s, i64::MAX as u64) {
        Some(v) => Ok(v),
        None => Err(conversion_error("invalid decimal integer text for the target type")),
    }
}

} // verus!
