//! Decimal integer field decoding: the exact grammar that `str::parse`
//! accepts for the integer types — an optional sign, then one or more
//! ASCII digits — together with the value bounds of each field's type.

use vstd::prelude::*;

verus! {

/// An ASCII decimal digit.
pub open spec fn is_digit(c: char) -> bool {
    '0' <= c && c <= '9'
}

/// The numeric value of an ASCII digit.
pub open spec fn digit_value(c: char) -> int {
    c as int - '0' as int
}

/// Every character of `s` is an ASCII decimal digit.
pub open spec fn all_digits(s: Seq<char>) -> bool {
    forall|i: int| 0 <= i < s.len() ==> is_digit(#[trigger] s[i])
}

/// The value of a digit string, most significant digit first.
pub open spec fn digits_value(s: Seq<char>) -> int
    decreases s.len(),
{
    if s.len() == 0 {
        0
    } else {
        digits_value(s.drop_last()) * 10 + digit_value(s.last())
    }
}

/// A digit string's value is never negative.
pub proof fn lemma_digits_value_nonneg(s: Seq<char>)
    requires
        all_digits(s),
    ensures
        digits_value(s) >= 0,
    decreases s.len(),
{
    if s.len() > 0 {
        assert(all_digits(s.drop_last()));
        lemma_digits_value_nonneg(s.drop_last());
    }
}

/// The digit part of unsigned-integer text: the text with one optional
/// leading `+` removed.
pub open spec fn unsigned_digits(s: Seq<char>) -> Seq<char> {
    if s.len() > 0 && s[0] == '+' {
        s.subrange(1, s.len() as int)
    } else {
        s
    }
}

/// Unsigned-integer text: an optional `+`, then one or more digits.
pub open spec fn is_unsigned_text(s: Seq<char>) -> bool {
    unsigned_digits(s).len() > 0 && all_digits(unsigned_digits(s))
}

/// The value of unsigned-integer text.
pub open spec fn unsigned_value(s: Seq<char>) -> int {
    digits_value(unsigned_digits(s))
}

/// The digit part of signed-integer text: one optional leading sign
/// removed.
pub open spec fn signed_digits(s: Seq<char>) -> Seq<char> {
    if s.len() > 0 && (s[0] == '+' || s[0] == '-') {
        s.subrange(1, s.len() as int)
    } else {
        s
    }
}

/// Signed-integer text: an optional sign, then one or more digits.
pub open spec fn is_signed_text(s: Seq<char>) -> bool {
    signed_digits(s).len() > 0 && all_digits(signed_digits(s))
}

/// The value of signed-integer text.
pub open spec fn signed_value(s: Seq<char>) -> int {
    if s.len() > 0 && s[0] == '-' {
        -digits_value(signed_digits(s))
    } else {
        digits_value(signed_digits(s))
    }
}

/// What decoding a counts-line or atom-index field yields: the value of
/// well-formed unsigned text when it fits in 16 bits, nothing otherwise.
pub open spec fn parse_u16_spec(s: Seq<char>) -> Option<u16> {
    if is_unsigned_text(s) && unsigned_value(s) <= u16::MAX {
        Option::Some(unsigned_value(s) as u16)
    } else {
        Option::None
    }
}

/// What decoding a bond-endpoint field yields.
pub open spec fn parse_u32_spec(s: Seq<char>) -> Option<u32> {
    if is_unsigned_text(s) && unsigned_value(s) <= u32::MAX {
        Option::Some(unsigned_value(s) as u32)
    } else {
        Option::None
    }
}

/// What decoding a bond-order field yields.
pub open spec fn parse_u8_spec(s: Seq<char>) -> Option<u8> {
    if is_unsigned_text(s) && unsigned_value(s) <= u8::MAX {
        Option::Some(unsigned_value(s) as u8)
    } else {
        Option::None
    }
}

/// What decoding a charge field yields: the value of well-formed signed
/// text when it fits in 8 bits, nothing otherwise.
pub open spec fn parse_i8_spec(s: Seq<char>) -> Option<i8> {
    if is_signed_text(s) && i8::MIN <= signed_value(s) && signed_value(s) <= i8::MAX {
        Option::Some(signed_value(s) as i8)
    } else {
        Option::None
    }
}

/// Reads the digits of `s` from position `from` to the end as a decimal
/// value of at most `max`.
fn parse_digits(s: &str, from: usize, max: u32) -> (r: Option<u32>)
    requires
        from <= s@.len(),
    ensures
        ({
            let d = s@.subrange(from as int, s@.len() as int);
            match r {
                Option::Some(v) => d.len() > 0 && all_digits(d) && digits_value(d) == v && v
                    <= max,
                Option::None => !(d.len() > 0 && all_digits(d) && digits_value(d) <= max),
            }
        }),
{
    let n = s.unicode_len();
    if from == n {
        return Option::None;
    }
    let mut acc: u32 = 0;
    let mut over: bool = false;
    let mut i: usize = from;
    while i < n
        invariant
            from <= i <= n,
            n == s@.len(),
            forall|k: int| from <= k < i ==> is_digit(#[trigger] s@[k]),
            over <==> digits_value(s@.subrange(from as int, i as int)) > max,
            !over ==> acc == digits_value(s@.subrange(from as int, i as int)),
        decreases n - i,
    {
        let c = s.get_char(i);
        if !(c >= '0' && c <= '9') {
            proof {
                let d = s@.subrange(from as int, s@.len() as int);
                assert(d[i - from] == s@[i as int]);
                assert(!is_digit(d[i - from]));
            }
            return Option::None;
        }
        let dv: u32 = (c as u32) - ('0' as u32);
        proof {
            let prefix = s@.subrange(from as int, i as int);
            let longer = s@.subrange(from as int, i as int + 1);
            assert(longer.drop_last() =~= prefix);
            assert(longer.last() == s@[i as int]);
            assert(all_digits(prefix));
            lemma_digits_value_nonneg(prefix);
        }
        let t: u64 = (acc as u64) * 10 + (dv as u64);
        if over || t > (max as u64) {
            over = true;
            acc = 0;
        } else {
            acc = t as u32;
        }
        i = i + 1;
    }
    if over {
        Option::None
    } else {
        Option::Some(acc)
    }
}

/// Decodes `s` as unsigned-integer text with value at most `max`.
fn parse_unsigned(s: &str, max: u32) -> (r: Option<u32>)
    ensures
        match r {
            Option::Some(v) => is_unsigned_text(s@) && unsigned_value(s@) == v && v <= max,
            Option::None => !(is_unsigned_text(s@) && unsigned_value(s@) <= max),
        },
{
    let n = s.unicode_len();
    let start: usize = if n > 0 && s.get_char(0) == '+' {
        1
    } else {
        0
    };
    proof {
        assert(unsigned_digits(s@) =~= s@.subrange(start as int, n as int));
    }
    parse_digits(s, start, max)
}

/// Decodes a counts or atom-index field, exactly as `str::parse` reads an
/// unsigned 16-bit integer.
pub fn parse_u16_field(s: &str) -> (r: Option<u16>)
    ensures
        r == parse_u16_spec(s@),
{
    match parse_unsigned(s, 65535) {
        Option::Some(v) => Option::Some(v as u16),
        Option::None => Option::None,
    }
}

/// Decodes a bond-endpoint field, exactly as `str::parse` reads an
/// unsigned 32-bit integer.
pub fn parse_u32_field(s: &str) -> (r: Option<u32>)
    ensures
        r == parse_u32_spec(s@),
{
    match parse_unsigned(s, 4294967295) {
        Option::Some(v) => Option::Some(v),
        Option::None => Option::None,
    }
}

/// Decodes a bond-order field, exactly as `str::parse` reads an unsigned
/// 8-bit integer.
pub fn parse_u8_field(s: &str) -> (r: Option<u8>)
    ensures
        r == parse_u8_spec(s@),
{
    match parse_unsigned(s, 255) {
        Option::Some(v) => Option::Some(v as u8),
        Option::None => Option::None,
    }
}

/// Decodes a charge field, exactly as `str::parse` reads a signed 8-bit
/// integer.
pub fn parse_i8_field(s: &str) -> (r: Option<i8>)
    ensures
        r == parse_i8_spec(s@),
{
    let n = s.unicode_len();
    let neg = n > 0 && s.get_char(0) == '-';
    let start: usize = if n > 0 && (s.get_char(0) == '+' || s.get_char(0) == '-') {
        1
    } else {
        0
    };
    proof {
        assert(signed_digits(s@) =~= s@.subrange(start as int, n as int));
    }
    let magnitude_max: u32 = if neg {
        128
    } else {
        127
    };
    match parse_digits(s, start, magnitude_max) {
        Option::Some(v) => {
            if neg {
                Option::Some((0 - (v as i32)) as i8)
            } else {
                Option::Some(v as i8)
            }
        },
        Option::None => Option::None,
    }
}

} // verus!
