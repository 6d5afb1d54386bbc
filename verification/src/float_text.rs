//! Coordinate field decoding. The record keeps each coordinate as decimal
//! text, so what must be decided here is only well-formedness: whether the
//! trimmed field is number text that `str::parse` accepts for the binary
//! floating-point types — an optional sign, then `inf`, `infinity` or
//! `nan` in any ASCII case, or digits with at most one decimal point and
//! an optional exponent.

use vstd::prelude::*;
use crate::numbers::is_digit;

verus! {

/// `s[lo..]` spells `inf`, ASCII case ignored.
pub open spec fn is_inf_word(s: Seq<char>, lo: int) -> bool {
    &&& s.len() - lo == 3
    &&& (s[lo] == 'i' || s[lo] == 'I')
    &&& (s[lo + 1] == 'n' || s[lo + 1] == 'N')
    &&& (s[lo + 2] == 'f' || s[lo + 2] == 'F')
}

/// `s[lo..]` spells `infinity`, ASCII case ignored.
pub open spec fn is_infinity_word(s: Seq<char>, lo: int) -> bool {
    &&& s.len() - lo == 8
    &&& (s[lo] == 'i' || s[lo] == 'I')
    &&& (s[lo + 1] == 'n' || s[lo + 1] == 'N')
    &&& (s[lo + 2] == 'f' || s[lo + 2] == 'F')
    &&& (s[lo + 3] == 'i' || s[lo + 3] == 'I')
    &&& (s[lo + 4] == 'n' || s[lo + 4] == 'N')
    &&& (s[lo + 5] == 'i' || s[lo + 5] == 'I')
    &&& (s[lo + 6] == 't' || s[lo + 6] == 'T')
    &&& (s[lo + 7] == 'y' || s[lo + 7] == 'Y')
}

/// `s[lo..]` spells `nan`, ASCII case ignored.
pub open spec fn is_nan_word(s: Seq<char>, lo: int) -> bool {
    &&& s.len() - lo == 3
    &&& (s[lo] == 'n' || s[lo] == 'N')
    &&& (s[lo + 1] == 'a' || s[lo + 1] == 'A')
    &&& (s[lo + 2] == 'n' || s[lo + 2] == 'N')
}

/// A mantissa in `s[lo..hi)`: digits with at most one decimal point among
/// them, and at least one digit.
pub open spec fn is_mantissa_span(s: Seq<char>, lo: int, hi: int) -> bool {
    &&& forall|i: int| lo <= i < hi ==> is_digit(#[trigger] s[i]) || s[i] == '.'
    &&& forall|i: int, j: int|
        #![trigger s[i], s[j]]
        lo <= i < j < hi && s[i] == '.' ==> s[j] != '.'
    &&& exists|i: int| lo <= i < hi && is_digit(#[trigger] s[i])
}

/// An exponent in `s[lo..hi)`: an optional sign, then one or more digits.
pub open spec fn is_exponent_span(s: Seq<char>, lo: int, hi: int) -> bool {
    let d = if lo < hi && (s[lo] == '+' || s[lo] == '-') {
        lo + 1
    } else {
        lo
    };
    &&& d < hi
    &&& forall|i: int| d <= i < hi ==> is_digit(#[trigger] s[i])
}

/// The first position in `[lo, hi)` holding the exponent marker `e` or
/// `E`, or `hi` when there is none.
pub open spec fn exponent_index(s: Seq<char>, lo: int, hi: int) -> int
    decreases hi - lo,
{
    if lo >= hi {
        hi
    } else if s[lo] == 'e' || s[lo] == 'E' {
        lo
    } else {
        exponent_index(s, lo + 1, hi)
    }
}

/// A number in `s[lo..hi)`: a mantissa, optionally split from an exponent
/// by the first exponent marker. A mantissa holds no marker, so splitting
/// at the first one loses nothing.
pub open spec fn is_number_span(s: Seq<char>, lo: int, hi: int) -> bool {
    let k = exponent_index(s, lo, hi);
    if k == hi {
        is_mantissa_span(s, lo, hi)
    } else {
        is_mantissa_span(s, lo, k) && is_exponent_span(s, k + 1, hi)
    }
}

/// Number text as `str::parse` accepts it for the binary floating-point
/// types, value aside: an optional sign, then one of the special words or
/// a decimal number with optional exponent.
pub open spec fn is_float_text(s: Seq<char>) -> bool {
    let lo: int = if s.len() > 0 && (s[0] == '+' || s[0] == '-') {
        1
    } else {
        0
    };
    ||| is_inf_word(s, lo)
    ||| is_infinity_word(s, lo)
    ||| is_nan_word(s, lo)
    ||| is_number_span(s, lo, s.len() as int)
}

/// Decides whether `s` is well-formed floating-point number text.
#[verifier::loop_isolation(false)]
pub fn is_float_field(s: &str) -> (r: bool)
    ensures
        r == is_float_text(s@),
{
    let n = s.unicode_len();
    let lo: usize = if n > 0 && (s.get_char(0) == '+' || s.get_char(0) == '-') {
        1
    } else {
        0
    };
    if n - lo == 3 {
        let c0 = s.get_char(lo);
        let c1 = s.get_char(lo + 1);
        let c2 = s.get_char(lo + 2);
        if (c0 == 'i' || c0 == 'I') && (c1 == 'n' || c1 == 'N') && (c2 == 'f' || c2 == 'F') {
            return true;
        }
        if (c0 == 'n' || c0 == 'N') && (c1 == 'a' || c1 == 'A') && (c2 == 'n' || c2 == 'N') {
            return true;
        }
    }
    if n - lo == 8 {
        let c0 = s.get_char(lo);
        let c1 = s.get_char(lo + 1);
        let c2 = s.get_char(lo + 2);
        let c3 = s.get_char(lo + 3);
        let c4 = s.get_char(lo + 4);
        let c5 = s.get_char(lo + 5);
        let c6 = s.get_char(lo + 6);
        let c7 = s.get_char(lo + 7);
        if (c0 == 'i' || c0 == 'I') && (c1 == 'n' || c1 == 'N') && (c2 == 'f' || c2 == 'F') && (c3
            == 'i' || c3 == 'I') && (c4 == 'n' || c4 == 'N') && (c5 == 'i' || c5 == 'I') && (c6
            == 't' || c6 == 'T') && (c7 == 'y' || c7 == 'Y') {
            return true;
        }
    }
    // From here on only a plain number can make the text well-formed.
    let mut k: usize = lo;
    while k < n && !(s.get_char(k) == 'e' || s.get_char(k) == 'E')
        invariant
            lo <= k <= n,
            n == s@.len(),
            exponent_index(s@, lo as int, n as int) == exponent_index(s@, k as int, n as int),
        decreases n - k,
    {
        k = k + 1;
    }
    proof {
        assert(exponent_index(s@, lo as int, n as int) == k as int);
    }
    let mut i: usize = lo;
    let mut seen_digit = false;
    let mut seen_dot = false;
    let mut dot_at: usize = 0;
    while i < k
        invariant
            lo <= i <= k <= n,
            n == s@.len(),
            exponent_index(s@, lo as int, n as int) == k as int,
            forall|t: int| lo <= t < i ==> is_digit(#[trigger] s@[t]) || s@[t] == '.',
            seen_digit <==> exists|t: int| lo <= t < i && is_digit(#[trigger] s@[t]),
            seen_dot <==> exists|t: int| lo <= t < i && (#[trigger] s@[t]) == '.',
            seen_dot ==> lo <= dot_at < i && s@[dot_at as int] == '.',
            forall|t: int| lo <= t < i && (#[trigger] s@[t]) == '.' ==> t == dot_at as int,
        decreases k - i,
    {
        let c = s.get_char(i);
        if c >= '0' && c <= '9' {
            seen_digit = true;
        } else if c == '.' {
            if seen_dot {
                proof {
                    assert(!is_mantissa_span(s@, lo as int, k as int));
                }
                return false;
            }
            seen_dot = true;
            dot_at = i;
        } else {
            proof {
                assert(!(is_digit(s@[i as int]) || s@[i as int] == '.'));
                assert(!is_mantissa_span(s@, lo as int, k as int));
            }
            return false;
        }
        i = i + 1;
    }
    if !seen_digit {
        proof {
            assert(!is_mantissa_span(s@, lo as int, k as int));
        }
        return false;
    }
    proof {
        assert(is_mantissa_span(s@, lo as int, k as int));
    }
    if k == n {
        return true;
    }
    let e_lo = k + 1;
    let e_d: usize = if e_lo < n && (s.get_char(e_lo) == '+' || s.get_char(e_lo) == '-') {
        e_lo + 1
    } else {
        e_lo
    };
    if e_d >= n {
        proof {
            assert(!is_exponent_span(s@, e_lo as int, n as int));
        }
        return false;
    }
    let mut t = e_d;
    while t < n
        invariant
            e_d <= t <= n,
            n == s@.len(),
            forall|u: int| e_d <= u < t ==> is_digit(#[trigger] s@[u]),
        decreases n - t,
    {
        let c = s.get_char(t);
        if !(c >= '0' && c <= '9') {
            proof {
                assert(!is_digit(s@[t as int]));
                assert(!is_exponent_span(s@, e_lo as int, n as int));
            }
            return false;
        }
        t = t + 1;
    }
    proof {
        assert(is_exponent_span(s@, e_lo as int, n as int));
    }
    true
}

} // verus!
