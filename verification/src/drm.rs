//! DRM format modifiers as GStreamer negotiates them in a `drm-format` caps
//! value such as `"XR24:0x0100000000000002"`.

use vstd::prelude::*;
use crate::text::{
    chars_of, find_char, is_white_space, lemma_find_char, position_of, trim, trim_bounds, trim_end,
    trim_start,
};

verus! {

/// Value of a hexadecimal digit, or `-1` for any other character.
pub open spec fn hex_digit_value(c: char) -> int {
    if '0' <= c && c <= '9' {
        c as int - '0' as int
    } else if 'a' <= c && c <= 'f' {
        c as int - 'a' as int + 10
    } else if 'A' <= c && c <= 'F' {
        c as int - 'A' as int + 10
    } else {
        -1
    }
}

pub open spec fn all_hex_digits(s: Seq<char>) -> bool {
    forall|i: int| 0 <= i < s.len() ==> hex_digit_value(#[trigger] s[i]) >= 0
}

/// The number a sequence of hexadecimal digits denotes.
pub open spec fn hex_value(s: Seq<char>) -> nat
    decreases s.len(),
{
    if s.len() == 0 {
        0
    } else {
        hex_value(s.drop_last()) * 16 + hex_digit_value(s.last()) as nat
    }
}

/// Parsing a `u64` in radix 16: an optional leading `+`, then at least one
/// hexadecimal digit, and a value that fits in 64 bits.
pub open spec fn parse_hex_u64(s: Seq<char>) -> Option<u64> {
    if s.len() == 0 {
        None
    } else {
        let digits = if s[0] == '+' {
            s.drop_first()
        } else {
            s
        };
        if digits.len() == 0 || !all_hex_digits(digits) || hex_value(digits) > u64::MAX {
            None
        } else {
            Some(hex_value(digits) as u64)
        }
    }
}

/// `s` without a leading `0x` or, failing that, `0X`.
pub open spec fn strip_hex_prefix(s: Seq<char>) -> Seq<char> {
    if s.len() >= 2 && s[0] == '0' && (s[1] == 'x' || s[1] == 'X') {
        s.skip(2)
    } else {
        s
    }
}

/// The DRM modifier a `drm-format` value names: the hexadecimal number after
/// the first `:` (white space trimmed, `0x`/`0X` optional). A bare fourcc or an
/// unparseable suffix means LINEAR, `0`.
pub open spec fn drm_modifier_of(s: Seq<char>) -> u64 {
    let k = find_char(s, ':');
    if k >= s.len() {
        0
    } else {
        match parse_hex_u64(strip_hex_prefix(trim(s.subrange(k + 1, s.len() as int)))) {
            Some(v) => v,
            None => 0,
        }
    }
}

pub proof fn lemma_hex_value_prefix_bounded(s: Seq<char>, j: int)
    requires
        0 <= j <= s.len(),
        all_hex_digits(s),
    ensures
        hex_value(s.take(j)) <= hex_value(s),
    decreases s.len(),
{
    if j < s.len() {
        let t = s.drop_last();
        assert(hex_digit_value(s[s.len() - 1]) >= 0);
        assert(s.take(j) =~= t.take(j));
        assert(all_hex_digits(t)) by {
            assert forall|i: int| 0 <= i < t.len() implies hex_digit_value(#[trigger] t[i]) >= 0 by {
                assert(t[i] == s[i]);
            }
        }
        lemma_hex_value_prefix_bounded(t, j);
    } else {
        assert(s.take(j) =~= s);
    }
}

fn hex_digit(c: char) -> (d: Option<u64>)
    ensures
        hex_digit_value(c) >= 0 ==> d == Some(hex_digit_value(c) as u64),
        hex_digit_value(c) < 0 ==> d is None,
{
    if '0' <= c && c <= '9' {
        Some((c as u32 - '0' as u32) as u64)
    } else if 'a' <= c && c <= 'f' {
        Some((c as u32 - 'a' as u32 + 10) as u64)
    } else if 'A' <= c && c <= 'F' {
        Some((c as u32 - 'A' as u32 + 10) as u64)
    } else {
        None
    }
}

/// Parses `v[lo..hi]` as a radix-16 `u64`.
fn parse_hex_range(v: &Vec<char>, lo: usize, hi: usize) -> (r: Option<u64>)
    requires
        lo <= hi <= v@.len(),
    ensures
        r == parse_hex_u64(v@.subrange(lo as int, hi as int)),
{
    let ghost s = v@.subrange(lo as int, hi as int);
    if lo == hi {
        return None;
    }
    let start = if v[lo] == '+' {
        lo + 1
    } else {
        lo
    };
    let ghost digits = v@.subrange(start as int, hi as int);
    assert(digits =~= (if s[0] == '+' {
        s.drop_first()
    } else {
        s
    }));
    if start == hi {
        return None;
    }
    assert(parse_hex_u64(s) == (if !all_hex_digits(digits) || hex_value(digits) > u64::MAX {
        None
    } else {
        Some(hex_value(digits) as u64)
    }));
    let mut acc: u64 = 0;
    let mut i = start;
    assert(digits.take(0) =~= seq![]);
    while i < hi
        invariant
            start <= i <= hi <= v@.len(),
            digits == v@.subrange(start as int, hi as int),
            s == v@.subrange(lo as int, hi as int),
            parse_hex_u64(s) == (if !all_hex_digits(digits) || hex_value(digits) > u64::MAX {
                None
            } else {
                Some(hex_value(digits) as u64)
            }),
            all_hex_digits(digits.take(i - start)),
            acc as nat == hex_value(digits.take(i - start)),
        decreases hi - i,
    {
        let ghost k = i - start;
        assert(digits[k] == v@[i as int]);
        match hex_digit(v[i]) {
            None => {
                assert(!all_hex_digits(digits));
                return None;
            },
            Some(d) => {
                assert(digits.take(k + 1).drop_last() =~= digits.take(k));
                assert(all_hex_digits(digits.take(k + 1))) by {
                    assert forall|j: int| 0 <= j < k + 1 implies hex_digit_value(
                        #[trigger] digits.take(k + 1)[j],
                    ) >= 0 by {
                        if j < k {
                            assert(digits.take(k + 1)[j] == digits.take(k)[j]);
                        }
                    }
                }
                match acc.checked_mul(16) {
                    None => {
                        proof {
                            if all_hex_digits(digits) {
                                lemma_hex_value_prefix_bounded(digits, k + 1);
                            }
                        }
                        return None;
                    },
                    Some(m) => match m.checked_add(d) {
                        None => {
                            proof {
                                if all_hex_digits(digits) {
                                    lemma_hex_value_prefix_bounded(digits, k + 1);
                                }
                            }
                            return None;
                        },
                        Some(a) => {
                            acc = a;
                        },
                    },
                }
            },
        }
        i = i + 1;
    }
    assert(digits.take(hi - start) =~= digits);
    Some(acc)
}

/// Parse the DRM modifier out of a negotiated `drm-format` caps value, e.g.
/// `"XR24:0x0100000000000002"` gives `0x0100000000000002` (Y_TILED). A bare
/// fourcc (`"XR24"`) or an unparseable suffix means LINEAR (`0`).
pub fn parse_drm_modifier(drm_format: &str) -> (m: u64)
    ensures
        m == drm_modifier_of(drm_format@),
{
    let v = chars_of(drm_format);
    let k = position_of(&v, ':');
    if k >= v.len() {
        return 0;
    }
    let (lo, hi) = trim_bounds(&v, k + 1);
    let ghost t = v@.subrange(lo as int, hi as int);
    let start = if hi - lo >= 2 && v[lo] == '0' && (v[lo + 1] == 'x' || v[lo + 1] == 'X') {
        lo + 2
    } else {
        lo
    };
    assert(v@.subrange(start as int, hi as int) =~= strip_hex_prefix(t));
    match parse_hex_range(&v, start, hi) {
        Some(m) => m,
        None => 0,
    }
}

/// A bare fourcc, without a `:` and modifier, means LINEAR.
pub proof fn bare_fourcc_is_linear(s: Seq<char>)
    requires
        forall|i: int| 0 <= i < s.len() ==> s[i] != ':',
    ensures
        drm_modifier_of(s) == 0,
{
    lemma_find_char(s, ':', s.len() as int);
}

/// A modifier written as hexadecimal digits (of either case, zero-padded or
/// not) after a fourcc, a `:` and `0x` or `0X`, parses back to that modifier.
pub proof fn formatted_modifier_parses_back(
    fourcc: Seq<char>,
    digits: Seq<char>,
    m: u64,
    upper_x: bool,
)
    requires
        forall|i: int| 0 <= i < fourcc.len() ==> fourcc[i] != ':',
        digits.len() > 0,
        all_hex_digits(digits),
        hex_value(digits) == m,
    ensures
        drm_modifier_of(fourcc + seq![':', '0', if upper_x { 'X' } else { 'x' }] + digits) == m,
{
    let x = if upper_x {
        'X'
    } else {
        'x'
    };
    let s = fourcc + seq![':', '0', x] + digits;
    let k = fourcc.len() as int;
    assert(s[k] == ':');
    assert forall|j: int| 0 <= j < k implies s[j] != ':' by {
        assert(s[j] == fourcc[j]);
    }
    lemma_find_char(s, ':', k);
    let tail = s.subrange(k + 1, s.len() as int);
    assert(tail =~= seq!['0', x] + digits);
    assert(!is_white_space(tail[0]));
    assert(trim_start(tail) == tail);
    let last = digits[digits.len() - 1];
    assert(hex_digit_value(last) >= 0);
    assert(tail.last() == last);
    assert(!is_white_space(last));
    assert(trim_end(tail) == tail);
    assert(trim(tail) == tail);
    assert(strip_hex_prefix(tail) =~= digits);
    assert(hex_digit_value(digits[0]) >= 0);
    assert(digits[0] != '+');
}

} // verus!
