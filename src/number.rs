//! Decimal integers written as text.

use vstd::prelude::*;

verus! {

pub open spec fn is_digit(c: char) -> bool {
    '0' <= c && c <= '9'
}

pub open spec fn digit_value(c: char) -> int {
    (c as int) - ('0' as int)
}

pub open spec fn all_digits(s: Seq<char>) -> bool {
    forall|i: int| 0 <= i < s.len() ==> is_digit(#[trigger] s[i])
}

/// The value of a run of decimal digits.
pub open spec fn digits_value(s: Seq<char>) -> int
    decreases s.len(),
{
    if s.len() == 0 {
        0
    } else {
        digits_value(s.drop_last()) * 10 + digit_value(s.last())
    }
}

/// The integer that `s` writes: an optional `+` or `-`, then one or more
/// decimal digits and nothing else.
pub open spec fn signed_value(s: Seq<char>) -> Option<int> {
    if s.len() > 1 && (s[0] == '-' || s[0] == '+') && all_digits(s.drop_first()) {
        if s[0] == '-' {
            Some(-digits_value(s.drop_first()))
        } else {
            Some(digits_value(s.drop_first()))
        }
    } else if s.len() > 0 && all_digits(s) {
        Some(digits_value(s))
    } else {
        None
    }
}

pub open spec fn fits_i32(v: int) -> bool {
    i32::MIN <= v && v <= i32::MAX
}

/// `signed_value` where it fits an `i32`.
pub open spec fn spec_parse_i32(s: Seq<char>) -> Option<i32> {
    match signed_value(s) {
        Some(v) => if fits_i32(v) { Some(v as i32) } else { None },
        None => None,
    }
}

proof fn lemma_digits_nonneg(s: Seq<char>)
    requires
        all_digits(s),
    ensures
        digits_value(s) >= 0,
    decreases s.len(),
{
    if s.len() > 0 {
        assert(all_digits(s.drop_last())) by {
            assert forall|i: int| 0 <= i < s.drop_last().len() implies is_digit(#[trigger] s.drop_last()[i]) by {
                assert(s.drop_last()[i] == s[i]);
            }
        }
        lemma_digits_nonneg(s.drop_last());
        assert(is_digit(s[s.len() - 1]));
    }
}

proof fn lemma_digits_grow(s: Seq<char>, k: int)
    requires
        all_digits(s),
        0 <= k <= s.len(),
    ensures
        digits_value(s.subrange(0, k)) <= digits_value(s),
    decreases s.len() - k,
{
    if k < s.len() {
        let t = s.subrange(0, k + 1);
        assert(t.drop_last() =~= s.subrange(0, k));
        assert(all_digits(s.subrange(0, k))) by {
            assert forall|i: int| 0 <= i < k implies is_digit(#[trigger] s.subrange(0, k)[i]) by {
                assert(s.subrange(0, k)[i] == s[i]);
            }
        }
        lemma_digits_nonneg(s.subrange(0, k));
        assert(is_digit(s[k]));
        assert(t.last() == s[k]);
        lemma_digits_grow(s, k + 1);
    } else {
        assert(s.subrange(0, k) =~= s);
    }
}

/// Reads the digits of `s` from position `start` on, up to a bound: the
/// value if they are all digits and it is at most `limit`.
fn digits_upto(s: &str, start: usize, limit: u64) -> (r: Option<u64>)
    requires
        start <= s@.len(),
    ensures
        r is Some <==> all_digits(s@.subrange(start as int, s@.len() as int))
            && digits_value(s@.subrange(start as int, s@.len() as int)) <= limit,
        r matches Some(v) ==> v as int == digits_value(s@.subrange(start as int, s@.len() as int)),
{
    let n = s.unicode_len();
    let ghost whole = s@.subrange(start as int, s@.len() as int);
    let mut acc: u128 = 0;
    let mut i: usize = start;
    proof {
        assert(whole.subrange(0, 0).len() == 0);
    }
    while i < n
        invariant
            n == s@.len(),
            start <= i <= n,
            whole == s@.subrange(start as int, s@.len() as int),
            all_digits(whole.subrange(0, i - start)),
            acc as int == digits_value(whole.subrange(0, i - start)),
            acc <= limit,
        decreases n - i,
    {
        let c = s.get_char(i);
        let ghost pre = whole.subrange(0, i - start);
        let ghost next = whole.subrange(0, i - start + 1);
        proof {
            assert(next.drop_last() =~= pre);
            assert(next.last() == c);
        }
        if !('0' <= c && c <= '9') {
            proof {
                assert(whole[i - start] == c);
            }
            return None;
        }
        let d = (c as u32 - '0' as u32) as u128;
        acc = acc * 10 + d;
        proof {
            assert(all_digits(next)) by {
                assert forall|j: int| 0 <= j < next.len() implies is_digit(#[trigger] next[j]) by {
                    if j < pre.len() {
                        assert(next[j] == pre[j]);
                    }
                }
            }
        }
        if acc > limit as u128 {
            proof {
                if all_digits(whole) {
                    lemma_digits_grow(whole, i - start + 1);
                }
            }
            return None;
        }
        i = i + 1;
    }
    proof {
        assert(whole.subrange(0, i - start) =~= whole);
    }
    Some(acc as u64)
}

/// Parses a decimal `i32`: an optional sign, then digits only.
pub fn parse_i32(s: &str) -> (r: Option<i32>)
    ensures
        r == spec_parse_i32(s@),
{
    let n = s.unicode_len();
    if n == 0 {
        return None;
    }
    let c0 = s.get_char(0);
    if n > 1 && (c0 == '-' || c0 == '+') {
        proof {
            assert(s@.subrange(1, s@.len() as int) =~= s@.drop_first());
            if all_digits(s@.drop_first()) {
                lemma_digits_nonneg(s@.drop_first());
            }
            assert(!all_digits(s@)) by {
                assert(!is_digit(s@[0]));
            }
        }
        match digits_upto(s, 1, 0x8000_0000) {
            None => None,
            Some(v) => {
                if c0 == '-' {
                    Some((0 - v as i64) as i32)
                } else if v <= 0x7fff_ffff {
                    Some(v as i32)
                } else {
                    None
                }
            },
        }
    } else {
        proof {
            assert(s@.subrange(0, s@.len() as int) =~= s@);
            if all_digits(s@) {
                lemma_digits_nonneg(s@);
            }
        }
        match digits_upto(s, 0, 0x8000_0000) {
            None => None,
            Some(v) => {
                if v <= 0x7fff_ffff {
                    Some(v as i32)
                } else {
                    None
                }
            },
        }
    }
}

/// The unsigned integer that `s` writes: an optional `+`, then one or
/// more decimal digits, at most `u64::MAX`.
pub open spec fn spec_parse_u64(s: Seq<char>) -> Option<u64> {
    let d = if s.len() > 1 && s[0] == '+' { s.drop_first() } else { s };
    if d.len() > 0 && all_digits(d) && digits_value(d) <= u64::MAX {
        Some(digits_value(d) as u64)
    } else {
        None
    }
}

/// Parses a decimal `u64`.
pub fn parse_u64(s: &str) -> (r: Option<u64>)
    ensures
        r == spec_parse_u64(s@),
{
    let n = s.unicode_len();
    if n == 0 {
        return None;
    }
    let start: usize = if n > 1 && s.get_char(0) == '+' { 1 } else { 0 };
    proof {
        assert(s@.subrange(1, s@.len() as int) =~= s@.drop_first());
        assert(s@.subrange(0, s@.len() as int) =~= s@);
    }
    digits_upto(s, start, 0xffff_ffff_ffff_ffff)
}

} // verus!
