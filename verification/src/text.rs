//! Textual building blocks shared by the point parser and the command
//! parser: the decimal grammar of 64-bit integers, and character-wise
//! string comparison.

use vstd::prelude::*;
use vstd::string::StrSliceExecFns;

verus! {

/// Whether `c` is an ASCII decimal digit.
pub open spec fn is_dec_digit(c: char) -> bool {
    48 <= c as u32 && c as u32 <= 57
}

/// The numeric value of the ASCII decimal digit `c`.
pub open spec fn digit_value(c: char) -> int {
    c as u32 - 48
}

/// Whether every character of `s` is an ASCII decimal digit.
pub open spec fn all_dec_digits(s: Seq<char>) -> bool {
    forall|i: int| 0 <= i < s.len() ==> is_dec_digit(#[trigger] s[i])
}

/// The value of `s` read as a decimal numeral, most significant digit
/// first.
pub open spec fn dec_value(s: Seq<char>) -> int
    decreases s.len(),
{
    if s.len() == 0 {
        0
    } else {
        dec_value(s.drop_last()) * 10 + digit_value(s.last())
    }
}

/// The unsigned value `s` denotes, if any: one optional leading `+`, then
/// one or more decimal digits, with a value that fits in 64 bits.
pub open spec fn spec_parse_u64(s: Seq<char>) -> Option<u64> {
    let d = if s.len() > 0 && s[0] == '+' {
        s.subrange(1, s.len() as int)
    } else {
        s
    };
    if d.len() > 0 && all_dec_digits(d) && dec_value(d) <= u64::MAX {
        Some(dec_value(d) as u64)
    } else {
        None
    }
}

/// The signed value `s` denotes, if any: one optional leading `+` or `-`,
/// then one or more decimal digits, with a value that fits in a signed
/// 64-bit integer.
pub open spec fn spec_parse_i64(s: Seq<char>) -> Option<i64> {
    if s.len() > 0 && s[0] == '-' {
        let d = s.subrange(1, s.len() as int);
        if d.len() > 0 && all_dec_digits(d) && -dec_value(d) >= i64::MIN {
            Some((-dec_value(d)) as i64)
        } else {
            None
        }
    } else {
        let d = if s.len() > 0 && s[0] == '+' {
            s.subrange(1, s.len() as int)
        } else {
            s
        };
        if d.len() > 0 && all_dec_digits(d) && dec_value(d) <= i64::MAX {
            Some(dec_value(d) as i64)
        } else {
            None
        }
    }
}

/// A decimal numeral of digits only is never negative.
proof fn lemma_dec_value_nonneg(s: Seq<char>)
    requires
        all_dec_digits(s),
    ensures
        dec_value(s) >= 0,
    decreases s.len(),
{
    if s.len() > 0 {
        assert(all_dec_digits(s.drop_last())) by {
            assert forall|i: int| 0 <= i < s.len() - 1 implies is_dec_digit(
                #[trigger] s.drop_last()[i],
            ) by {
                assert(s.drop_last()[i] == s[i]);
            }
        }
        lemma_dec_value_nonneg(s.drop_last());
        assert(is_dec_digit(s[s.len() - 1]));
    }
}

/// Dropping trailing digits from a numeral never increases its value.
proof fn lemma_dec_value_prefix_le(s: Seq<char>, k: int)
    requires
        all_dec_digits(s),
        0 <= k <= s.len(),
    ensures
        dec_value(s.subrange(0, k)) <= dec_value(s),
    decreases s.len() - k,
{
    if k == s.len() {
        assert(s.subrange(0, k) =~= s);
    } else {
        lemma_dec_value_prefix_le(s, k + 1);
        let p = s.subrange(0, k);
        let p1 = s.subrange(0, k + 1);
        assert(p1.drop_last() =~= p);
        assert(all_dec_digits(p)) by {
            assert forall|i: int| 0 <= i < p.len() implies is_dec_digit(#[trigger] p[i]) by {
                assert(p[i] == s[i]);
            }
        }
        lemma_dec_value_nonneg(p);
        assert(is_dec_digit(s[k]));
    }
}

/// Reads `s` from position `start` to its end as a numeral of decimal
/// digits: the value, when there is at least one character, all of them
/// are digits, and the value is at most `limit`; nothing otherwise.
fn parse_digits_bounded(s: &str, start: usize, limit: u64) -> (r: Option<u64>)
    requires
        start <= s@.len(),
    ensures
        ({
            let d = s@.subrange(start as int, s@.len() as int);
            match r {
                Some(m) => d.len() > 0 && all_dec_digits(d) && dec_value(d) == m && m <= limit,
                None => d.len() == 0 || !all_dec_digits(d) || dec_value(d) > limit,
            }
        }),
{
    let ghost d = s@.subrange(start as int, s@.len() as int);
    let n = s.unicode_len();
    if start == n {
        return None;
    }
    let mut acc: u64 = 0;
    let mut i: usize = start;
    while i < n
        invariant
            start <= i <= n,
            n == s@.len(),
            d == s@.subrange(start as int, n as int),
            all_dec_digits(s@.subrange(start as int, i as int)),
            acc == dec_value(s@.subrange(start as int, i as int)),
        decreases n - i,
    {
        let c = s.get_char(i);
        let cv = c as u32;
        if cv < 48 || cv > 57 {
            proof {
                assert(d[i - start] == s@[i as int]);
                assert(!is_dec_digit(d[i - start]));
            }
            return None;
        }
        let dv = (cv - 48) as u64;
        let ghost p = s@.subrange(start as int, i as int);
        let ghost p1 = s@.subrange(start as int, i + 1);
        proof {
            assert(p1.drop_last() =~= p);
            assert(p1[p1.len() - 1] == s@[i as int]);
            assert(all_dec_digits(p1)) by {
                assert forall|j: int| 0 <= j < p1.len() implies is_dec_digit(
                    #[trigger] p1[j],
                ) by {
                    if j < p1.len() - 1 {
                        assert(p1[j] == p[j]);
                    }
                }
            }
        }
        let wide: u128 = (acc as u128) * 10 + (dv as u128);
        if wide > u64::MAX as u128 {
            proof {
                assert(dec_value(p1) > u64::MAX);
                if all_dec_digits(d) {
                    lemma_dec_value_prefix_le(d, i + 1 - start);
                    assert(d.subrange(0, i + 1 - start) =~= p1);
                }
            }
            return None;
        }
        acc = wide as u64;
        i += 1;
    }
    proof {
        assert(s@.subrange(start as int, i as int) =~= d);
    }
    if acc > limit {
        return None;
    }
    Some(acc)
}

/// The value of `s` as an unsigned 64-bit decimal numeral: one optional
/// leading `+`, then one or more digits, rejecting everything else and
/// values that do not fit.
pub(crate) fn parse_u64_text(s: &str) -> (r: Option<u64>)
    ensures
        r == spec_parse_u64(s@),
{
    let n = s.unicode_len();
    let start: usize = if n > 0 && s.get_char(0) == '+' {
        1
    } else {
        0
    };
    let r = parse_digits_bounded(s, start, u64::MAX);
    proof {
        if start == 0 {
            assert(s@.subrange(0, s@.len() as int) =~= s@);
        }
    }
    r
}

/// The value of `s` as a signed 64-bit decimal numeral: one optional
/// leading `+` or `-`, then one or more digits, rejecting everything else
/// and values that do not fit.
pub(crate) fn parse_i64_text(s: &str) -> (r: Option<i64>)
    ensures
        r == spec_parse_i64(s@),
{
    let n = s.unicode_len();
    if n > 0 && s.get_char(0) == '-' {
        match parse_digits_bounded(s, 1, 9223372036854775808u64) {
            Option::None => None,
            Option::Some(m) => {
                let v: i64 = if m == 9223372036854775808u64 {
                    i64::MIN
                } else {
                    -(m as i64)
                };
                Some(v)
            },
        }
    } else {
        let start: usize = if n > 0 && s.get_char(0) == '+' {
            1
        } else {
            0
        };
        let r = parse_digits_bounded(s, start, 9223372036854775807u64);
        proof {
            if start == 0 {
                assert(s@.subrange(0, s@.len() as int) =~= s@);
            }
        }
        match r {
            Option::None => None,
            Option::Some(m) => Some(m as i64),
        }
    }
}

/// Character-wise string equality, decided against the views.
pub fn str_eq(a: &str, b: &str) -> (r: bool)
    ensures
        r == (a@ == b@),
{
    let alen = a.unicode_len();
    let blen = b.unicode_len();
    if alen != blen {
        return false;
    }
    let mut i: usize = 0;
    while i < alen
        invariant
            0 <= i <= alen,
            alen == a@.len(),
            alen == b@.len(),
            forall|j: int| 0 <= j < i ==> a@[j] == b@[j],
        decreases alen - i,
    {
        if a.get_char(i) != b.get_char(i) {
            return false;
        }
        i += 1;
    }
    proof {
        assert(a@ =~= b@);
    }
    true
}

} // verus!
