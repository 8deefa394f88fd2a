//! A generic two-dimensional point, and a parser for its textual form
//! `(X,Y)`: the interior between the mandatory parentheses is split at its
//! first comma, and the two halves are read as decimal numbers.

use vstd::prelude::*;
use vstd::string::StrSliceExecFns;
use crate::errors::BitcoinError;
use crate::errors::ErrorData;
use crate::text::spec_parse_i64;
use crate::text::parse_i64_text;

verus! {

/// Two coordinates of the same type.
#[derive(Debug, Clone, PartialEq)]
pub struct Point<T> {
    pub x: T,
    pub y: T,
}

impl<T> Point<T> {
    /// A point from its two coordinates.
    pub fn new(x: T, y: T) -> (p: Self)
        ensures
            p.x == x,
            p.y == y,
    {
        Self { x, y }
    }
}

/// Whether `k` is the position of the first comma of `s`.
pub open spec fn is_first_comma(s: Seq<char>, k: int) -> bool {
    &&& 0 <= k < s.len()
    &&& s[k] == ','
    &&& forall|j: int| 0 <= j < k ==> s[j] != ','
}

/// Two first-comma positions are the same position.
proof fn lemma_first_comma_unique(s: Seq<char>, k1: int, k2: int)
    requires
        is_first_comma(s, k1),
        is_first_comma(s, k2),
    ensures
        k1 == k2,
{
}

/// What parsing `(X,Y)` yields: the two coordinates, or the message of
/// the `ParseError` reported. The text must begin with `(` and end with
/// `)`; the interior is split at its first comma; each half must be the
/// decimal form of a signed 64-bit value. Nothing is trimmed: whitespace
/// is handed through to the number grammar, which rejects it.
pub open spec fn spec_parse_point(s: Seq<char>) -> Result<(i64, i64), Seq<char>> {
    if s.len() < 2 || s[0] != '(' || s[s.len() - 1] != ')' {
        Err("Error parsing values"@)
    } else {
        let inner = s.subrange(1, s.len() - 1);
        if exists|k: int| is_first_comma(inner, k) {
            let k = choose|k: int| is_first_comma(inner, k);
            match spec_parse_i64(inner.subrange(0, k)) {
                Option::None => Err("Could not parse x value"@),
                Option::Some(x) => match spec_parse_i64(
                    inner.subrange(k + 1, inner.len() as int),
                ) {
                    Option::None => Err("Could not parse y value"@),
                    Option::Some(y) => Ok((x, y)),
                },
            }
        } else {
            Err("Error parsing values"@)
        }
    }
}

/// Parses the textual form `(X,Y)` into a point with 64-bit signed
/// coordinates.
pub fn parse_point_i64(s: &str) -> (r: Result<Point<i64>, BitcoinError>)
    ensures
        (r matches Ok(p) ==> spec_parse_point(s@) == Ok::<(i64, i64), Seq<char>>((p.x, p.y))),
        (r matches Err(e) ==> {
            &&& e@ matches ErrorData::ParseError(m)
            &&& spec_parse_point(s@) == Err::<(i64, i64), Seq<char>>(m)
        }),
{
    let n = s.unicode_len();
    if n < 2 || s.get_char(0) != '(' || s.get_char(n - 1) != ')' {
        return Err(BitcoinError::ParseError("Error parsing values".to_owned()));
    }
    let ghost inner = s@.subrange(1, s@.len() - 1);
    let mut k: usize = 1;
    while k < n - 1 && s.get_char(k) != ','
        invariant
            1 <= k <= n - 1,
            n == s@.len(),
            n >= 2,
            forall|j: int| 1 <= j < k ==> s@[j] != ',',
        decreases n - 1 - k,
    {
        k += 1;
    }
    if k == n - 1 {
        proof {
            assert forall|j: int| 0 <= j < inner.len() implies inner[j] != ',' by {
                assert(inner[j] == s@[j + 1]);
            }
        }
        return Err(BitcoinError::ParseError("Error parsing values".to_owned()));
    }
    proof {
        assert(inner[k - 1] == s@[k as int]);
        assert forall|j: int| 0 <= j < k - 1 implies inner[j] != ',' by {
            assert(inner[j] == s@[j + 1]);
        }
        assert(is_first_comma(inner, k - 1));
        lemma_first_comma_unique(inner, k - 1, choose|j: int| is_first_comma(inner, j));
    }
    let xs = s.substring_char(1, k);
    let ys = s.substring_char(k + 1, n - 1);
    proof {
        assert(xs@ =~= inner.subrange(0, k - 1));
        assert(ys@ =~= inner.subrange(k as int, inner.len() as int));
    }
    match parse_i64_text(xs) {
        Option::None => Err(BitcoinError::ParseError("Could not parse x value".to_owned())),
        Option::Some(x) => match parse_i64_text(ys) {
            Option::None => Err(BitcoinError::ParseError("Could not parse y value".to_owned())),
            Option::Some(y) => Ok(Point { x, y }),
        },
    }
}

impl core::str::FromStr for Point<i64> {
    type Err = BitcoinError;

    /// The standard parsing entry point, backed by `parse_point_i64`.
    fn from_str(s: &str) -> Result<Self, Self::Err> {
        parse_point_i64(s)
    }
}

} // verus!
