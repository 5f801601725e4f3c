//! Verified helpers over strings: equality, suffix matching, and decimal
//! parsing of unsigned integers.

use vstd::prelude::*;
use vstd::string::StrSliceExecFns;

verus! {

/// `suffix` is a suffix of `s`.
pub open spec fn suffix_matches(s: Seq<char>, suffix: Seq<char>) -> bool {
    s.len() >= suffix.len() && s.subrange(s.len() - suffix.len(), s.len() as int) == suffix
}

/// Character-for-character equality of two string slices.
pub fn str_eq(a: &str, b: &str) -> (r: bool)
    ensures
        r == (a@ == b@),
{
    let an = a.unicode_len();
    let bn = b.unicode_len();
    if an != bn {
        return false;
    }
    let mut i: usize = 0;
    while i < an
        invariant
            i <= an,
            an == a@.len(),
            an == b@.len(),
            forall|j: int| 0 <= j < i ==> a@[j] == b@[j],
        decreases an - i,
    {
        if a.get_char(i) != b.get_char(i) {
            return false;
        }
        i = i + 1;
    }
    proof {
        assert(a@ =~= b@);
    }
    true
}

/// Whether `s` ends with `suffix`, comparing characters.
pub fn str_ends_with(s: &str, suffix: &str) -> (r: bool)
    ensures
        r == suffix_matches(s@, suffix@),
{
    let n = s.unicode_len();
    let m = suffix.unicode_len();
    if m > n {
        return false;
    }
    let off = n - m;
    let mut i: usize = 0;
    while i < m
        invariant
            i <= m,
            m <= n,
            off == n - m,
            n == s@.len(),
            m == suffix@.len(),
            forall|j: int| 0 <= j < i ==> s@[off + j] == suffix@[j],
        decreases m - i,
    {
        if s.get_char(off + i) != suffix.get_char(i) {
            proof {
                assert(s@.subrange(s@.len() - suffix@.len(), s@.len() as int)[i as int]
                    == s@[off + i]);
            }
            return false;
        }
        i = i + 1;
    }
    proof {
        assert(s@.subrange(s@.len() - suffix@.len(), s@.len() as int) =~= suffix@);
    }
    true
}

/// `suffix` is a suffix of `s` that begins at a path-component boundary: it
/// is the whole of `s`, or it starts right after a `/`. This is how tags,
/// the metadata-document marker and the single-file filter are matched: the
/// name `dates` does not match the path `/cache/updates`.
pub open spec fn component_suffix_matches(s: Seq<char>, suffix: Seq<char>) -> bool {
    suffix_matches(s, suffix) && (s.len() == suffix.len() || s[s.len() - suffix.len() - 1] == '/')
}

/// Whether `s` ends with `suffix` as final path components: the match must
/// sit at a `/` boundary (or cover the whole of `s`).
pub fn path_ends_with_component(s: &str, suffix: &str) -> (r: bool)
    ensures
        r == component_suffix_matches(s@, suffix@),
{
    if !str_ends_with(s, suffix) {
        return false;
    }
    let n = s.unicode_len();
    let m = suffix.unicode_len();
    if n == m {
        return true;
    }
    s.get_char(n - m - 1) == '/'
}

/// `c` is one of the characters `'0'` through `'9'`.
pub open spec fn is_ascii_digit(c: char) -> bool {
    48 <= c as u32 <= 57
}

/// The numeric value of a digit character.
pub open spec fn digit_value(c: char) -> nat {
    (c as u32 - 48) as nat
}

/// Every character of `s` is a decimal digit.
pub open spec fn all_digits(s: Seq<char>) -> bool {
    forall|i: int| 0 <= i < s.len() ==> is_ascii_digit(#[trigger] s[i])
}

/// The value of `s` read as a decimal numeral.
pub open spec fn dec_value(s: Seq<char>) -> nat
    decreases s.len(),
{
    if s.len() == 0 {
        0
    } else {
        dec_value(s.drop_last()) * 10 + digit_value(s.last())
    }
}

/// `s` is a decimal numeral whose value fits in a `u64`: non-empty, digits
/// only, and at most `u64::MAX`.
pub open spec fn parses_as_u64(s: Seq<char>) -> bool {
    s.len() > 0 && all_digits(s) && dec_value(s) <= u64::MAX
}

/// Extending a numeral never shrinks its value.
proof fn lemma_dec_value_prefix_le(s: Seq<char>, i: int)
    requires
        0 <= i <= s.len(),
    ensures
        dec_value(s.take(i)) <= dec_value(s),
    decreases s.len() - i,
{
    if i < s.len() {
        lemma_dec_value_prefix_le(s, i + 1);
        assert(s.take(i + 1).drop_last() =~= s.take(i));
        assert(dec_value(s.take(i)) * 10 >= dec_value(s.take(i))) by {
            assert(dec_value(s.take(i)) * 10 == dec_value(s.take(i)) * 9 + dec_value(s.take(i)));
        }
    } else {
        assert(s.take(i) =~= s);
    }
}

/// Parses `s` as a decimal `u64`: digits only, no sign, no surrounding
/// whitespace. Returns `None` exactly when `s` is not such a numeral or its
/// value does not fit.
pub fn parse_u64(s: &str) -> (r: Option<u64>)
    ensures
        match r {
            Some(v) => parses_as_u64(s@) && v as nat == dec_value(s@),
            None => !parses_as_u64(s@),
        },
{
    let n = s.unicode_len();
    if n == 0 {
        return None;
    }
    let mut acc: u64 = 0;
    let mut i: usize = 0;
    while i < n
        invariant
            i <= n,
            n == s@.len(),
            forall|j: int| 0 <= j < i ==> is_ascii_digit(#[trigger] s@[j]),
            acc as nat == dec_value(s@.take(i as int)),
        decreases n - i,
    {
        let c = s.get_char(i);
        let u = c as u32;
        if u < 48 || u > 57 {
            return None;
        }
        let d: u64 = (u - 48) as u64;
        let wide: u128 = acc as u128 * 10 + d as u128;
        proof {
            assert(s@.take(i + 1).drop_last() =~= s@.take(i as int));
        }
        if wide > u64::MAX as u128 {
            proof {
                lemma_dec_value_prefix_le(s@, i + 1);
            }
            return None;
        }
        acc = wide as u64;
        i = i + 1;
    }
    proof {
        assert(s@.take(n as int) =~= s@);
    }
    Some(acc)
}

} // verus!
