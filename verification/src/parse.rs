//! Parsing of decimal numbers and of enum variants written by name.

use vstd::prelude::*;

verus! {

/// The error returned when a string names no variant of an enum.
#[derive(Debug, PartialEq, Eq, Structural, Clone, Copy)]
pub struct ParseEnumError;

impl ParseEnumError {
    /// The message that describes this error.
    pub fn message(&self) -> (r: &'static str)
        ensures
            r@ == "failed to parse enum"@,
    {
        "failed to parse enum"
    }
}

/// Whether `c` is an ASCII decimal digit.
pub open spec fn is_digit(c: char) -> bool {
    '0' <= c && c <= '9'
}

/// The numeric value of the digit `c`.
pub open spec fn digit_value(c: char) -> int {
    (c as int) - ('0' as int)
}

/// Whether every character of `s` is a decimal digit.
pub open spec fn all_digits(s: Seq<char>) -> bool {
    forall|i: int| 0 <= i < s.len() ==> is_digit(#[trigger] s[i])
}

/// The value of the decimal numeral `s`, most significant digit first.
pub open spec fn digits_value(s: Seq<char>) -> int
    decreases s.len(),
{
    if s.len() == 0 {
        0
    } else {
        digits_value(s.drop_last()) * 10 + digit_value(s.last())
    }
}

/// The value of a non-empty digit string of at most `limit`, or `None`.
pub open spec fn spec_parse_digits(body: Seq<char>, limit: int) -> Option<int> {
    if body.len() > 0 && all_digits(body) && digits_value(body) <= limit {
        Some(digits_value(body))
    } else {
        None
    }
}

/// What `i64::from_str` accepts: an optional `+` or `-`, then one or more
/// decimal digits, with the value in the range of `i64`.
pub open spec fn spec_parse_i64(s: Seq<char>) -> Option<i64> {
    if s.len() > 0 && s[0] == '-' {
        match spec_parse_digits(s.skip(1), 0x8000_0000_0000_0000) {
            Some(v) => Some((-v) as i64),
            None => None,
        }
    } else {
        let body = if s.len() > 0 && s[0] == '+' { s.skip(1) } else { s };
        match spec_parse_digits(body, 0x7fff_ffff_ffff_ffff) {
            Some(v) => Some(v as i64),
            None => None,
        }
    }
}

/// What `u32::from_str` accepts: an optional `+`, then one or more
/// decimal digits, with the value in the range of `u32`.
pub open spec fn spec_parse_u32(s: Seq<char>) -> Option<u32> {
    let body = if s.len() > 0 && s[0] == '+' { s.skip(1) } else { s };
    match spec_parse_digits(body, 0xffff_ffff) {
        Some(v) => Some(v as u32),
        None => None,
    }
}

proof fn lemma_digits_value_nonneg(s: Seq<char>)
    requires
        all_digits(s),
    ensures
        digits_value(s) >= 0,
    decreases s.len(),
{
    if s.len() > 0 {
        assert(all_digits(s.drop_last()));
        lemma_digits_value_nonneg(s.drop_last());
        assert(is_digit(s[s.len() - 1]));
    }
}

/// A digit string is worth at least as much as each of its prefixes.
proof fn lemma_digits_value_prefix(s: Seq<char>, k: int)
    requires
        all_digits(s),
        0 <= k <= s.len(),
    ensures
        digits_value(s.take(k)) <= digits_value(s),
    decreases s.len() - k,
{
    if k < s.len() {
        lemma_digits_value_prefix(s, k + 1);
        let t = s.take(k + 1);
        assert(t.drop_last() =~= s.take(k));
        assert(all_digits(s.take(k))) by {
            assert forall|i: int| 0 <= i < k implies is_digit(#[trigger] s.take(k)[i]) by {
                assert(s.take(k)[i] == s[i]);
            }
        }
        lemma_digits_value_nonneg(s.take(k));
        assert(is_digit(s[k]));
        assert(t.last() == s[k]);
    } else {
        assert(s.take(k) =~= s);
    }
}

/// Reads the digits of `s` from character `start` on, as `spec_parse_digits`
/// over that suffix with the bound `limit`.
fn parse_digits(s: &str, start: usize, limit: u64) -> (r: Option<u64>)
    requires
        start <= s@.len(),
        limit >= 9,
    ensures
        r is Some <==> spec_parse_digits(s@.skip(start as int), limit as int) is Some,
        r matches Some(m) ==> m <= limit && spec_parse_digits(s@.skip(start as int), limit as int)
            == Some(m as int),
{
    let n = s.unicode_len();
    let ghost body = s@.skip(start as int);
    if start >= n {
        return None;
    }
    let mut i = start;
    let mut m: u64 = 0;
    while i < n
        invariant
            n == s@.len(),
            start <= i <= n,
            body == s@.skip(start as int),
            all_digits(body.take(i - start)),
            m as int == digits_value(body.take(i - start)),
            m <= limit,
            limit >= 9,
        decreases n - i,
    {
        let c = s.get_char(i);
        if !('0' <= c && c <= '9') {
            proof {
                assert(body[i - start] == c);
            }
            return None;
        }
        let d: u64 = (c as u32 - '0' as u32) as u64;
        let ghost pre = body.take(i - start);
        let ghost next = body.take(i - start + 1);
        proof {
            assert(next.drop_last() =~= pre);
            assert(next.last() == c);
            assert(body[i - start] == c);
        }
        if m > (limit - d) / 10 {
            proof {
                assert(m * 10 + d > limit);
                assert(digits_value(next) == m * 10 + d);
                if all_digits(body) {
                    lemma_digits_value_prefix(body, i - start + 1);
                }
            }
            return None;
        }
        m = m * 10 + d;
        i = i + 1;
        proof {
            assert forall|j: int| 0 <= j < next.len() implies is_digit(#[trigger] next[j]) by {
                if j < pre.len() {
                    assert(next[j] == pre[j]);
                }
            }
        }
    }
    proof {
        assert(body.take(n - start) =~= body);
    }
    Some(m)
}

/// Parses a decimal `i64` exactly as `i64::from_str` does.
pub fn parse_i64(s: &str) -> (r: Option<i64>)
    ensures
        r == spec_parse_i64(s@),
{
    let n = s.unicode_len();
    if n > 0 && s.get_char(0) == '-' {
        match parse_digits(s, 1, 0x8000_0000_0000_0000) {
            Some(m) => {
                if m == 0x8000_0000_0000_0000 {
                    Some(i64::MIN)
                } else {
                    let v: i64 = m as i64;
                    Some(-v)
                }
            },
            None => None,
        }
    } else {
        let start: usize = if n > 0 && s.get_char(0) == '+' { 1 } else { 0 };
        proof {
            assert(s@.skip(0) =~= s@);
        }
        match parse_digits(s, start, 0x7fff_ffff_ffff_ffff) {
            Some(m) => Some(m as i64),
            None => None,
        }
    }
}

/// Parses a decimal `u32` exactly as `u32::from_str` does.
pub fn parse_u32(s: &str) -> (r: Option<u32>)
    ensures
        r == spec_parse_u32(s@),
{
    proof {
        assert(s@.skip(0) =~= s@);
    }
    parse_u32_from(s, 0)
}

/// Parses the characters of `s` from `from` on as `u32::from_str` does.
pub fn parse_u32_from(s: &str, from: usize) -> (r: Option<u32>)
    requires
        from <= s@.len(),
    ensures
        r == spec_parse_u32(s@.skip(from as int)),
{
    let n = s.unicode_len();
    let ghost t = s@.skip(from as int);
    let start: usize = if from < n && s.get_char(from) == '+' { from + 1 } else { from };
    proof {
        if from < n && s@[from as int] == '+' {
            assert(t.skip(1) =~= s@.skip(start as int));
        } else {
            assert(t =~= s@.skip(start as int));
        }
    }
    match parse_digits(s, start, 0xffff_ffff) {
        Some(m) => Some(m as u32),
        None => None,
    }
}

/// Compares two strings character by character.
pub fn str_equal(a: &str, b: &str) -> (r: bool)
    ensures
        r == (a@ == b@),
{
    let n = a.unicode_len();
    if n != b.unicode_len() {
        return false;
    }
    let mut i: usize = 0;
    while i < n
        invariant
            n == a@.len(),
            n == b@.len(),
            0 <= i <= n,
            forall|j: int| 0 <= j < i ==> a@[j] == b@[j],
        decreases n - i,
    {
        if a.get_char(i) != b.get_char(i) {
            return false;
        }
        i = i + 1;
    }
    proof {
        assert(a@ =~= b@);
    }
    true
}

/// The position of the first of `names` equal to `s`, if any.
pub open spec fn first_name_index(s: Seq<char>, names: Seq<Seq<char>>) -> Option<int> {
    if exists|i: int| 0 <= i < names.len() && names[i] == s {
        Some(
            choose|i: int|
                0 <= i < names.len() && names[i] == s && forall|j: int|
                    0 <= j < i ==> names[j] != s,
        )
    } else {
        None
    }
}

/// The position of the first of `values` equal to `v`, if any.
pub open spec fn first_value_index(v: i64, values: Seq<i64>) -> Option<int> {
    if exists|i: int| 0 <= i < values.len() && values[i] == v {
        Some(
            choose|i: int|
                0 <= i < values.len() && values[i] == v && forall|j: int|
                    0 <= j < i ==> values[j] != v,
        )
    } else {
        None
    }
}

/// The views of a slice of strings.
pub open spec fn names_view(names: Seq<&str>) -> Seq<Seq<char>> {
    names.map_values(|n: &str| n@)
}

/// Which variant a string names: the position of the first variant name
/// equal to it; failing that, when `use_primitives` holds and the string
/// is a decimal `i64`, the position of the first variant whose
/// discriminant is that number.
pub open spec fn spec_enum_from_str(
    s: Seq<char>,
    names: Seq<Seq<char>>,
    discriminants: Seq<i64>,
    use_primitives: bool,
) -> Result<int, ParseEnumError> {
    match first_name_index(s, names) {
        Some(i) => Ok(i),
        None => {
            if !use_primitives {
                Err(ParseEnumError)
            } else {
                match spec_parse_i64(s) {
                    Some(v) => match first_value_index(v, discriminants) {
                        Some(j) => Ok(j),
                        None => Err(ParseEnumError),
                    },
                    None => Err(ParseEnumError),
                }
            }
        },
    }
}

proof fn lemma_first_index_unique<A>(s: Seq<A>, x: A, k: int)
    requires
        0 <= k < s.len(),
        s[k] == x,
        forall|j: int| 0 <= j < k ==> s[j] != x,
    ensures
        (choose|i: int| 0 <= i < s.len() && s[i] == x && forall|j: int| 0 <= j < i ==> s[j] != x)
            == k,
{
    let c = choose|i: int| 0 <= i < s.len() && s[i] == x && forall|j: int| 0 <= j < i ==> s[j] != x;
    assert(0 <= c < s.len() && s[c] == x && forall|j: int| 0 <= j < c ==> s[j] != x);
    if c < k {
        assert(s[c] != x);
    }
    if k < c {
        assert(s[k] != x);
    }
}

/// Finds which variant of an enum a string names, as a derived `FromStr`
/// does: `names[i]` is the name of variant `i` and `discriminants[i]` its
/// discriminant. Returns the variant's position.
pub fn enum_from_str(s: &str, names: &[&str], discriminants: &[i64], use_primitives: bool) -> (r:
    Result<usize, ParseEnumError>)
    ensures
        match r {
            Ok(i) => spec_enum_from_str(
                s@,
                names_view(names@),
                discriminants@,
                use_primitives,
            ) == Ok::<int, ParseEnumError>(i as int),
            Err(e) => spec_enum_from_str(s@, names_view(names@), discriminants@, use_primitives)
                == Err::<int, ParseEnumError>(e),
        },
{
    let ghost nv = names_view(names@);
    let mut i: usize = 0;
    while i < names.len()
        invariant
            0 <= i <= names.len(),
            nv == names_view(names@),
            nv.len() == names@.len(),
            forall|j: int| 0 <= j < i ==> nv[j] != s@,
        decreases names.len() - i,
    {
        if str_equal(names[i], s) {
            proof {
                assert(nv[i as int] == names@[i as int]@);
                lemma_first_index_unique(nv, s@, i as int);
            }
            return Ok(i);
        }
        proof {
            assert(nv[i as int] == names@[i as int]@);
        }
        i = i + 1;
    }
    proof {
        assert(!(exists|k: int| 0 <= k < nv.len() && nv[k] == s@));
        assert(first_name_index(s@, nv) is None);
    }
    if !use_primitives {
        return Err(ParseEnumError);
    }
    match parse_i64(s) {
        Some(v) => {
            let mut j: usize = 0;
            while j < discriminants.len()
                invariant
                    0 <= j <= discriminants.len(),
                    forall|k: int| 0 <= k < j ==> discriminants@[k] != v,
                    nv == names_view(names@),
                    first_name_index(s@, nv) is None,
                    spec_parse_i64(s@) == Some(v),
                    use_primitives,
                decreases discriminants.len() - j,
            {
                if discriminants[j] == v {
                    proof {
                        lemma_first_index_unique(discriminants@, v, j as int);
                    }
                    return Ok(j);
                }
                j = j + 1;
            }
            Err(ParseEnumError)
        },
        None => Err(ParseEnumError),
    }
}

} // verus!
