//! Small verified string utilities: equality, whitespace trimming, decimal
//! parsing, and exact copies, with contracts over the character sequences.

use vstd::prelude::*;

verus! {

/// Whether two string slices hold the same characters.
pub fn str_eq(a: &str, b: &str) -> (r: bool)
    ensures
        r == (a@ == b@),
{
    let alen = a.unicode_len();
    let blen = b.unicode_len();
    if alen != blen {
        return false;
    }
    let mut i: usize = 0;
    while i < alen
        invariant
            alen == a@.len(),
            blen == b@.len(),
            alen == blen,
            0 <= i <= alen,
            forall|j: int| 0 <= j < i ==> a@[j] == b@[j],
        decreases alen - i,
    {
        if a.get_char(i) != b.get_char(i) {
            return false;
        }
        i = i + 1;
    }
    proof {
        assert(a@ =~= b@);
    }
    true
}

/// A whitespace character, as the surrounding option text may carry it.
pub open spec fn is_space(c: char) -> bool {
    c == ' ' || c == '\t' || c == '\n' || c == '\r'
}

/// Whether one character is whitespace.
pub fn is_space_char(c: char) -> (r: bool)
    ensures
        r == is_space(c),
{
    c == ' ' || c == '\t' || c == '\n' || c == '\r'
}

/// The string without its leading whitespace.
pub open spec fn drop_leading_spaces(s: Seq<char>) -> Seq<char>
    decreases s.len(),
{
    if s.len() > 0 && is_space(s.first()) {
        drop_leading_spaces(s.drop_first())
    } else {
        s
    }
}

/// The string without its trailing whitespace.
pub open spec fn drop_trailing_spaces(s: Seq<char>) -> Seq<char>
    decreases s.len(),
{
    if s.len() > 0 && is_space(s.last()) {
        drop_trailing_spaces(s.drop_last())
    } else {
        s
    }
}

/// The string without leading and trailing whitespace.
pub open spec fn spec_trim(s: Seq<char>) -> Seq<char> {
    drop_trailing_spaces(drop_leading_spaces(s))
}

proof fn lemma_drop_leading_at(s: Seq<char>, from: int)
    requires
        0 <= from <= s.len(),
        forall|j: int| 0 <= j < from ==> is_space(s[j]),
        from < s.len() ==> !is_space(s[from]),
    ensures
        drop_leading_spaces(s) == s.skip(from),
    decreases from,
{
    if from == 0 {
        assert(s.skip(0) =~= s);
    } else {
        assert(is_space(s.first()));
        let t = s.drop_first();
        assert(forall|j: int| 0 <= j < from - 1 ==> is_space(#[trigger] t[j]));
        assert(from - 1 < t.len() ==> !is_space(t[from - 1]));
        lemma_drop_leading_at(t, from - 1);
        assert(t.skip(from - 1) =~= s.skip(from));
    }
}

proof fn lemma_drop_trailing_at(s: Seq<char>, to: int)
    requires
        0 <= to <= s.len(),
        forall|j: int| to <= j < s.len() ==> is_space(s[j]),
        to > 0 ==> !is_space(s[to - 1]),
    ensures
        drop_trailing_spaces(s) == s.take(to),
    decreases s.len(),
{
    if to == s.len() {
        if s.len() > 0 {
            assert(!is_space(s.last()));
        }
        assert(s.take(to) =~= s);
    } else {
        assert(is_space(s.last()));
        let t = s.drop_last();
        assert(forall|j: int| to <= j < t.len() ==> is_space(#[trigger] t[j]));
        lemma_drop_trailing_at(t, to);
        assert(t.take(to) =~= s.take(to));
    }
}

/// Strip leading and trailing whitespace.
pub fn trim_spaces(s: &str) -> (r: &str)
    ensures
        r@ == spec_trim(s@),
{
    let len = s.unicode_len();
    let mut from: usize = 0;
    while from < len && is_space_char(s.get_char(from))
        invariant
            len == s@.len(),
            0 <= from <= len,
            forall|j: int| 0 <= j < from ==> is_space(s@[j]),
        decreases len - from,
    {
        from = from + 1;
    }
    let mut to: usize = len;
    while to > from && is_space_char(s.get_char(to - 1))
        invariant
            len == s@.len(),
            from <= to <= len,
            forall|j: int| to <= j < len ==> is_space(s@[j]),
            from < len ==> !is_space(s@[from as int]),
        decreases to,
    {
        to = to - 1;
    }
    let r = s.substring_char(from, to);
    proof {
        lemma_drop_leading_at(s@, from as int);
        let u = s@.skip(from as int);
        assert(forall|j: int|
            to - from <= j < u.len() ==> is_space(#[trigger] u[j]) && u[j] == s@[j + from]);
        assert(to > from ==> !is_space(u[to - from - 1]));
        lemma_drop_trailing_at(u, to - from as int);
        assert(u.take(to - from as int) =~= s@.subrange(from as int, to as int));
    }
    r
}

/// Copy a list of key/value string pairs, exactly.
pub fn copy_pairs(v: &Vec<(String, String)>) -> (r: Vec<(String, String)>)
    ensures
        r@ == v@,
{
    let mut r: Vec<(String, String)> = Vec::new();
    let mut i: usize = 0;
    while i < v.len()
        invariant
            0 <= i <= v@.len(),
            r@ =~= v@.subrange(0, i as int),
        decreases v@.len() - i,
    {
        r.push((v[i].0.clone(), v[i].1.clone()));
        proof {
            assert(r@ =~= v@.subrange(0, i as int + 1));
        }
        i = i + 1;
    }
    proof {
        assert(v@.subrange(0, v@.len() as int) =~= v@);
    }
    r
}

/// Copy a list of numeric ids, exactly.
pub fn copy_u32s(v: &Vec<u32>) -> (r: Vec<u32>)
    ensures
        r@ == v@,
{
    let mut r: Vec<u32> = Vec::new();
    let mut i: usize = 0;
    while i < v.len()
        invariant
            0 <= i <= v@.len(),
            r@ =~= v@.subrange(0, i as int),
        decreases v@.len() - i,
    {
        r.push(v[i]);
        proof {
            assert(r@ =~= v@.subrange(0, i as int + 1));
        }
        i = i + 1;
    }
    proof {
        assert(v@.subrange(0, v@.len() as int) =~= v@);
    }
    r
}

/// The value of a sequence of decimal digits, most significant first.
pub open spec fn decimal_value(s: Seq<char>) -> int
    decreases s.len(),
{
    if s.len() == 0 {
        0
    } else {
        decimal_value(s.drop_last()) * 10 + (s.last() as int - '0' as int)
    }
}

/// Whether every character is a decimal digit.
pub open spec fn all_digits(s: Seq<char>) -> bool {
    forall|i: int| 0 <= i < s.len() ==> '0' <= #[trigger] s[i] <= '9'
}

/// A digit string's value is at least the value of any of its prefixes.
pub proof fn lemma_decimal_prefix_le(s: Seq<char>, k: int)
    requires
        all_digits(s),
        0 <= k <= s.len(),
    ensures
        decimal_value(s.take(k)) >= 0,
        decimal_value(s) >= decimal_value(s.take(k)),
    decreases s.len(),
{
    if s.len() == 0 {
        assert(s.take(k) =~= s);
    } else {
        let t = s.drop_last();
        assert(all_digits(t));
        if k == s.len() {
            assert(s.take(k) =~= s);
            lemma_decimal_prefix_le(t, t.len() as int);
            assert(decimal_value(s) == decimal_value(t) * 10 + (s.last() as int - '0' as int));
        } else {
            assert(s.take(k) =~= t.take(k));
            lemma_decimal_prefix_le(t, k);
            lemma_decimal_prefix_le(t, t.len() as int);
            assert(decimal_value(s) == decimal_value(t) * 10 + (s.last() as int - '0' as int));
        }
    }
}

/// What parsing an unsigned 8-bit decimal means: an optional leading `+`,
/// then at least one digit, with a value of at most 255.
pub open spec fn spec_parse_u8(s: Seq<char>) -> Option<u8> {
    let digits = if s.len() > 0 && s[0] == '+' {
        s.drop_first()
    } else {
        s
    };
    if digits.len() > 0 && all_digits(digits) && decimal_value(digits) <= 255 {
        Some(decimal_value(digits) as u8)
    } else {
        None
    }
}

/// Parse an unsigned 8-bit decimal number, exactly as
/// [`spec_parse_u8`] states.
pub fn parse_u8(s: &str) -> (r: Option<u8>)
    ensures
        r == spec_parse_u8(s@),
{
    let len = s.unicode_len();
    let mut start: usize = 0;
    if len > 0 && s.get_char(0) == '+' {
        start = 1;
    }
    let ghost digits = if s@.len() > 0 && s@[0] == '+' {
        s@.drop_first()
    } else {
        s@
    };
    proof {
        assert(digits.len() == len - start);
        assert(forall|j: int| 0 <= j < digits.len() ==> digits[j] == s@[j + start]);
    }
    if start >= len {
        return None;
    }
    let mut value: u32 = 0;
    let mut i: usize = start;
    while i < len
        invariant
            len == s@.len(),
            start <= i <= len,
            start <= 1,
            digits == (if s@.len() > 0 && s@[0] == '+' {
                s@.drop_first()
            } else {
                s@
            }),
            (start == 1) == (s@.len() > 0 && s@[0] == '+'),
            digits.len() == len - start,
            forall|j: int| 0 <= j < digits.len() ==> digits[j] == s@[j + start],
            all_digits(digits.take(i - start)),
            value as int == decimal_value(digits.take(i - start)),
            value <= 255,
        decreases len - i,
    {
        let c = s.get_char(i);
        if c < '0' || c > '9' {
            proof {
                assert(digits[i - start] == c);
            }
            return None;
        }
        let d: u32 = c as u32 - '0' as u32;
        proof {
            let k = i - start as int;
            assert(digits.take(k + 1).drop_last() =~= digits.take(k));
            assert(digits.take(k + 1).last() == digits[k]);
            assert(digits[k] == c);
        }
        let next = value * 10 + d;
        if next > 255 {
            proof {
                let k = i + 1 - start as int;
                if all_digits(digits) {
                    lemma_decimal_prefix_le(digits, k);
                }
            }
            return None;
        }
        value = next;
        i = i + 1;
    }
    proof {
        assert(digits.take(len - start as int) =~= digits);
    }
    Some(value as u8)
}

} // verus!
