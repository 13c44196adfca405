//! Decimal literals: integers with an optional sign, and reals written as
//! two integer parts around one dot.
use vstd::prelude::*;
use crate::text::{str_chars, string_of_chars};

verus! {

/// Whether `c` is an ASCII decimal digit.
pub open spec fn is_digit(c: char) -> bool {
    48 <= (c as u32) <= 57
}

/// The value of a digit character.
pub open spec fn digit_value(c: char) -> int {
    (c as u32) - 48
}

/// Whether every character of `s` is a decimal digit.
pub open spec fn all_digits(s: Seq<char>) -> bool {
    forall|i: int| 0 <= i < s.len() ==> is_digit(#[trigger] s[i])
}

/// The number that a string of decimal digits writes.
pub open spec fn digits_value(s: Seq<char>) -> int
    decreases s.len(),
{
    if s.len() == 0 {
        0
    } else {
        10 * digits_value(s.drop_last()) + digit_value(s.last())
    }
}

/// Whether the text starts with a minus sign that counts as one.
pub open spec fn has_minus(s: Seq<char>, signed: bool) -> bool {
    signed && s.len() > 0 && s[0] == '-'
}

/// The digits of a signed literal: the text after a leading `+`, or after a
/// leading `-` where the type is signed.
pub open spec fn literal_digits(s: Seq<char>, signed: bool) -> Seq<char> {
    if has_minus(s, signed) || (s.len() > 0 && s[0] == '+') {
        s.drop_first()
    } else {
        s
    }
}

/// Reading `s` as an integer of the range `[lo, hi]`: an optional sign
/// (`-` only for a signed type), one or more digits and nothing else, with
/// a value in range.
pub open spec fn parse_int_spec(s: Seq<char>, signed: bool, lo: int, hi: int) -> Option<int> {
    let body = literal_digits(s, signed);
    if body.len() == 0 || !all_digits(body) {
        None
    } else {
        let v = if has_minus(s, signed) { -digits_value(body) } else { digits_value(body) };
        if lo <= v <= hi { Some(v) } else { None }
    }
}

proof fn lemma_digits_prefix(s: Seq<char>, k: int)
    requires
        all_digits(s),
        0 <= k <= s.len(),
    ensures
        0 <= digits_value(s.take(k)) <= digits_value(s),
    decreases s.len(),
{
    if k == s.len() {
        assert(s.take(k) =~= s);
        lemma_digits_nonneg(s);
    } else {
        let t = s.drop_last();
        assert(t.take(k) =~= s.take(k));
        assert(all_digits(t)) by {
            assert forall|i: int| 0 <= i < t.len() implies is_digit(#[trigger] t[i]) by {
                assert(t[i] == s[i]);
            }
        }
        lemma_digits_prefix(t, k);
        assert(is_digit(s[s.len() - 1]));
    }
}

proof fn lemma_digits_nonneg(s: Seq<char>)
    requires
        all_digits(s),
    ensures
        digits_value(s) >= 0,
    decreases s.len(),
{
    if s.len() > 0 {
        let t = s.drop_last();
        assert(all_digits(t)) by {
            assert forall|i: int| 0 <= i < t.len() implies is_digit(#[trigger] t[i]) by {
                assert(t[i] == s[i]);
            }
        }
        lemma_digits_nonneg(t);
        assert(is_digit(s[s.len() - 1]));
    }
}

/// Reads `cs[from..]` as an integer of `[lo, hi]`, as `parse_int_spec` says.
fn parse_int_chars(cs: &Vec<char>, signed: bool, lo: i64, hi: i64) -> (r: Option<i64>)
    requires
        lo <= 0 <= hi,
    ensures
        match r {
            Some(v) => parse_int_spec(cs@, signed, lo as int, hi as int) == Some(v as int),
            None => parse_int_spec(cs@, signed, lo as int, hi as int) is None,
        },
{
    let ghost s = cs@;
    let n = cs.len();
    let neg = signed && n > 0 && cs[0] == '-';
    let start: usize = if neg || (n > 0 && cs[0] == '+') { 1 } else { 0 };
    let ghost body = literal_digits(s, signed);
    proof {
        assert(body =~= s.subrange(start as int, n as int));
    }
    if start == n {
        return None;
    }
    let mut acc: i128 = 0;
    let mut i = start;
    while i < n
        invariant
            start <= i <= n == cs@.len(),
            s == cs@,
            body == literal_digits(s, signed),
            neg == has_minus(s, signed),
            lo <= 0 <= hi,
            body == s.subrange(start as int, n as int),
            body.len() > 0,
            all_digits(body.take(i - start)),
            acc == digits_value(body.take(i - start)),
            0 <= acc <= 0x8000_0000_0000_0000,
        decreases n - i,
    {
        let c = cs[i];
        let d = c as u32;
        if d < 48 || d > 57 {
            proof {
                assert(body[i - start] == c);
                assert(!all_digits(body));
            }
            return None;
        }
        proof {
            let k = i - start;
            assert(body.take(k + 1).drop_last() =~= body.take(k));
            assert(body.take(k + 1).last() == c);
            assert(all_digits(body.take(k + 1))) by {
                assert forall|j: int| 0 <= j < k + 1 implies is_digit(#[trigger] body.take(k + 1)[j]) by {
                    if j < k {
                        assert(body.take(k + 1)[j] == body.take(k)[j]);
                    }
                }
            }
        }
        acc = acc * 10 + (d - 48) as i128;
        i += 1;
        if acc > 0x8000_0000_0000_0000 {
            proof {
                let k = i - start;
                if all_digits(body) {
                    lemma_digits_prefix(body, k);
                }
            }
            return None;
        }
    }
    proof {
        assert(body.take(n - start) =~= body);
    }
    let v: i128 = if neg { -acc } else { acc };
    if v < lo as i128 || v > hi as i128 {
        None
    } else {
        Some(v as i64)
    }
}

/// Reads a text as an integer of `[lo, hi]`, as `parse_int_spec` says.
pub fn parse_int(s: &str, signed: bool, lo: i64, hi: i64) -> (r: Option<i64>)
    requires
        lo <= 0 <= hi,
    ensures
        match r {
            Some(v) => parse_int_spec(s@, signed, lo as int, hi as int) == Some(v as int),
            None => parse_int_spec(s@, signed, lo as int, hi as int) is None,
        },
{
    let cs = str_chars(s);
    parse_int_chars(&cs, signed, lo, hi)
}

/// How many times `c` occurs in `s`.
pub open spec fn count_char(s: Seq<char>, c: char) -> nat
    decreases s.len(),
{
    if s.len() == 0 {
        0
    } else {
        count_char(s.drop_last(), c) + if s.last() == c { 1nat } else { 0nat }
    }
}

/// The position of the first `c` in `s`, or `s.len()` when there is none.
pub open spec fn first_index(s: Seq<char>, c: char) -> int
    decreases s.len(),
{
    if s.len() == 0 {
        0
    } else if s[0] == c {
        0
    } else {
        1 + first_index(s.drop_first(), c)
    }
}

/// The two parts of a real literal around its dot, when it has exactly one.
pub open spec fn real_parts(s: Seq<char>) -> Option<(Seq<char>, Seq<char>)> {
    if count_char(s, '.') == 1 {
        let i = first_index(s, '.');
        Some((s.take(i), s.skip(i + 1)))
    } else {
        None
    }
}

proof fn lemma_count_first(s: Seq<char>, c: char, i: int)
    requires
        0 <= i <= s.len(),
        forall|j: int| 0 <= j < i ==> s[j] != c,
        i == s.len() || s[i] == c,
    ensures
        first_index(s, c) == i,
    decreases s.len(),
{
    if s.len() > 0 && i > 0 {
        let t = s.drop_first();
        assert forall|j: int| 0 <= j < i - 1 implies t[j] != c by {
            assert(t[j] == s[j + 1]);
        }
        if i < s.len() {
            assert(t[i - 1] == s[i]);
        }
        lemma_count_first(t, c, i - 1);
    }
}

proof fn lemma_count_prefix_step(s: Seq<char>, c: char, k: int)
    requires
        0 <= k < s.len(),
    ensures
        count_char(s.take(k + 1), c) == count_char(s.take(k), c) + if s[k] == c { 1nat } else { 0nat },
{
    assert(s.take(k + 1).drop_last() =~= s.take(k));
}

/// Splits a real literal at its dot: the parts before and after it when it
/// has exactly one dot, `None` otherwise.
pub fn split_real(s: &str) -> (r: Option<(String, String)>)
    ensures
        match r {
            Some((a, b)) => real_parts(s@) == Some((a@, b@)),
            None => real_parts(s@) is None,
        },
{
    let cs = str_chars(s);
    let n = cs.len();
    let mut count: usize = 0;
    let mut first: usize = n;
    let mut i: usize = 0;
    while i < n
        invariant
            i <= n == cs@.len(),
            cs@ == s@,
            count == count_char(cs@.take(i as int), '.'),
            count <= i,
            first <= n,
            count == 0 ==> first == n && forall|j: int| 0 <= j < i ==> cs@[j] != '.',
            count > 0 ==> first < i && cs@[first as int] == '.' && forall|j: int|
                0 <= j < first ==> cs@[j] != '.',
        decreases n - i,
    {
        proof {
            lemma_count_prefix_step(cs@, '.', i as int);
        }
        if cs[i] == '.' {
            if count == 0 {
                first = i;
            }
            count += 1;
        }
        i += 1;
    }
    proof {
        assert(cs@.take(n as int) =~= cs@);
    }
    if count != 1 {
        return None;
    }
    proof {
        lemma_count_first(cs@, '.', first as int);
        assert(cs@.skip(first + 1) =~= cs@.subrange(first + 1, n as int));
    }
    let a = string_of_chars(&cs, 0, first);
    let b = string_of_chars(&cs, first + 1, n);
    Some((a, b))
}

} // verus!
