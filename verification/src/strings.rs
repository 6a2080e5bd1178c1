//! String operations used by the builtins and string methods.
use vstd::prelude::*;
use crate::text::{chars_of, string_from_chars};

verus! {

broadcast use vstd::std_specs::vec::group_vec_axioms;

// ---------------------------------------------------------------------------
// What std's string functions return
// ---------------------------------------------------------------------------

/// Whether a character has Unicode's `White_Space` property, which is what
/// `char::is_whitespace` tests: the controls U+0009 to U+000D, the space,
/// U+0085, the no-break space, U+1680, the spaces U+2000 to U+200A, the line
/// and paragraph separators, U+202F, U+205F and the ideographic space.
pub open spec fn char_is_whitespace(c: char) -> bool {
    let u = c as int;
    ||| 0x9 <= u <= 0xD
    ||| u == 0x20
    ||| u == 0x85
    ||| u == 0xA0
    ||| u == 0x1680
    ||| 0x2000 <= u <= 0x200A
    ||| u == 0x2028
    ||| u == 0x2029
    ||| u == 0x202F
    ||| u == 0x205F
    ||| u == 0x3000
}

/// std's `str::to_uppercase` of a string (Unicode case mapping).
pub uninterp spec fn str_upper(s: Seq<char>) -> Seq<char>;

/// std's `str::to_lowercase` of a string (Unicode case mapping).
pub uninterp spec fn str_lower(s: Seq<char>) -> Seq<char>;

/// `to` written before each character of `s` and once at its end: the
/// replacement of an empty pattern, which matches at every character boundary.
pub open spec fn interleave(s: Seq<char>, to: Seq<char>) -> Seq<char>
    decreases s.len(),
{
    if s.len() == 0 {
        to
    } else {
        to + seq![s[0]] + interleave(s.drop_first(), to)
    }
}

/// `s` with every match of `from` replaced by `to`, matches found from left to
/// right without overlapping (`str::replace`).
pub open spec fn str_replace(s: Seq<char>, from: Seq<char>, to: Seq<char>) -> Seq<char>
    decreases s.len(),
{
    if from.len() == 0 {
        interleave(s, to)
    } else if s.len() == 0 {
        Seq::empty()
    } else if from.is_prefix_of(s) {
        to + str_replace(s.subrange(from.len() as int, s.len() as int), from, to)
    } else {
        seq![s[0]] + str_replace(s.drop_first(), from, to)
    }
}

/// The parts of `s` split at matches of a nonempty `sep` found from left to
/// right, where `cur` is the part begun so far.
pub open spec fn split_from(s: Seq<char>, sep: Seq<char>, cur: Seq<char>) -> Seq<Seq<char>>
    decreases s.len(),
{
    if s.len() == 0 {
        seq![cur]
    } else if sep.len() > 0 && sep.is_prefix_of(s) {
        seq![cur] + split_from(s.subrange(sep.len() as int, s.len() as int), sep, Seq::empty())
    } else {
        split_from(s.drop_first(), sep, cur.push(s[0]))
    }
}

/// The parts of `s` between matches of `sep` (`str::split`); an empty `sep`
/// separates every character, and the beginning and end of the string.
pub open spec fn str_split(s: Seq<char>, sep: Seq<char>) -> Seq<Seq<char>> {
    if sep.len() == 0 {
        seq![Seq::<char>::empty()] + s.map_values(|c: char| seq![c]) + seq![Seq::<char>::empty()]
    } else {
        split_from(s, sep, Seq::empty())
    }
}

/// `char::is_whitespace`: whether the character has the `White_Space` property.
#[verifier::external_body]
fn is_whitespace(c: char) -> (r: bool)
    ensures
        r == char_is_whitespace(c),
{
    c.is_whitespace()
}

/// `str::to_uppercase`: the contract names the result `str_upper(s@)`.
#[verifier::external_body]
fn to_upper(s: &str) -> (r: String)
    ensures
        r@ == str_upper(s@),
{
    s.to_uppercase()
}

/// `str::to_lowercase`: the contract names the result `str_lower(s@)`.
#[verifier::external_body]
fn to_lower(s: &str) -> (r: String)
    ensures
        r@ == str_lower(s@),
{
    s.to_lowercase()
}

/// `str::replace`: every left-to-right, non-overlapping match replaced.
#[verifier::external_body]
fn replace_all(s: &str, from: &str, to: &str) -> (r: String)
    ensures
        r@ == str_replace(s@, from@, to@),
{
    s.replace(from, to)
}

/// `str::split` collected into owned parts: the parts between matches of `sep`.
#[verifier::external_body]
fn split_all(s: &str, sep: &str) -> (r: Vec<String>)
    ensures
        r@.len() == str_split(s@, sep@).len(),
        forall|i: int| 0 <= i < r@.len() ==> #[trigger] r@[i]@ == str_split(s@, sep@)[i],
{
    s.split(sep).map(|p: &str| p.to_string()).collect()
}

/// `s` in upper case.
pub fn upper(s: &String) -> (r: String)
    ensures
        r@ == str_upper(s@),
{
    to_upper(s.as_str())
}

/// `s` in lower case.
pub fn lower(s: &String) -> (r: String)
    ensures
        r@ == str_lower(s@),
{
    to_lower(s.as_str())
}

/// `s` with each occurrence of `from` replaced by `to`.
pub fn replace(s: &String, from: &String, to: &String) -> (r: String)
    ensures
        r@ == str_replace(s@, from@, to@),
{
    replace_all(s.as_str(), from.as_str(), to.as_str())
}

/// The parts of `s` between occurrences of `sep`.
pub fn split(s: &String, sep: &String) -> (r: Vec<String>)
    ensures
        r@.len() == str_split(s@, sep@).len(),
        forall|i: int| 0 <= i < r@.len() ==> #[trigger] r@[i]@ == str_split(s@, sep@)[i],
{
    split_all(s.as_str(), sep.as_str())
}

// ---------------------------------------------------------------------------
// Trimming
// ---------------------------------------------------------------------------

/// The number of whitespace characters that begin `s`.
pub open spec fn lead_ws(s: Seq<char>) -> nat
    decreases s.len(),
{
    if s.len() > 0 && char_is_whitespace(s[0]) {
        1 + lead_ws(s.drop_first())
    } else {
        0
    }
}

/// The number of whitespace characters that end `s`.
pub open spec fn trail_ws(s: Seq<char>) -> nat
    decreases s.len(),
{
    if s.len() > 0 && char_is_whitespace(s.last()) {
        1 + trail_ws(s.drop_last())
    } else {
        0
    }
}

/// `s` without its leading and trailing whitespace.
pub open spec fn trimmed(s: Seq<char>) -> Seq<char> {
    let a = lead_ws(s);
    if a >= s.len() {
        Seq::empty()
    } else {
        s.subrange(a as int, s.len() - trail_ws(s))
    }
}

proof fn lemma_lead_ws(s: Seq<char>, i: int)
    requires
        0 <= i <= s.len(),
        forall|j: int| 0 <= j < i ==> char_is_whitespace(#[trigger] s[j]),
        i == s.len() || !char_is_whitespace(s[i]),
    ensures
        lead_ws(s) == i,
    decreases i,
{
    if i > 0 {
        assert forall|j: int| 0 <= j < i - 1 implies char_is_whitespace(#[trigger] s.drop_first()[j]) by {
            assert(s.drop_first()[j] == s[j + 1]);
        }
        if i < s.len() {
            assert(s.drop_first()[i - 1] == s[i]);
        }
        lemma_lead_ws(s.drop_first(), i - 1);
    }
}

proof fn lemma_trail_ws(s: Seq<char>, i: int)
    requires
        0 <= i <= s.len(),
        forall|j: int| s.len() - i <= j < s.len() ==> char_is_whitespace(#[trigger] s[j]),
        i == s.len() || !char_is_whitespace(s[s.len() - 1 - i]),
    ensures
        trail_ws(s) == i,
    decreases i,
{
    if i > 0 {
        assert forall|j: int| s.drop_last().len() - (i - 1) <= j < s.drop_last().len() implies char_is_whitespace(
            #[trigger] s.drop_last()[j],
        ) by {
            assert(s.drop_last()[j] == s[j]);
        }
        if i < s.len() {
            assert(s.drop_last()[s.drop_last().len() - 1 - (i - 1)] == s[s.len() - 1 - i]);
        }
        lemma_trail_ws(s.drop_last(), i - 1);
    }
}

/// The characters of `cs` without leading and trailing whitespace.
pub fn trim_chars(cs: &Vec<char>) -> (r: Vec<char>)
    ensures
        r@ == trimmed(cs@),
{
    let n = cs.len();
    let mut a: usize = 0;
    while a < n && is_whitespace(cs[a])
        invariant
            n == cs@.len(),
            a <= n,
            forall|j: int| 0 <= j < a ==> char_is_whitespace(#[trigger] cs@[j]),
        decreases n - a,
    {
        a = a + 1;
    }
    proof {
        lemma_lead_ws(cs@, a as int);
    }
    if a == n {
        return Vec::new();
    }
    let mut t: usize = 0;
    while t < n - a && is_whitespace(cs[n - 1 - t])
        invariant
            n == cs@.len(),
            a < n,
            t <= n - a,
            forall|j: int| n - t <= j < n ==> char_is_whitespace(#[trigger] cs@[j]),
        decreases n - a - t,
    {
        t = t + 1;
    }
    proof {
        if t < n - a {
            lemma_trail_ws(cs@, t as int);
        } else {
            assert(!char_is_whitespace(cs@[a as int]));
            assert(false);
        }
    }
    let mut out: Vec<char> = Vec::new();
    let mut i: usize = a;
    while i < n - t
        invariant
            n == cs@.len(),
            a <= i <= n - t,
            out@ == cs@.subrange(a as int, i as int),
        decreases n - t - i,
    {
        out.push(cs[i]);
        i = i + 1;
        assert(out@ =~= cs@.subrange(a as int, i as int));
    }
    out
}

/// `s` without its leading and trailing whitespace (`str::trim`).
pub fn trim(s: &String) -> (r: String)
    ensures
        r@ == trimmed(s@),
{
    let cs = chars_of(s.as_str());
    let t = trim_chars(&cs);
    string_from_chars(t.as_slice())
}

// ---------------------------------------------------------------------------
// Digits, prefixes, suffixes
// ---------------------------------------------------------------------------

pub open spec fn is_ascii_digit(c: char) -> bool {
    '0' <= c <= '9'
}

/// A nonempty string of ASCII digits only.
pub open spec fn all_digits(s: Seq<char>) -> bool {
    s.len() > 0 && forall|i: int| 0 <= i < s.len() ==> #[trigger] is_ascii_digit(s[i])
}

/// Whether `s` is nonempty and made of ASCII digits.
pub fn is_digits(s: &String) -> (r: bool)
    ensures
        r == all_digits(s@),
{
    let cs = chars_of(s.as_str());
    if cs.len() == 0 {
        return false;
    }
    let mut i: usize = 0;
    while i < cs.len()
        invariant
            i <= cs@.len(),
            cs@ == s@,
            forall|j: int| 0 <= j < i ==> #[trigger] is_ascii_digit(cs@[j]),
        decreases cs@.len() - i,
    {
        if !('0' <= cs[i] && cs[i] <= '9') {
            assert(!is_ascii_digit(cs@[i as int]));
            return false;
        }
        i = i + 1;
    }
    true
}

/// Whether `s` begins with `p`.
pub fn starts_with(s: &String, p: &String) -> (r: bool)
    ensures
        r == p@.is_prefix_of(s@),
{
    let sc = chars_of(s.as_str());
    let pc = chars_of(p.as_str());
    if pc.len() > sc.len() {
        return false;
    }
    let mut i: usize = 0;
    while i < pc.len()
        invariant
            sc@ == s@,
            pc@ == p@,
            pc@.len() <= sc@.len(),
            i <= pc@.len(),
            forall|j: int| 0 <= j < i ==> #[trigger] pc@[j] == sc@[j],
        decreases pc@.len() - i,
    {
        if pc[i] != sc[i] {
            return false;
        }
        i = i + 1;
    }
    true
}

/// Whether `s` ends with `p`.
pub fn ends_with(s: &String, p: &String) -> (r: bool)
    ensures
        r == p@.is_suffix_of(s@),
{
    let sc = chars_of(s.as_str());
    let pc = chars_of(p.as_str());
    if pc.len() > sc.len() {
        return false;
    }
    let off = sc.len() - pc.len();
    let mut i: usize = 0;
    while i < pc.len()
        invariant
            sc@ == s@,
            pc@ == p@,
            off == sc@.len() - pc@.len(),
            i <= pc@.len(),
            forall|j: int| 0 <= j < i ==> #[trigger] pc@[j] == sc@[off + j],
        decreases pc@.len() - i,
    {
        assert(off + i < sc.len());
        if pc[i] != sc[off + i] {
            return false;
        }
        i = i + 1;
    }
    true
}

// ---------------------------------------------------------------------------
// Integer parsing
// ---------------------------------------------------------------------------

/// The value of a string of decimal digits.
pub open spec fn digits_value(d: Seq<char>) -> int
    decreases d.len(),
{
    if d.len() == 0 {
        0
    } else {
        digits_value(d.drop_last()) * 10 + (d.last() as int - '0' as int)
    }
}

/// The integer that a text denotes in the syntax of std's `i64` parsing: an
/// optional `+` or `-`, then one or more ASCII digits, with a value in the
/// range of `i64`.
pub open spec fn parse_int(s: Seq<char>) -> Option<int> {
    let neg = s.len() > 0 && s[0] == '-';
    let signed = s.len() > 0 && (s[0] == '-' || s[0] == '+');
    let body = if signed {
        s.drop_first()
    } else {
        s
    };
    let v = if neg {
        -digits_value(body)
    } else {
        digits_value(body)
    };
    if all_digits(body) && i64::MIN <= v <= i64::MAX {
        Some(v)
    } else {
        None
    }
}

proof fn lemma_digits_value_nonneg(d: Seq<char>)
    requires
        forall|i: int| 0 <= i < d.len() ==> #[trigger] is_ascii_digit(d[i]),
    ensures
        digits_value(d) >= 0,
    decreases d.len(),
{
    if d.len() > 0 {
        assert(is_ascii_digit(d[d.len() - 1]));
        assert forall|i: int| 0 <= i < d.drop_last().len() implies #[trigger] is_ascii_digit(d.drop_last()[i]) by {
            assert(d.drop_last()[i] == d[i]);
        }
        lemma_digits_value_nonneg(d.drop_last());
    }
}

/// Values only grow as digits are appended.
proof fn lemma_digits_value_grows(d: Seq<char>, n: int)
    requires
        0 <= n <= d.len(),
        forall|i: int| 0 <= i < d.len() ==> #[trigger] is_ascii_digit(d[i]),
    ensures
        digits_value(d.take(n)) <= digits_value(d),
    decreases d.len(),
{
    if n < d.len() {
        assert(d.drop_last().take(n) =~= d.take(n));
        assert forall|i: int| 0 <= i < d.drop_last().len() implies #[trigger] is_ascii_digit(d.drop_last()[i]) by {
            assert(d.drop_last()[i] == d[i]);
        }
        lemma_digits_value_grows(d.drop_last(), n);
        lemma_digits_value_nonneg(d.drop_last());
        assert(is_ascii_digit(d[d.len() - 1]));
    } else {
        assert(d.take(n) =~= d);
    }
}

fn digit_value(c: char) -> (r: i128)
    requires
        is_ascii_digit(c),
    ensures
        r == c as int - '0' as int,
        0 <= r <= 9,
{
    let v: u32 = (c as u32) - ('0' as u32);
    v as i128
}

/// Parses an integer in the syntax of std's `i64` parsing (see `parse_int`).
pub fn parse_i64(s: &String) -> (r: Option<i64>)
    ensures
        match r {
            Some(v) => parse_int(s@) == Some(v as int),
            None => parse_int(s@) is None,
        },
{
    let cs = chars_of(s.as_str());
    let n = cs.len();
    let neg = n > 0 && cs[0] == '-';
    let signed = n > 0 && (cs[0] == '-' || cs[0] == '+');
    let start: usize = if signed { 1 } else { 0 };
    let ghost body = if signed { s@.drop_first() } else { s@ };
    assert(body =~= cs@.subrange(start as int, n as int));
    if start >= n {
        return None;
    }
    // The magnitude stays at most 2^63 while scanning; beyond that no i64 fits.
    let limit: i128 = 9_223_372_036_854_775_808i128;
    let mut acc: i128 = 0;
    let mut i: usize = start;
    while i < n
        invariant
            n == cs@.len(),
            cs@ == s@,
            signed == (s@.len() > 0 && (s@[0] == '-' || s@[0] == '+')),
            neg == (s@.len() > 0 && s@[0] == '-'),
            body == (if signed { s@.drop_first() } else { s@ }),
            start <= i <= n,
            body == cs@.subrange(start as int, n as int),
            forall|j: int| 0 <= j < i - start ==> #[trigger] is_ascii_digit(body[j]),
            acc == digits_value(body.take(i - start)),
            0 <= acc <= limit,
            limit == 9_223_372_036_854_775_808i128,
        decreases n - i,
    {
        let c = cs[i];
        assert(body[i - start] == c);
        if !('0' <= c && c <= '9') {
            assert(!is_ascii_digit(body[i - start]));
            assert(!all_digits(body));
            assert(parse_int(s@) is None);
            return None;
        }
        let d = digit_value(c);
        assert(body.take(i - start + 1).drop_last() =~= body.take(i - start));
        let next = acc * 10 + d;
        if next > limit {
            proof {
                assert(forall|j: int| 0 <= j < i - start + 1 ==> #[trigger] is_ascii_digit(body[j]));
                if all_digits(body) {
                    lemma_digits_value_grows(body, i - start + 1);
                    assert(digits_value(body) > limit);
                }
                assert(parse_int(s@) is None);
            }
            return None;
        }
        acc = next;
        i = i + 1;
    }
    assert(body.take(n - start) =~= body);
    if neg {
        if acc <= limit {
            Some((-acc) as i64)
        } else {
            None
        }
    } else {
        if acc < limit {
            Some(acc as i64)
        } else {
            None
        }
    }
}

} // verus!
