//! Membership, indexing and item assignment on values.
use vstd::prelude::*;
use crate::text::{chars_of, push_char};
use crate::value::{
    group_value_views, lemma_pairs_push, lemma_vals_update, pair_of, pairs_of, val_eq, vals_of,
    Val, Value,
};

verus! {

broadcast use {group_value_views, vstd::std_specs::vec::group_vec_axioms};

// ---------------------------------------------------------------------------
// Dictionaries as ordered entry lists
// ---------------------------------------------------------------------------

/// Entry `i` is the first entry of `ps` whose key is `k`.
pub open spec fn dict_first(ps: Seq<(Seq<char>, Val)>, k: Seq<char>, i: int) -> bool {
    &&& 0 <= i < ps.len()
    &&& ps[i].0 == k
    &&& forall|j: int| 0 <= j < i ==> ps[j].0 != k
}

/// Some entry of `ps` has key `k`.
pub open spec fn dict_has(ps: Seq<(Seq<char>, Val)>, k: Seq<char>) -> bool {
    exists|i: int| 0 <= i < ps.len() && ps[i].0 == k
}

/// The position of the first entry with key `k` (meaningful when `dict_has(ps, k)`).
pub open spec fn dict_pos(ps: Seq<(Seq<char>, Val)>, k: Seq<char>) -> int {
    choose|i: int| dict_first(ps, k, i)
}

/// The value of the first entry with key `k`, if any.
pub open spec fn dict_get(ps: Seq<(Seq<char>, Val)>, k: Seq<char>) -> Option<Val> {
    if dict_has(ps, k) {
        Some(ps[dict_pos(ps, k)].1)
    } else {
        None
    }
}

/// The dictionary with the first entry for `k` given the value `v`, or with a new
/// last entry `(k, v)` when no entry has key `k`.
pub open spec fn dict_set(ps: Seq<(Seq<char>, Val)>, k: Seq<char>, v: Val) -> Seq<(Seq<char>, Val)> {
    if dict_has(ps, k) {
        ps.update(dict_pos(ps, k), (k, v))
    } else {
        ps.push((k, v))
    }
}

/// When some entry has key `k`, the first one is at `dict_pos(ps, k)`.
pub proof fn lemma_dict_pos(ps: Seq<(Seq<char>, Val)>, k: Seq<char>)
    requires
        dict_has(ps, k),
    ensures
        dict_first(ps, k, dict_pos(ps, k)),
    decreases ps.len(),
{
    let last = ps.len() - 1;
    if dict_has(ps.drop_last(), k) {
        lemma_dict_pos(ps.drop_last(), k);
        let f = dict_pos(ps.drop_last(), k);
        assert(ps.drop_last()[f] == ps[f]);
        assert forall|j: int| 0 <= j < f implies ps[j].0 != k by {
            assert(ps.drop_last()[j] == ps[j]);
        }
        assert(dict_first(ps, k, f));
    } else {
        assert forall|j: int| 0 <= j < last implies ps[j].0 != k by {
            if ps[j].0 == k {
                assert(ps.drop_last()[j].0 == k);
            }
        }
        assert(dict_first(ps, k, last));
    }
}

/// The first entry with a key is unique.
pub proof fn lemma_dict_first_unique(ps: Seq<(Seq<char>, Val)>, k: Seq<char>, i: int, j: int)
    requires
        dict_first(ps, k, i),
        dict_first(ps, k, j),
    ensures
        i == j,
{
}

/// Finds the position of the first entry with key `k`.
pub fn find_key(pairs: &Vec<(String, Value)>, k: &String) -> (r: Option<usize>)
    ensures
        r matches Some(i) ==> dict_first(pairs_of(pairs@), k@, i as int) && i as int == dict_pos(
            pairs_of(pairs@),
            k@,
        ),
        r is None ==> !dict_has(pairs_of(pairs@), k@),
        r is Some <==> dict_has(pairs_of(pairs@), k@),
{
    let mut i: usize = 0;
    while i < pairs.len()
        invariant
            i <= pairs@.len(),
            forall|j: int| 0 <= j < i ==> pairs_of(pairs@)[j].0 != k@,
        decreases pairs@.len() - i,
    {
        if pairs[i].0 == *k {
            proof {
                assert(dict_first(pairs_of(pairs@), k@, i as int));
                lemma_dict_pos(pairs_of(pairs@), k@);
                lemma_dict_first_unique(
                    pairs_of(pairs@),
                    k@,
                    i as int,
                    dict_pos(pairs_of(pairs@), k@),
                );
            }
            return Some(i);
        }
        i = i + 1;
    }
    None
}

/// Looks up the first entry with key `k` and copies its value.
pub fn dict_lookup(pairs: &Vec<(String, Value)>, k: &String) -> (r: Option<Value>)
    ensures
        match r {
            Some(v) => dict_get(pairs_of(pairs@), k@) == Some(v@),
            None => dict_get(pairs_of(pairs@), k@) is None,
        },
{
    match find_key(pairs, k) {
        Some(i) => Some(pairs[i].1.duplicate()),
        None => None,
    }
}

/// Gives the first entry with key `k` the value `v`, or appends `(k, v)`.
pub fn dict_assign(pairs: &mut Vec<(String, Value)>, k: String, v: Value)
    ensures
        pairs_of(final(pairs)@) == dict_set(pairs_of(old(pairs)@), k@, v@),
{
    match find_key(pairs, &k) {
        Some(i) => {
            proof {
                assert(pairs_of(old(pairs)@.update(i as int, (k, v))) =~= pairs_of(old(pairs)@).update(
                    i as int,
                    pair_of((k, v)),
                ));
            }
            pairs.set(i, (k, v));
        },
        None => {
            proof {
                lemma_pairs_push(old(pairs)@, (k, v));
            }
            pairs.push((k, v));
        },
    }
}

// ---------------------------------------------------------------------------
// Indexing
// ---------------------------------------------------------------------------

/// A position counted from the end when negative.
pub open spec fn norm_index(len: int, i: int) -> int {
    if i < 0 {
        len + i
    } else {
        i
    }
}

/// `obj[key]`: a list or string element by integer position (negative counts from
/// the end), a dictionary value by string key; `None` otherwise.
pub open spec fn item_of(obj: Val, key: Val) -> Option<Val> {
    match obj {
        Val::List(xs) => match key {
            Val::Int(i) => {
                let j = norm_index(xs.len() as int, i);
                if 0 <= j < xs.len() {
                    Some(xs[j])
                } else {
                    None
                }
            },
            _ => None,
        },
        Val::Dict(ps) => match key {
            Val::Str(k) => dict_get(ps, k),
            _ => None,
        },
        Val::Str(s) => match key {
            Val::Int(i) => {
                let j = norm_index(s.len() as int, i);
                if 0 <= j < s.len() {
                    Some(Val::Str(seq![s[j]]))
                } else {
                    None
                }
            },
            _ => None,
        },
        _ => None,
    }
}

/// `obj[key] = v`: sets a dictionary entry by string key, or a list element at an
/// in-range integer position; any other value is left as it was.
pub open spec fn with_item(obj: Val, key: Val, v: Val) -> Val {
    match obj {
        Val::List(xs) => match key {
            Val::Int(i) => {
                let j = norm_index(xs.len() as int, i);
                if 0 <= j < xs.len() {
                    Val::List(xs.update(j, v))
                } else {
                    obj
                }
            },
            _ => obj,
        },
        Val::Dict(ps) => match key {
            Val::Str(k) => Val::Dict(dict_set(ps, k, v)),
            _ => obj,
        },
        _ => obj,
    }
}

/// Computes a normalized position when it lies in `0..len`.
fn in_range(len: usize, i: i64) -> (r: Option<usize>)
    ensures
        r matches Some(j) ==> j as int == norm_index(len as int, i as int) && j < len,
        r is None ==> !(0 <= norm_index(len as int, i as int) < len),
{
    if i < 0 {
        let back: u64 = (-(i as i128)) as u64;
        if (back as u128) <= (len as u128) {
            let j = len - (back as usize);
            if j < len {
                Some(j)
            } else {
                None
            }
        } else {
            None
        }
    } else {
        if (i as u128) < (len as u128) {
            Some(i as usize)
        } else {
            None
        }
    }
}

impl Value {
    /// Reads `self[key]` (see `item_of`).
    pub fn get_item(&self, key: &Value) -> (r: Option<Value>)
        ensures
            match r {
                Some(v) => item_of(self@, key@) == Some(v@),
                None => item_of(self@, key@) is None,
            },
    {
        match (self, key) {
            (Value::List(items), Value::Int(i)) => match in_range(items.len(), *i) {
                Some(j) => Some(items[j].duplicate()),
                None => None,
            },
            (Value::Dict(pairs), Value::Str(k)) => dict_lookup(pairs, k),
            (Value::Str(s), Value::Int(i)) => {
                let cs = chars_of(s.as_str());
                match in_range(cs.len(), *i) {
                    Some(j) => {
                        let mut out = String::new();
                        push_char(&mut out, cs[j]);
                        assert(out@ =~= seq![s@[j as int]]);
                        Some(Value::Str(out))
                    },
                    None => None,
                }
            },
            _ => None,
        }
    }

    /// Performs `self[key] = v` (see `with_item`).
    pub fn set_item(&mut self, key: Value, v: Value)
        ensures
            final(self)@ == with_item(old(self)@, key@, v@),
    {
        match self {
            Value::List(items) => {
                if let Value::Int(i) = key {
                    match in_range(items.len(), i) {
                        Some(j) => {
                            proof {
                                lemma_vals_update(items@, j as int, v);
                            }
                            items.set(j, v);
                        },
                        None => {},
                    }
                }
            },
            Value::Dict(pairs) => {
                if let Value::Str(k) = key {
                    dict_assign(pairs, k, v);
                }
            },
            _ => {},
        }
    }
}

// ---------------------------------------------------------------------------
// Membership
// ---------------------------------------------------------------------------

/// `t` occurs as a contiguous part of `s`.
pub open spec fn is_substring(t: Seq<char>, s: Seq<char>) -> bool {
    exists|i: int| 0 <= i && i + t.len() <= s.len() && #[trigger] s.subrange(i, i + t.len()) == t
}

/// Some element of `xs` equals `item`.
pub open spec fn list_has(xs: Seq<Val>, item: Val) -> bool {
    exists|i: int| 0 <= i < xs.len() && val_eq(#[trigger] xs[i], item)
}

/// `item in container`: an equal list element, a substring, or a dictionary key.
pub open spec fn contains_val(container: Val, item: Val) -> bool {
    match container {
        Val::List(xs) => list_has(xs, item),
        Val::Str(s) => match item {
            Val::Str(t) => is_substring(t, s),
            _ => false,
        },
        Val::Dict(ps) => match item {
            Val::Str(k) => dict_has(ps, k),
            _ => false,
        },
        _ => false,
    }
}

/// Whether `t` occurs in `s` as a contiguous run of characters.
pub fn chars_contain(s: &Vec<char>, t: &Vec<char>) -> (r: bool)
    ensures
        r == is_substring(t@, s@),
{
    if t.len() > s.len() {
        return false;
    }
    let last = s.len() - t.len();
    let mut i: usize = 0;
    while i <= last
        invariant
            last == s@.len() - t@.len(),
            t@.len() <= s@.len(),
            forall|a: int| 0 <= a < i ==> #[trigger] s@.subrange(a, a + t@.len()) != t@,
        decreases last + 1 - i,
    {
        let mut j: usize = 0;
        let mut same = true;
        while j < t.len()
            invariant
                i <= last,
                last == s@.len() - t@.len(),
                t@.len() <= s@.len(),
                j <= t@.len(),
                same ==> forall|b: int| 0 <= b < j ==> s@[i + b] == t@[b],
                !same ==> s@.subrange(i as int, i + t@.len()) != t@,
            decreases t@.len() - j,
        {
            assert(i + j < s.len());
            let at: usize = i + j;
            if s[at] != t[j] {
                same = false;
                assert(s@.subrange(i as int, i + t@.len())[j as int] != t@[j as int]);
            }
            j = j + 1;
        }
        if same {
            assert(s@.subrange(i as int, i + t@.len()) =~= t@);
            return true;
        }
        if i == last {
            return false;
        }
        i = i + 1;
    }
    false
}

impl Value {
    /// `item in self` (see `contains_val`).
    pub fn contains(&self, item: &Value) -> (r: bool)
        ensures
            r == contains_val(self@, item@),
    {
        match self {
            Value::List(items) => {
                let mut i: usize = 0;
                while i < items.len()
                    invariant
                        i <= items@.len(),
                        self@ == Val::List(vals_of(items@)),
                        forall|a: int| 0 <= a < i ==> !val_eq(#[trigger] vals_of(items@)[a], item@),
                    decreases items@.len() - i,
                {
                    if items[i].eq_val(item) {
                        assert(val_eq(vals_of(items@)[i as int], item@));
                        return true;
                    }
                    i = i + 1;
                }
                false
            },
            Value::Str(s) => match item {
                Value::Str(t) => {
                    let sc = chars_of(s.as_str());
                    let tc = chars_of(t.as_str());
                    chars_contain(&sc, &tc)
                },
                _ => false,
            },
            Value::Dict(pairs) => match item {
                Value::Str(k) => find_key(pairs, k).is_some(),
                _ => false,
            },
            _ => false,
        }
    }
}

} // verus!
