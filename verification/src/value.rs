//! Runtime values of the AVAP machine and their semantics.
//!
//! A value is null, a boolean, a 64-bit integer, a 64-bit float (held by its
//! IEEE-754 bit pattern), a string, a list, a dictionary (an ordered list of
//! string keys and values) or a list iterator (its items and the position of
//! the next one).
use vstd::prelude::*;
use crate::text::string_of;

verus! {

/// A runtime value.
#[derive(Debug, PartialEq)]
pub enum Value {
    Null,
    Bool(bool),
    Int(i64),
    /// A float, by the bits of its IEEE-754 binary64 encoding.
    Float(u64),
    Str(String),
    List(Vec<Value>),
    Dict(Vec<(String, Value)>),
    Iter(Vec<Value>, usize),
}

/// The mathematical model of a runtime value.
#[verifier::ext_equal]
pub enum Val {
    Null,
    Bool(bool),
    Int(int),
    Float(u64),
    Str(Seq<char>),
    List(Seq<Val>),
    Dict(Seq<(Seq<char>, Val)>),
    Iter(Seq<Val>, int),
}

pub open spec fn val_of(v: Value) -> Val
    decreases v,
{
    match v {
        Value::Null => Val::Null,
        Value::Bool(b) => Val::Bool(b),
        Value::Int(i) => Val::Int(i as int),
        Value::Float(f) => Val::Float(f),
        Value::Str(s) => Val::Str(s@),
        Value::List(items) => Val::List(vals_of(items@)),
        Value::Dict(pairs) => Val::Dict(pairs_of(pairs@)),
        Value::Iter(items, i) => Val::Iter(vals_of(items@), i as int),
    }
}

pub open spec fn vals_of(s: Seq<Value>) -> Seq<Val>
    decreases s,
{
    Seq::new(s.len(), |i: int| if 0 <= i < s.len() { val_of(s[i]) } else { Val::Null })
}

pub open spec fn pair_of(p: (String, Value)) -> (Seq<char>, Val) {
    (p.0@, val_of(p.1))
}

pub open spec fn pairs_of(s: Seq<(String, Value)>) -> Seq<(Seq<char>, Val)>
    decreases s,
{
    Seq::new(
        s.len(),
        |i: int|
            if 0 <= i < s.len() {
                (s[i].0@, val_of(s[i].1))
            } else {
                (Seq::empty(), Val::Null)
            },
    )
}

impl View for Value {
    type V = Val;

    open spec fn view(&self) -> Val {
        val_of(*self)
    }
}

pub broadcast proof fn lemma_vals_index(s: Seq<Value>, i: int)
    requires
        0 <= i < s.len(),
    ensures
        #[trigger] vals_of(s)[i] == val_of(s[i]),
{
}

pub broadcast proof fn lemma_vals_len(s: Seq<Value>)
    ensures
        #[trigger] vals_of(s).len() == s.len(),
{
}

pub broadcast proof fn lemma_pairs_index(s: Seq<(String, Value)>, i: int)
    requires
        0 <= i < s.len(),
    ensures
        #[trigger] pairs_of(s)[i] == pair_of(s[i]),
{
}

pub broadcast proof fn lemma_pairs_len(s: Seq<(String, Value)>)
    ensures
        #[trigger] pairs_of(s).len() == s.len(),
{
}

pub broadcast group group_value_views {
    lemma_vals_index,
    lemma_vals_len,
    lemma_pairs_index,
    lemma_pairs_len,
}

broadcast use vstd::std_specs::vec::group_vec_axioms;

pub proof fn lemma_vals_push(s: Seq<Value>, v: Value)
    ensures
        vals_of(s.push(v)) == vals_of(s).push(val_of(v)),
{
    assert(vals_of(s.push(v)) =~= vals_of(s).push(val_of(v)));
}

pub proof fn lemma_vals_drop_last(s: Seq<Value>)
    requires
        s.len() > 0,
    ensures
        vals_of(s.drop_last()) == vals_of(s).drop_last(),
{
    assert(vals_of(s.drop_last()) =~= vals_of(s).drop_last());
}

pub proof fn lemma_vals_update(s: Seq<Value>, i: int, v: Value)
    requires
        0 <= i < s.len(),
    ensures
        vals_of(s.update(i, v)) == vals_of(s).update(i, val_of(v)),
{
    assert(vals_of(s.update(i, v)) =~= vals_of(s).update(i, val_of(v)));
}

pub proof fn lemma_pairs_push(s: Seq<(String, Value)>, p: (String, Value))
    ensures
        pairs_of(s.push(p)) == pairs_of(s).push(pair_of(p)),
{
    assert(pairs_of(s.push(p)) =~= pairs_of(s).push(pair_of(p)));
}

// ---------------------------------------------------------------------------
// Floats by their bits
// ---------------------------------------------------------------------------

/// The bits of a float without its sign.
pub open spec fn float_magnitude(bits: u64) -> u64 {
    bits & 0x7fff_ffff_ffff_ffffu64
}

/// A float that is NaN: all exponent bits set and a nonzero fraction.
pub open spec fn float_is_nan(bits: u64) -> bool {
    (bits & 0x7ff0_0000_0000_0000u64) == 0x7ff0_0000_0000_0000u64
        && (bits & 0x000f_ffff_ffff_ffffu64) != 0
}

/// A float equal to zero (positive or negative zero).
pub open spec fn float_is_zero(bits: u64) -> bool {
    float_magnitude(bits) == 0
}

/// IEEE-754 equality: NaN equals nothing, and the two zeros are equal.
pub open spec fn float_eq(a: u64, b: u64) -> bool {
    !float_is_nan(a) && !float_is_nan(b) && (a == b || (float_is_zero(a) && float_is_zero(b)))
}

/// IEEE-754 negation flips the sign bit.
pub open spec fn float_neg(bits: u64) -> u64 {
    bits ^ 0x8000_0000_0000_0000u64
}

pub fn float_bits_is_zero(bits: u64) -> (r: bool)
    ensures
        r == float_is_zero(bits),
{
    (bits & 0x7fff_ffff_ffff_ffffu64) == 0
}

pub fn float_bits_eq(a: u64, b: u64) -> (r: bool)
    ensures
        r == float_eq(a, b),
{
    let a_nan = (a & 0x7ff0_0000_0000_0000u64) == 0x7ff0_0000_0000_0000u64
        && (a & 0x000f_ffff_ffff_ffffu64) != 0;
    let b_nan = (b & 0x7ff0_0000_0000_0000u64) == 0x7ff0_0000_0000_0000u64
        && (b & 0x000f_ffff_ffff_ffffu64) != 0;
    !a_nan && !b_nan && (a == b || (float_bits_is_zero(a) && float_bits_is_zero(b)))
}

pub fn float_bits_neg(bits: u64) -> (r: u64)
    ensures
        r == float_neg(bits),
{
    bits ^ 0x8000_0000_0000_0000u64
}

// ---------------------------------------------------------------------------
// Semantics over the model
// ---------------------------------------------------------------------------

/// The name of a value's type.
pub open spec fn type_name_of(v: Val) -> Seq<char> {
    match v {
        Val::Null => "null"@,
        Val::Bool(_) => "bool"@,
        Val::Int(_) => "int"@,
        Val::Float(_) => "float"@,
        Val::Str(_) => "string"@,
        Val::List(_) => "list"@,
        Val::Dict(_) => "dict"@,
        Val::Iter(_, _) => "iterator"@,
    }
}

/// Truthiness: null, false, zero, the empty string, list and dict are falsy.
pub open spec fn truthy(v: Val) -> bool {
    match v {
        Val::Null => false,
        Val::Bool(b) => b,
        Val::Int(i) => i != 0,
        Val::Float(f) => !float_is_zero(f),
        Val::Str(s) => s.len() > 0,
        Val::List(xs) => xs.len() > 0,
        Val::Dict(ps) => ps.len() > 0,
        Val::Iter(_, _) => true,
    }
}

/// Value equality: same kind and equal contents, floats by IEEE-754 equality.
pub open spec fn val_eq(a: Val, b: Val) -> bool
    decreases a,
{
    match a {
        Val::Null => b is Null,
        Val::Bool(x) => b matches Val::Bool(y) && x == y,
        Val::Int(x) => b matches Val::Int(y) && x == y,
        Val::Float(x) => b matches Val::Float(y) && float_eq(x, y),
        Val::Str(x) => b matches Val::Str(y) && x == y,
        Val::List(xs) => b matches Val::List(ys) && seq_eq(xs, ys),
        Val::Dict(xs) => b matches Val::Dict(ys) && dict_eq(xs, ys),
        Val::Iter(xs, i) => b matches Val::Iter(ys, j) && i == j && seq_eq(xs, ys),
    }
}

/// Element-wise equality of two sequences of values.
pub open spec fn seq_eq(xs: Seq<Val>, ys: Seq<Val>) -> bool
    decreases xs,
{
    xs.len() == ys.len() && (xs.len() == 0 || (seq_eq(xs.drop_last(), ys.drop_last()) && val_eq(
        xs.last(),
        ys.last(),
    )))
}

/// Entry-wise equality of two dictionaries: same keys, in order, with equal values.
pub open spec fn dict_eq(xs: Seq<(Seq<char>, Val)>, ys: Seq<(Seq<char>, Val)>) -> bool
    decreases xs,
{
    xs.len() == ys.len() && (xs.len() == 0 || (dict_eq(xs.drop_last(), ys.drop_last())
        && xs.last().0 == ys.last().0 && val_eq(xs.last().1, ys.last().1)))
}

// ---------------------------------------------------------------------------
// Executable semantics
// ---------------------------------------------------------------------------

impl Value {
    /// A copy of this value, equal to it in every part.
    pub fn duplicate(&self) -> (r: Value)
        ensures
            r@ == self@,
        decreases self,
    {
        broadcast use group_value_views;
        match self {
            Value::Null => Value::Null,
            Value::Bool(b) => Value::Bool(*b),
            Value::Int(i) => Value::Int(*i),
            Value::Float(f) => Value::Float(*f),
            Value::Str(s) => Value::Str(s.clone()),
            Value::List(items) => Value::List(duplicate_items(items)),
            Value::Dict(pairs) => Value::Dict(duplicate_pairs(pairs)),
            Value::Iter(items, idx) => Value::Iter(duplicate_items(items), *idx),
        }
    }

    /// The name of this value's type.
    pub fn type_str(&self) -> (r: String)
        ensures
            r@ == type_name_of(self@),
    {
        match self {
            Value::Null => string_of("null"),
            Value::Bool(_) => string_of("bool"),
            Value::Int(_) => string_of("int"),
            Value::Float(_) => string_of("float"),
            Value::Str(_) => string_of("string"),
            Value::List(_) => string_of("list"),
            Value::Dict(_) => string_of("dict"),
            Value::Iter(_, _) => string_of("iterator"),
        }
    }

    /// Whether this value counts as true in a condition.
    pub fn is_truthy(&self) -> (r: bool)
        ensures
            r == truthy(self@),
    {
        match self {
            Value::Null => false,
            Value::Bool(b) => *b,
            Value::Int(i) => *i != 0,
            Value::Float(f) => !float_bits_is_zero(*f),
            Value::Str(s) => !s.as_str().is_empty(),
            Value::List(items) => items.len() > 0,
            Value::Dict(pairs) => pairs.len() > 0,
            Value::Iter(_, _) => true,
        }
    }

    /// Value equality (see `val_eq`).
    pub fn eq_val(&self, other: &Value) -> (r: bool)
        ensures
            r == val_eq(self@, other@),
        decreases self,
    {
        broadcast use group_value_views;
        match (self, other) {
            (Value::Null, Value::Null) => true,
            (Value::Bool(x), Value::Bool(y)) => *x == *y,
            (Value::Int(x), Value::Int(y)) => *x == *y,
            (Value::Float(x), Value::Float(y)) => float_bits_eq(*x, *y),
            (Value::Str(x), Value::Str(y)) => *x == *y,
            (Value::List(xs), Value::List(ys)) => items_eq(xs, ys),
            (Value::Dict(xs), Value::Dict(ys)) => pairs_eq(xs, ys),
            (Value::Iter(xs, i), Value::Iter(ys, j)) => *i == *j && items_eq(xs, ys),
            _ => false,
        }
    }
}

/// Copies a list of values.
pub fn duplicate_items(items: &Vec<Value>) -> (r: Vec<Value>)
    ensures
        vals_of(r@) == vals_of(items@),
    decreases items,
{
    broadcast use group_value_views;

    let mut out: Vec<Value> = Vec::new();
    let mut i: usize = 0;
    while i < items.len()
        invariant
            i <= items@.len(),
            vals_of(out@) =~= vals_of(items@).subrange(0, i as int),
        decreases items@.len() - i,
    {
        let v = items[i].duplicate();
        proof {
            lemma_vals_push(out@, v);
        }
        out.push(v);
        i = i + 1;
        assert(vals_of(out@) =~= vals_of(items@).subrange(0, i as int));
    }
    assert(vals_of(items@).subrange(0, items@.len() as int) =~= vals_of(items@));
    out
}

/// Copies a dictionary.
pub fn duplicate_pairs(pairs: &Vec<(String, Value)>) -> (r: Vec<(String, Value)>)
    ensures
        pairs_of(r@) == pairs_of(pairs@),
    decreases pairs,
{
    broadcast use group_value_views;
    let mut out: Vec<(String, Value)> = Vec::new();
    let mut i: usize = 0;
    while i < pairs.len()
        invariant
            i <= pairs@.len(),
            pairs_of(out@) =~= pairs_of(pairs@).subrange(0, i as int),
        decreases pairs@.len() - i,
    {
        let k = pairs[i].0.clone();
        proof {
            assert(decreases_to!(pairs => pairs[i as int]));
            assert(decreases_to!(pairs[i as int] => pairs[i as int].1));
        }
        let v = pairs[i].1.duplicate();
        proof {
            lemma_pairs_push(out@, (k, v));
        }
        out.push((k, v));
        i = i + 1;
        assert(pairs_of(out@) =~= pairs_of(pairs@).subrange(0, i as int));
    }
    assert(pairs_of(pairs@).subrange(0, pairs@.len() as int) =~= pairs_of(pairs@));
    out
}

/// Entry-wise equality of two dictionaries.
pub fn pairs_eq(xs: &Vec<(String, Value)>, ys: &Vec<(String, Value)>) -> (r: bool)
    ensures
        r == dict_eq(pairs_of(xs@), pairs_of(ys@)),
    decreases xs,
{
    broadcast use group_value_views;
    if xs.len() != ys.len() {
        return false;
    }
    let mut i: usize = 0;
    while i < xs.len()
        invariant
            xs@.len() == ys@.len(),
            i <= xs@.len(),
            dict_eq(pairs_of(xs@).subrange(0, i as int), pairs_of(ys@).subrange(0, i as int)),
        decreases xs@.len() - i,
    {
        let ghost a = pairs_of(xs@).subrange(0, i + 1);
        let ghost b = pairs_of(ys@).subrange(0, i + 1);
        assert(a.drop_last() =~= pairs_of(xs@).subrange(0, i as int));
        assert(b.drop_last() =~= pairs_of(ys@).subrange(0, i as int));
        proof {
            assert(decreases_to!(xs => xs[i as int]));
            assert(decreases_to!(xs[i as int] => xs[i as int].1));
        }
        if !(xs[i].0 == ys[i].0) || !xs[i].1.eq_val(&ys[i].1) {
            proof {
                if dict_eq(pairs_of(xs@), pairs_of(ys@)) {
                    lemma_dict_eq_prefix(pairs_of(xs@), pairs_of(ys@), i + 1);
                }
            }
            return false;
        }
        i = i + 1;
    }
    assert(pairs_of(xs@).subrange(0, xs@.len() as int) =~= pairs_of(xs@));
    assert(pairs_of(ys@).subrange(0, ys@.len() as int) =~= pairs_of(ys@));
    true
}

/// Element-wise equality of two lists of values.
pub fn items_eq(xs: &Vec<Value>, ys: &Vec<Value>) -> (r: bool)
    ensures
        r == seq_eq(vals_of(xs@), vals_of(ys@)),
    decreases xs,
{
    broadcast use group_value_views;
    if xs.len() != ys.len() {
        return false;
    }
    let mut i: usize = 0;
    while i < xs.len()
        invariant
            xs@.len() == ys@.len(),
            i <= xs@.len(),
            seq_eq(vals_of(xs@).subrange(0, i as int), vals_of(ys@).subrange(0, i as int)),
        decreases xs@.len() - i,
    {
        let ghost a = vals_of(xs@).subrange(0, i + 1);
        let ghost b = vals_of(ys@).subrange(0, i + 1);
        assert(a.drop_last() =~= vals_of(xs@).subrange(0, i as int));
        assert(b.drop_last() =~= vals_of(ys@).subrange(0, i as int));
        if !xs[i].eq_val(&ys[i]) {
            proof {
                if seq_eq(vals_of(xs@), vals_of(ys@)) {
                    lemma_seq_eq_prefix(vals_of(xs@), vals_of(ys@), i + 1);
                }
            }
            return false;
        }
        i = i + 1;
    }
    assert(vals_of(xs@).subrange(0, xs@.len() as int) =~= vals_of(xs@));
    assert(vals_of(ys@).subrange(0, ys@.len() as int) =~= vals_of(ys@));
    true
}

/// Equal sequences have equal prefixes.
pub proof fn lemma_seq_eq_prefix(xs: Seq<Val>, ys: Seq<Val>, n: int)
    requires
        0 <= n <= xs.len(),
        seq_eq(xs, ys),
    ensures
        seq_eq(xs.subrange(0, n), ys.subrange(0, n)),
    decreases xs.len(),
{
    if n < xs.len() {
        lemma_seq_eq_prefix(xs.drop_last(), ys.drop_last(), n);
        assert(xs.drop_last().subrange(0, n) =~= xs.subrange(0, n));
        assert(ys.drop_last().subrange(0, n) =~= ys.subrange(0, n));
    } else {
        assert(xs.subrange(0, n) =~= xs);
        assert(ys.subrange(0, n) =~= ys);
    }
}

/// Equal dictionaries have equal prefixes.
pub proof fn lemma_dict_eq_prefix(xs: Seq<(Seq<char>, Val)>, ys: Seq<(Seq<char>, Val)>, n: int)
    requires
        0 <= n <= xs.len(),
        dict_eq(xs, ys),
    ensures
        dict_eq(xs.subrange(0, n), ys.subrange(0, n)),
    decreases xs.len(),
{
    if n < xs.len() {
        lemma_dict_eq_prefix(xs.drop_last(), ys.drop_last(), n);
        assert(xs.drop_last().subrange(0, n) =~= xs.subrange(0, n));
        assert(ys.drop_last().subrange(0, n) =~= ys.subrange(0, n));
    } else {
        assert(xs.subrange(0, n) =~= xs);
        assert(ys.subrange(0, n) =~= ys);
    }
}

} // verus!
