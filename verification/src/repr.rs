//! The text form of values.
//!
//! Null is `None`, booleans are `True` and `False`, integers are in decimal,
//! a string is its own characters, a list is `[a, b]`, a dictionary is
//! `{k: v, ..}` and an iterator is `<iterator>`. Floats are written by the
//! host (see `Piece::Float`), so the text of a value is a sequence of pieces:
//! literal text and floats still to be written.
use vstd::prelude::*;
use crate::text::{int_text, int_to_string, string_of};
use crate::value::{group_value_views, pairs_of, vals_of, Val, Value};

verus! {

broadcast use {group_value_views, vstd::std_specs::vec::group_vec_axioms};

/// A piece of text: literal characters, or a float still to be written.
#[derive(Debug, PartialEq)]
pub enum Piece {
    Text(String),
    Float(u64),
}

/// The model of a piece of text.
pub enum Tok {
    Text(Seq<char>),
    Float(u64),
}

pub open spec fn tok_of(p: Piece) -> Tok {
    match p {
        Piece::Text(s) => Tok::Text(s@),
        Piece::Float(f) => Tok::Float(f),
    }
}

pub open spec fn toks_of(ps: Seq<Piece>) -> Seq<Tok> {
    ps.map_values(|p: Piece| tok_of(p))
}

pub open spec fn text_tok(s: Seq<char>) -> Seq<Tok> {
    seq![Tok::Text(s)]
}

/// The pieces of the text form of a value.
pub open spec fn repr_toks(v: Val) -> Seq<Tok>
    decreases v,
{
    match v {
        Val::Null => text_tok("None"@),
        Val::Bool(b) => if b {
            text_tok("True"@)
        } else {
            text_tok("False"@)
        },
        Val::Int(i) => text_tok(int_text(i)),
        Val::Float(f) => seq![Tok::Float(f)],
        Val::Str(s) => text_tok(s),
        Val::List(xs) => text_tok("["@) + list_toks(xs) + text_tok("]"@),
        Val::Dict(ps) => text_tok("{"@) + dict_toks(ps) + text_tok("}"@),
        Val::Iter(_, _) => text_tok("<iterator>"@),
    }
}

/// The text forms of the elements of a list, separated by `", "`.
pub open spec fn list_toks(xs: Seq<Val>) -> Seq<Tok>
    decreases xs,
{
    if xs.len() == 0 {
        Seq::empty()
    } else if xs.len() == 1 {
        repr_toks(xs[0])
    } else {
        list_toks(xs.drop_last()) + text_tok(", "@) + repr_toks(xs.last())
    }
}

/// The entries of a dictionary as `key: value`, separated by `", "`.
pub open spec fn dict_toks(ps: Seq<(Seq<char>, Val)>) -> Seq<Tok>
    decreases ps,
{
    if ps.len() == 0 {
        Seq::empty()
    } else if ps.len() == 1 {
        text_tok(ps[0].0) + text_tok(": "@) + repr_toks(ps[0].1)
    } else {
        dict_toks(ps.drop_last()) + text_tok(", "@) + (text_tok(ps.last().0) + text_tok(": "@)
            + repr_toks(ps.last().1))
    }
}

/// The text forms of several values, separated by `sep`.
pub open spec fn joined_toks(xs: Seq<Val>, sep: Seq<char>) -> Seq<Tok>
    decreases xs.len(),
{
    if xs.len() == 0 {
        Seq::empty()
    } else if xs.len() == 1 {
        repr_toks(xs[0])
    } else {
        joined_toks(xs.drop_last(), sep) + text_tok(sep) + repr_toks(xs.last())
    }
}

/// Some piece is a float.
pub open spec fn has_float(ts: Seq<Tok>) -> bool {
    exists|i: int| 0 <= i < ts.len() && #[trigger] ts[i] is Float
}

/// The characters of the text pieces, in order (floats contribute none).
pub open spec fn plain_text(ts: Seq<Tok>) -> Seq<char>
    decreases ts.len(),
{
    if ts.len() == 0 {
        Seq::empty()
    } else {
        plain_text(ts.drop_last()) + match ts.last() {
            Tok::Text(s) => s,
            Tok::Float(_) => Seq::empty(),
        }
    }
}

pub proof fn lemma_toks_push(ps: Seq<Piece>, p: Piece)
    ensures
        toks_of(ps.push(p)) == toks_of(ps).push(tok_of(p)),
{
    assert(toks_of(ps.push(p)) =~= toks_of(ps).push(tok_of(p)));
}

pub proof fn lemma_toks_add(a: Seq<Piece>, b: Seq<Piece>)
    ensures
        toks_of(a + b) == toks_of(a) + toks_of(b),
{
    assert(toks_of(a + b) =~= toks_of(a) + toks_of(b));
}

/// Appends the pieces of `more` to `out`.
fn append_pieces(out: &mut Vec<Piece>, more: Vec<Piece>)
    ensures
        toks_of(final(out)@) == toks_of(old(out)@) + toks_of(more@),
{
    let mut m = more;
    proof {
        lemma_toks_add(out@, m@);
    }
    out.append(&mut m);
}

/// Appends a literal text piece.
fn push_text(out: &mut Vec<Piece>, s: String)
    ensures
        toks_of(final(out)@) == toks_of(old(out)@) + text_tok(s@),
{
    proof {
        lemma_toks_push(out@, Piece::Text(s));
    }
    out.push(Piece::Text(s));
    assert(toks_of(old(out)@).push(Tok::Text(s@)) =~= toks_of(old(out)@) + text_tok(s@));
}

impl Value {
    /// The pieces of this value's text form.
    pub fn repr_pieces(&self) -> (r: Vec<Piece>)
        ensures
            toks_of(r@) == repr_toks(self@),
        decreases self,
    {
        let mut out: Vec<Piece> = Vec::new();
        match self {
            Value::Null => push_text(&mut out, string_of("None")),
            Value::Bool(b) => {
                if *b {
                    push_text(&mut out, string_of("True"))
                } else {
                    push_text(&mut out, string_of("False"))
                }
            },
            Value::Int(i) => push_text(&mut out, int_to_string(*i)),
            Value::Float(f) => {
                proof {
                    lemma_toks_push(out@, Piece::Float(*f));
                }
                out.push(Piece::Float(*f));
                assert(toks_of(out@) =~= seq![Tok::Float(*f)]);
            },
            Value::Str(s) => push_text(&mut out, s.clone()),
            Value::List(items) => {
                push_text(&mut out, string_of("["));
                let inner = list_pieces(items);
                append_pieces(&mut out, inner);
                push_text(&mut out, string_of("]"));
            },
            Value::Dict(pairs) => {
                push_text(&mut out, string_of("{"));
                let inner = dict_pieces(pairs);
                append_pieces(&mut out, inner);
                push_text(&mut out, string_of("}"));
            },
            Value::Iter(_, _) => push_text(&mut out, string_of("<iterator>")),
        }
        assert(toks_of(out@) =~= repr_toks(self@));
        out
    }
}

/// The pieces of the elements of a list, separated by `", "`.
pub fn list_pieces(items: &Vec<Value>) -> (r: Vec<Piece>)
    ensures
        toks_of(r@) == list_toks(vals_of(items@)),
    decreases items,
{
    let ghost xs = vals_of(items@);
    let mut out: Vec<Piece> = Vec::new();
    let mut i: usize = 0;
    assert(xs.take(0) =~= Seq::<Val>::empty());
    while i < items.len()
        invariant
            xs == vals_of(items@),
            i <= items@.len(),
            toks_of(out@) == list_toks(xs.take(i as int)),
        decreases items@.len() - i,
    {
        assert(xs.take(i + 1).drop_last() =~= xs.take(i as int));
        if i > 0 {
            push_text(&mut out, string_of(", "));
        }
        let p = items[i].repr_pieces();
        append_pieces(&mut out, p);
        i = i + 1;
        assert(toks_of(out@) =~= list_toks(xs.take(i as int)));
    }
    assert(xs.take(items@.len() as int) =~= xs);
    out
}

/// The pieces of the entries of a dictionary, separated by `", "`.
pub fn dict_pieces(pairs: &Vec<(String, Value)>) -> (r: Vec<Piece>)
    ensures
        toks_of(r@) == dict_toks(pairs_of(pairs@)),
    decreases pairs,
{
    let ghost ps = pairs_of(pairs@);
    let mut out: Vec<Piece> = Vec::new();
    let mut i: usize = 0;
    assert(ps.take(0) =~= Seq::<(Seq<char>, Val)>::empty());
    while i < pairs.len()
        invariant
            ps == pairs_of(pairs@),
            i <= pairs@.len(),
            toks_of(out@) == dict_toks(ps.take(i as int)),
        decreases pairs@.len() - i,
    {
        assert(ps.take(i + 1).drop_last() =~= ps.take(i as int));
        if i > 0 {
            push_text(&mut out, string_of(", "));
        }
        let mut entry: Vec<Piece> = Vec::new();
        push_text(&mut entry, pairs[i].0.clone());
        push_text(&mut entry, string_of(": "));
        proof {
            assert(decreases_to!(pairs => pairs[i as int]));
            assert(decreases_to!(pairs[i as int] => pairs[i as int].1));
        }
        let p = pairs[i].1.repr_pieces();
        append_pieces(&mut entry, p);
        assert(toks_of(entry@) =~= text_tok(ps[i as int].0) + text_tok(": "@) + repr_toks(ps[i as int].1));
        append_pieces(&mut out, entry);
        i = i + 1;
        assert(toks_of(out@) =~= dict_toks(ps.take(i as int)));
    }
    assert(ps.take(pairs@.len() as int) =~= ps);
    out
}

/// The pieces of several values' text forms, separated by `sep`.
pub fn joined_pieces(items: &Vec<Value>, sep: &String) -> (r: Vec<Piece>)
    ensures
        toks_of(r@) == joined_toks(vals_of(items@), sep@),
{
    let ghost xs = vals_of(items@);
    let mut out: Vec<Piece> = Vec::new();
    let mut i: usize = 0;
    assert(xs.take(0) =~= Seq::<Val>::empty());
    while i < items.len()
        invariant
            xs == vals_of(items@),
            i <= items@.len(),
            toks_of(out@) == joined_toks(xs.take(i as int), sep@),
        decreases items@.len() - i,
    {
        assert(xs.take(i + 1).drop_last() =~= xs.take(i as int));
        if i > 0 {
            push_text(&mut out, sep.clone());
        }
        let p = items[i].repr_pieces();
        append_pieces(&mut out, p);
        i = i + 1;
        assert(toks_of(out@) =~= joined_toks(xs.take(i as int), sep@));
    }
    assert(xs.take(items@.len() as int) =~= xs);
    out
}

/// The text of pieces that hold no float; `None` when some piece is a float.
pub fn plain(pieces: &Vec<Piece>) -> (r: Option<String>)
    ensures
        r is None <==> has_float(toks_of(pieces@)),
        r matches Some(s) ==> s@ == plain_text(toks_of(pieces@)),
{
    let ghost ts = toks_of(pieces@);
    let mut out = String::new();
    let mut i: usize = 0;
    assert(ts.take(0) =~= Seq::<Tok>::empty());
    while i < pieces.len()
        invariant
            ts == toks_of(pieces@),
            i <= pieces@.len(),
            out@ == plain_text(ts.take(i as int)),
            forall|j: int| 0 <= j < i ==> !(#[trigger] ts[j] is Float),
        decreases pieces@.len() - i,
    {
        assert(ts.take(i + 1).drop_last() =~= ts.take(i as int));
        match &pieces[i] {
            Piece::Text(s) => {
                out.append(s.as_str());
            },
            Piece::Float(_) => {
                assert(ts[i as int] is Float);
                return None;
            },
        }
        i = i + 1;
    }
    assert(ts.take(pieces@.len() as int) =~= ts);
    Some(out)
}

/// Joins already-written pieces: the text pieces as they are, and each float
/// piece replaced by the next of `floats` (the host's writing of those floats,
/// in order).
pub fn fill_floats(pieces: &Vec<Piece>, floats: &Vec<String>) -> (r: Option<String>)
    ensures
        r is Some <==> floats@.len() == float_count(toks_of(pieces@)),
        r matches Some(s) ==> s@ == filled_text(toks_of(pieces@), floats@.map_values(|f: String| f@)),
{
    let ghost ts = toks_of(pieces@);
    let ghost fs = floats@.map_values(|f: String| f@);
    let mut out = String::new();
    let mut i: usize = 0;
    let mut k: usize = 0;
    assert(ts.take(0) =~= Seq::<Tok>::empty());
    assert(fs.take(0) =~= Seq::<Seq<char>>::empty());
    while i < pieces.len()
        invariant
            ts == toks_of(pieces@),
            fs == floats@.map_values(|f: String| f@),
            i <= pieces@.len(),
            k == float_count(ts.take(i as int)),
            k <= floats@.len() ==> out@ == filled_text(ts.take(i as int), fs.take(k as int)),
            k <= floats@.len(),
        decreases pieces@.len() - i,
    {
        assert(ts.take(i + 1).drop_last() =~= ts.take(i as int));
        match &pieces[i] {
            Piece::Text(s) => {
                out.append(s.as_str());
            },
            Piece::Float(_) => {
                if k >= floats.len() {
                    proof {
                        lemma_float_count_prefix(ts, i + 1);
                    }
                    return None;
                }
                assert(fs.take(k + 1).drop_last() =~= fs.take(k as int));
                out.append(floats[k].as_str());
                k = k + 1;
            },
        }
        i = i + 1;
    }
    assert(ts.take(pieces@.len() as int) =~= ts);
    if k != floats.len() {
        return None;
    }
    assert(fs.take(k as int) =~= fs);
    Some(out)
}

/// The number of float pieces.
pub open spec fn float_count(ts: Seq<Tok>) -> nat
    decreases ts.len(),
{
    if ts.len() == 0 {
        0
    } else {
        float_count(ts.drop_last()) + if ts.last() is Float {
            1nat
        } else {
            0nat
        }
    }
}

/// The text of pieces whose floats are written as `fs`, in order.
pub open spec fn filled_text(ts: Seq<Tok>, fs: Seq<Seq<char>>) -> Seq<char>
    decreases ts.len(),
{
    if ts.len() == 0 {
        Seq::empty()
    } else {
        match ts.last() {
            Tok::Text(s) => filled_text(ts.drop_last(), fs) + s,
            Tok::Float(_) => filled_text(ts.drop_last(), fs.drop_last()) + fs.last(),
        }
    }
}

/// A prefix has no more float pieces than the whole.
pub proof fn lemma_float_count_prefix(ts: Seq<Tok>, n: int)
    requires
        0 <= n <= ts.len(),
    ensures
        float_count(ts.take(n)) <= float_count(ts),
    decreases ts.len(),
{
    if n < ts.len() {
        assert(ts.drop_last().take(n) =~= ts.take(n));
        lemma_float_count_prefix(ts.drop_last(), n);
    } else {
        assert(ts.take(n) =~= ts);
    }
}

} // verus!
