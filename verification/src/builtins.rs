//! Builtin functions (`CALL_FUNC`), methods (`CALL_METHOD`) and type tests.
use vstd::prelude::*;
use crate::access::{dict_get, dict_lookup};
use crate::arith::{FloatTask, TaskV, task_of};
use crate::repr::{joined_pieces, joined_toks, repr_toks, toks_of, Piece, Tok};
use crate::strings::{
    all_digits, ends_with, is_digits, lower, parse_i64, parse_int, replace, split, starts_with,
    str_lower, str_replace, str_split, str_upper, trim, trimmed, upper,
};
use crate::text::string_of;
use crate::value::{group_value_views, pairs_of, type_name_of, truthy, vals_of, Val, Value};

verus! {

broadcast use {group_value_views, vstd::std_specs::vec::group_vec_axioms};

/// What a text result is for once its floats are written.
#[derive(Debug, PartialEq)]
pub enum TextUse {
    /// Push it as a string.
    PushStr,
    /// Raise it as the error.
    Raise,
    /// Print it as a line; null is pushed.
    Print,
    /// It names a type: push whether the value is of that type (`isinstance`).
    IsInstance(Value),
}

/// The model of a `TextUse`.
pub enum UseV {
    PushStr,
    Raise,
    Print,
    IsInstance(Val),
}

pub open spec fn use_of(u: TextUse) -> UseV {
    match u {
        TextUse::PushStr => UseV::PushStr,
        TextUse::Raise => UseV::Raise,
        TextUse::Print => UseV::Print,
        TextUse::IsInstance(v) => UseV::IsInstance(v@),
    }
}

/// The result of a builtin call.
#[derive(Debug, PartialEq)]
pub enum CallOut {
    /// Push this value.
    Value(Value),
    /// Float work whose result is pushed.
    Float(FloatTask),
    /// Text (with floats still to be written) and what it is for.
    Text(Vec<Piece>, TextUse),
}

/// The model of a builtin call's result.
pub enum CallRes {
    Value(Val),
    Float(TaskV),
    Text(Seq<Tok>, UseV),
    Error(Seq<char>),
}

pub open spec fn call_res_of(r: Result<CallOut, String>) -> CallRes {
    match r {
        Ok(CallOut::Value(v)) => CallRes::Value(v@),
        Ok(CallOut::Float(t)) => CallRes::Float(task_of(t)),
        Ok(CallOut::Text(ps, u)) => CallRes::Text(toks_of(ps@), use_of(u)),
        Err(e) => CallRes::Error(e@),
    }
}

/// The first argument, null when there is none.
pub open spec fn first_arg(args: Seq<Val>) -> Val {
    if args.len() > 0 {
        args[0]
    } else {
        Val::Null
    }
}

/// An integer whose value is a length, as `as i64` gives it.
pub open spec fn len_int(n: nat) -> int {
    (n as i64) as int
}

/// The number of bytes of a string's UTF-8 encoding.
pub open spec fn utf8_len(s: Seq<char>) -> nat {
    (vstd::utf8::encode_utf8(s).len() as usize) as nat
}

/// `isinstance(obj, t)` as the builtin decides it for the type name `t`.
pub open spec fn builtin_isinstance(obj: Val, t: Seq<char>) -> bool {
    ||| t == "str"@ && obj is Str
    ||| t == "int"@ && obj is Int
    ||| t == "float"@ && obj is Float
    ||| t == "bool"@ && obj is Bool
    ||| t == "list"@ && obj is List
    ||| t == "dict"@ && obj is Dict
}

/// The builtin function `name` applied to `args`.
pub open spec fn builtin_spec(name: Seq<char>, args: Seq<Val>) -> CallRes {
    let a = first_arg(args);
    if name == "str"@ {
        CallRes::Text(repr_toks(a), UseV::PushStr)
    } else if name == "int"@ {
        match a {
            Val::Int(i) => CallRes::Value(Val::Int(i)),
            Val::Float(f) => CallRes::Float(TaskV::Truncate(f)),
            Val::Str(s) => match parse_int(trimmed(s)) {
                Some(v) => CallRes::Value(Val::Int(v)),
                None => CallRes::Error("Cannot convert to int"@),
            },
            Val::Bool(b) => CallRes::Value(Val::Int(if b { 1 } else { 0 })),
            _ => CallRes::Error("Cannot convert "@ + type_name_of(a) + " to int"@),
        }
    } else if name == "float"@ {
        match a {
            Val::Float(f) => CallRes::Value(Val::Float(f)),
            Val::Int(i) => CallRes::Float(TaskV::FromInt(i as i64)),
            Val::Str(s) => CallRes::Float(TaskV::Parse(trimmed(s))),
            _ => CallRes::Error("Cannot convert "@ + type_name_of(a) + " to float"@),
        }
    } else if name == "bool"@ {
        CallRes::Value(Val::Bool(truthy(a)))
    } else if name == "len"@ {
        match a {
            Val::Str(s) => CallRes::Value(Val::Int(len_int(utf8_len(s)))),
            Val::List(xs) => CallRes::Value(Val::Int(len_int(xs.len()))),
            Val::Dict(ps) => CallRes::Value(Val::Int(len_int(ps.len()))),
            _ => CallRes::Error("len() on "@ + type_name_of(a)),
        }
    } else if name == "list"@ {
        match a {
            Val::List(xs) => CallRes::Value(Val::List(xs)),
            Val::Iter(xs, i) => CallRes::Value(Val::List(xs.subrange(i, xs.len() as int))),
            _ => CallRes::Error("list() on "@ + type_name_of(a)),
        }
    } else if name == "dict"@ {
        CallRes::Value(Val::Dict(Seq::empty()))
    } else if name == "isinstance"@ {
        if args.len() < 2 {
            CallRes::Value(Val::Bool(false))
        } else {
            CallRes::Text(repr_toks(args[1]), UseV::IsInstance(args[0]))
        }
    } else if name == "print"@ {
        CallRes::Text(joined_toks(args, " "@), UseV::Print)
    } else {
        CallRes::Error("Unknown builtin: "@ + name)
    }
}

/// The builtin would fail in a way the machine does not allow: `list()` of an
/// iterator whose position lies past its end.
pub open spec fn builtin_faults(name: Seq<char>, args: Seq<Val>) -> bool {
    name == "list"@ && match first_arg(args) {
        Val::Iter(xs, i) => i > xs.len(),
        _ => false,
    }
}

fn take_first(args: Vec<Value>) -> (r: Value)
    ensures
        r@ == first_arg(vals_of(args@)),
{
    let mut args = args;
    if args.len() > 0 {
        args.swap_remove(0)
    } else {
        Value::Null
    }
}

fn converted_error(a: &Value, suffix: &str) -> (r: String)
    ensures
        r@ == "Cannot convert "@ + type_name_of(a@) + suffix@,
{
    let mut s = string_of("Cannot convert ");
    s.append(a.type_str().as_str());
    s.append(suffix);
    s
}

fn prefixed(prefix: &str, tail: &String) -> (r: String)
    ensures
        r@ == prefix@ + tail@,
{
    let mut s = string_of(prefix);
    s.append(tail.as_str());
    s
}

/// The number of UTF-8 bytes of a string, as an `i64`.
fn byte_len(s: &String) -> (r: i64)
    ensures
        r as int == len_int(utf8_len(s@)),
{
    #[verifier::truncate]
    (s.as_str().len() as i64)
}

/// Calls the builtin function `name` (see `builtin_spec`).
pub fn call_builtin(name: &String, args: Vec<Value>) -> (r: Result<CallOut, String>)
    requires
        !builtin_faults(name@, vals_of(args@)),
    ensures
        call_res_of(r) == builtin_spec(name@, vals_of(args@)),
{
    let ghost xs = vals_of(args@);
    if crate::text::str_is(name, "str") {
        let a = take_first(args);
        Ok(CallOut::Text(a.repr_pieces(), TextUse::PushStr))
    } else if crate::text::str_is(name, "int") {
        let a = take_first(args);
        match a {
            Value::Int(i) => Ok(CallOut::Value(Value::Int(i))),
            Value::Float(f) => Ok(CallOut::Float(FloatTask::Truncate(f))),
            Value::Str(s) => match parse_i64(&trim(&s)) {
                Some(v) => Ok(CallOut::Value(Value::Int(v))),
                None => Err(string_of("Cannot convert to int")),
            },
            Value::Bool(b) => Ok(CallOut::Value(Value::Int(if b { 1 } else { 0 }))),
            other => Err(converted_error(&other, " to int")),
        }
    } else if crate::text::str_is(name, "float") {
        let a = take_first(args);
        match a {
            Value::Float(f) => Ok(CallOut::Value(Value::Float(f))),
            Value::Int(i) => Ok(CallOut::Float(FloatTask::FromInt(i))),
            Value::Str(s) => Ok(CallOut::Float(FloatTask::Parse(trim(&s)))),
            other => Err(converted_error(&other, " to float")),
        }
    } else if crate::text::str_is(name, "bool") {
        let a = take_first(args);
        Ok(CallOut::Value(Value::Bool(a.is_truthy())))
    } else if crate::text::str_is(name, "len") {
        let a = take_first(args);
        match a {
            Value::Str(s) => Ok(CallOut::Value(Value::Int(byte_len(&s)))),
            Value::List(v) => Ok(CallOut::Value(Value::Int(v.len() as i64))),
            Value::Dict(d) => Ok(CallOut::Value(Value::Int(d.len() as i64))),
            other => Err(prefixed("len() on ", &other.type_str())),
        }
    } else if crate::text::str_is(name, "list") {
        let a = take_first(args);
        match a {
            Value::List(v) => Ok(CallOut::Value(Value::List(v))),
            Value::Iter(items, idx) => {
                let mut out: Vec<Value> = Vec::new();
                let mut k: usize = idx;
                let ghost ys = vals_of(items@);
                while k < items.len()
                    invariant
                        ys == vals_of(items@),
                        idx <= k <= items@.len(),
                        vals_of(out@) =~= ys.subrange(idx as int, k as int),
                    decreases items@.len() - k,
                {
                    let v = items[k].duplicate();
                    proof {
                        crate::value::lemma_vals_push(out@, v);
                    }
                    out.push(v);
                    k = k + 1;
                    assert(vals_of(out@) =~= ys.subrange(idx as int, k as int));
                }
                Ok(CallOut::Value(Value::List(out)))
            },
            other => Err(prefixed("list() on ", &other.type_str())),
        }
    } else if crate::text::str_is(name, "dict") {
        let d: Vec<(String, Value)> = Vec::new();
        assert(pairs_of(d@) =~= Seq::<(Seq<char>, Val)>::empty());
        Ok(CallOut::Value(Value::Dict(d)))
    } else if crate::text::str_is(name, "isinstance") {
        if args.len() < 2 {
            Ok(CallOut::Value(Value::Bool(false)))
        } else {
            let mut args = args;
            let t = args.swap_remove(1);
            let obj = args.swap_remove(0);
            Ok(CallOut::Text(t.repr_pieces(), TextUse::IsInstance(obj)))
        }
    } else if crate::text::str_is(name, "print") {
        let sep = string_of(" ");
        Ok(CallOut::Text(joined_pieces(&args, &sep), TextUse::Print))
    } else {
        Err(prefixed("Unknown builtin: ", name))
    }
}

/// Decides `isinstance` for an object and a written type name.
pub fn isinstance_named(obj: &Value, t: &String) -> (r: bool)
    ensures
        r == builtin_isinstance(obj@, t@),
{
    (crate::text::str_is(t, "str") && matches!(obj, Value::Str(..)))
        || (crate::text::str_is(t, "int") && matches!(obj, Value::Int(..)))
        || (crate::text::str_is(t, "float") && matches!(obj, Value::Float(..)))
        || (crate::text::str_is(t, "bool") && matches!(obj, Value::Bool(..)))
        || (crate::text::str_is(t, "list") && matches!(obj, Value::List(..)))
        || (crate::text::str_is(t, "dict") && matches!(obj, Value::Dict(..)))
}

// ---------------------------------------------------------------------------
// Methods
// ---------------------------------------------------------------------------

/// Argument `i` when it is a string, else `default`.
pub open spec fn str_arg(args: Seq<Val>, i: int, default: Seq<char>) -> Seq<char> {
    if 0 <= i < args.len() {
        match args[i] {
            Val::Str(s) => s,
            _ => default,
        }
    } else {
        default
    }
}

/// Argument `i`, null when absent.
pub open spec fn arg_or_null(args: Seq<Val>, i: int) -> Val {
    if 0 <= i < args.len() {
        args[i]
    } else {
        Val::Null
    }
}

/// Strings as a list of string values.
pub open spec fn str_list(parts: Seq<Seq<char>>) -> Val {
    Val::List(Seq::new(parts.len(), |i: int| Val::Str(parts[i])))
}

/// The keys of a dictionary as string values.
pub open spec fn keys_list(ps: Seq<(Seq<char>, Val)>) -> Val {
    Val::List(Seq::new(ps.len(), |i: int| Val::Str(ps[i].0)))
}

/// The values of a dictionary.
pub open spec fn values_list(ps: Seq<(Seq<char>, Val)>) -> Val {
    Val::List(Seq::new(ps.len(), |i: int| ps[i].1))
}

/// The entries of a dictionary as two-element lists `[key, value]`.
pub open spec fn items_list(ps: Seq<(Seq<char>, Val)>) -> Val {
    Val::List(Seq::new(ps.len(), |i: int| Val::List(seq![Val::Str(ps[i].0), ps[i].1])))
}

pub open spec fn unknown_method(obj: Val, m: Seq<char>) -> Seq<char> {
    "Unknown method "@ + type_name_of(obj) + "."@ + m + "()"@
}

/// The method `m` of `obj` applied to `args`.
pub open spec fn method_spec(obj: Val, m: Seq<char>, args: Seq<Val>) -> Result<Val, Seq<char>> {
    match obj {
        Val::Str(s) => if m == "strip"@ {
            Ok(Val::Str(trimmed(s)))
        } else if m == "upper"@ {
            Ok(Val::Str(str_upper(s)))
        } else if m == "lower"@ {
            Ok(Val::Str(str_lower(s)))
        } else if m == "isdigit"@ {
            Ok(Val::Bool(all_digits(s)))
        } else if m == "startswith"@ {
            Ok(Val::Bool(str_arg(args, 0, ""@).is_prefix_of(s)))
        } else if m == "endswith"@ {
            Ok(Val::Bool(str_arg(args, 0, ""@).is_suffix_of(s)))
        } else if m == "replace"@ {
            Ok(
                Val::Str(
                    str_replace(s, str_arg(args, 0, ""@), str_arg(args, 1, ""@)),
                ),
            )
        } else if m == "split"@ {
            Ok(str_list(str_split(s, str_arg(args, 0, " "@))))
        } else if m == "encode"@ || m == "decode"@ {
            Ok(Val::Str(s))
        } else {
            Err(unknown_method(obj, m))
        },
        Val::Dict(ps) => if m == "get"@ {
            Ok(
                match dict_get(ps, str_arg(args, 0, ""@)) {
                    Some(v) => v,
                    None => arg_or_null(args, 1),
                },
            )
        } else if m == "keys"@ {
            Ok(keys_list(ps))
        } else if m == "values"@ {
            Ok(values_list(ps))
        } else if m == "items"@ {
            Ok(items_list(ps))
        } else if m == "update"@ {
            Ok(Val::Null)
        } else {
            Err(unknown_method(obj, m))
        },
        Val::List(_) => if m == "append"@ {
            Ok(Val::Null)
        } else {
            Err(unknown_method(obj, m))
        },
        _ => Err(unknown_method(obj, m)),
    }
}

pub open spec fn value_res(r: Result<Value, String>) -> Result<Val, Seq<char>> {
    match r {
        Ok(v) => Ok(v@),
        Err(e) => Err(e@),
    }
}

/// A copy of argument `i` when it is a string, else `default`.
fn string_arg(args: &Vec<Value>, i: usize, default: &str) -> (r: String)
    ensures
        r@ == str_arg(vals_of(args@), i as int, default@),
{
    if i < args.len() {
        match &args[i] {
            Value::Str(s) => s.clone(),
            _ => string_of(default),
        }
    } else {
        string_of(default)
    }
}

/// Parts of a string as a list of string values.
pub fn strings_to_list(parts: Vec<String>) -> (r: Value)
    ensures
        r@ == str_list(parts@.map_values(|p: String| p@)),
{
    let ghost ps = parts@.map_values(|p: String| p@);
    let mut out: Vec<Value> = Vec::new();
    let mut i: usize = 0;
    while i < parts.len()
        invariant
            ps == parts@.map_values(|p: String| p@),
            i <= parts@.len(),
                vals_of(out@) =~= Seq::new(i as nat, |j: int| Val::Str(ps[j])),
        decreases parts@.len() - i,
    {
        let v = Value::Str(parts[i].clone());
        proof {
            crate::value::lemma_vals_push(out@, v);
        }
        out.push(v);
        i = i + 1;
        assert(vals_of(out@) =~= Seq::new(i as nat, |j: int| Val::Str(ps[j])));
    }
    assert(vals_of(out@) =~= Seq::new(ps.len(), |j: int| Val::Str(ps[j])));
    Value::List(out)
}

fn unknown_method_text(obj: &Value, m: &String) -> (r: String)
    ensures
        r@ == unknown_method(obj@, m@),
{
    let mut s = string_of("Unknown method ");
    s.append(obj.type_str().as_str());
    s.append(".");
    s.append(m.as_str());
    s.append("()");
    s
}

/// Calls the method `m` of `obj` (see `method_spec`).
pub fn call_method(obj: Value, m: &String, args: Vec<Value>) -> (r: Result<Value, String>)
    ensures
        value_res(r) == method_spec(obj@, m@, vals_of(args@)),
{
    let ghost xs = vals_of(args@);
    match &obj {
        Value::Str(s) => {
            if crate::text::str_is(m, "strip") {
                Ok(Value::Str(trim(s)))
            } else if crate::text::str_is(m, "upper") {
                Ok(Value::Str(upper(s)))
            } else if crate::text::str_is(m, "lower") {
                Ok(Value::Str(lower(s)))
            } else if crate::text::str_is(m, "isdigit") {
                Ok(Value::Bool(is_digits(s)))
            } else if crate::text::str_is(m, "startswith") {
                let p = string_arg(&args, 0, "");
                Ok(Value::Bool(starts_with(s, &p)))
            } else if crate::text::str_is(m, "endswith") {
                let p = string_arg(&args, 0, "");
                Ok(Value::Bool(ends_with(s, &p)))
            } else if crate::text::str_is(m, "replace") {
                let from = string_arg(&args, 0, "");
                let to = string_arg(&args, 1, "");
                Ok(Value::Str(replace(s, &from, &to)))
            } else if crate::text::str_is(m, "split") {
                let sep = string_arg(&args, 0, " ");
                let parts = split(s, &sep);
                proof {
                    assert(parts@.map_values(|p: String| p@) =~= str_split(s@, sep@));
                }
                Ok(strings_to_list(parts))
            } else if crate::text::str_is(m, "encode") || crate::text::str_is(m, "decode") {
                Ok(Value::Str(s.clone()))
            } else {
                Err(unknown_method_text(&obj, m))
            }
        },
        Value::Dict(pairs) => {
            if crate::text::str_is(m, "get") {
                let key = string_arg(&args, 0, "");
                match dict_lookup(pairs, &key) {
                    Some(v) => Ok(v),
                    None => {
                        if args.len() > 1 {
                            Ok(args[1].duplicate())
                        } else {
                            Ok(Value::Null)
                        }
                    },
                }
            } else if crate::text::str_is(m, "keys") {
                let mut out: Vec<Value> = Vec::new();
                let mut i: usize = 0;
                while i < pairs.len()
                    invariant
                        i <= pairs@.len(),
                        vals_of(out@) =~= Seq::new(i as nat, |j: int| Val::Str(pairs_of(pairs@)[j].0)),
                    decreases pairs@.len() - i,
                {
                    let v = Value::Str(pairs[i].0.clone());
                    proof {
                        crate::value::lemma_vals_push(out@, v);
                    }
                    out.push(v);
                    i = i + 1;
                    assert(vals_of(out@) =~= Seq::new(i as nat, |j: int| Val::Str(pairs_of(pairs@)[j].0)));
                }
                assert(vals_of(out@) =~= Seq::new(pairs_of(pairs@).len(), |j: int| Val::Str(pairs_of(pairs@)[j].0)));
                Ok(Value::List(out))
            } else if crate::text::str_is(m, "values") {
                let mut out: Vec<Value> = Vec::new();
                let mut i: usize = 0;
                while i < pairs.len()
                    invariant
                        i <= pairs@.len(),
                        vals_of(out@) =~= Seq::new(i as nat, |j: int| pairs_of(pairs@)[j].1),
                    decreases pairs@.len() - i,
                {
                    let v = pairs[i].1.duplicate();
                    proof {
                        crate::value::lemma_vals_push(out@, v);
                    }
                    out.push(v);
                    i = i + 1;
                    assert(vals_of(out@) =~= Seq::new(i as nat, |j: int| pairs_of(pairs@)[j].1));
                }
                assert(vals_of(out@) =~= Seq::new(pairs_of(pairs@).len(), |j: int| pairs_of(pairs@)[j].1));
                Ok(Value::List(out))
            } else if crate::text::str_is(m, "items") {
                let mut out: Vec<Value> = Vec::new();
                let mut i: usize = 0;
                while i < pairs.len()
                    invariant
                        i <= pairs@.len(),
                        vals_of(out@) =~= Seq::new(
                            i as nat,
                            |j: int| Val::List(seq![Val::Str(pairs_of(pairs@)[j].0), pairs_of(pairs@)[j].1]),
                        ),
                    decreases pairs@.len() - i,
                {
                    let mut e: Vec<Value> = Vec::new();
                    e.push(Value::Str(pairs[i].0.clone()));
                    e.push(pairs[i].1.duplicate());
                    assert(vals_of(e@) =~= seq![Val::Str(pairs_of(pairs@)[i as int].0), pairs_of(pairs@)[i as int].1]);
                    let v = Value::List(e);
                    proof {
                        crate::value::lemma_vals_push(out@, v);
                    }
                    out.push(v);
                    i = i + 1;
                    assert(vals_of(out@) =~= Seq::new(
                        i as nat,
                        |j: int| Val::List(seq![Val::Str(pairs_of(pairs@)[j].0), pairs_of(pairs@)[j].1]),
                    ));
                }
                assert(vals_of(out@) =~= Seq::new(
                    pairs_of(pairs@).len(),
                    |j: int| Val::List(seq![Val::Str(pairs_of(pairs@)[j].0), pairs_of(pairs@)[j].1]),
                ));
                Ok(Value::List(out))
            } else if crate::text::str_is(m, "update") {
                Ok(Value::Null)
            } else {
                Err(unknown_method_text(&obj, m))
            }
        },
        Value::List(_) => {
            if crate::text::str_is(m, "append") {
                Ok(Value::Null)
            } else {
                Err(unknown_method_text(&obj, m))
            }
        },
        _ => Err(unknown_method_text(&obj, m)),
    }
}

// ---------------------------------------------------------------------------
// Type tests
// ---------------------------------------------------------------------------

/// Whether `obj` is of the type named `t` (`IS_INSTANCE`): `float` also admits
/// integers, `bytes` and `bytearray` admit strings, and any other name is
/// compared with the value's own type name.
pub open spec fn type_matches_spec(obj: Val, t: Seq<char>) -> bool {
    if t == "str"@ {
        obj is Str
    } else if t == "int"@ {
        obj is Int
    } else if t == "float"@ {
        obj is Float || obj is Int
    } else if t == "bool"@ {
        obj is Bool
    } else if t == "list"@ {
        obj is List
    } else if t == "dict"@ {
        obj is Dict
    } else if t == "bytes"@ || t == "bytearray"@ {
        obj is Str
    } else {
        type_name_of(obj) == t
    }
}

/// Decides `type_matches_spec`.
pub fn type_matches(obj: &Value, t: &String) -> (r: bool)
    ensures
        r == type_matches_spec(obj@, t@),
{
    if crate::text::str_is(t, "str") {
        matches!(obj, Value::Str(..))
    } else if crate::text::str_is(t, "int") {
        matches!(obj, Value::Int(..))
    } else if crate::text::str_is(t, "float") {
        matches!(obj, Value::Float(..)) || matches!(obj, Value::Int(..))
    } else if crate::text::str_is(t, "bool") {
        matches!(obj, Value::Bool(..))
    } else if crate::text::str_is(t, "list") {
        matches!(obj, Value::List(..))
    } else if crate::text::str_is(t, "dict") {
        matches!(obj, Value::Dict(..))
    } else if crate::text::str_is(t, "bytes") || crate::text::str_is(t, "bytearray") {
        matches!(obj, Value::Str(..))
    } else {
        obj.type_str() == *t
    }
}

} // verus!
