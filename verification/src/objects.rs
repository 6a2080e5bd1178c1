//! Instruction handlers for attribute and item access, with the connector
//! markers standing for the connector's namespaces.
use vstd::prelude::*;
use crate::access::{dict_get, dict_lookup, dict_set, item_of, with_item};

use crate::bytecode::{operand, operand_error, read_u32};
use crate::exec::{done, fail, pop1, pop2, pop_or, step_of, Effect, Step};
use crate::flow::{conector_marker, is_marker, lemma_push_back, results_marker, vars_marker};

use crate::state::{
    const_str, global_of, popped, pushed, top, with_results, with_vars, Namespace, VMState,
    VState,
};
use crate::text::{str_is, string_of};
use crate::value::{group_value_views, pairs_of, Val, Value};

verus! {

broadcast use {group_value_views, vstd::std_specs::vec::group_vec_axioms};

// ---------------------------------------------------------------------------
// Namespace helpers
// ---------------------------------------------------------------------------

/// A namespace after binding each entry of `ps` in order.
pub open spec fn absorb(ns: Seq<(Seq<char>, Val)>, ps: Seq<(Seq<char>, Val)>) -> Seq<(Seq<char>, Val)>
    decreases ps.len(),
{
    if ps.len() == 0 {
        ns
    } else {
        dict_set(absorb(ns, ps.drop_last()), ps.last().0, ps.last().1)
    }
}

/// The value bound to `k`, or null.
pub open spec fn ns_value(ns: Seq<(Seq<char>, Val)>, k: Seq<char>) -> Val {
    match dict_get(ns, k) {
        Some(v) => v,
        None => Val::Null,
    }
}

/// The value bound to `k`, or `default`.
pub open spec fn ns_value_or(ns: Seq<(Seq<char>, Val)>, k: Seq<char>, default: Val) -> Val {
    match dict_get(ns, k) {
        Some(v) => v,
        None => default,
    }
}

/// The dictionary bound to `key` in the connector snapshot (the global
/// `__conector__`), when the snapshot is a dictionary and that entry is one.
pub open spec fn section(snapshot: Val, key: Seq<char>) -> Option<Seq<(Seq<char>, Val)>> {
    match snapshot {
        Val::Dict(cp) => match dict_get(cp, key) {
            Some(Val::Dict(vars)) => Some(vars),
            _ => None,
        },
        _ => None,
    }
}

/// A connector namespace, filled from the snapshot's `key` section when it is
/// still empty.
pub open spec fn lazy(ns: Seq<(Seq<char>, Val)>, s: VState, key: Seq<char>) -> Seq<(Seq<char>, Val)> {
    if ns.len() == 0 {
        match section(global_of(s, "__conector__"@), key) {
            Some(vars) => absorb(ns, vars),
            None => ns,
        }
    } else {
        ns
    }
}

impl Namespace {
    /// Binds each entry of `pairs` in order.
    pub fn absorb_all(&mut self, pairs: &Vec<(String, Value)>)
        ensures
            final(self)@ == absorb(old(self)@, pairs_of(pairs@)),
    {
        let ghost ps = pairs_of(pairs@);
        let mut i: usize = 0;
        assert(ps.take(0) =~= Seq::<(Seq<char>, Val)>::empty());
        while i < pairs.len()
            invariant
                ps == pairs_of(pairs@),
                i <= pairs@.len(),
                self@ == absorb(old(self)@, ps.take(i as int)),
            decreases pairs@.len() - i,
        {
            assert(ps.take(i + 1).drop_last() =~= ps.take(i as int));
            let k = pairs[i].0.clone();
            let v = pairs[i].1.duplicate();
            self.insert(k, v);
            i = i + 1;
        }
        assert(ps.take(pairs@.len() as int) =~= ps);
    }
}

/// The snapshot section `key`, copied, when there is one.
fn snapshot_section(s: &VMState, key: &str) -> (r: Option<Vec<(String, Value)>>)
    ensures
        match r {
            Some(v) => section(global_of(s@, "__conector__"@), key@) == Some(pairs_of(v@)),
            None => section(global_of(s@, "__conector__"@), key@) is None,
        },
{
    let snap = s.load_global(&string_of("__conector__"));
    match snap {
        Value::Dict(cp) => match dict_lookup(&cp, &string_of(key)) {
            Some(Value::Dict(vars)) => Some(vars),
            _ => None,
        },
        _ => None,
    }
}

// ---------------------------------------------------------------------------
// Attribute and item access
// ---------------------------------------------------------------------------

/// The top replaced by `v`.
pub open spec fn with_top(s: VState, v: Val) -> VState {
    pushed(popped(s), v)
}

/// The stack replaced by `st`.
pub open spec fn with_stack(s: VState, st: Seq<Val>) -> VState {
    VState { stack: st, ..s }
}

/// Attribute `attr` of `obj`, with the connector markers standing for the
/// connector, its variables and its results (see `GET_ATTR`).
pub open spec fn get_attr_result(r: VState, obj: Val, attr: Seq<char>, ip: int) -> Step {
    if is_marker(obj, conector_marker()) && attr == "variables"@ {
        done(pushed(with_vars(r, lazy(r.conector_vars, r, "variables"@)), Val::Str(vars_marker())), ip)
    } else if is_marker(obj, conector_marker()) && attr == "results"@ {
        done(pushed(with_results(r, lazy(r.results, r, "results"@)), Val::Str(results_marker())), ip)
    } else if is_marker(obj, conector_marker()) {
        done(pushed(r, global_of(r, "__cattr_"@ + attr + "__"@)), ip)
    } else if is_marker(obj, vars_marker()) {
        done(pushed(r, ns_value(r.conector_vars, attr)), ip)
    } else {
        match obj {
            Val::Dict(ps) => done(pushed(r, ns_value(ps, attr)), ip),
            _ => done(pushed(r, Val::Null), ip),
        }
    }
}

/// `GET_ATTR idx`: pops an object and pushes its attribute named by string
/// constant `idx`. On the connector marker, `variables` and `results` fill the
/// connector namespace from the `__conector__` global when it is still empty
/// and push the namespace's marker; any other name reads the global
/// `__cattr_<name>__`. On the variables marker it reads a variable; on a
/// dictionary, the entry; on anything else it pushes null.
pub open spec fn get_attr_step(s: VState, code: Seq<u8>, ip: int) -> Step {
    match operand(code, ip) {
        None => fail(s, ip, operand_error()),
        Some(idx) => match const_str(s, idx as int) {
            None => fail(s, ip + 4, "GET_ATTR: not a string"@),
            Some(attr) => pop1(s, ip + 4, "GET_ATTR: empty"@, |r: VState, obj: Val| get_attr_result(r, obj, attr, ip + 4)),
        },
    }
}

fn value_or_null(v: Option<Value>) -> (r: Value)
    ensures
        r@ == match v {
            Some(x) => x@,
            None => Val::Null,
        },
{
    match v {
        Some(x) => x,
        None => Value::Null,
    }
}

pub(crate) fn marker_is(v: &Value, lit: &str) -> (r: bool)
    ensures
        r == (v@ == Val::Str(lit@)),
{
    match v {
        Value::Str(m) => str_is(m, lit),
        _ => false,
    }
}

pub fn h_get_attr(s: &mut VMState, code: &[u8], ip: &mut usize) -> (r: Result<Effect, String>)
    ensures
        step_of(final(s)@, *final(ip) as int, r) == get_attr_step(old(s)@, code@, *old(ip) as int),
{
    let idx = match read_u32(code, ip) {
        Ok(v) => v,
        Err(e) => return Err(e),
    };
    let attr = match s.get_const_str(idx as usize) {
        Some(a) => a,
        None => return Err(string_of("GET_ATTR: not a string")),
    };
    let obj = match pop_or(s, "GET_ATTR: empty") {
        Ok(v) => v,
        Err(e) => return Err(e),
    };
    let is_conector = marker_is(&obj, "__CONECTOR__");
    if is_conector && str_is(&attr, "variables") {
        if s.conector_vars.is_empty() {
            if let Some(vars) = snapshot_section(s, "variables") {
                s.conector_vars.absorb_all(&vars);
            }
        }
        s.push(Value::Str(string_of("__CONECTOR_VARS__")));
        return Ok(Effect::Done);
    }
    if is_conector && str_is(&attr, "results") {
        if s.results.is_empty() {
            if let Some(vars) = snapshot_section(s, "results") {
                s.results.absorb_all(&vars);
            }
        }
        s.push(Value::Str(string_of("__CONECTOR_RESULTS__")));
        return Ok(Effect::Done);
    }
    let val = if is_conector {
        let mut name = string_of("__cattr_");
        name.append(attr.as_str());
        name.append("__");
        s.load_global(&name)
    } else if marker_is(&obj, "__CONECTOR_VARS__") {
        value_or_null(s.conector_vars.lookup(&attr))
    } else {
        match &obj {
            Value::Dict(pairs) => value_or_null(dict_lookup(pairs, &attr)),
            _ => Value::Null,
        }
    };
    s.push(val);
    Ok(Effect::Done)
}

/// `SET_ATTR idx`: pops a value and, when the new top is a dictionary, sets its
/// entry named by string constant `idx` (the value is consumed either way).
pub open spec fn set_attr_step(s: VState, code: Seq<u8>, ip: int) -> Step {
    match operand(code, ip) {
        None => fail(s, ip, operand_error()),
        Some(idx) => match const_str(s, idx as int) {
            None => fail(s, ip + 4, "SET_ATTR: not a string"@),
            Some(attr) => pop1(
                s,
                ip + 4,
                "SET_ATTR: empty"@,
                |r: VState, v: Val|
                    match top(r) {
                        None => fail(r, ip + 4, "SET_ATTR: empty"@),
                        Some(Val::Dict(ps)) => done(with_top(r, Val::Dict(dict_set(ps, attr, v))), ip + 4),
                        Some(_) => done(r, ip + 4),
                    },
            ),
        },
    }
}

pub fn h_set_attr(s: &mut VMState, code: &[u8], ip: &mut usize) -> (r: Result<Effect, String>)
    ensures
        step_of(final(s)@, *final(ip) as int, r) == set_attr_step(old(s)@, code@, *old(ip) as int),
{
    let idx = match read_u32(code, ip) {
        Ok(v) => v,
        Err(e) => return Err(e),
    };
    let attr = match s.get_const_str(idx as usize) {
        Some(a) => a,
        None => return Err(string_of("SET_ATTR: not a string")),
    };
    let value = match pop_or(s, "SET_ATTR: empty") {
        Ok(v) => v,
        Err(e) => return Err(e),
    };
    let ghost s1 = s@;
    let obj = match pop_or(s, "SET_ATTR: empty") {
        Ok(v) => v,
        Err(e) => return Err(e),
    };
    match obj {
        Value::Dict(mut pairs) => {
            crate::access::dict_assign(&mut pairs, attr, value);
            s.push(Value::Dict(pairs));
        },
        other => {
            s.push(other);
            proof {
                lemma_push_back(s1);
            }
        },
    }
    Ok(Effect::Done)
}

/// `obj[key]`, with the connector markers standing for their namespaces
/// (a non-string key reads null there); null when there is no such item.
pub open spec fn item_result(r: VState, obj: Val, key: Val) -> Val {
    if is_marker(obj, vars_marker()) {
        match key {
            Val::Str(k) => ns_value(r.conector_vars, k),
            _ => Val::Null,
        }
    } else if is_marker(obj, results_marker()) {
        match key {
            Val::Str(k) => ns_value(r.results, k),
            _ => Val::Null,
        }
    } else {
        match item_of(obj, key) {
            Some(v) => v,
            None => Val::Null,
        }
    }
}

/// `GET_ITEM`: pops the key, then the object, and pushes `obj[key]`.
pub open spec fn get_item_step(s: VState, ip: int) -> Step {
    pop2(
        s,
        ip,
        "GET_ITEM: empty"@,
        |r: VState, obj: Val, key: Val| done(pushed(r, item_result(r, obj, key)), ip),
    )
}

pub fn h_get_item(s: &mut VMState, code: &[u8], ip: &mut usize) -> (r: Result<Effect, String>)
    ensures
        step_of(final(s)@, *final(ip) as int, r) == get_item_step(old(s)@, *old(ip) as int),
{
    let key = match pop_or(s, "GET_ITEM: empty") {
        Ok(v) => v,
        Err(e) => return Err(e),
    };
    let obj = match pop_or(s, "GET_ITEM: empty") {
        Ok(v) => v,
        Err(e) => return Err(e),
    };
    let result = if marker_is(&obj, "__CONECTOR_VARS__") {
        match &key {
            Value::Str(k) => value_or_null(s.conector_vars.lookup(k)),
            _ => Value::Null,
        }
    } else if marker_is(&obj, "__CONECTOR_RESULTS__") {
        match &key {
            Value::Str(k) => value_or_null(s.results.lookup(k)),
            _ => Value::Null,
        }
    } else {
        value_or_null(obj.get_item(&key))
    };
    s.push(result);
    Ok(Effect::Done)
}

/// The state after `obj[key] = v` with `obj` on top: on the connector markers
/// a string key binds in the namespace (the marker stays on top); otherwise
/// the top becomes the updated object.
pub open spec fn set_item_result(r: VState, obj: Val, key: Val, v: Val) -> VState {
    if is_marker(obj, vars_marker()) {
        match key {
            Val::Str(k) => with_vars(r, dict_set(r.conector_vars, k, v)),
            _ => r,
        }
    } else if is_marker(obj, results_marker()) {
        match key {
            Val::Str(k) => with_results(r, dict_set(r.results, k, v)),
            _ => r,
        }
    } else {
        with_top(r, with_item(obj, key, v))
    }
}

/// `SET_ITEM`: pops the value, then the key, and assigns `obj[key] = value`
/// to the object left on top.
pub open spec fn set_item_step(s: VState, ip: int) -> Step {
    pop2(
        s,
        ip,
        "SET_ITEM: empty"@,
        |r: VState, key: Val, v: Val|
            match top(r) {
                None => fail(r, ip, "SET_ITEM: empty"@),
                Some(obj) => done(set_item_result(r, obj, key, v), ip),
            },
    )
}

pub fn h_set_item(s: &mut VMState, code: &[u8], ip: &mut usize) -> (r: Result<Effect, String>)
    ensures
        step_of(final(s)@, *final(ip) as int, r) == set_item_step(old(s)@, *old(ip) as int),
{
    let value = match pop_or(s, "SET_ITEM: empty") {
        Ok(v) => v,
        Err(e) => return Err(e),
    };
    let key = match pop_or(s, "SET_ITEM: empty") {
        Ok(v) => v,
        Err(e) => return Err(e),
    };
    let ghost s1 = s@;
    let mut obj = match pop_or(s, "SET_ITEM: empty") {
        Ok(v) => v,
        Err(e) => return Err(e),
    };
    if marker_is(&obj, "__CONECTOR_VARS__") {
        s.push(obj);
        proof {
            lemma_push_back(s1);
        }
        if let Value::Str(k) = key {
            s.conector_vars.insert(k, value);
        }
    } else if marker_is(&obj, "__CONECTOR_RESULTS__") {
        s.push(obj);
        proof {
            lemma_push_back(s1);
        }
        if let Value::Str(k) = key {
            s.results.insert(k, value);
        }
    } else {
        obj.set_item(key, value);
        s.push(obj);
    }
    Ok(Effect::Done)
}

/// `DELETE_ITEM`: pops the key, then the object, and deletes the key from the
/// object; the object is not put back, so both leave the stack.
pub open spec fn delete_item_step(s: VState, ip: int) -> Step {
    pop2(s, ip, "DELETE_ITEM: empty"@, |r: VState, obj: Val, key: Val| done(r, ip))
}

pub fn h_delete_item(s: &mut VMState, code: &[u8], ip: &mut usize) -> (r: Result<Effect, String>)
    ensures
        step_of(final(s)@, *final(ip) as int, r) == delete_item_step(old(s)@, *old(ip) as int),
{
    let _key = match pop_or(s, "DELETE_ITEM: empty") {
        Ok(v) => v,
        Err(e) => return Err(e),
    };
    let _obj = match pop_or(s, "DELETE_ITEM: empty") {
        Ok(v) => v,
        Err(e) => return Err(e),
    };
    Ok(Effect::Done)
}

} // verus!
