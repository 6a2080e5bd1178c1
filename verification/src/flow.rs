//! Instruction handlers for membership, identity, boolean combination,
//! control flow, exceptions, iteration, types and the runtime context.
use vstd::prelude::*;
use crate::access::{contains_val, dict_has};
use crate::builtins::{type_matches, type_matches_spec, TextUse, UseV};
use crate::bytecode::{operand, operand_error, read_u32};
use crate::exec::{done, fail, hand, pop1, pop2, pop_or, step_of, Effect, EffectV, Step};
use crate::repr::{has_float, plain, plain_text, repr_toks};
use crate::state::{
    const_str, global_of, popped, pushed, top, with_try, VMState, VState,
};
use crate::text::{concat, str_is, string_of};
use crate::value::{group_value_views, truthy, type_name_of, vals_of, Val, Value};

verus! {

broadcast use group_value_views;

/// The marker that stands for the runtime connector.
pub open spec fn conector_marker() -> Seq<char> {
    "__CONECTOR__"@
}

/// The marker that stands for the connector's variables.
pub open spec fn vars_marker() -> Seq<char> {
    "__CONECTOR_VARS__"@
}

/// The marker that stands for the connector's results.
pub open spec fn results_marker() -> Seq<char> {
    "__CONECTOR_RESULTS__"@
}

/// A value is the given marker string.
pub open spec fn is_marker(v: Val, m: Seq<char>) -> bool {
    v == Val::Str(m)
}

/// Pushing back the top leaves the state as it was.
pub(crate) proof fn lemma_push_back(s: VState)
    requires
        s.stack.len() > 0,
    ensures
        pushed(popped(s), s.stack.last()) == s,
{
    assert(s.stack.drop_last().push(s.stack.last()) =~= s.stack);
}

// ---------------------------------------------------------------------------
// Membership and identity
// ---------------------------------------------------------------------------

/// A string key bound in a namespace.
pub open spec fn key_bound(ns: Seq<(Seq<char>, Val)>, item: Val) -> bool {
    match item {
        Val::Str(k) => dict_has(ns, k),
        _ => false,
    }
}

/// `item in container`, where the connector markers stand for their namespaces.
pub open spec fn member(s: VState, item: Val, container: Val) -> bool {
    if is_marker(container, vars_marker()) {
        key_bound(s.conector_vars, item)
    } else if is_marker(container, results_marker()) {
        key_bound(s.results, item)
    } else {
        contains_val(container, item)
    }
}

/// `IN`: pops the container, then the item, and pushes membership.
pub open spec fn in_step(s: VState, ip: int) -> Step {
    pop2(s, ip, "IN: empty"@, |r: VState, item: Val, c: Val| done(pushed(r, Val::Bool(member(r, item, c))), ip))
}

/// `NOT_IN`: the negation of `IN`.
pub open spec fn not_in_step(s: VState, ip: int) -> Step {
    pop2(
        s,
        ip,
        "NOT_IN: empty"@,
        |r: VState, item: Val, c: Val| done(pushed(r, Val::Bool(!member(r, item, c))), ip),
    )
}

fn is_marker_value(v: &Value, lit: &str) -> (r: bool)
    ensures
        r == (v@ == Val::Str(lit@)),
{
    match v {
        Value::Str(m) => str_is(m, lit),
        _ => false,
    }
}

fn key_bound_in(ns: &crate::state::Namespace, item: &Value) -> (r: bool)
    ensures
        r == key_bound(ns@, item@),
{
    match item {
        Value::Str(k) => ns.contains_key(k),
        _ => false,
    }
}

fn is_member(s: &VMState, item: &Value, container: &Value) -> (r: bool)
    ensures
        r == member(s@, item@, container@),
{
    if is_marker_value(container, "__CONECTOR_VARS__") {
        key_bound_in(&s.conector_vars, item)
    } else if is_marker_value(container, "__CONECTOR_RESULTS__") {
        key_bound_in(&s.results, item)
    } else {
        container.contains(item)
    }
}

fn pop_two(s: &mut VMState, msg: &str) -> (r: Result<(Value, Value), String>)
    ensures
        match r {
            Ok((a, b)) => old(s)@.stack.len() >= 2 && old(s)@.stack[old(s)@.stack.len() - 2] == a@
                && old(s)@.stack.last() == b@ && final(s)@ == popped(popped(old(s)@)),
            Err(e) => e@ == msg@ && old(s)@.stack.len() < 2 && final(s)@ == popped(old(s)@),
        },
{
    let b = match pop_or(s, msg) {
        Ok(v) => v,
        Err(e) => return Err(e),
    };
    let a = match pop_or(s, msg) {
        Ok(v) => v,
        Err(e) => return Err(e),
    };
    Ok((a, b))
}

pub fn h_in(s: &mut VMState, code: &[u8], ip: &mut usize) -> (r: Result<Effect, String>)
    ensures
        step_of(final(s)@, *final(ip) as int, r) == in_step(old(s)@, *old(ip) as int),
{
    let (item, container) = match pop_two(s, "IN: empty") {
        Ok(p) => p,
        Err(e) => return Err(e),
    };
    let b = is_member(s, &item, &container);
    s.push(Value::Bool(b));
    Ok(Effect::Done)
}

pub fn h_not_in(s: &mut VMState, code: &[u8], ip: &mut usize) -> (r: Result<Effect, String>)
    ensures
        step_of(final(s)@, *final(ip) as int, r) == not_in_step(old(s)@, *old(ip) as int),
{
    let (item, container) = match pop_two(s, "NOT_IN: empty") {
        Ok(p) => p,
        Err(e) => return Err(e),
    };
    let b = is_member(s, &item, &container);
    s.push(Value::Bool(!b));
    Ok(Effect::Done)
}

/// `IS`: pushes whether both operands are null.
pub open spec fn is_step(s: VState, ip: int) -> Step {
    pop2(s, ip, "IS: empty"@, |r: VState, a: Val, b: Val| done(pushed(r, Val::Bool(a is Null && b is Null)), ip))
}

/// `IS_NOT`: the negation of `IS`.
pub open spec fn is_not_step(s: VState, ip: int) -> Step {
    pop2(
        s,
        ip,
        "IS_NOT: empty"@,
        |r: VState, a: Val, b: Val| done(pushed(r, Val::Bool(!(a is Null && b is Null))), ip),
    )
}

pub fn h_is(s: &mut VMState, code: &[u8], ip: &mut usize) -> (r: Result<Effect, String>)
    ensures
        step_of(final(s)@, *final(ip) as int, r) == is_step(old(s)@, *old(ip) as int),
{
    let (a, b) = match pop_two(s, "IS: empty") {
        Ok(p) => p,
        Err(e) => return Err(e),
    };
    s.push(Value::Bool(matches!((&a, &b), (Value::Null, Value::Null))));
    Ok(Effect::Done)
}

pub fn h_is_not(s: &mut VMState, code: &[u8], ip: &mut usize) -> (r: Result<Effect, String>)
    ensures
        step_of(final(s)@, *final(ip) as int, r) == is_not_step(old(s)@, *old(ip) as int),
{
    let (a, b) = match pop_two(s, "IS_NOT: empty") {
        Ok(p) => p,
        Err(e) => return Err(e),
    };
    s.push(Value::Bool(!matches!((&a, &b), (Value::Null, Value::Null))));
    Ok(Effect::Done)
}

// ---------------------------------------------------------------------------
// Boolean combination
// ---------------------------------------------------------------------------

/// `BOOL_AND`: pushes `b` when `a` is truthy, else `a`.
pub open spec fn bool_and_step(s: VState, ip: int) -> Step {
    pop2(
        s,
        ip,
        "AND: empty"@,
        |r: VState, a: Val, b: Val|
            done(
                pushed(
                    r,
                    if truthy(a) {
                        b
                    } else {
                        a
                    },
                ),
                ip,
            ),
    )
}

/// `BOOL_OR`: pushes `a` when `a` is truthy, else `b`.
pub open spec fn bool_or_step(s: VState, ip: int) -> Step {
    pop2(
        s,
        ip,
        "OR: empty"@,
        |r: VState, a: Val, b: Val|
            done(
                pushed(
                    r,
                    if truthy(a) {
                        a
                    } else {
                        b
                    },
                ),
                ip,
            ),
    )
}

pub fn h_bool_and(s: &mut VMState, code: &[u8], ip: &mut usize) -> (r: Result<Effect, String>)
    ensures
        step_of(final(s)@, *final(ip) as int, r) == bool_and_step(old(s)@, *old(ip) as int),
{
    let (a, b) = match pop_two(s, "AND: empty") {
        Ok(p) => p,
        Err(e) => return Err(e),
    };
    if a.is_truthy() {
        s.push(b);
    } else {
        s.push(a);
    }
    Ok(Effect::Done)
}

pub fn h_bool_or(s: &mut VMState, code: &[u8], ip: &mut usize) -> (r: Result<Effect, String>)
    ensures
        step_of(final(s)@, *final(ip) as int, r) == bool_or_step(old(s)@, *old(ip) as int),
{
    let (a, b) = match pop_two(s, "OR: empty") {
        Ok(p) => p,
        Err(e) => return Err(e),
    };
    if a.is_truthy() {
        s.push(a);
    } else {
        s.push(b);
    }
    Ok(Effect::Done)
}

// ---------------------------------------------------------------------------
// Control flow and exceptions
// ---------------------------------------------------------------------------

/// `JMP target`: continues at `target`.
pub open spec fn jmp_step(s: VState, code: Seq<u8>, ip: int) -> Step {
    match operand(code, ip) {
        None => fail(s, ip, operand_error()),
        Some(t) => done(s, t as int),
    }
}

/// The top exists and is truthy.
pub open spec fn top_truthy(s: VState) -> bool {
    match top(s) {
        Some(v) => truthy(v),
        None => false,
    }
}

/// The top exists and is falsy.
pub open spec fn top_falsy(s: VState) -> bool {
    match top(s) {
        Some(v) => !truthy(v),
        None => false,
    }
}

/// `JMP_IF target`: continues at `target` when the top is truthy; nothing is popped.
pub open spec fn jmp_if_step(s: VState, code: Seq<u8>, ip: int) -> Step {
    match operand(code, ip) {
        None => fail(s, ip, operand_error()),
        Some(t) => done(
            s,
            if top_truthy(s) {
                t as int
            } else {
                ip + 4
            },
        ),
    }
}

/// `JMP_IF_NOT target`: continues at `target` when the top is falsy; nothing is popped.
pub open spec fn jmp_if_not_step(s: VState, code: Seq<u8>, ip: int) -> Step {
    match operand(code, ip) {
        None => fail(s, ip, operand_error()),
        Some(t) => done(
            s,
            if top_falsy(s) {
                t as int
            } else {
                ip + 4
            },
        ),
    }
}

/// `JMP_IF_POP target`: pops the top and continues at `target` when it was truthy.
pub open spec fn jmp_if_pop_step(s: VState, code: Seq<u8>, ip: int) -> Step {
    match operand(code, ip) {
        None => fail(s, ip, operand_error()),
        Some(t) => pop1(
            s,
            ip + 4,
            "JMP_IF_POP: empty"@,
            |r: VState, v: Val|
                done(
                    r,
                    if truthy(v) {
                        t as int
                    } else {
                        ip + 4
                    },
                ),
        ),
    }
}

/// `JMP_IF_NOT_POP target`: pops the top and continues at `target` when it was falsy.
pub open spec fn jmp_if_not_pop_step(s: VState, code: Seq<u8>, ip: int) -> Step {
    match operand(code, ip) {
        None => fail(s, ip, operand_error()),
        Some(t) => pop1(
            s,
            ip + 4,
            "JMP_IF_NOT_POP: empty"@,
            |r: VState, v: Val|
                done(
                    r,
                    if !truthy(v) {
                        t as int
                    } else {
                        ip + 4
                    },
                ),
        ),
    }
}

/// `PUSH_TRY handler`: pushes an exception handler address.
pub open spec fn push_try_step(s: VState, code: Seq<u8>, ip: int) -> Step {
    match operand(code, ip) {
        None => fail(s, ip, operand_error()),
        Some(h) => done(with_try(s, s.try_stack.push(h as usize)), ip + 4),
    }
}

/// `POP_TRY`: removes the innermost exception handler, if any.
pub open spec fn pop_try_step(s: VState, ip: int) -> Step {
    done(
        with_try(
            s,
            if s.try_stack.len() > 0 {
                s.try_stack.drop_last()
            } else {
                s.try_stack
            },
        ),
        ip,
    )
}

/// `RAISE`: pops a value and fails with its text (handing the text back
/// first when it holds floats still to be written).
pub open spec fn raise_step(s: VState, ip: int) -> Step {
    pop1(
        s,
        ip,
        "RAISE: empty"@,
        |r: VState, v: Val|
            if has_float(repr_toks(v)) {
                hand(r, ip, EffectV::Text(repr_toks(v), UseV::Raise))
            } else {
                fail(r, ip, plain_text(repr_toks(v)))
            },
    )
}

/// `RETURN`: nothing changes (the machine ends the function).
pub open spec fn return_step(s: VState, ip: int) -> Step {
    done(s, ip)
}

pub fn h_jmp(s: &mut VMState, code: &[u8], ip: &mut usize) -> (r: Result<Effect, String>)
    ensures
        step_of(final(s)@, *final(ip) as int, r) == jmp_step(old(s)@, code@, *old(ip) as int),
{
    let t = match read_u32(code, ip) {
        Ok(v) => v,
        Err(e) => return Err(e),
    };
    *ip = t as usize;
    Ok(Effect::Done)
}

fn peek_truthy(s: &VMState) -> (r: Option<bool>)
    ensures
        match r {
            Some(b) => top(s@) matches Some(v) && b == truthy(v),
            None => top(s@) is None,
        },
{
    match s.peek() {
        Some(v) => Some(v.is_truthy()),
        None => None,
    }
}

pub fn h_jmp_if(s: &mut VMState, code: &[u8], ip: &mut usize) -> (r: Result<Effect, String>)
    ensures
        step_of(final(s)@, *final(ip) as int, r) == jmp_if_step(old(s)@, code@, *old(ip) as int),
{
    let t = match read_u32(code, ip) {
        Ok(v) => v,
        Err(e) => return Err(e),
    };
    if let Some(true) = peek_truthy(s) {
        *ip = t as usize;
    }
    Ok(Effect::Done)
}

pub fn h_jmp_if_not(s: &mut VMState, code: &[u8], ip: &mut usize) -> (r: Result<Effect, String>)
    ensures
        step_of(final(s)@, *final(ip) as int, r) == jmp_if_not_step(old(s)@, code@, *old(ip) as int),
{
    let t = match read_u32(code, ip) {
        Ok(v) => v,
        Err(e) => return Err(e),
    };
    if let Some(false) = peek_truthy(s) {
        *ip = t as usize;
    }
    Ok(Effect::Done)
}

pub fn h_jmp_if_pop(s: &mut VMState, code: &[u8], ip: &mut usize) -> (r: Result<Effect, String>)
    ensures
        step_of(final(s)@, *final(ip) as int, r) == jmp_if_pop_step(old(s)@, code@, *old(ip) as int),
{
    let t = match read_u32(code, ip) {
        Ok(v) => v,
        Err(e) => return Err(e),
    };
    let v = match pop_or(s, "JMP_IF_POP: empty") {
        Ok(v) => v,
        Err(e) => return Err(e),
    };
    if v.is_truthy() {
        *ip = t as usize;
    }
    Ok(Effect::Done)
}

pub fn h_jmp_if_not_pop(s: &mut VMState, code: &[u8], ip: &mut usize) -> (r: Result<Effect, String>)
    ensures
        step_of(final(s)@, *final(ip) as int, r) == jmp_if_not_pop_step(old(s)@, code@, *old(ip) as int),
{
    let t = match read_u32(code, ip) {
        Ok(v) => v,
        Err(e) => return Err(e),
    };
    let v = match pop_or(s, "JMP_IF_NOT_POP: empty") {
        Ok(v) => v,
        Err(e) => return Err(e),
    };
    if !v.is_truthy() {
        *ip = t as usize;
    }
    Ok(Effect::Done)
}

pub fn h_push_try(s: &mut VMState, code: &[u8], ip: &mut usize) -> (r: Result<Effect, String>)
    ensures
        step_of(final(s)@, *final(ip) as int, r) == push_try_step(old(s)@, code@, *old(ip) as int),
{
    let h = match read_u32(code, ip) {
        Ok(v) => v,
        Err(e) => return Err(e),
    };
    s.try_stack.push(h as usize);
    Ok(Effect::Done)
}

pub fn h_pop_try(s: &mut VMState, code: &[u8], ip: &mut usize) -> (r: Result<Effect, String>)
    ensures
        step_of(final(s)@, *final(ip) as int, r) == pop_try_step(old(s)@, *old(ip) as int),
{
    let _ = s.try_stack.pop();
    Ok(Effect::Done)
}

pub fn h_raise(s: &mut VMState, code: &[u8], ip: &mut usize) -> (r: Result<Effect, String>)
    ensures
        step_of(final(s)@, *final(ip) as int, r) == raise_step(old(s)@, *old(ip) as int),
{
    let v = match pop_or(s, "RAISE: empty") {
        Ok(v) => v,
        Err(e) => return Err(e),
    };
    let pieces = v.repr_pieces();
    match plain(&pieces) {
        Some(text) => Err(text),
        None => Ok(Effect::Text(pieces, TextUse::Raise)),
    }
}

pub fn h_return(s: &mut VMState, code: &[u8], ip: &mut usize) -> (r: Result<Effect, String>)
    ensures
        step_of(final(s)@, *final(ip) as int, r) == return_step(old(s)@, *old(ip) as int),
{
    Ok(Effect::Done)
}

// ---------------------------------------------------------------------------
// Iteration
// ---------------------------------------------------------------------------

/// `GET_ITER`: pops a list and pushes an iterator at its start (an iterator
/// is pushed back as it is).
pub open spec fn get_iter_step(s: VState, ip: int) -> Step {
    pop1(
        s,
        ip,
        "GET_ITER: empty"@,
        |r: VState, v: Val|
            match v {
                Val::List(xs) => done(pushed(r, Val::Iter(xs, 0)), ip),
                Val::Iter(xs, i) => done(pushed(r, Val::Iter(xs, i)), ip),
                _ => fail(r, ip, "GET_ITER: "@ + type_name_of(v) + " is not iterable"@),
            },
    )
}

/// `FOR_ITER exit`: with an iterator on top that has a next item, advances it
/// and pushes the item; with an exhausted one, pops it and continues at `exit`.
pub open spec fn for_iter_step(s: VState, code: Seq<u8>, ip: int) -> Step {
    match operand(code, ip) {
        None => fail(s, ip, operand_error()),
        Some(exit) => match top(s) {
            None => fail(s, ip + 4, "FOR_ITER: empty"@),
            Some(Val::Iter(xs, i)) => if i < xs.len() {
                done(pushed(pushed(popped(s), Val::Iter(xs, i + 1)), xs[i]), ip + 4)
            } else {
                done(popped(s), exit as int)
            },
            Some(_) => fail(s, ip + 4, "FOR_ITER: not an iterator"@),
        },
    }
}

pub fn h_get_iter(s: &mut VMState, code: &[u8], ip: &mut usize) -> (r: Result<Effect, String>)
    ensures
        step_of(final(s)@, *final(ip) as int, r) == get_iter_step(old(s)@, *old(ip) as int),
{
    let v = match pop_or(s, "GET_ITER: empty") {
        Ok(v) => v,
        Err(e) => return Err(e),
    };
    match v {
        Value::List(items) => {
            s.push(Value::Iter(items, 0));
            Ok(Effect::Done)
        },
        Value::Iter(items, idx) => {
            s.push(Value::Iter(items, idx));
            Ok(Effect::Done)
        },
        other => {
            let mut m = string_of("GET_ITER: ");
            m.append(other.type_str().as_str());
            m.append(" is not iterable");
            Err(m)
        },
    }
}

pub fn h_for_iter(s: &mut VMState, code: &[u8], ip: &mut usize) -> (r: Result<Effect, String>)
    ensures
        step_of(final(s)@, *final(ip) as int, r) == for_iter_step(old(s)@, code@, *old(ip) as int),
{
    let exit = match read_u32(code, ip) {
        Ok(v) => v,
        Err(e) => return Err(e),
    };
    let ghost s0 = s@;
    match s.pop() {
        None => Err(string_of("FOR_ITER: empty")),
        Some(Value::Iter(items, idx)) => {
            if idx < items.len() {
                let next = items[idx].duplicate();
                s.push(Value::Iter(items, idx + 1));
                s.push(next);
            } else {
                *ip = exit as usize;
            }
            Ok(Effect::Done)
        },
        Some(other) => {
            s.push(other);
            proof {
                lemma_push_back(s0);
            }
            Err(string_of("FOR_ITER: not an iterator"))
        },
    }
}

// ---------------------------------------------------------------------------
// Types
// ---------------------------------------------------------------------------

/// The type listed as `t` (a string naming a type) admits `obj`.
pub open spec fn type_listed(obj: Val, t: Val) -> bool {
    match t {
        Val::Str(n) => type_matches_spec(obj, n),
        _ => false,
    }
}

/// Some type listed in `ts` admits `obj`.
pub open spec fn any_type(obj: Val, ts: Seq<Val>) -> bool {
    exists|i: int| 0 <= i < ts.len() && type_listed(obj, #[trigger] ts[i])
}

/// Whether `obj` is an instance of the type (or one of the types) in `t`.
pub open spec fn instance_of(obj: Val, t: Val) -> bool {
    match t {
        Val::Str(n) => type_matches_spec(obj, n),
        Val::List(ts) => any_type(obj, ts),
        Val::Iter(ts, _) => any_type(obj, ts),
        _ => false,
    }
}

/// `IS_INSTANCE`: pops the type (or a list of types), then the object, and
/// pushes whether the object is of that type.
pub open spec fn is_instance_step(s: VState, ip: int) -> Step {
    pop2(
        s,
        ip,
        "IS_INSTANCE: empty"@,
        |r: VState, obj: Val, t: Val| done(pushed(r, Val::Bool(instance_of(obj, t))), ip),
    )
}

/// `IS_NONE`: pushes whether the popped value is null.
pub open spec fn is_none_step(s: VState, ip: int) -> Step {
    pop1(s, ip, "IS_NONE: empty"@, |r: VState, v: Val| done(pushed(r, Val::Bool(v is Null)), ip))
}

/// `TYPE_OF`: pushes the popped value's type name.
pub open spec fn type_of_step(s: VState, ip: int) -> Step {
    pop1(s, ip, "TYPE_OF: empty"@, |r: VState, v: Val| done(pushed(r, Val::Str(type_name_of(v))), ip))
}

fn any_type_in(obj: &Value, types: &Vec<Value>) -> (r: bool)
    ensures
        r == any_type(obj@, vals_of(types@)),
{
    let mut i: usize = 0;
    while i < types.len()
        invariant
            i <= types@.len(),
            forall|j: int| 0 <= j < i ==> !type_listed(obj@, #[trigger] vals_of(types@)[j]),
        decreases types@.len() - i,
    {
        if let Value::Str(name) = &types[i] {
            if type_matches(obj, name) {
                assert(type_listed(obj@, vals_of(types@)[i as int]));
                return true;
            }
        }
        i = i + 1;
    }
    false
}

pub fn h_is_instance(s: &mut VMState, code: &[u8], ip: &mut usize) -> (r: Result<Effect, String>)
    ensures
        step_of(final(s)@, *final(ip) as int, r) == is_instance_step(old(s)@, *old(ip) as int),
{
    let (obj, t) = match pop_two(s, "IS_INSTANCE: empty") {
        Ok(p) => p,
        Err(e) => return Err(e),
    };
    let m = match &t {
        Value::Str(name) => type_matches(&obj, name),
        Value::List(types) => any_type_in(&obj, types),
        Value::Iter(types, _) => any_type_in(&obj, types),
        _ => false,
    };
    s.push(Value::Bool(m));
    Ok(Effect::Done)
}

pub fn h_is_none(s: &mut VMState, code: &[u8], ip: &mut usize) -> (r: Result<Effect, String>)
    ensures
        step_of(final(s)@, *final(ip) as int, r) == is_none_step(old(s)@, *old(ip) as int),
{
    let v = match pop_or(s, "IS_NONE: empty") {
        Ok(v) => v,
        Err(e) => return Err(e),
    };
    s.push(Value::Bool(matches!(v, Value::Null)));
    Ok(Effect::Done)
}

pub fn h_type_of(s: &mut VMState, code: &[u8], ip: &mut usize) -> (r: Result<Effect, String>)
    ensures
        step_of(final(s)@, *final(ip) as int, r) == type_of_step(old(s)@, *old(ip) as int),
{
    let v = match pop_or(s, "TYPE_OF: empty") {
        Ok(v) => v,
        Err(e) => return Err(e),
    };
    s.push(Value::Str(v.type_str()));
    Ok(Effect::Done)
}

// ---------------------------------------------------------------------------
// Runtime context
// ---------------------------------------------------------------------------

/// `LOAD_CONECTOR`: pushes the connector marker.
pub open spec fn load_conector_step(s: VState, ip: int) -> Step {
    done(pushed(s, Val::Str(conector_marker())), ip)
}

/// `LOAD_TASK`: pushes the global `__task__` (null when unbound).
pub open spec fn load_task_step(s: VState, ip: int) -> Step {
    done(pushed(s, global_of(s, "__task__"@)), ip)
}

/// `LOAD_BUILTIN idx`: pushes the name held by string constant `idx`.
pub open spec fn load_builtin_step(s: VState, code: Seq<u8>, ip: int) -> Step {
    match operand(code, ip) {
        None => fail(s, ip, operand_error()),
        Some(idx) => match const_str(s, idx as int) {
            Some(name) => done(pushed(s, Val::Str(name)), ip + 4),
            None => fail(s, ip + 4, "LOAD_BUILTIN: not a string"@),
        },
    }
}

/// `IMPORT_MOD idx`: pushes `__module__:` followed by the name held by string constant `idx`.
pub open spec fn import_mod_step(s: VState, code: Seq<u8>, ip: int) -> Step {
    match operand(code, ip) {
        None => fail(s, ip, operand_error()),
        Some(idx) => match const_str(s, idx as int) {
            Some(name) => done(pushed(s, Val::Str("__module__:"@ + name)), ip + 4),
            None => fail(s, ip + 4, "IMPORT_MOD: not a string"@),
        },
    }
}

/// `CALL_EXT id`: hands the native call with this id to the host.
pub open spec fn call_ext_step(s: VState, code: Seq<u8>, ip: int) -> Step {
    match operand(code, ip) {
        None => fail(s, ip, operand_error()),
        Some(id) => hand(s, ip + 4, EffectV::CallExt(id)),
    }
}

pub fn h_load_conector(s: &mut VMState, code: &[u8], ip: &mut usize) -> (r: Result<Effect, String>)
    ensures
        step_of(final(s)@, *final(ip) as int, r) == load_conector_step(old(s)@, *old(ip) as int),
{
    s.push(Value::Str(string_of("__CONECTOR__")));
    Ok(Effect::Done)
}

pub fn h_load_task(s: &mut VMState, code: &[u8], ip: &mut usize) -> (r: Result<Effect, String>)
    ensures
        step_of(final(s)@, *final(ip) as int, r) == load_task_step(old(s)@, *old(ip) as int),
{
    let v = s.load_global(&string_of("__task__"));
    s.push(v);
    Ok(Effect::Done)
}

pub fn h_load_builtin(s: &mut VMState, code: &[u8], ip: &mut usize) -> (r: Result<Effect, String>)
    ensures
        step_of(final(s)@, *final(ip) as int, r) == load_builtin_step(old(s)@, code@, *old(ip) as int),
{
    let idx = match read_u32(code, ip) {
        Ok(v) => v,
        Err(e) => return Err(e),
    };
    match s.get_const_str(idx as usize) {
        Some(name) => {
            s.push(Value::Str(name));
            Ok(Effect::Done)
        },
        None => Err(string_of("LOAD_BUILTIN: not a string")),
    }
}

pub fn h_import_mod(s: &mut VMState, code: &[u8], ip: &mut usize) -> (r: Result<Effect, String>)
    ensures
        step_of(final(s)@, *final(ip) as int, r) == import_mod_step(old(s)@, code@, *old(ip) as int),
{
    let idx = match read_u32(code, ip) {
        Ok(v) => v,
        Err(e) => return Err(e),
    };
    match s.get_const_str(idx as usize) {
        Some(name) => {
            let full = concat(&string_of("__module__:"), &name);
            s.push(Value::Str(full));
            Ok(Effect::Done)
        },
        None => Err(string_of("IMPORT_MOD: not a string")),
    }
}

pub fn h_call_ext(s: &mut VMState, code: &[u8], ip: &mut usize) -> (r: Result<Effect, String>)
    ensures
        step_of(final(s)@, *final(ip) as int, r) == call_ext_step(old(s)@, code@, *old(ip) as int),
{
    match read_u32(code, ip) {
        Ok(id) => Ok(Effect::CallExt(id)),
        Err(e) => Err(e),
    }
}

} // verus!
