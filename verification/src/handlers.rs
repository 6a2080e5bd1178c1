//! Instruction handlers for the stack, variables, arithmetic and comparison.
//!
//! Each handler takes the state, the code and the instruction pointer (just
//! past the opcode byte), and its contract gives the resulting state,
//! instruction pointer and outcome as a `Step`.
use vstd::prelude::*;
use crate::arith::{
    add_spec, avap_add, avap_div, avap_ge, avap_gt, avap_le, avap_lt, avap_mod, avap_mul,
    avap_sub, div_spec, ge_spec, gt_spec, le_spec, lemma_wrap_near, lt_spec, mod_spec, mul_spec,
    sub_spec, wrap_i64,
};
use crate::bytecode::{operand, operand_error, read_u32};
use crate::exec::{
    arith_step, done, fail, finish_arith, pop1, pop2, pop_or, step_of, top2, Effect, Step,
};
use crate::state::{
    const_at, const_str, global_of, popped, pushed, top, with_globals, VMState, VState,
};
use crate::text::{int_text, int_to_string, string_of};
use crate::value::{float_bits_neg, float_neg, group_value_views, truthy, val_eq, Val, Value};

verus! {

broadcast use group_value_views;

// ---------------------------------------------------------------------------
// Stack & variables
// ---------------------------------------------------------------------------

/// `NOP`: nothing changes.
pub open spec fn nop_step(s: VState, ip: int) -> Step {
    done(s, ip)
}

/// `PUSH idx`: pushes constant `idx`.
pub open spec fn push_step(s: VState, code: Seq<u8>, ip: int) -> Step {
    match operand(code, ip) {
        None => fail(s, ip, operand_error()),
        Some(idx) => match const_at(s, idx as int) {
            Some(v) => done(pushed(s, v), ip + 4),
            None => fail(s, ip + 4, "PUSH: index "@ + int_text(idx as int) + " OOB"@),
        },
    }
}

/// `POP`: removes the top, if any.
pub open spec fn pop_step(s: VState, ip: int) -> Step {
    done(popped(s), ip)
}

/// `DUP`: pushes a copy of the top.
pub open spec fn dup_step(s: VState, ip: int) -> Step {
    match top(s) {
        Some(v) => done(pushed(s, v), ip),
        None => fail(s, ip, "DUP: empty stack"@),
    }
}

/// `LOAD_NONE`: pushes null.
pub open spec fn load_none_step(s: VState, ip: int) -> Step {
    done(pushed(s, Val::Null), ip)
}

/// `LOAD idx`: pushes the global named by string constant `idx` (null when unbound).
pub open spec fn load_step(s: VState, code: Seq<u8>, ip: int) -> Step {
    match operand(code, ip) {
        None => fail(s, ip, operand_error()),
        Some(idx) => match const_str(s, idx as int) {
            Some(name) => done(pushed(s, global_of(s, name)), ip + 4),
            None => fail(s, ip + 4, "LOAD: not a string"@),
        },
    }
}

/// `STORE idx`: pops a value into the global named by string constant `idx`.
pub open spec fn store_step(s: VState, code: Seq<u8>, ip: int) -> Step {
    match operand(code, ip) {
        None => fail(s, ip, operand_error()),
        Some(idx) => match const_str(s, idx as int) {
            None => fail(s, ip + 4, "STORE: not a string"@),
            Some(name) => match top(s) {
                None => fail(s, ip + 4, "STORE: empty stack"@),
                Some(v) => done(with_globals(popped(s), crate::access::dict_set(s.globals, name, v)), ip + 4),
            },
        },
    }
}

pub fn h_nop(s: &mut VMState, code: &[u8], ip: &mut usize) -> (r: Result<Effect, String>)
    ensures
        step_of(final(s)@, *final(ip) as int, r) == nop_step(old(s)@, *old(ip) as int),
{
    Ok(Effect::Done)
}

pub fn h_push(s: &mut VMState, code: &[u8], ip: &mut usize) -> (r: Result<Effect, String>)
    ensures
        step_of(final(s)@, *final(ip) as int, r) == push_step(old(s)@, code@, *old(ip) as int),
{
    let idx = match read_u32(code, ip) {
        Ok(v) => v,
        Err(e) => return Err(e),
    };
    let v = match s.get_const(idx as usize) {
        Some(v) => v.duplicate(),
        None => {
            let mut m = string_of("PUSH: index ");
            m.append(int_to_string(idx as i64).as_str());
            m.append(" OOB");
            return Err(m);
        },
    };
    s.push(v);
    Ok(Effect::Done)
}

pub fn h_pop(s: &mut VMState, code: &[u8], ip: &mut usize) -> (r: Result<Effect, String>)
    ensures
        step_of(final(s)@, *final(ip) as int, r) == pop_step(old(s)@, *old(ip) as int),
{
    let _ = s.pop();
    Ok(Effect::Done)
}

pub fn h_dup(s: &mut VMState, code: &[u8], ip: &mut usize) -> (r: Result<Effect, String>)
    ensures
        step_of(final(s)@, *final(ip) as int, r) == dup_step(old(s)@, *old(ip) as int),
{
    let v = match s.peek() {
        Some(v) => v.duplicate(),
        None => return Err(string_of("DUP: empty stack")),
    };
    s.push(v);
    Ok(Effect::Done)
}

pub fn h_load_none(s: &mut VMState, code: &[u8], ip: &mut usize) -> (r: Result<Effect, String>)
    ensures
        step_of(final(s)@, *final(ip) as int, r) == load_none_step(old(s)@, *old(ip) as int),
{
    s.push(Value::Null);
    Ok(Effect::Done)
}

pub fn h_load(s: &mut VMState, code: &[u8], ip: &mut usize) -> (r: Result<Effect, String>)
    ensures
        step_of(final(s)@, *final(ip) as int, r) == load_step(old(s)@, code@, *old(ip) as int),
{
    let idx = match read_u32(code, ip) {
        Ok(v) => v,
        Err(e) => return Err(e),
    };
    let name = match s.get_const_str(idx as usize) {
        Some(n) => n,
        None => return Err(string_of("LOAD: not a string")),
    };
    let v = s.load_global(&name);
    s.push(v);
    Ok(Effect::Done)
}

pub fn h_store(s: &mut VMState, code: &[u8], ip: &mut usize) -> (r: Result<Effect, String>)
    ensures
        step_of(final(s)@, *final(ip) as int, r) == store_step(old(s)@, code@, *old(ip) as int),
{
    let idx = match read_u32(code, ip) {
        Ok(v) => v,
        Err(e) => return Err(e),
    };
    let name = match s.get_const_str(idx as usize) {
        Some(n) => n,
        None => return Err(string_of("STORE: not a string")),
    };
    let v = match pop_or(s, "STORE: empty stack") {
        Ok(v) => v,
        Err(e) => return Err(e),
    };
    s.store_global(name, v);
    Ok(Effect::Done)
}

// ---------------------------------------------------------------------------
// Arithmetic
// ---------------------------------------------------------------------------

/// `ADD`: pops `b`, then `a`, and pushes `a + b` (see `add_spec`).
pub open spec fn add_step(s: VState, ip: int) -> Step {
    pop2(s, ip, "ADD: empty stack"@, |r: VState, a: Val, b: Val| arith_step(r, ip, add_spec(a, b)))
}

/// `SUB`: `a - b`.
pub open spec fn sub_step(s: VState, ip: int) -> Step {
    pop2(s, ip, "SUB: empty stack"@, |r: VState, a: Val, b: Val| arith_step(r, ip, sub_spec(a, b)))
}

/// `MUL`: `a * b`.
pub open spec fn mul_step(s: VState, ip: int) -> Step {
    pop2(s, ip, "MUL: empty stack"@, |r: VState, a: Val, b: Val| arith_step(r, ip, mul_spec(a, b)))
}

/// `DIV`: `a / b`.
pub open spec fn div_step(s: VState, ip: int) -> Step {
    pop2(s, ip, "DIV: empty stack"@, |r: VState, a: Val, b: Val| arith_step(r, ip, div_spec(a, b)))
}

/// `MOD`: `a % b`.
pub open spec fn mod_step(s: VState, ip: int) -> Step {
    pop2(s, ip, "MOD: empty stack"@, |r: VState, a: Val, b: Val| arith_step(r, ip, mod_spec(a, b)))
}

/// Pops `b`, then `a`, failing with `msg` when either is missing.
fn pop_two(s: &mut VMState, msg: &str) -> (r: Result<(Value, Value), String>)
    ensures
        match r {
            Ok((a, b)) => old(s)@.stack.len() >= 2 && top2(old(s)@) == Some((a@, b@)) && final(s)@
                == popped(popped(old(s)@)),
            Err(e) => e@ == msg@ && old(s)@.stack.len() < 2 && final(s)@ == popped(old(s)@),
        },
{
    let b = match pop_or(s, msg) {
        Ok(v) => v,
        Err(e) => return Err(e),
    };
    let a = match pop_or(s, msg) {
        Ok(v) => v,
        Err(e) => return Err(e),
    };
    Ok((a, b))
}

pub fn h_add(s: &mut VMState, code: &[u8], ip: &mut usize) -> (r: Result<Effect, String>)
    ensures
        step_of(final(s)@, *final(ip) as int, r) == add_step(old(s)@, *old(ip) as int),
{
    let (a, b) = match pop_two(s, "ADD: empty stack") {
        Ok(p) => p,
        Err(e) => return Err(e),
    };
    let res = avap_add(a, b);
    finish_arith(s, res)
}

pub fn h_sub(s: &mut VMState, code: &[u8], ip: &mut usize) -> (r: Result<Effect, String>)
    ensures
        step_of(final(s)@, *final(ip) as int, r) == sub_step(old(s)@, *old(ip) as int),
{
    let (a, b) = match pop_two(s, "SUB: empty stack") {
        Ok(p) => p,
        Err(e) => return Err(e),
    };
    let res = avap_sub(a, b);
    finish_arith(s, res)
}

pub fn h_mul(s: &mut VMState, code: &[u8], ip: &mut usize) -> (r: Result<Effect, String>)
    ensures
        step_of(final(s)@, *final(ip) as int, r) == mul_step(old(s)@, *old(ip) as int),
{
    let (a, b) = match pop_two(s, "MUL: empty stack") {
        Ok(p) => p,
        Err(e) => return Err(e),
    };
    let res = avap_mul(a, b);
    finish_arith(s, res)
}

pub fn h_div(s: &mut VMState, code: &[u8], ip: &mut usize) -> (r: Result<Effect, String>)
    ensures
        step_of(final(s)@, *final(ip) as int, r) == div_step(old(s)@, *old(ip) as int),
{
    let (a, b) = match pop_two(s, "DIV: empty stack") {
        Ok(p) => p,
        Err(e) => return Err(e),
    };
    let res = avap_div(a, b);
    finish_arith(s, res)
}

pub fn h_mod(s: &mut VMState, code: &[u8], ip: &mut usize) -> (r: Result<Effect, String>)
    ensures
        step_of(final(s)@, *final(ip) as int, r) == mod_step(old(s)@, *old(ip) as int),
{
    let (a, b) = match pop_two(s, "MOD: empty stack") {
        Ok(p) => p,
        Err(e) => return Err(e),
    };
    let res = avap_mod(a, b);
    finish_arith(s, res)
}

/// `NEG`: pops a number and pushes its negation (wrapping for integers).
pub open spec fn neg_step(s: VState, ip: int) -> Step {
    pop1(
        s,
        ip,
        "NEG: empty stack"@,
        |r: VState, a: Val|
            match a {
                Val::Int(i) => done(pushed(r, Val::Int(wrap_i64(-i))), ip),
                Val::Float(f) => done(pushed(r, Val::Float(float_neg(f))), ip),
                _ => fail(r, ip, "NEG: not a number"@),
            },
    )
}

pub fn h_neg(s: &mut VMState, code: &[u8], ip: &mut usize) -> (r: Result<Effect, String>)
    ensures
        step_of(final(s)@, *final(ip) as int, r) == neg_step(old(s)@, *old(ip) as int),
{
    let a = match pop_or(s, "NEG: empty stack") {
        Ok(v) => v,
        Err(e) => return Err(e),
    };
    match a {
        Value::Int(i) => {
            let n = if i == i64::MIN {
                i64::MIN
            } else {
                -i
            };
            proof {
                lemma_wrap_near(-(i as int));
            }
            s.push(Value::Int(n));
        },
        Value::Float(f) => s.push(Value::Float(float_bits_neg(f))),
        _ => return Err(string_of("NEG: not a number")),
    }
    Ok(Effect::Done)
}

/// `NOT`: pops a value and pushes whether it is falsy.
pub open spec fn not_step(s: VState, ip: int) -> Step {
    pop1(s, ip, "NOT: empty stack"@, |r: VState, a: Val| done(pushed(r, Val::Bool(!truthy(a))), ip))
}

pub fn h_not(s: &mut VMState, code: &[u8], ip: &mut usize) -> (r: Result<Effect, String>)
    ensures
        step_of(final(s)@, *final(ip) as int, r) == not_step(old(s)@, *old(ip) as int),
{
    let a = match pop_or(s, "NOT: empty stack") {
        Ok(v) => v,
        Err(e) => return Err(e),
    };
    s.push(Value::Bool(!a.is_truthy()));
    Ok(Effect::Done)
}

// ---------------------------------------------------------------------------
// Comparison
// ---------------------------------------------------------------------------

/// `EQ`: pushes whether `a` equals `b` (see `val_eq`).
pub open spec fn eq_step(s: VState, ip: int) -> Step {
    pop2(s, ip, "EQ: empty"@, |r: VState, a: Val, b: Val| done(pushed(r, Val::Bool(val_eq(a, b))), ip))
}

/// `NEQ`: pushes whether `a` differs from `b`.
pub open spec fn neq_step(s: VState, ip: int) -> Step {
    pop2(s, ip, "NEQ: empty"@, |r: VState, a: Val, b: Val| done(pushed(r, Val::Bool(!val_eq(a, b))), ip))
}

/// `LT`: `a < b`.
pub open spec fn lt_step(s: VState, ip: int) -> Step {
    pop2(s, ip, "LT: empty"@, |r: VState, a: Val, b: Val| arith_step(r, ip, lt_spec(a, b)))
}

/// `GT`: `a > b`.
pub open spec fn gt_step(s: VState, ip: int) -> Step {
    pop2(s, ip, "GT: empty"@, |r: VState, a: Val, b: Val| arith_step(r, ip, gt_spec(a, b)))
}

/// `LTE`: `a <= b`.
pub open spec fn lte_step(s: VState, ip: int) -> Step {
    pop2(s, ip, "LTE: empty"@, |r: VState, a: Val, b: Val| arith_step(r, ip, le_spec(a, b)))
}

/// `GTE`: `a >= b`.
pub open spec fn gte_step(s: VState, ip: int) -> Step {
    pop2(s, ip, "GTE: empty"@, |r: VState, a: Val, b: Val| arith_step(r, ip, ge_spec(a, b)))
}

pub fn h_eq(s: &mut VMState, code: &[u8], ip: &mut usize) -> (r: Result<Effect, String>)
    ensures
        step_of(final(s)@, *final(ip) as int, r) == eq_step(old(s)@, *old(ip) as int),
{
    let (a, b) = match pop_two(s, "EQ: empty") {
        Ok(p) => p,
        Err(e) => return Err(e),
    };
    s.push(Value::Bool(a.eq_val(&b)));
    Ok(Effect::Done)
}

pub fn h_neq(s: &mut VMState, code: &[u8], ip: &mut usize) -> (r: Result<Effect, String>)
    ensures
        step_of(final(s)@, *final(ip) as int, r) == neq_step(old(s)@, *old(ip) as int),
{
    let (a, b) = match pop_two(s, "NEQ: empty") {
        Ok(p) => p,
        Err(e) => return Err(e),
    };
    s.push(Value::Bool(!a.eq_val(&b)));
    Ok(Effect::Done)
}

pub fn h_lt(s: &mut VMState, code: &[u8], ip: &mut usize) -> (r: Result<Effect, String>)
    ensures
        step_of(final(s)@, *final(ip) as int, r) == lt_step(old(s)@, *old(ip) as int),
{
    let (a, b) = match pop_two(s, "LT: empty") {
        Ok(p) => p,
        Err(e) => return Err(e),
    };
    let res = avap_lt(&a, &b);
    finish_arith(s, res)
}

pub fn h_gt(s: &mut VMState, code: &[u8], ip: &mut usize) -> (r: Result<Effect, String>)
    ensures
        step_of(final(s)@, *final(ip) as int, r) == gt_step(old(s)@, *old(ip) as int),
{
    let (a, b) = match pop_two(s, "GT: empty") {
        Ok(p) => p,
        Err(e) => return Err(e),
    };
    let res = avap_gt(&a, &b);
    finish_arith(s, res)
}

pub fn h_lte(s: &mut VMState, code: &[u8], ip: &mut usize) -> (r: Result<Effect, String>)
    ensures
        step_of(final(s)@, *final(ip) as int, r) == lte_step(old(s)@, *old(ip) as int),
{
    let (a, b) = match pop_two(s, "LTE: empty") {
        Ok(p) => p,
        Err(e) => return Err(e),
    };
    let res = avap_le(&a, &b);
    finish_arith(s, res)
}

pub fn h_gte(s: &mut VMState, code: &[u8], ip: &mut usize) -> (r: Result<Effect, String>)
    ensures
        step_of(final(s)@, *final(ip) as int, r) == gte_step(old(s)@, *old(ip) as int),
{
    let (a, b) = match pop_two(s, "GTE: empty") {
        Ok(p) => p,
        Err(e) => return Err(e),
    };
    let res = avap_ge(&a, &b);
    finish_arith(s, res)
}

} // verus!
