//! Arithmetic and ordering on values.
//!
//! Integer and string operations are computed here; integer arithmetic wraps
//! around in `i64` (two's complement). An operation with a
//! float operand (or a division, whose result is always a float) yields a
//! `FloatTask` that names the IEEE-754 operation and its operands; the host
//! performs it and hands the result back (see `VMState::resume_float`).
use vstd::prelude::*;
use crate::text::concat;
use crate::value::{float_bits_is_zero, float_is_zero, type_name_of, Val, Value};

verus! {

/// A numeric operand of a float operation.
#[derive(Debug, PartialEq, Clone, Copy)]
pub enum Num {
    Int(i64),
    /// A float by its bits.
    Float(u64),
}

/// A binary float operation whose result is a float.
#[derive(Debug, PartialEq, Clone, Copy)]
pub enum FloatOp {
    Add,
    Sub,
    Mul,
    Div,
    Rem,
}

/// A float comparison whose result is a boolean.
#[derive(Debug, PartialEq, Clone, Copy)]
pub enum CmpOp {
    /// `a < b`
    Lt,
    /// `a > b`
    Gt,
    /// `a <= b` (false when either operand is NaN)
    Le,
    /// `a >= b` (false when either operand is NaN)
    Ge,
}

/// Float work for the host: each operand is converted to `f64` first (an
/// integer by `as f64`), then the operation is performed.
#[derive(Debug, PartialEq)]
pub enum FloatTask {
    /// Push `Float(a op b)`.
    Arith(FloatOp, Num, Num),
    /// Push `Bool(a op b)`.
    Compare(CmpOp, Num, Num),
    /// Push `Int(f as i64)`.
    Truncate(u64),
    /// Push `Float(i as f64)`.
    FromInt(i64),
    /// Push the float that the text denotes (`str::parse::<f64>`), or fail
    /// with `Cannot convert to float` when it denotes none.
    Parse(String),
}

/// The model of float work.
pub enum TaskV {
    Arith(FloatOp, Num, Num),
    Compare(CmpOp, Num, Num),
    Truncate(u64),
    FromInt(i64),
    Parse(Seq<char>),
}

pub open spec fn task_of(t: FloatTask) -> TaskV {
    match t {
        FloatTask::Arith(op, a, b) => TaskV::Arith(op, a, b),
        FloatTask::Compare(op, a, b) => TaskV::Compare(op, a, b),
        FloatTask::Truncate(f) => TaskV::Truncate(f),
        FloatTask::FromInt(i) => TaskV::FromInt(i),
        FloatTask::Parse(s) => TaskV::Parse(s@),
    }
}

/// The result of an arithmetic operation: a value, or float work.
#[derive(Debug, PartialEq)]
pub enum Outcome {
    Value(Value),
    Float(FloatTask),
}

/// The model of an operation's result.
pub enum Res {
    Value(Val),
    Float(TaskV),
    Error(Seq<char>),
}

pub open spec fn res_of(r: Result<Outcome, String>) -> Res {
    match r {
        Ok(Outcome::Value(v)) => Res::Value(v@),
        Ok(Outcome::Float(t)) => Res::Float(task_of(t)),
        Err(e) => Res::Error(e@),
    }
}

/// The operand of a float operation that a numeric value gives.
pub open spec fn num_of(v: Val) -> Num {
    match v {
        Val::Int(i) => Num::Int(i as i64),
        Val::Float(f) => Num::Float(f),
        _ => Num::Int(0),
    }
}

pub open spec fn is_num(v: Val) -> bool {
    v is Int || v is Float
}

/// Both operands are numbers and at least one is a float.
pub open spec fn float_pair(a: Val, b: Val) -> bool {
    is_num(a) && is_num(b) && !(a is Int && b is Int)
}

/// A number equal to zero.
pub open spec fn is_zero_num(v: Val) -> bool {
    match v {
        Val::Int(i) => i == 0,
        Val::Float(f) => float_is_zero(f),
        _ => false,
    }
}

pub open spec fn type_error(verb: Seq<char>, a: Val, b: Val) -> Seq<char> {
    verb + type_name_of(a) + " and "@ + type_name_of(b)
}

pub open spec fn compare_error(a: Val, sym: Seq<char>, b: Val) -> Seq<char> {
    "Cannot compare "@ + type_name_of(a) + sym + type_name_of(b)
}

/// `x` taken modulo 2^64 into the range of `i64` (two's-complement wrapping).
pub open spec fn wrap_i64(x: int) -> int {
    let m = x % 0x1_0000_0000_0000_0000;
    if m > i64::MAX {
        m - 0x1_0000_0000_0000_0000
    } else {
        m
    }
}

/// Wrapping lands in the range of `i64` and differs from its argument by a
/// multiple of 2^64.
pub proof fn lemma_wrap_range(x: int)
    ensures
        i64::MIN <= wrap_i64(x) <= i64::MAX,
        (wrap_i64(x) - x) % 0x1_0000_0000_0000_0000 == 0,
{
    let r: int = 0x1_0000_0000_0000_0000;
    vstd::arithmetic::div_mod::lemma_fundamental_div_mod(x, r);
    vstd::arithmetic::div_mod::lemma_mod_bound(x, r);
    let q = x / r;
    if x % r > i64::MAX {
        assert(wrap_i64(x) - x == (-q - 1) * r) by (nonlinear_arith)
            requires
                x == r * q + x % r,
                wrap_i64(x) == x % r - r,
        ;
        vstd::arithmetic::div_mod::lemma_mod_multiples_basic(-q - 1, r);
    } else {
        assert(wrap_i64(x) - x == (-q) * r) by (nonlinear_arith)
            requires
                x == r * q + x % r,
                wrap_i64(x) == x % r,
        ;
        vstd::arithmetic::div_mod::lemma_mod_multiples_basic(-q, r);
    }
}

/// Near the range of `i64`, wrapping moves a value by at most one 2^64.
pub proof fn lemma_wrap_near(x: int)
    requires
        -0x1_0000_0000_0000_0000 <= x < 0x1_0000_0000_0000_0000,
    ensures
        wrap_i64(x) == (if x > i64::MAX {
            x - 0x1_0000_0000_0000_0000
        } else if x < i64::MIN {
            x + 0x1_0000_0000_0000_0000
        } else {
            x
        }),
{
    let r: int = 0x1_0000_0000_0000_0000;
    if x >= 0 {
        vstd::arithmetic::div_mod::lemma_small_mod(x as nat, r as nat);
    } else {
        vstd::arithmetic::div_mod::lemma_mod_add_multiples_vanish(x, r);
        vstd::arithmetic::div_mod::lemma_small_mod((x + r) as nat, r as nat);
    }
}

/// `a + b`: integers add, strings concatenate, numbers with a float add as floats.
pub open spec fn add_spec(a: Val, b: Val) -> Res {
    match (a, b) {
        (Val::Int(x), Val::Int(y)) => Res::Value(Val::Int(wrap_i64(x + y))),
        (Val::Str(x), Val::Str(y)) => Res::Value(Val::Str(x + y)),
        _ => if float_pair(a, b) {
            Res::Float(TaskV::Arith(FloatOp::Add, num_of(a), num_of(b)))
        } else {
            Res::Error(type_error("Cannot add "@, a, b))
        },
    }
}

/// `a - b`.
pub open spec fn sub_spec(a: Val, b: Val) -> Res {
    match (a, b) {
        (Val::Int(x), Val::Int(y)) => Res::Value(Val::Int(wrap_i64(x - y))),
        _ => if float_pair(a, b) {
            Res::Float(TaskV::Arith(FloatOp::Sub, num_of(a), num_of(b)))
        } else {
            Res::Error(type_error("Cannot sub "@, a, b))
        },
    }
}

/// `a * b`.
pub open spec fn mul_spec(a: Val, b: Val) -> Res {
    match (a, b) {
        (Val::Int(x), Val::Int(y)) => Res::Value(Val::Int(wrap_i64(x * y))),
        _ => if float_pair(a, b) {
            Res::Float(TaskV::Arith(FloatOp::Mul, num_of(a), num_of(b)))
        } else {
            Res::Error(type_error("Cannot mul "@, a, b))
        },
    }
}

/// `a / b`: always a float division; a zero or non-numeric operand fails.
pub open spec fn div_spec(a: Val, b: Val) -> Res {
    if is_num(a) && is_num(b) && !is_zero_num(b) {
        Res::Float(TaskV::Arith(FloatOp::Div, num_of(a), num_of(b)))
    } else {
        Res::Error("Division by zero"@)
    }
}

/// The remainder of truncating division (its sign is the dividend's).
pub open spec fn trunc_rem(x: int, y: int) -> int {
    let m = if y < 0 { -y } else { y };
    if x < 0 {
        -((-x) % m)
    } else {
        x % m
    }
}

/// `a % b`: for two integers or two floats with a nonzero divisor.
pub open spec fn mod_spec(a: Val, b: Val) -> Res {
    match (a, b) {
        (Val::Int(x), Val::Int(y)) => if y != 0 {
            Res::Value(Val::Int(trunc_rem(x, y)))
        } else {
            Res::Error("Modulo by zero"@)
        },
        (Val::Float(x), Val::Float(y)) => if !float_is_zero(y) {
            Res::Float(TaskV::Arith(FloatOp::Rem, Num::Float(x), Num::Float(y)))
        } else {
            Res::Error("Modulo by zero"@)
        },
        _ => Res::Error("Modulo by zero"@),
    }
}

/// `a < b` on numbers.
pub open spec fn lt_spec(a: Val, b: Val) -> Res {
    match (a, b) {
        (Val::Int(x), Val::Int(y)) => Res::Value(Val::Bool(x < y)),
        _ => if float_pair(a, b) {
            Res::Float(TaskV::Compare(CmpOp::Lt, num_of(a), num_of(b)))
        } else {
            Res::Error(compare_error(a, " < "@, b))
        },
    }
}

/// `a > b` on numbers.
pub open spec fn gt_spec(a: Val, b: Val) -> Res {
    match (a, b) {
        (Val::Int(x), Val::Int(y)) => Res::Value(Val::Bool(x > y)),
        _ => if float_pair(a, b) {
            Res::Float(TaskV::Compare(CmpOp::Gt, num_of(a), num_of(b)))
        } else {
            Res::Error(compare_error(a, " > "@, b))
        },
    }
}

/// `a <= b` on numbers (an error names the `>` comparison).
pub open spec fn le_spec(a: Val, b: Val) -> Res {
    match (a, b) {
        (Val::Int(x), Val::Int(y)) => Res::Value(Val::Bool(x <= y)),
        _ => if float_pair(a, b) {
            Res::Float(TaskV::Compare(CmpOp::Le, num_of(a), num_of(b)))
        } else {
            Res::Error(compare_error(a, " > "@, b))
        },
    }
}

/// `a >= b` on numbers (an error names the `<` comparison).
pub open spec fn ge_spec(a: Val, b: Val) -> Res {
    match (a, b) {
        (Val::Int(x), Val::Int(y)) => Res::Value(Val::Bool(x >= y)),
        _ => if float_pair(a, b) {
            Res::Float(TaskV::Compare(CmpOp::Ge, num_of(a), num_of(b)))
        } else {
            Res::Error(compare_error(a, " < "@, b))
        },
    }
}

fn num(v: &Value) -> (r: Num)
    requires
        is_num(v@),
    ensures
        r == num_of(v@),
{
    match v {
        Value::Int(i) => Num::Int(*i),
        Value::Float(f) => Num::Float(*f),
        _ => Num::Int(0),
    }
}

fn is_number(v: &Value) -> (r: bool)
    ensures
        r == is_num(v@),
{
    match v {
        Value::Int(_) | Value::Float(_) => true,
        _ => false,
    }
}

fn is_float_pair(a: &Value, b: &Value) -> (r: bool)
    ensures
        r == float_pair(a@, b@),
{
    match (a, b) {
        (Value::Int(_), Value::Int(_)) => false,
        _ => is_number(a) && is_number(b),
    }
}

/// `verb` followed by the two operands' type names.
fn type_error_text(verb: &str, a: &Value, b: &Value) -> (r: String)
    ensures
        r@ == type_error(verb@, a@, b@),
{
    let mut s = String::from_str(verb);
    s.append(a.type_str().as_str());
    s.append(" and ");
    s.append(b.type_str().as_str());
    assert(s@ =~= type_error(verb@, a@, b@));
    s
}

fn compare_error_text(a: &Value, sym: &str, b: &Value) -> (r: String)
    ensures
        r@ == compare_error(a@, sym@, b@),
{
    let mut s = String::from_str("Cannot compare ");
    s.append(a.type_str().as_str());
    s.append(sym);
    s.append(b.type_str().as_str());
    assert(s@ =~= compare_error(a@, sym@, b@));
    s
}

fn message(lit: &str) -> (r: String)
    ensures
        r@ == lit@,
{
    String::from_str(lit)
}

/// `a + b` (see `add_spec`).
pub fn avap_add(a: Value, b: Value) -> (r: Result<Outcome, String>)
    ensures
        res_of(r) == add_spec(a@, b@),
{
    match (&a, &b) {
        (Value::Int(x), Value::Int(y)) => {
            proof {
                lemma_wrap_near(*x + *y);
            }
            Ok(Outcome::Value(Value::Int(x.wrapping_add(*y))))
        },
        (Value::Str(x), Value::Str(y)) => Ok(Outcome::Value(Value::Str(concat(x, y)))),
        _ => if is_float_pair(&a, &b) {
            Ok(Outcome::Float(FloatTask::Arith(FloatOp::Add, num(&a), num(&b))))
        } else {
            Err(type_error_text("Cannot add ", &a, &b))
        },
    }
}

/// `a - b` (see `sub_spec`).
pub fn avap_sub(a: Value, b: Value) -> (r: Result<Outcome, String>)
    ensures
        res_of(r) == sub_spec(a@, b@),
{
    match (&a, &b) {
        (Value::Int(x), Value::Int(y)) => {
            proof {
                lemma_wrap_near(*x - *y);
            }
            Ok(Outcome::Value(Value::Int(x.wrapping_sub(*y))))
        },
        _ => if is_float_pair(&a, &b) {
            Ok(Outcome::Float(FloatTask::Arith(FloatOp::Sub, num(&a), num(&b))))
        } else {
            Err(type_error_text("Cannot sub ", &a, &b))
        },
    }
}

/// `a * b` (see `mul_spec`).
pub fn avap_mul(a: Value, b: Value) -> (r: Result<Outcome, String>)
    ensures
        res_of(r) == mul_spec(a@, b@),
{
    match (&a, &b) {
        (Value::Int(x), Value::Int(y)) => Ok(Outcome::Value(Value::Int(x.wrapping_mul(*y)))),
        _ => if is_float_pair(&a, &b) {
            Ok(Outcome::Float(FloatTask::Arith(FloatOp::Mul, num(&a), num(&b))))
        } else {
            Err(type_error_text("Cannot mul ", &a, &b))
        },
    }
}

fn is_zero_number(v: &Value) -> (r: bool)
    ensures
        r == is_zero_num(v@),
{
    match v {
        Value::Int(i) => *i == 0,
        Value::Float(f) => float_bits_is_zero(*f),
        _ => false,
    }
}

/// `a / b` (see `div_spec`).
pub fn avap_div(a: Value, b: Value) -> (r: Result<Outcome, String>)
    ensures
        res_of(r) == div_spec(a@, b@),
{
    if is_number(&a) && is_number(&b) && !is_zero_number(&b) {
        Ok(Outcome::Float(FloatTask::Arith(FloatOp::Div, num(&a), num(&b))))
    } else {
        Err(message("Division by zero"))
    }
}

/// `a % b` (see `mod_spec`).
pub fn avap_mod(a: Value, b: Value) -> (r: Result<Outcome, String>)
    ensures
        res_of(r) == mod_spec(a@, b@),
{
    match (&a, &b) {
        (Value::Int(x), Value::Int(y)) => {
            if *y == -1 {
                Ok(Outcome::Value(Value::Int(0)))
            } else if *y != 0 {
                match x.checked_rem(*y) {
                    Some(z) => Ok(Outcome::Value(Value::Int(z))),
                    None => Err(message("Modulo by zero")),
                }
            } else {
                Err(message("Modulo by zero"))
            }
        },
        (Value::Float(x), Value::Float(y)) => {
            if !float_bits_is_zero(*y) {
                Ok(Outcome::Float(FloatTask::Arith(FloatOp::Rem, Num::Float(*x), Num::Float(*y))))
            } else {
                Err(message("Modulo by zero"))
            }
        },
        _ => Err(message("Modulo by zero")),
    }
}

/// `a < b` (see `lt_spec`).
pub fn avap_lt(a: &Value, b: &Value) -> (r: Result<Outcome, String>)
    ensures
        res_of(r) == lt_spec(a@, b@),
{
    match (a, b) {
        (Value::Int(x), Value::Int(y)) => Ok(Outcome::Value(Value::Bool(*x < *y))),
        _ => if is_float_pair(a, b) {
            Ok(Outcome::Float(FloatTask::Compare(CmpOp::Lt, num(a), num(b))))
        } else {
            Err(compare_error_text(a, " < ", b))
        },
    }
}

/// `a > b` (see `gt_spec`).
pub fn avap_gt(a: &Value, b: &Value) -> (r: Result<Outcome, String>)
    ensures
        res_of(r) == gt_spec(a@, b@),
{
    match (a, b) {
        (Value::Int(x), Value::Int(y)) => Ok(Outcome::Value(Value::Bool(*x > *y))),
        _ => if is_float_pair(a, b) {
            Ok(Outcome::Float(FloatTask::Compare(CmpOp::Gt, num(a), num(b))))
        } else {
            Err(compare_error_text(a, " > ", b))
        },
    }
}

/// `a <= b` (see `le_spec`).
pub fn avap_le(a: &Value, b: &Value) -> (r: Result<Outcome, String>)
    ensures
        res_of(r) == le_spec(a@, b@),
{
    match (a, b) {
        (Value::Int(x), Value::Int(y)) => Ok(Outcome::Value(Value::Bool(*x <= *y))),
        _ => if is_float_pair(a, b) {
            Ok(Outcome::Float(FloatTask::Compare(CmpOp::Le, num(a), num(b))))
        } else {
            Err(compare_error_text(a, " > ", b))
        },
    }
}

/// `a >= b` (see `ge_spec`).
pub fn avap_ge(a: &Value, b: &Value) -> (r: Result<Outcome, String>)
    ensures
        res_of(r) == ge_spec(a@, b@),
{
    match (a, b) {
        (Value::Int(x), Value::Int(y)) => Ok(Outcome::Value(Value::Bool(*x >= *y))),
        _ => if is_float_pair(a, b) {
            Ok(Outcome::Float(FloatTask::Compare(CmpOp::Ge, num(a), num(b))))
        } else {
            Err(compare_error_text(a, " < ", b))
        },
    }
}

} // verus!
