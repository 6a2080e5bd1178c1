//! What an instruction hands back to the machine, and the model of one
//! instruction's effect on the state.
use vstd::prelude::*;
use crate::arith::{res_of, task_of, FloatTask, Outcome, Res, TaskV};
use crate::builtins::{use_of, TextUse, UseV};
use crate::repr::{toks_of, Piece, Tok};
use crate::state::{popped, pushed, top, VMState, VState};
use crate::text::string_of;
use crate::value::Val;

verus! {

/// What an instruction leaves to the host.
#[derive(Debug, PartialEq)]
pub enum Effect {
    /// The instruction is complete.
    Done,
    /// The instruction is complete; print this line.
    Print(String),
    /// Call the registered native function with this id (`CALL_EXT`), then
    /// hand the results to `VMState::finish_call_ext`.
    CallExt(u32),
    /// Perform this float work, then hand the result to `VMState::resume_float`.
    Float(FloatTask),
    /// Write the float pieces of this text, then hand the text to
    /// `VMState::resume_text`.
    Text(Vec<Piece>, TextUse),
}

/// The model of an `Effect`.
pub enum EffectV {
    Done,
    Print(Seq<char>),
    CallExt(u32),
    Float(TaskV),
    Text(Seq<Tok>, UseV),
}

pub open spec fn effect_of(e: Effect) -> EffectV {
    match e {
        Effect::Done => EffectV::Done,
        Effect::Print(s) => EffectV::Print(s@),
        Effect::CallExt(id) => EffectV::CallExt(id),
        Effect::Float(t) => EffectV::Float(task_of(t)),
        Effect::Text(ps, u) => EffectV::Text(toks_of(ps@), use_of(u)),
    }
}

pub open spec fn out_of(r: Result<Effect, String>) -> Result<EffectV, Seq<char>> {
    match r {
        Ok(e) => Ok(effect_of(e)),
        Err(m) => Err(m@),
    }
}

/// The model of one instruction's effect: the state after it, the
/// instruction pointer after it, and what it hands back.
#[verifier::ext_equal]
pub struct Step {
    pub state: VState,
    pub ip: int,
    pub out: Result<EffectV, Seq<char>>,
}

pub open spec fn step_of(s: VState, ip: int, r: Result<Effect, String>) -> Step {
    Step { state: s, ip: ip, out: out_of(r) }
}

/// The instruction completes.
pub open spec fn done(s: VState, ip: int) -> Step {
    Step { state: s, ip: ip, out: Ok(EffectV::Done) }
}

/// The instruction completes, handing back `e`.
pub open spec fn hand(s: VState, ip: int, e: EffectV) -> Step {
    Step { state: s, ip: ip, out: Ok(e) }
}

/// The instruction fails with `msg`.
pub open spec fn fail(s: VState, ip: int, msg: Seq<char>) -> Step {
    Step { state: s, ip: ip, out: Err(msg) }
}

/// Pops one operand: fails with `msg` on an empty stack, else continues with
/// the rest of the state and the operand.
pub open spec fn pop1(s: VState, ip: int, msg: Seq<char>, k: spec_fn(VState, Val) -> Step) -> Step {
    if s.stack.len() == 0 {
        fail(s, ip, msg)
    } else {
        k(popped(s), s.stack.last())
    }
}

/// Pops `b`, then `a`: fails with `msg` when either is missing (the first
/// one popped is then lost), else continues with the rest, `a` and `b`.
pub open spec fn pop2(s: VState, ip: int, msg: Seq<char>, k: spec_fn(VState, Val, Val) -> Step) -> Step {
    if s.stack.len() == 0 {
        fail(s, ip, msg)
    } else if s.stack.len() == 1 {
        fail(popped(s), ip, msg)
    } else {
        k(popped(popped(s)), s.stack[s.stack.len() - 2], s.stack.last())
    }
}

/// Completes an arithmetic instruction: pushes its value, hands back its
/// float work, or fails.
pub open spec fn arith_step(s: VState, ip: int, r: Res) -> Step {
    match r {
        Res::Value(v) => done(pushed(s, v), ip),
        Res::Float(t) => hand(s, ip, EffectV::Float(t)),
        Res::Error(e) => fail(s, ip, e),
    }
}

/// The top two operands, `a` then `b`, when there are two.
pub open spec fn top2(s: VState) -> Option<(Val, Val)> {
    if s.stack.len() >= 2 {
        Some((s.stack[s.stack.len() - 2], s.stack.last()))
    } else {
        None
    }
}

/// Pops the top value, or fails with `msg` on an empty stack.
pub fn pop_or(s: &mut VMState, msg: &str) -> (r: Result<crate::value::Value, String>)
    ensures
        final(s)@ == popped(old(s)@),
        match r {
            Ok(v) => top(old(s)@) == Some(v@),
            Err(e) => top(old(s)@) is None && e@ == msg@,
        },
{
    match s.pop() {
        Some(v) => Ok(v),
        None => Err(string_of(msg)),
    }
}

/// Pushes an arithmetic result, or hands back its float work, or fails.
pub fn finish_arith(s: &mut VMState, r: Result<Outcome, String>) -> (e: Result<Effect, String>)
    ensures
        step_of(final(s)@, 0, e) == arith_step(old(s)@, 0, res_of(r)),
{
    match r {
        Ok(Outcome::Value(v)) => {
            s.push(v);
            Ok(Effect::Done)
        },
        Ok(Outcome::Float(t)) => Ok(Effect::Float(t)),
        Err(m) => Err(m),
    }
}

} // verus!
