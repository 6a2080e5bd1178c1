//! Instruction handlers for collections and calls, and the operations that
//! finish an instruction once the host has done its part.
use vstd::prelude::*;
use crate::arith::{task_of, FloatTask, TaskV};
use crate::builtins::{
    arg_or_null, builtin_faults, builtin_isinstance, builtin_spec, call_builtin, call_method,
    call_res_of, isinstance_named, keys_list, method_spec, CallOut, CallRes, TextUse, UseV,
    use_of,
};
use crate::bytecode::{operand, operand_error, read_u32};
use crate::exec::{done, fail, hand, step_of, Effect, EffectV, Step};
use crate::flow::{is_marker, results_marker, vars_marker};
use crate::objects::{absorb, marker_is, ns_value_or, with_stack};
use crate::repr::{has_float, plain, plain_text};
use crate::state::{const_str, pushed, with_globals, with_vars, Namespace, VMState, VState};
use crate::text::{str_is, string_of};
use crate::value::{group_value_views, lemma_vals_push, pairs_of, vals_of, Val, Value};

verus! {

broadcast use {group_value_views, vstd::std_specs::vec::group_vec_axioms};

proof fn lemma_vals_subrange(s: Seq<Value>, a: int, b: int)
    requires
        0 <= a <= b <= s.len(),
    ensures
        vals_of(s.subrange(a, b)) == vals_of(s).subrange(a, b),
{
    assert(vals_of(s.subrange(a, b)) =~= vals_of(s).subrange(a, b));
}

impl VMState {
    /// Removes every value from the stack.
    pub fn clear_stack(&mut self)
        ensures
            final(self)@ == with_stack(old(self)@, Seq::empty()),
    {
        self.stack.clear();
        assert(vals_of(self.stack@) =~= Seq::<Val>::empty());
    }

    /// Removes the top `n` values and returns them in stack order; when there
    /// are fewer, removes them all and returns `None`.
    pub fn take_top(&mut self, n: usize) -> (r: Option<Vec<Value>>)
        ensures
            n <= old(self)@.stack.len() ==> (r matches Some(v) && vals_of(v@) == old(self)@.stack.subrange(
                old(self)@.stack.len() - n,
                old(self)@.stack.len() as int,
            ) && final(self)@ == with_stack(
                old(self)@,
                old(self)@.stack.subrange(0, old(self)@.stack.len() - n),
            )),
            n > old(self)@.stack.len() ==> r is None && final(self)@ == with_stack(old(self)@, Seq::empty()),
    {
        let len = self.stack.len();
        if n <= len {
            proof {
                lemma_vals_subrange(self.stack@, len - n, len as int);
                lemma_vals_subrange(self.stack@, 0, len - n);
            }
            Some(self.stack.split_off(len - n))
        } else {
            self.stack.clear();
            assert(vals_of(self.stack@) =~= Seq::<Val>::empty());
            None
        }
    }
}

// ---------------------------------------------------------------------------
// Collections
// ---------------------------------------------------------------------------

/// `BUILD_LIST n` (and `BUILD_TUPLE n`): replaces the top `n` values by a list
/// of them, deepest first; with fewer than `n`, empties the stack and fails.
pub open spec fn build_list_step(s: VState, code: Seq<u8>, ip: int) -> Step {
    match operand(code, ip) {
        None => fail(s, ip, operand_error()),
        Some(n) => {
            let len = s.stack.len() as int;
            if n <= len {
                done(
                    with_stack(s, s.stack.subrange(0, len - n).push(Val::List(s.stack.subrange(len - n, len)))),
                    ip + 4,
                )
            } else {
                fail(with_stack(s, Seq::empty()), ip + 4, "BUILD_LIST: empty"@)
            }
        },
    }
}

pub fn h_build_list(s: &mut VMState, code: &[u8], ip: &mut usize) -> (r: Result<Effect, String>)
    ensures
        step_of(final(s)@, *final(ip) as int, r) == build_list_step(old(s)@, code@, *old(ip) as int),
{
    let n = match read_u32(code, ip) {
        Ok(v) => v,
        Err(e) => return Err(e),
    };
    match s.take_top(n as usize) {
        Some(items) => {
            s.push(Value::List(items));
            Ok(Effect::Done)
        },
        None => Err(string_of("BUILD_LIST: empty")),
    }
}

pub fn h_build_tuple(s: &mut VMState, code: &[u8], ip: &mut usize) -> (r: Result<Effect, String>)
    ensures
        step_of(final(s)@, *final(ip) as int, r) == build_list_step(old(s)@, code@, *old(ip) as int),
{
    h_build_list(s, code, ip)
}

/// The dictionary that the key-value sequence `seg` (`k0, v0, k1, v1, ..`)
/// builds: each pair in order, skipping pairs whose key is not a string.
pub open spec fn dict_from(seg: Seq<Val>) -> Seq<(Seq<char>, Val)>
    decreases seg.len(),
{
    if seg.len() < 2 {
        Seq::empty()
    } else {
        let rest = dict_from(seg.subrange(0, seg.len() - 2));
        match seg[seg.len() - 2] {
            Val::Str(k) => rest.push((k, seg.last())),
            _ => rest,
        }
    }
}

/// `BUILD_DICT n`: replaces the top `2n` values (key, value, key, value, ..)
/// by a dictionary of the pairs with string keys; with fewer than `2n`,
/// empties the stack and fails.
pub open spec fn build_dict_step(s: VState, code: Seq<u8>, ip: int) -> Step {
    match operand(code, ip) {
        None => fail(s, ip, operand_error()),
        Some(n) => {
            let len = s.stack.len() as int;
            let need = 2 * n;
            if need <= len {
                done(
                    with_stack(
                        s,
                        s.stack.subrange(0, len - need).push(Val::Dict(dict_from(s.stack.subrange(len - need, len)))),
                    ),
                    ip + 4,
                )
            } else {
                fail(with_stack(s, Seq::empty()), ip + 4, "BUILD_DICT: empty"@)
            }
        },
    }
}

/// The dictionary of the key-value pairs in `items` (see `dict_from`).
fn pairs_from(items: Vec<Value>) -> (r: Vec<(String, Value)>)
    requires
        items@.len() % 2 == 0,
    ensures
        pairs_of(r@) == dict_from(vals_of(items@)),
{
    let ghost seg = vals_of(items@);
    let mut out: Vec<(String, Value)> = Vec::new();
    let mut rest = items;
    let mut tail: Vec<Value> = Vec::new();
    // Walk the pairs from the front.
    let n = rest.len();
    let mut i: usize = 0;
    assert(seg.subrange(0, 0) =~= Seq::<Val>::empty());
    while i + 1 < n
        invariant
            n == rest@.len(),
            seg == vals_of(rest@),
            n % 2 == 0,
            i % 2 == 0,
            i <= n,
            pairs_of(out@) == dict_from(seg.subrange(0, i as int)),
        decreases n - i,
    {
        let k = &rest[i];
        let v = rest[i + 1].duplicate();
        assert(seg.subrange(0, i + 2).subrange(0, i as int) =~= seg.subrange(0, i as int));
        match k {
            Value::Str(key) => {
                let e = (key.clone(), v);
                proof {
                    crate::value::lemma_pairs_push(out@, e);
                }
                out.push(e);
            },
            _ => {},
        }
        i = i + 2;
    }
    assert(seg.subrange(0, n as int) =~= seg);
    out
}

pub fn h_build_dict(s: &mut VMState, code: &[u8], ip: &mut usize) -> (r: Result<Effect, String>)
    ensures
        step_of(final(s)@, *final(ip) as int, r) == build_dict_step(old(s)@, code@, *old(ip) as int),
{
    let n = match read_u32(code, ip) {
        Ok(v) => v,
        Err(e) => return Err(e),
    };
    let need: u64 = (n as u64) * 2;
    if need > s.stack.len() as u64 {
        s.clear_stack();
        return Err(string_of("BUILD_DICT: empty"));
    }
    match s.take_top(need as usize) {
        Some(items) => {
            let pairs = pairs_from(items);
            s.push(Value::Dict(pairs));
            Ok(Effect::Done)
        },
        None => Err(string_of("BUILD_DICT: empty")),
    }
}

// ---------------------------------------------------------------------------
// Text and float results handed back by the host
// ---------------------------------------------------------------------------

/// Finishes an instruction whose text is written: pushes it as a string,
/// raises it, prints it (pushing null), or decides `isinstance` with it.
pub open spec fn text_step(s: VState, ip: int, u: UseV, text: Seq<char>) -> Step {
    match u {
        UseV::PushStr => done(pushed(s, Val::Str(text)), ip),
        UseV::Raise => fail(s, ip, text),
        UseV::Print => hand(pushed(s, Val::Null), ip, EffectV::Print(text)),
        UseV::IsInstance(obj) => done(pushed(s, Val::Bool(builtin_isinstance(obj, text))), ip),
    }
}

/// Finishes a builtin call: pushes its value, hands back float work or text
/// with floats still to be written, finishes plain text, or fails.
pub open spec fn call_step(r: VState, ip: int, c: CallRes) -> Step {
    match c {
        CallRes::Value(v) => done(pushed(r, v), ip),
        CallRes::Float(t) => hand(r, ip, EffectV::Float(t)),
        CallRes::Text(t, u) => if has_float(t) {
            hand(r, ip, EffectV::Text(t, u))
        } else {
            text_step(r, ip, u, plain_text(t))
        },
        CallRes::Error(e) => fail(r, ip, e),
    }
}

impl VMState {
    /// Finishes an instruction with its written text (see `text_step`); the
    /// host calls this after writing the floats of an `Effect::Text`.
    pub fn resume_text(&mut self, then: TextUse, text: String) -> (r: Result<Effect, String>)
        ensures
            step_of(final(self)@, 0, r) == text_step(old(self)@, 0, use_of(then), text@),
    {
        match then {
            TextUse::PushStr => {
                self.push(Value::Str(text));
                Ok(Effect::Done)
            },
            TextUse::Raise => Err(text),
            TextUse::Print => {
                self.push(Value::Null);
                Ok(Effect::Print(text))
            },
            TextUse::IsInstance(obj) => {
                let b = isinstance_named(&obj, &text);
                self.push(Value::Bool(b));
                Ok(Effect::Done)
            },
        }
    }
}

fn finish_call(s: &mut VMState, c: Result<CallOut, String>) -> (r: Result<Effect, String>)
    ensures
        step_of(final(s)@, 0, r) == call_step(old(s)@, 0, call_res_of(c)),
{
    match c {
        Ok(CallOut::Value(v)) => {
            s.push(v);
            Ok(Effect::Done)
        },
        Ok(CallOut::Float(t)) => Ok(Effect::Float(t)),
        Ok(CallOut::Text(pieces, u)) => match plain(&pieces) {
            Some(text) => s.resume_text(u, text),
            None => Ok(Effect::Text(pieces, u)),
        },
        Err(e) => Err(e),
    }
}

/// The host's result of float work.
#[derive(Debug, PartialEq)]
pub enum FloatReply {
    /// A float, by its bits.
    Float(u64),
    Bool(bool),
    Int(i64),
    /// The text denotes no float.
    NotANumber,
}

/// The reply has the kind that the task asks for.
pub open spec fn reply_fits(t: TaskV, reply: FloatReply) -> bool {
    match t {
        TaskV::Arith(_, _, _) => reply is Float,
        TaskV::FromInt(_) => reply is Float,
        TaskV::Compare(_, _, _) => reply is Bool,
        TaskV::Truncate(_) => reply is Int,
        TaskV::Parse(_) => reply is Float || reply is NotANumber,
    }
}

/// Finishes an instruction with the host's result of its float work.
pub open spec fn reply_step(s: VState, reply: FloatReply) -> Step {
    match reply {
        FloatReply::Float(f) => done(pushed(s, Val::Float(f)), 0),
        FloatReply::Bool(b) => done(pushed(s, Val::Bool(b)), 0),
        FloatReply::Int(i) => done(pushed(s, Val::Int(i as int)), 0),
        FloatReply::NotANumber => fail(s, 0, "Cannot convert to float"@),
    }
}

impl VMState {
    /// Finishes an instruction with the host's result of its float work.
    pub fn resume_float(&mut self, task: &FloatTask, reply: FloatReply) -> (r: Result<Effect, String>)
        requires
            reply_fits(task_of(*task), reply),
        ensures
            step_of(final(self)@, 0, r) == reply_step(old(self)@, reply),
    {
        match reply {
            FloatReply::Float(f) => {
                self.push(Value::Float(f));
                Ok(Effect::Done)
            },
            FloatReply::Bool(b) => {
                self.push(Value::Bool(b));
                Ok(Effect::Done)
            },
            FloatReply::Int(i) => {
                self.push(Value::Int(i));
                Ok(Effect::Done)
            },
            FloatReply::NotANumber => Err(string_of("Cannot convert to float")),
        }
    }

    /// Finishes `CALL_EXT` with the native call's results: each updated global
    /// is bound in order, then the return value, if any, is pushed.
    pub fn finish_call_ext(&mut self, updated: Vec<(String, Value)>, ret: Option<Value>)
        ensures
            final(self)@ == match ret {
                Some(v) => pushed(with_globals(old(self)@, absorb(old(self)@.globals, pairs_of(updated@))), v@),
                None => with_globals(old(self)@, absorb(old(self)@.globals, pairs_of(updated@))),
            },
    {
        self.globals.absorb_all(&updated);
        if let Some(v) = ret {
            self.push(v);
        }
    }
}

// ---------------------------------------------------------------------------
// Calls
// ---------------------------------------------------------------------------

/// Pops `n` arguments and then a callee: continues with the rest of the state,
/// the callee and the arguments in order, or fails with `msg` (emptying the
/// stack) when there are too few values.
pub open spec fn pop_call(
    s: VState,
    n: int,
    ip: int,
    msg: Seq<char>,
    k: spec_fn(VState, Val, Seq<Val>) -> Step,
) -> Step {
    let len = s.stack.len() as int;
    if n > len {
        fail(with_stack(s, Seq::empty()), ip, msg)
    } else if n == len {
        fail(with_stack(s, Seq::empty()), ip, msg)
    } else {
        k(with_stack(s, s.stack.subrange(0, len - n - 1)), s.stack[len - n - 1], s.stack.subrange(len - n, len))
    }
}

/// `CALL_FUNC n`: pops `n` arguments and a builtin's name, and calls the
/// builtin (see `builtin_spec` and `call_step`).
pub open spec fn call_func_step(s: VState, code: Seq<u8>, ip: int) -> Step {
    match operand(code, ip) {
        None => fail(s, ip, operand_error()),
        Some(n) => pop_call(
            s,
            n as int,
            ip + 4,
            "CALL_FUNC: empty"@,
            |r: VState, f: Val, args: Seq<Val>|
                match f {
                    Val::Str(name) => call_step(r, ip + 4, builtin_spec(name, args)),
                    _ => fail(r, ip + 4, "CALL_FUNC: not a callable name"@),
                },
        ),
    }
}

/// The builtin that `CALL_FUNC` would call does not fault.
pub open spec fn call_func_fits(s: VState, code: Seq<u8>, ip: int) -> bool {
    match operand(code, ip) {
        None => true,
        Some(n) => {
            let len = s.stack.len() as int;
            if n < len {
                match s.stack[len - n - 1] {
                    Val::Str(name) => !builtin_faults(name, s.stack.subrange(len - n, len)),
                    _ => true,
                }
            } else {
                true
            }
        },
    }
}

/// Pops `n` arguments and then a callee.
fn pop_args_and_callee(s: &mut VMState, n: usize, msg: &str) -> (r: Result<(Value, Vec<Value>), String>)
    ensures
        ({
            let len = old(s)@.stack.len() as int;
            match r {
                Ok((f, args)) => n < len && f@ == old(s)@.stack[len - n - 1] && vals_of(args@)
                    == old(s)@.stack.subrange(len - n, len) && final(s)@ == with_stack(
                    old(s)@,
                    old(s)@.stack.subrange(0, len - n - 1),
                ),
                Err(e) => n >= len && e@ == msg@ && final(s)@ == with_stack(old(s)@, Seq::empty()),
            }
        }),
{
    let ghost s0 = s@;
    let args = match s.take_top(n) {
        Some(a) => a,
        None => return Err(string_of(msg)),
    };
    let ghost s1 = s@;
    match s.pop() {
        Some(f) => {
            assert(s1.stack.drop_last() =~= s0.stack.subrange(0, s0.stack.len() - n - 1));
            Ok((f, args))
        },
        None => Err(string_of(msg)),
    }
}

pub fn h_call_func(s: &mut VMState, code: &[u8], ip: &mut usize) -> (r: Result<Effect, String>)
    requires
        call_func_fits(old(s)@, code@, *old(ip) as int),
    ensures
        step_of(final(s)@, *final(ip) as int, r) == call_func_step(old(s)@, code@, *old(ip) as int),
{
    let n = match read_u32(code, ip) {
        Ok(v) => v,
        Err(e) => return Err(e),
    };
    let (f, args) = match pop_args_and_callee(s, n as usize, "CALL_FUNC: empty") {
        Ok(p) => p,
        Err(e) => return Err(e),
    };
    match f {
        Value::Str(name) => {
            let c = call_builtin(&name, args);
            finish_call(s, c)
        },
        _ => Err(string_of("CALL_FUNC: not a callable name")),
    }
}

/// The first argument's text, when it is a string.
pub open spec fn first_str(args: Seq<Val>) -> Option<Seq<char>> {
    if args.len() > 0 {
        match args[0] {
            Val::Str(k) => Some(k),
            _ => None,
        }
    } else {
        None
    }
}

/// Calls method `m` of `obj`, where the connector markers stand for their
/// namespaces: `get` reads a variable or result (the default, or null, when
/// the key is unbound or not a string), `update` binds the entries of a dictionary
/// argument, and `keys` lists the variables.
pub open spec fn method_result(r: VState, obj: Val, m: Seq<char>, args: Seq<Val>, ip: int) -> Step {
    if is_marker(obj, vars_marker()) && m == "get"@ {
        match first_str(args) {
            Some(k) => done(pushed(r, ns_value_or(r.conector_vars, k, arg_or_null(args, 1))), ip),
            None => done(pushed(r, arg_or_null(args, 1)), ip),
        }
    } else if is_marker(obj, vars_marker()) && m == "update"@ {
        done(
            pushed(
                with_vars(
                    r,
                    match arg_or_null(args, 0) {
                        Val::Dict(ps) => absorb(r.conector_vars, ps),
                        _ => r.conector_vars,
                    },
                ),
                Val::Null,
            ),
            ip,
        )
    } else if is_marker(obj, vars_marker()) && m == "keys"@ {
        done(pushed(r, keys_list(r.conector_vars)), ip)
    } else if is_marker(obj, results_marker()) && m == "get"@ {
        match first_str(args) {
            Some(k) => done(pushed(r, ns_value_or(r.results, k, arg_or_null(args, 1))), ip),
            None => done(pushed(r, arg_or_null(args, 1)), ip),
        }
    } else {
        match method_spec(obj, m, args) {
            Ok(v) => done(pushed(r, v), ip),
            Err(e) => fail(r, ip, e),
        }
    }
}

/// `CALL_METHOD name n`: pops `n` arguments and an object, and calls the
/// object's method named by string constant `name` (see `method_result`).
pub open spec fn call_method_step(s: VState, code: Seq<u8>, ip: int) -> Step {
    match operand(code, ip) {
        None => fail(s, ip, operand_error()),
        Some(ni) => match operand(code, ip + 4) {
            None => fail(s, ip + 4, operand_error()),
            Some(n) => match const_str(s, ni as int) {
                None => fail(s, ip + 8, "CALL_METHOD: not a string"@),
                Some(m) => pop_call(
                    s,
                    n as int,
                    ip + 8,
                    "CALL_METHOD: empty"@,
                    |r: VState, obj: Val, args: Seq<Val>| method_result(r, obj, m, args, ip + 8),
                ),
            },
        },
    }
}

fn first_string(args: &Vec<Value>) -> (r: Option<String>)
    ensures
        match r {
            Some(k) => first_str(vals_of(args@)) == Some(k@),
            None => first_str(vals_of(args@)) is None,
        },
{
    if args.len() > 0 {
        match &args[0] {
            Value::Str(k) => Some(k.clone()),
            _ => None,
        }
    } else {
        None
    }
}

fn arg_copy(args: &Vec<Value>, i: usize) -> (r: Value)
    ensures
        r@ == arg_or_null(vals_of(args@), i as int),
{
    if i < args.len() {
        args[i].duplicate()
    } else {
        Value::Null
    }
}

fn namespace_get(ns: &Namespace, k: &String, default: Value) -> (r: Value)
    ensures
        r@ == ns_value_or(ns@, k@, default@),
{
    match ns.lookup(k) {
        Some(v) => v,
        None => default,
    }
}

fn key_values(ns: &Namespace) -> (r: Value)
    ensures
        r@ == keys_list(ns@),
{
    let keys = ns.keys();
    let mut out: Vec<Value> = Vec::new();
    let mut i: usize = 0;
    while i < keys.len()
        invariant
            i <= keys@.len(),
            keys@.len() == ns@.len(),
            forall|j: int| 0 <= j < keys@.len() ==> #[trigger] keys@[j]@ == ns@[j].0,
            vals_of(out@) =~= Seq::new(i as nat, |j: int| Val::Str(ns@[j].0)),
        decreases keys@.len() - i,
    {
        let v = Value::Str(keys[i].clone());
        proof {
            lemma_vals_push(out@, v);
        }
        out.push(v);
        i = i + 1;
        assert(vals_of(out@) =~= Seq::new(i as nat, |j: int| Val::Str(ns@[j].0)));
    }
    assert(vals_of(out@) =~= Seq::new(ns@.len(), |j: int| Val::Str(ns@[j].0)));
    Value::List(out)
}

pub fn h_call_method(s: &mut VMState, code: &[u8], ip: &mut usize) -> (r: Result<Effect, String>)
    ensures
        step_of(final(s)@, *final(ip) as int, r) == call_method_step(old(s)@, code@, *old(ip) as int),
{
    let ni = match read_u32(code, ip) {
        Ok(v) => v,
        Err(e) => return Err(e),
    };
    let n = match read_u32(code, ip) {
        Ok(v) => v,
        Err(e) => return Err(e),
    };
    let m = match s.get_const_str(ni as usize) {
        Some(m) => m,
        None => return Err(string_of("CALL_METHOD: not a string")),
    };
    let (obj, args) = match pop_args_and_callee(s, n as usize, "CALL_METHOD: empty") {
        Ok(p) => p,
        Err(e) => return Err(e),
    };
    let on_vars = marker_is(&obj, "__CONECTOR_VARS__");
    let on_results = marker_is(&obj, "__CONECTOR_RESULTS__");
    if on_vars && str_is(&m, "get") {
        match first_string(&args) {
            Some(k) => {
                let v = namespace_get(&s.conector_vars, &k, arg_copy(&args, 1));
                s.push(v);
                Ok(Effect::Done)
            },
            None => {
                s.push(arg_copy(&args, 1));
                Ok(Effect::Done)
            },
        }
    } else if on_vars && str_is(&m, "update") {
        if args.len() > 0 {
            if let Value::Dict(pairs) = &args[0] {
                s.conector_vars.absorb_all(pairs);
            }
        }
        s.push(Value::Null);
        Ok(Effect::Done)
    } else if on_vars && str_is(&m, "keys") {
        let ks = key_values(&s.conector_vars);
        s.push(ks);
        Ok(Effect::Done)
    } else if on_results && str_is(&m, "get") {
        match first_string(&args) {
            Some(k) => {
                let v = namespace_get(&s.results, &k, arg_copy(&args, 1));
                s.push(v);
                Ok(Effect::Done)
            },
            None => {
                s.push(arg_copy(&args, 1));
                Ok(Effect::Done)
            },
        }
    } else {
        match call_method(obj, &m, args) {
            Ok(v) => {
                s.push(v);
                Ok(Effect::Done)
            },
            Err(e) => Err(e),
        }
    }
}

} // verus!
