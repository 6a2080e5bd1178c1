//! Properties that relate several instructions, or hold of every input:
//! the opcode table, the namespaces, and instruction sequences.
use vstd::prelude::*;
use crate::access::{
    item_of, with_item, dict_first, dict_get, dict_has, dict_pos, dict_set, lemma_dict_first_unique,
    lemma_dict_pos,
};
use crate::arith::{
    add_spec, float_pair, ge_spec, gt_spec, is_num, is_zero_num, le_spec, lemma_wrap_range, lt_spec,
    mod_spec, mul_spec, num_of, sub_spec, wrap_i64, CmpOp, FloatOp, Res, TaskV,
};
use crate::builtins::{builtin_spec, method_spec, type_matches_spec, CallRes};
use crate::bytecode::operand;
use crate::calls::method_result;
use crate::exec::{done, hand, EffectV};
use crate::flow::{
    conector_marker, in_step, instance_of, jmp_if_not_pop_step, jmp_if_not_step, jmp_if_pop_step,
    jmp_if_step, results_marker, vars_marker,
};
use crate::handlers::{div_step, gte_step, load_step, lte_step, pop_step, push_step, store_step};
use crate::isa::{handler_of, opcode_of, Handler};
use crate::objects::{absorb, get_attr_result, get_item_step, set_item_step};
use crate::op;
use crate::state::{
    const_at, const_str, keys_unique, popped, pushed, with_results, with_vars, VState,
};
use crate::strings::{char_is_whitespace, lead_ws, str_lower, str_replace, str_split, str_upper, trail_ws};
use crate::value::{float_neg, truthy, type_name_of, Val};
use crate::flow::{is_none_step, type_of_step, bool_and_step, bool_or_step, member};

verus! {

// ---------------------------------------------------------------------------
// The opcode table
// ---------------------------------------------------------------------------

/// Every handler is registered under its own opcode, and none under the
/// halting opcode.
pub proof fn law_handler_registered(h: Handler)
    ensures
        handler_of(opcode_of(h)) == Some(h),
        opcode_of(h) != op::HALT,
{
}

/// The halting opcode has no handler.
pub proof fn law_halt_unregistered()
    ensures
        handler_of(op::HALT) is None,
{
}

/// A registered opcode is the opcode of its handler: no two opcodes share a handler.
pub proof fn law_opcode_of_handler(opcode: u8)
    requires
        handler_of(opcode) is Some,
    ensures
        opcode_of(handler_of(opcode).unwrap()) == opcode,
{
}

// ---------------------------------------------------------------------------
// Namespaces and dictionaries
// ---------------------------------------------------------------------------

/// Reading a key right after binding it gives the bound value.
pub proof fn law_read_after_write(ps: Seq<(Seq<char>, Val)>, k: Seq<char>, v: Val)
    ensures
        dict_get(dict_set(ps, k, v), k) == Some(v),
{
    let q = dict_set(ps, k, v);
    if dict_has(ps, k) {
        lemma_dict_pos(ps, k);
        let p = dict_pos(ps, k);
        assert(dict_first(q, k, p));
        lemma_dict_pos(q, k);
        lemma_dict_first_unique(q, k, p, dict_pos(q, k));
    } else {
        let p = ps.len() as int;
        assert forall|j: int| 0 <= j < p implies q[j].0 != k by {
            assert(q[j] == ps[j]);
        }
        assert(dict_first(q, k, p));
        lemma_dict_pos(q, k);
        lemma_dict_first_unique(q, k, p, dict_pos(q, k));
    }
}

/// Binding a key leaves every other key as it was.
pub proof fn law_write_keeps_others(ps: Seq<(Seq<char>, Val)>, k: Seq<char>, v: Val, other: Seq<char>)
    requires
        other != k,
    ensures
        dict_get(dict_set(ps, k, v), other) == dict_get(ps, other),
{
    if dict_has(ps, k) {
        lemma_dict_pos(ps, k);
        let q = ps.update(dict_pos(ps, k), (k, v));
        assert(dict_set(ps, k, v) == q);
        assert forall|i: int| 0 <= i < q.len() && q[i].0 == other implies ps[i] == q[i] by {}
        assert forall|i: int| 0 <= i < ps.len() && ps[i].0 == other implies ps[i] == q[i] by {}
        lemma_same_key_entries(ps, q, other);
    } else {
        let q = ps.push((k, v));
        assert(dict_set(ps, k, v) == q);
        lemma_get_push(ps, (k, v), other);
    }
}

/// Two dictionaries of the same length whose entries agree wherever either has
/// key `k` read the same at `k`.
proof fn lemma_same_key_entries(ps: Seq<(Seq<char>, Val)>, q: Seq<(Seq<char>, Val)>, k: Seq<char>)
    requires
        ps.len() == q.len(),
        forall|i: int| 0 <= i < q.len() && q[i].0 == k ==> ps[i] == q[i],
        forall|i: int| 0 <= i < ps.len() && ps[i].0 == k ==> ps[i] == q[i],
    ensures
        dict_get(q, k) == dict_get(ps, k),
{
    if dict_has(ps, k) {
        lemma_dict_pos(ps, k);
        let p = dict_pos(ps, k);
        assert forall|j: int| 0 <= j < p implies q[j].0 != k by {
            if q[j].0 == k {
                assert(ps[j] == q[j]);
            }
        }
        assert(dict_first(q, k, p));
        lemma_dict_pos(q, k);
        lemma_dict_first_unique(q, k, p, dict_pos(q, k));
    } else if dict_has(q, k) {
        let i = choose|i: int| 0 <= i < q.len() && q[i].0 == k;
        assert(ps[i] == q[i]);
    }
}

/// Reading a dictionary with one more entry at its end.
proof fn lemma_get_push(q: Seq<(Seq<char>, Val)>, x: (Seq<char>, Val), k: Seq<char>)
    ensures
        dict_get(q.push(x), k) == (if dict_has(q, k) {
            dict_get(q, k)
        } else if x.0 == k {
            Some(x.1)
        } else {
            None
        }),
{
    let p = q.push(x);
    if dict_has(q, k) {
        lemma_dict_pos(q, k);
        let f = dict_pos(q, k);
        assert(p[f] == q[f]);
        assert forall|j: int| 0 <= j < f implies p[j].0 != k by {
            assert(p[j] == q[j]);
        }
        assert(dict_first(p, k, f));
        lemma_dict_pos(p, k);
        lemma_dict_first_unique(p, k, f, dict_pos(p, k));
    } else if x.0 == k {
        let f = q.len() as int;
        assert forall|j: int| 0 <= j < f implies p[j].0 != k by {
            assert(p[j] == q[j]);
        }
        assert(dict_first(p, k, f));
        lemma_dict_pos(p, k);
        lemma_dict_first_unique(p, k, f, dict_pos(p, k));
    } else {
        if dict_has(p, k) {
            let i = choose|i: int| 0 <= i < p.len() && p[i].0 == k;
            assert(p[i] == q[i]);
        }
    }
}

// ---------------------------------------------------------------------------
// Instruction sequences
// ---------------------------------------------------------------------------

/// `PUSH` of an existing constant followed by `POP` leaves the state as it was.
pub proof fn law_push_then_pop(s: VState, code: Seq<u8>, ip: int, ip2: int)
    requires
        operand(code, ip) is Some,
        const_at(s, operand(code, ip).unwrap() as int) is Some,
    ensures
        push_step(s, code, ip).out == Ok::<EffectV, Seq<char>>(EffectV::Done),
        pop_step(push_step(s, code, ip).state, ip2).state == s,
{
    let v = const_at(s, operand(code, ip).unwrap() as int).unwrap();
    assert(popped(pushed(s, v)) =~= s);
}

/// `STORE name` followed by `LOAD name` pushes back the stored value, and the
/// rest of the state is what `STORE` left.
pub proof fn law_store_then_load(s: VState, code: Seq<u8>, ip: int, ip2: int)
    requires
        operand(code, ip) is Some,
        const_str(s, operand(code, ip).unwrap() as int) is Some,
        operand(code, ip2) == operand(code, ip),
        s.stack.len() > 0,
    ensures
        store_step(s, code, ip).out == Ok::<EffectV, Seq<char>>(EffectV::Done),
        store_step(s, code, ip).state.stack == s.stack.drop_last(),
        load_step(store_step(s, code, ip).state, code, ip2).out == Ok::<EffectV, Seq<char>>(EffectV::Done),
        load_step(store_step(s, code, ip).state, code, ip2).state == pushed(
            store_step(s, code, ip).state,
            s.stack.last(),
        ),
{
    let name = const_str(s, operand(code, ip).unwrap() as int).unwrap();
    law_read_after_write(s.globals, name, s.stack.last());
}

/// On the connector's variables, `SET_ITEM` binds the key in the namespace and
/// leaves the marker on top; pushing the key and `GET_ITEM` then reads the
/// value back, and `IN` finds the key.
pub proof fn law_conector_vars_set_then_get(s: VState, k: Seq<char>, v: Val, ip: int)
    requires
        s.stack.len() >= 3,
        s.stack[s.stack.len() - 3] == Val::Str(vars_marker()),
        s.stack[s.stack.len() - 2] == Val::Str(k),
        s.stack.last() == v,
    ensures
        set_item_step(s, ip).out == Ok::<EffectV, Seq<char>>(EffectV::Done),
        set_item_step(s, ip).state.conector_vars == dict_set(s.conector_vars, k, v),
        set_item_step(s, ip).state.stack == s.stack.subrange(0, s.stack.len() - 2),
        get_item_step(pushed(set_item_step(s, ip).state, Val::Str(k)), ip).state.stack
            == s.stack.subrange(0, s.stack.len() - 3).push(v),
        in_step(
            pushed(pushed(set_item_step(s, ip).state, Val::Str(k)), Val::Str(vars_marker())),
            ip,
        ).state.stack.last() == Val::Bool(true),
{
    let n = s.stack.len();
    let a = set_item_step(s, ip).state;
    assert(a.stack =~= s.stack.subrange(0, n - 2));
    law_read_after_write(s.conector_vars, k, v);
    let g = pushed(a, Val::Str(k));
    assert(popped(popped(g)).stack =~= s.stack.subrange(0, n - 3));
    lemma_dict_pos(dict_set(s.conector_vars, k, v), k);
}

/// On the connector's results, `SET_ITEM` binds the key in the namespace and
/// leaves the marker on top; pushing the key and `GET_ITEM` then reads the
/// value back, and `IN` finds the key.
pub proof fn law_conector_results_set_then_get(s: VState, k: Seq<char>, v: Val, ip: int)
    requires
        s.stack.len() >= 3,
        s.stack[s.stack.len() - 3] == Val::Str(results_marker()),
        s.stack[s.stack.len() - 2] == Val::Str(k),
        s.stack.last() == v,
    ensures
        set_item_step(s, ip).out == Ok::<EffectV, Seq<char>>(EffectV::Done),
        set_item_step(s, ip).state.results == dict_set(s.results, k, v),
        set_item_step(s, ip).state.stack == s.stack.subrange(0, s.stack.len() - 2),
        get_item_step(pushed(set_item_step(s, ip).state, Val::Str(k)), ip).state.stack
            == s.stack.subrange(0, s.stack.len() - 3).push(v),
        in_step(
            pushed(pushed(set_item_step(s, ip).state, Val::Str(k)), Val::Str(results_marker())),
            ip,
        ).state.stack.last() == Val::Bool(true),
{
    reveal_strlit("__CONECTOR_VARS__");
    reveal_strlit("__CONECTOR_RESULTS__");
    assert(results_marker() != vars_marker());
    let n = s.stack.len();
    let a = set_item_step(s, ip).state;
    assert(a.stack =~= s.stack.subrange(0, n - 2));
    law_read_after_write(s.results, k, v);
    let g = pushed(a, Val::Str(k));
    assert(popped(popped(g)).stack =~= s.stack.subrange(0, n - 3));
    lemma_dict_pos(dict_set(s.results, k, v), k);
}

/// `get` on the connector's variables reads back a bound key, whatever the
/// default; on an unbound key it gives the default.
pub proof fn law_conector_vars_method_get(r: VState, k: Seq<char>, v: Val, default: Val, ip: int)
    ensures
        method_result(
            with_vars(r, dict_set(r.conector_vars, k, v)),
            Val::Str(vars_marker()),
            "get"@,
            seq![Val::Str(k), default],
            ip,
        ) == done(pushed(with_vars(r, dict_set(r.conector_vars, k, v)), v), ip),
        dict_get(r.conector_vars, k) is None ==> method_result(
            r,
            Val::Str(vars_marker()),
            "get"@,
            seq![Val::Str(k), default],
            ip,
        ) == done(pushed(r, default), ip),
{
    law_read_after_write(r.conector_vars, k, v);
}

/// `get` on the connector's results reads back a bound key, whatever the
/// default; on an unbound key it gives the default.
pub proof fn law_conector_results_method_get(r: VState, k: Seq<char>, v: Val, default: Val, ip: int)
    ensures
        method_result(
            with_results(r, dict_set(r.results, k, v)),
            Val::Str(results_marker()),
            "get"@,
            seq![Val::Str(k), default],
            ip,
        ) == done(pushed(with_results(r, dict_set(r.results, k, v)), v), ip),
        dict_get(r.results, k) is None ==> method_result(
            r,
            Val::Str(results_marker()),
            "get"@,
            seq![Val::Str(k), default],
            ip,
        ) == done(pushed(r, default), ip),
{
    reveal_strlit("__CONECTOR_VARS__");
    reveal_strlit("__CONECTOR_RESULTS__");
    assert(vars_marker().len() == 17);
    assert(results_marker().len() == 20);
    assert(results_marker() != vars_marker());
    law_read_after_write(r.results, k, v);
}

/// The short-circuit `and` scheme (`JMP_IF_NOT end; POP; ...`): when the
/// left operand on top is falsy, control goes to `end` with the state
/// unchanged, so the operand is the result; otherwise control falls through
/// and `POP` discards it.
pub proof fn law_and_short_circuit(s: VState, code: Seq<u8>, ip: int)
    requires
        operand(code, ip) is Some,
        s.stack.len() > 0,
    ensures
        jmp_if_not_step(s, code, ip).state == s,
        !truthy(s.stack.last()) ==> jmp_if_not_step(s, code, ip).ip == operand(code, ip).unwrap() as int,
        truthy(s.stack.last()) ==> jmp_if_not_step(s, code, ip).ip == ip + 4 && pop_step(
            jmp_if_not_step(s, code, ip).state,
            ip + 4,
        ).state == popped(s),
{
}

/// The short-circuit `or` scheme (`JMP_IF end; POP; ...`): when the left
/// operand on top is truthy, control goes to `end` with the state unchanged;
/// otherwise control falls through and `POP` discards it.
pub proof fn law_or_short_circuit(s: VState, code: Seq<u8>, ip: int)
    requires
        operand(code, ip) is Some,
        s.stack.len() > 0,
    ensures
        jmp_if_step(s, code, ip).state == s,
        truthy(s.stack.last()) ==> jmp_if_step(s, code, ip).ip == operand(code, ip).unwrap() as int,
        !truthy(s.stack.last()) ==> jmp_if_step(s, code, ip).ip == ip + 4 && pop_step(
            jmp_if_step(s, code, ip).state,
            ip + 4,
        ).state == popped(s),
{
}

// ---------------------------------------------------------------------------
// Arithmetic and types
// ---------------------------------------------------------------------------

/// On two integers, `LTE` pushes `a <= b` and `GTE` pushes `a >= b`.
pub proof fn law_lte_gte_on_ints(s: VState, ip: int, x: int, y: int)
    requires
        s.stack.len() >= 2,
        s.stack[s.stack.len() - 2] == Val::Int(x),
        s.stack.last() == Val::Int(y),
    ensures
        lte_step(s, ip) == done(pushed(popped(popped(s)), Val::Bool(x <= y)), ip),
        gte_step(s, ip) == done(pushed(popped(popped(s)), Val::Bool(x >= y)), ip),
{
}

/// `a < b` and `b > a` agree: both fail exactly when an operand is not a
/// number; on integers they give the same boolean; otherwise both hand the
/// host the same comparison with the operands swapped. The same holds of
/// `a <= b` and `b >= a`. No integer is less than itself.
pub proof fn law_lt_gt_converse(a: Val, b: Val)
    ensures
        (lt_spec(a, b) is Error) == !(is_num(a) && is_num(b)),
        (gt_spec(b, a) is Error) == !(is_num(a) && is_num(b)),
        (le_spec(a, b) is Error) == !(is_num(a) && is_num(b)),
        (ge_spec(b, a) is Error) == !(is_num(a) && is_num(b)),
        a is Int && b is Int ==> lt_spec(a, b) == gt_spec(b, a) && le_spec(a, b) == ge_spec(b, a),
        float_pair(a, b) ==> lt_spec(a, b) == Res::Float(TaskV::Compare(CmpOp::Lt, num_of(a), num_of(b)))
            && gt_spec(b, a) == Res::Float(TaskV::Compare(CmpOp::Gt, num_of(b), num_of(a)))
            && le_spec(a, b) == Res::Float(TaskV::Compare(CmpOp::Le, num_of(a), num_of(b)))
            && ge_spec(b, a) == Res::Float(TaskV::Compare(CmpOp::Ge, num_of(b), num_of(a))),
        a is Int ==> lt_spec(a, a) == Res::Value(Val::Bool(false)),
{
}

/// Integer arithmetic never traps: on two `i64` operands, `+`, `-` and `*`
/// give an `i64` that differs from the exact result by a multiple of 2^64
/// (wrapping), and `%` by a nonzero divisor gives the remainder of truncating
/// division (`0` for `i64::MIN % -1`).
pub proof fn law_int_arith_wraps(x: int, y: int)
    requires
        i64::MIN <= x <= i64::MAX,
        i64::MIN <= y <= i64::MAX,
    ensures
        add_spec(Val::Int(x), Val::Int(y)) == Res::Value(Val::Int(wrap_i64(x + y))),
        sub_spec(Val::Int(x), Val::Int(y)) == Res::Value(Val::Int(wrap_i64(x - y))),
        mul_spec(Val::Int(x), Val::Int(y)) == Res::Value(Val::Int(wrap_i64(x * y))),
        i64::MIN <= wrap_i64(x + y) <= i64::MAX,
        (wrap_i64(x + y) - (x + y)) % 0x1_0000_0000_0000_0000 == 0,
        i64::MIN <= wrap_i64(x - y) <= i64::MAX,
        (wrap_i64(x - y) - (x - y)) % 0x1_0000_0000_0000_0000 == 0,
        i64::MIN <= wrap_i64(x * y) <= i64::MAX,
        (wrap_i64(x * y) - (x * y)) % 0x1_0000_0000_0000_0000 == 0,
        i64::MIN <= x + y <= i64::MAX ==> wrap_i64(x + y) == x + y,
        y != 0 ==> mod_spec(Val::Int(x), Val::Int(y)) is Value,
        mod_spec(Val::Int(i64::MIN as int), Val::Int(-1)) == Res::Value(Val::Int(0)),
{
    lemma_wrap_range(x + y);
    lemma_wrap_range(x - y);
    lemma_wrap_range(x * y);
    crate::arith::lemma_wrap_near(x + y);
}

/// `DIV` on two numbers with a nonzero divisor always hands back a float
/// division, whatever the kinds of the operands.
pub proof fn law_div_is_float(s: VState, ip: int)
    requires
        s.stack.len() >= 2,
        is_num(s.stack[s.stack.len() - 2]),
        is_num(s.stack.last()),
        !is_zero_num(s.stack.last()),
    ensures
        div_step(s, ip) == hand(
            popped(popped(s)),
            ip,
            EffectV::Float(TaskV::Arith(FloatOp::Div, num_of(s.stack[s.stack.len() - 2]), num_of(s.stack.last()))),
        ),
{
}

/// Negating a float twice gives back the same float.
pub proof fn law_float_neg_involution(bits: u64)
    ensures
        float_neg(float_neg(bits)) == bits,
{
    assert((bits ^ 0x8000_0000_0000_0000u64) ^ 0x8000_0000_0000_0000u64 == bits) by (bit_vector);
}

/// The type `float` admits integers as well as floats; `int` admits no float.
pub proof fn law_float_admits_int(i: int, f: u64)
    ensures
        type_matches_spec(Val::Int(i), "float"@),
        type_matches_spec(Val::Float(f), "float"@),
        !type_matches_spec(Val::Float(f), "int"@),
        instance_of(Val::Int(i), Val::Str("float"@)),
{
    reveal_strlit("float");
    reveal_strlit("int");
    reveal_strlit("str");
    assert("float"@.len() == 5);
    assert("str"@.len() == 3);
    assert("float"@ != "str"@);
    assert("float"@ != "int"@);
}

// ---------------------------------------------------------------------------
// What methods, builtins, type tests and jumps compute
// ---------------------------------------------------------------------------

/// `s.startswith(p)` is true exactly when `p` is a prefix of `s`, and
/// `s.endswith(p)` exactly when `p` is a suffix of `s`.
pub proof fn law_startswith_endswith(s: Seq<char>, p: Seq<char>)
    ensures
        method_spec(Val::Str(s), "startswith"@, seq![Val::Str(p)]) == Ok::<Val, Seq<char>>(
            Val::Bool(p.len() <= s.len() && forall|i: int| 0 <= i < p.len() ==> p[i] == s[i]),
        ),
        method_spec(Val::Str(s), "endswith"@, seq![Val::Str(p)]) == Ok::<Val, Seq<char>>(
            Val::Bool(
                p.len() <= s.len() && forall|i: int|
                    0 <= i < p.len() ==> p[i] == s[s.len() - p.len() + i],
            ),
        ),
{
    reveal_strlit("strip");
    reveal_strlit("upper");
    reveal_strlit("lower");
    reveal_strlit("isdigit");
    reveal_strlit("startswith");
    reveal_strlit("endswith");
    assert("strip"@[0] != "upper"@[0]);
    assert("strip"@[0] != "lower"@[0]);
    assert("strip"@.len() != "isdigit"@.len());
    assert("strip"@.len() != "startswith"@.len());
    assert("strip"@.len() != "endswith"@.len());
    assert("upper"@[0] != "lower"@[0]);
    assert("upper"@.len() != "isdigit"@.len());
    assert("upper"@.len() != "startswith"@.len());
    assert("upper"@.len() != "endswith"@.len());
    assert("lower"@.len() != "isdigit"@.len());
    assert("lower"@.len() != "startswith"@.len());
    assert("lower"@.len() != "endswith"@.len());
    assert("isdigit"@.len() != "startswith"@.len());
    assert("isdigit"@.len() != "endswith"@.len());
    assert("startswith"@.len() != "endswith"@.len());
    let a = p.len() <= s.len() && forall|i: int| 0 <= i < p.len() ==> p[i] == s[i];
    assert(p.is_prefix_of(s) == a) by {
        if a {
            assert(p =~= s.subrange(0, p.len() as int));
        }
        if p.is_prefix_of(s) {
            assert forall|i: int| 0 <= i < p.len() implies p[i] == s[i] by {
                assert(s.subrange(0, p.len() as int)[i] == s[i]);
            }
        }
    }
    let b = p.len() <= s.len() && forall|i: int| 0 <= i < p.len() ==> p[i] == s[s.len() - p.len() + i];
    assert(p.is_suffix_of(s) == b) by {
        if b {
            assert(p =~= s.subrange(s.len() - p.len(), s.len() as int));
        }
        if p.is_suffix_of(s) {
            assert forall|i: int| 0 <= i < p.len() implies p[i] == s[s.len() - p.len() + i] by {
                assert(s.subrange(s.len() - p.len(), s.len() as int)[i] == s[s.len() - p.len() + i]);
            }
        }
    }
}

/// `len` of a list or a dictionary is its number of elements or entries.
pub proof fn law_len_counts(xs: Seq<Val>, ps: Seq<(Seq<char>, Val)>)
    requires
        xs.len() <= i64::MAX,
        ps.len() <= i64::MAX,
    ensures
        builtin_spec("len"@, seq![Val::List(xs)]) == CallRes::Value(Val::Int(xs.len() as int)),
        builtin_spec("len"@, seq![Val::Dict(ps)]) == CallRes::Value(Val::Int(ps.len() as int)),
{
    reveal_strlit("str");
    reveal_strlit("int");
    reveal_strlit("float");
    reveal_strlit("bool");
    reveal_strlit("len");
    assert("str"@[0] != "int"@[0]);
    assert("str"@.len() != "float"@.len());
    assert("str"@.len() != "bool"@.len());
    assert("str"@[0] != "len"@[0]);
    assert("int"@.len() != "float"@.len());
    assert("int"@.len() != "bool"@.len());
    assert("int"@[0] != "len"@[0]);
    assert("float"@.len() != "bool"@.len());
    assert("float"@.len() != "len"@.len());
    assert("bool"@.len() != "len"@.len());
}

/// Binding a key makes it bound, and leaves the other keys bound or not as
/// they were.
proof fn lemma_set_has(ps: Seq<(Seq<char>, Val)>, k: Seq<char>, v: Val, other: Seq<char>)
    ensures
        dict_has(dict_set(ps, k, v), other) == (dict_has(ps, other) || other == k),
{
    if other == k {
        law_read_after_write(ps, k, v);
    } else {
        law_write_keeps_others(ps, k, v, other);
    }
}

/// After binding the entries of `d` in order, a key is bound exactly when it
/// was bound before or is a key of `d`.
proof fn lemma_absorb_has(ns: Seq<(Seq<char>, Val)>, d: Seq<(Seq<char>, Val)>, k: Seq<char>)
    ensures
        dict_has(absorb(ns, d), k) == (dict_has(ns, k) || dict_has(d, k)),
    decreases d.len(),
{
    if d.len() > 0 {
        lemma_absorb_has(ns, d.drop_last(), k);
        lemma_set_has(absorb(ns, d.drop_last()), d.last().0, d.last().1, k);
        if dict_has(d, k) {
            let i = choose|i: int| 0 <= i < d.len() && d[i].0 == k;
            if i < d.len() - 1 {
                assert(d.drop_last()[i] == d[i]);
            }
        }
        if dict_has(d.drop_last(), k) {
            let i = choose|i: int| 0 <= i < d.drop_last().len() && d.drop_last()[i].0 == k;
            assert(d[i] == d.drop_last()[i]);
        }
    }
}

/// Binding the entries of a dictionary with distinct keys into an empty
/// namespace gives that dictionary.
proof fn lemma_absorb_empty(d: Seq<(Seq<char>, Val)>)
    requires
        keys_unique(d),
    ensures
        absorb(Seq::empty(), d) == d,
    decreases d.len(),
{
    if d.len() > 0 {
        let q = d.drop_last();
        assert(keys_unique(q)) by {
            assert forall|i: int, j: int| 0 <= i < j < q.len() implies #[trigger] q[i].0 != #[trigger] q[j].0 by {
                assert(q[i] == d[i] && q[j] == d[j]);
            }
        }
        lemma_absorb_empty(q);
        if dict_has(q, d.last().0) {
            let i = choose|i: int| 0 <= i < q.len() && q[i].0 == d.last().0;
            assert(d[i] == q[i]);
        }
        assert(q.push(d.last()) =~= d);
    }
}

/// `GET_ATTR "results"` on the connector, with the results namespace still
/// empty and a `__conector__` global whose `results` entry is a dictionary
/// `d`: afterwards exactly the keys of `d` are bound in the results (and the
/// results are `d` itself when its keys are distinct); the variables are left
/// alone and the results marker is pushed. The same holds of `variables`.
pub proof fn law_conector_filled_from_snapshot(
    r: VState,
    cp: Seq<(Seq<char>, Val)>,
    d: Seq<(Seq<char>, Val)>,
    k: Seq<char>,
    ip: int,
)
    requires
        dict_get(r.globals, "__conector__"@) == Some(Val::Dict(cp)),
    ensures
        r.results.len() == 0 && dict_get(cp, "results"@) == Some(Val::Dict(d)) ==> {
            let st = get_attr_result(r, Val::Str(conector_marker()), "results"@, ip).state;
            &&& dict_has(st.results, k) == dict_has(d, k)
            &&& keys_unique(d) ==> st.results == d
            &&& st.conector_vars == r.conector_vars
            &&& st.stack == r.stack.push(Val::Str(results_marker()))
        },
        r.conector_vars.len() == 0 && dict_get(cp, "variables"@) == Some(Val::Dict(d)) ==> {
            let st = get_attr_result(r, Val::Str(conector_marker()), "variables"@, ip).state;
            &&& dict_has(st.conector_vars, k) == dict_has(d, k)
            &&& keys_unique(d) ==> st.conector_vars == d
            &&& st.results == r.results
            &&& st.stack == r.stack.push(Val::Str(vars_marker()))
        },
{
    reveal_strlit("variables");
    reveal_strlit("results");
    assert("variables"@ != "results"@) by {
        assert("variables"@.len() != "results"@.len());
    }
    lemma_absorb_has(r.results, d, k);
    lemma_absorb_has(r.conector_vars, d, k);
    if r.results.len() == 0 {
        assert(r.results =~= Seq::<(Seq<char>, Val)>::empty());
        if keys_unique(d) {
            lemma_absorb_empty(d);
        }
    }
    if r.conector_vars.len() == 0 {
        assert(r.conector_vars =~= Seq::<(Seq<char>, Val)>::empty());
        if keys_unique(d) {
            lemma_absorb_empty(d);
        }
    }
}

/// The type names: `str` admits exactly the strings, `int` the integers,
/// `float` the floats and the integers, `bool` the booleans, `list` the lists,
/// `dict` the dictionaries, and `bytes` and `bytearray` the strings; so
/// `IS_INSTANCE` against the name `str` is true exactly of strings.
pub proof fn law_type_names(v: Val)
    ensures
        type_matches_spec(v, "str"@) == v is Str,
        type_matches_spec(v, "int"@) == v is Int,
        type_matches_spec(v, "float"@) == (v is Float || v is Int),
        type_matches_spec(v, "bool"@) == v is Bool,
        type_matches_spec(v, "list"@) == v is List,
        type_matches_spec(v, "dict"@) == v is Dict,
        type_matches_spec(v, "bytes"@) == v is Str,
        type_matches_spec(v, "bytearray"@) == v is Str,
        instance_of(v, Val::Str("str"@)) == v is Str,
{
    reveal_strlit("str");
    reveal_strlit("int");
    reveal_strlit("float");
    reveal_strlit("bool");
    reveal_strlit("list");
    reveal_strlit("dict");
    reveal_strlit("bytes");
    reveal_strlit("bytearray");
    assert("str"@[0] != "int"@[0]);
    assert("str"@.len() != "float"@.len());
    assert("str"@.len() != "bool"@.len());
    assert("str"@.len() != "list"@.len());
    assert("str"@.len() != "dict"@.len());
    assert("str"@.len() != "bytes"@.len());
    assert("str"@.len() != "bytearray"@.len());
    assert("int"@.len() != "float"@.len());
    assert("int"@.len() != "bool"@.len());
    assert("int"@.len() != "list"@.len());
    assert("int"@.len() != "dict"@.len());
    assert("int"@.len() != "bytes"@.len());
    assert("int"@.len() != "bytearray"@.len());
    assert("float"@.len() != "bool"@.len());
    assert("float"@.len() != "list"@.len());
    assert("float"@.len() != "dict"@.len());
    assert("float"@[0] != "bytes"@[0]);
    assert("float"@.len() != "bytearray"@.len());
    assert("bool"@[0] != "list"@[0]);
    assert("bool"@[0] != "dict"@[0]);
    assert("bool"@.len() != "bytes"@.len());
    assert("bool"@.len() != "bytearray"@.len());
    assert("list"@[0] != "dict"@[0]);
    assert("list"@.len() != "bytes"@.len());
    assert("list"@.len() != "bytearray"@.len());
    assert("dict"@.len() != "bytes"@.len());
    assert("dict"@.len() != "bytearray"@.len());
    assert("bytes"@.len() != "bytearray"@.len());
}

/// `JMP_IF_NOT_POP t` pops the top and continues at `t` exactly when it was
/// falsy (null, `false`, zero, or an empty string, list or dictionary), and
/// `JMP_IF_POP t` exactly when it was truthy; otherwise both continue after
/// the operand.
pub proof fn law_popping_jumps(s: VState, code: Seq<u8>, ip: int)
    requires
        operand(code, ip) is Some,
        s.stack.len() > 0,
    ensures
        ({
            let v = s.stack.last();
            let t = operand(code, ip).unwrap() as int;
            let falsy = match v {
                Val::Null => true,
                Val::Bool(b) => !b,
                Val::Int(i) => i == 0,
                Val::Str(x) => x.len() == 0,
                Val::List(xs) => xs.len() == 0,
                Val::Dict(ps) => ps.len() == 0,
                _ => false,
            };
            &&& v !is Float ==> jmp_if_not_pop_step(s, code, ip) == done(
                popped(s),
                if falsy { t } else { ip + 4 },
            )
            &&& v !is Float ==> jmp_if_pop_step(s, code, ip) == done(
                popped(s),
                if falsy { ip + 4 } else { t },
            )
            &&& jmp_if_not_pop_step(s, code, ip) == done(popped(s), if !truthy(v) { t } else { ip + 4 })
            &&& jmp_if_pop_step(s, code, ip) == done(popped(s), if truthy(v) { t } else { ip + 4 })
        }),
{
}

/// Falsy values, by kind: null, `false`, zero, and the empty string, list and
/// dictionary; an iterator is never falsy.
pub open spec fn plainly_falsy(v: Val) -> bool {
    match v {
        Val::Null => true,
        Val::Bool(b) => !b,
        Val::Int(i) => i == 0,
        Val::Str(x) => x.len() == 0,
        Val::List(xs) => xs.len() == 0,
        Val::Dict(ps) => ps.len() == 0,
        _ => false,
    }
}

/// `a and b` gives `b` when `a` is truthy and `a` itself when it is falsy;
/// `a or b` gives `a` when it is truthy and `b` otherwise.
pub proof fn law_bool_and_or(s: VState, ip: int)
    requires
        s.stack.len() >= 2,
        s.stack[s.stack.len() - 2] !is Float,
    ensures
        ({
            let a = s.stack[s.stack.len() - 2];
            let b = s.stack.last();
            &&& bool_and_step(s, ip) == done(pushed(popped(popped(s)), if plainly_falsy(a) { a } else { b }), ip)
            &&& bool_or_step(s, ip) == done(pushed(popped(popped(s)), if plainly_falsy(a) { b } else { a }), ip)
        }),
{
}

/// `IS_NONE` pushes whether the value is null, and `TYPE_OF` pushes its type
/// name: `null`, `bool`, `int`, `float`, `string`, `list`, `dict` or `iterator`.
pub proof fn law_is_none_type_of(s: VState, ip: int)
    requires
        s.stack.len() > 0,
    ensures
        is_none_step(s, ip) == done(pushed(popped(s), Val::Bool(s.stack.last() == Val::Null)), ip),
        ({
            let v = s.stack.last();
            let name = match v {
                Val::Null => "null"@,
                Val::Bool(_) => "bool"@,
                Val::Int(_) => "int"@,
                Val::Float(_) => "float"@,
                Val::Str(_) => "string"@,
                Val::List(_) => "list"@,
                Val::Dict(_) => "dict"@,
                Val::Iter(_, _) => "iterator"@,
            };
            type_of_step(s, ip) == done(pushed(popped(s), Val::Str(name)), ip)
        }),
        ({
            let v = s.stack.last();
            v is Str ==> type_of_step(s, ip).state.stack.last() != Val::Str("str"@)
        }),
{
    reveal_strlit("null");
    reveal_strlit("bool");
    reveal_strlit("int");
    reveal_strlit("float");
    reveal_strlit("string");
    reveal_strlit("list");
    reveal_strlit("dict");
    reveal_strlit("iterator");
    reveal_strlit("str");
    assert("string"@.len() != "str"@.len());
}

/// Indexing: a list element at position `i` counted from the start, or from
/// the end when negative; a dictionary's value at the first entry with the key;
/// nothing for a position out of range or a key not bound.
pub proof fn law_indexing(xs: Seq<Val>, i: int, ps: Seq<(Seq<char>, Val)>, k: Seq<char>, f: int)
    ensures
        0 <= i < xs.len() ==> item_of(Val::List(xs), Val::Int(i)) == Some(xs[i]),
        -xs.len() <= i < 0 ==> item_of(Val::List(xs), Val::Int(i)) == Some(xs[xs.len() + i]),
        (i >= xs.len() || i < -xs.len()) ==> item_of(Val::List(xs), Val::Int(i)) is None,
        dict_first(ps, k, f) ==> item_of(Val::Dict(ps), Val::Str(k)) == Some(ps[f].1),
        (forall|j: int| 0 <= j < ps.len() ==> ps[j].0 != k) ==> item_of(Val::Dict(ps), Val::Str(k)) is None,
{
    if dict_first(ps, k, f) {
        lemma_dict_pos(ps, k);
        lemma_dict_first_unique(ps, k, f, dict_pos(ps, k));
    }
}

/// `t` occurs in `s` starting at position `i`.
pub open spec fn occurs_at(s: Seq<char>, t: Seq<char>, i: int) -> bool {
    0 <= i && i + t.len() <= s.len() && forall|j: int| 0 <= j < t.len() ==> #[trigger] s[i + j] == t[j]
}

/// `in`: a list holds an item when some element equals it; a string holds a
/// string when that string occurs in it at some position; a dictionary holds a
/// string when it is one of its keys.
pub proof fn law_membership(r: VState, item: Val, xs: Seq<Val>, s: Seq<char>, t: Seq<char>, ps: Seq<(Seq<char>, Val)>)
    ensures
        member(r, item, Val::List(xs)) == exists|i: int| 0 <= i < xs.len() && crate::value::val_eq(#[trigger] xs[i], item),
        !(Val::Str(s) == Val::Str(crate::flow::vars_marker()) || Val::Str(s) == Val::Str(crate::flow::results_marker()))
            ==> member(r, Val::Str(t), Val::Str(s)) == exists|i: int| #[trigger] occurs_at(s, t, i),
        member(r, Val::Str(t), Val::Dict(ps)) == exists|i: int| 0 <= i < ps.len() && #[trigger] ps[i].0 == t,
{
    let a = exists|i: int| 0 <= i && i + t.len() <= s.len() && #[trigger] s.subrange(i, i + t.len()) == t;
    let b = exists|i: int| #[trigger] occurs_at(s, t, i);
    assert(a == b) by {
        if a {
            let i = choose|i: int| 0 <= i && i + t.len() <= s.len() && #[trigger] s.subrange(i, i + t.len()) == t;
            assert forall|j: int| 0 <= j < t.len() implies #[trigger] s[i + j] == t[j] by {
                assert(s.subrange(i, i + t.len())[j] == s[i + j]);
            }
            assert(occurs_at(s, t, i));
        }
        if b {
            let i = choose|i: int| #[trigger] occurs_at(s, t, i);
            assert forall|j: int| 0 <= j < t.len() implies s.subrange(i, i + t.len())[j] == t[j] by {
                assert(s[i + j] == t[j]);
            }
            assert(s.subrange(i, i + t.len()) =~= t);
        }
    }
}

/// Dictionary methods: `get(k, d)` gives the value at the first entry with key
/// `k`, or `d` when no entry has it; `keys()` and `values()` list the keys and
/// the values, one per entry, in order.
pub proof fn law_dict_methods(ps: Seq<(Seq<char>, Val)>, k: Seq<char>, d: Val, f: int)
    ensures
        dict_first(ps, k, f) ==> method_spec(Val::Dict(ps), "get"@, seq![Val::Str(k), d]) == Ok::<Val, Seq<char>>(ps[f].1),
        (forall|j: int| 0 <= j < ps.len() ==> ps[j].0 != k) ==> method_spec(Val::Dict(ps), "get"@, seq![Val::Str(k), d])
            == Ok::<Val, Seq<char>>(d),
        method_spec(Val::Dict(ps), "keys"@, seq![]) matches Ok(Val::List(ks)) && ks.len() == ps.len() && (forall|i: int|
            0 <= i < ps.len() ==> #[trigger] ks[i] == Val::Str(ps[i].0)),
        method_spec(Val::Dict(ps), "values"@, seq![]) matches Ok(Val::List(vs)) && vs.len() == ps.len() && (forall|i: int|
            0 <= i < ps.len() ==> #[trigger] vs[i] == ps[i].1),
{
    reveal_strlit("get");
    reveal_strlit("keys");
    reveal_strlit("values");
    reveal_strlit("items");
    assert("get"@.len() != "keys"@.len());
    assert("get"@.len() != "values"@.len());
    assert("get"@.len() != "items"@.len());
    assert("keys"@.len() != "values"@.len());
    assert("keys"@.len() != "items"@.len());
    assert("values"@.len() != "items"@.len());
    if dict_first(ps, k, f) {
        lemma_dict_pos(ps, k);
        lemma_dict_first_unique(ps, k, f, dict_pos(ps, k));
    }
}

/// `s.isdigit()` is true exactly when `s` is nonempty and every character is
/// one of `0` to `9`.
pub proof fn law_isdigit(s: Seq<char>)
    ensures
        method_spec(Val::Str(s), "isdigit"@, seq![]) == Ok::<Val, Seq<char>>(
            Val::Bool(s.len() > 0 && forall|i: int| 0 <= i < s.len() ==> '0' <= #[trigger] s[i] <= '9'),
        ),
{
    reveal_strlit("strip");
    reveal_strlit("upper");
    reveal_strlit("lower");
    reveal_strlit("isdigit");
    assert("strip"@[0] != "upper"@[0]);
    assert("strip"@[0] != "lower"@[0]);
    assert("strip"@.len() != "isdigit"@.len());
    assert("upper"@[0] != "lower"@[0]);
    assert("upper"@.len() != "isdigit"@.len());
    assert("lower"@.len() != "isdigit"@.len());
    let a = crate::strings::all_digits(s);
    let b = s.len() > 0 && forall|i: int| 0 <= i < s.len() ==> '0' <= #[trigger] s[i] <= '9';
    assert(a == b) by {
        if a {
            assert forall|i: int| 0 <= i < s.len() implies '0' <= #[trigger] s[i] <= '9' by {
                assert(crate::strings::is_ascii_digit(s[i]));
            }
        }
        if b {
            assert forall|i: int| 0 <= i < s.len() implies #[trigger] crate::strings::is_ascii_digit(s[i]) by {
                assert('0' <= s[i] <= '9');
            }
        }
    }
}

/// Builtins on values: `bool(x)` is false exactly for the falsy values,
/// `int` keeps an integer and turns `true`/`false` into 1/0, `list` keeps a list
/// and turns an iterator into its remaining items, and `dict()` is empty.
pub proof fn law_builtin_conversions(x: Val, i: int, b: bool, xs: Seq<Val>, at: int)
    requires
        x !is Float,
        0 <= at <= xs.len(),
    ensures
        builtin_spec("bool"@, seq![x]) == CallRes::Value(Val::Bool(!plainly_falsy(x))),
        builtin_spec("int"@, seq![Val::Int(i)]) == CallRes::Value(Val::Int(i)),
        builtin_spec("int"@, seq![Val::Bool(b)]) == CallRes::Value(Val::Int(if b { 1 } else { 0 })),
        builtin_spec("list"@, seq![Val::List(xs)]) == CallRes::Value(Val::List(xs)),
        builtin_spec("list"@, seq![Val::Iter(xs, at)]) matches CallRes::Value(Val::List(ys)) && ys.len()
            == xs.len() - at && (forall|j: int| 0 <= j < ys.len() ==> #[trigger] ys[j] == xs[at + j]),
        builtin_spec("dict"@, seq![]) == CallRes::Value(Val::Dict(Seq::empty())),
{
    reveal_strlit("str");
    reveal_strlit("int");
    reveal_strlit("float");
    reveal_strlit("bool");
    reveal_strlit("len");
    reveal_strlit("list");
    reveal_strlit("dict");
    assert("str"@[0] != "int"@[0]);
    assert("str"@.len() != "float"@.len());
    assert("str"@.len() != "bool"@.len());
    assert("str"@[0] != "len"@[0]);
    assert("str"@.len() != "list"@.len());
    assert("str"@.len() != "dict"@.len());
    assert("int"@.len() != "float"@.len());
    assert("int"@.len() != "bool"@.len());
    assert("int"@[0] != "len"@[0]);
    assert("int"@.len() != "list"@.len());
    assert("int"@.len() != "dict"@.len());
    assert("float"@.len() != "bool"@.len());
    assert("float"@.len() != "len"@.len());
    assert("float"@.len() != "list"@.len());
    assert("float"@.len() != "dict"@.len());
    assert("bool"@.len() != "len"@.len());
    assert("bool"@[0] != "list"@[0]);
    assert("bool"@[0] != "dict"@[0]);
    assert("len"@.len() != "list"@.len());
    assert("len"@.len() != "dict"@.len());
    assert("list"@[0] != "dict"@[0]);
}

/// The number of whitespace characters that begin `s`: they are all
/// whitespace, and the next one (if any) is not.
proof fn lemma_lead_ws_props(s: Seq<char>)
    ensures
        lead_ws(s) <= s.len(),
        forall|j: int| 0 <= j < lead_ws(s) ==> char_is_whitespace(#[trigger] s[j]),
        lead_ws(s) < s.len() ==> !char_is_whitespace(s[lead_ws(s) as int]),
    decreases s.len(),
{
    if s.len() > 0 && char_is_whitespace(s[0]) {
        lemma_lead_ws_props(s.drop_first());
        assert forall|j: int| 0 <= j < lead_ws(s) implies char_is_whitespace(#[trigger] s[j]) by {
            if j > 0 {
                assert(s.drop_first()[j - 1] == s[j]);
            }
        }
        if lead_ws(s) < s.len() {
            assert(s.drop_first()[lead_ws(s) - 1] == s[lead_ws(s) as int]);
        }
    }
}

/// The number of whitespace characters that end `s`: they are all whitespace,
/// and the one before them (if any) is not.
proof fn lemma_trail_ws_props(s: Seq<char>)
    ensures
        trail_ws(s) <= s.len(),
        forall|j: int| s.len() - trail_ws(s) <= j < s.len() ==> char_is_whitespace(#[trigger] s[j]),
        trail_ws(s) < s.len() ==> !char_is_whitespace(s[s.len() - 1 - trail_ws(s)]),
    decreases s.len(),
{
    if s.len() > 0 && char_is_whitespace(s.last()) {
        lemma_trail_ws_props(s.drop_last());
        assert forall|j: int| s.len() - trail_ws(s) <= j < s.len() implies char_is_whitespace(#[trigger] s[j]) by {
            if j < s.len() - 1 {
                assert(s.drop_last()[j] == s[j]);
            }
        }
        if trail_ws(s) < s.len() {
            assert(s.drop_last()[s.len() - 1 - trail_ws(s)] == s[s.len() - 1 - trail_ws(s)]);
        }
    }
}

/// `s.strip()` is a contiguous part of `s` that neither begins nor ends with
/// whitespace, and everything of `s` before and after it is whitespace.
pub proof fn law_strip(s: Seq<char>)
    ensures
        method_spec(Val::Str(s), "strip"@, seq![]) matches Ok(Val::Str(t)) && exists|a: int, b: int|
            {
                &&& 0 <= a <= b <= s.len()
                &&& t == #[trigger] s.subrange(a, b)
                &&& forall|j: int| 0 <= j < a ==> char_is_whitespace(#[trigger] s[j])
                &&& forall|j: int| b <= j < s.len() ==> char_is_whitespace(#[trigger] s[j])
                &&& t.len() > 0 ==> !char_is_whitespace(t[0]) && !char_is_whitespace(t.last())
            },
{
    reveal_strlit("strip");
    lemma_lead_ws_props(s);
    lemma_trail_ws_props(s);
    let a = lead_ws(s) as int;
    let t = crate::strings::trimmed(s);
    if a >= s.len() {
        assert(t == s.subrange(s.len() as int, s.len() as int));
    } else {
        let b = s.len() - trail_ws(s);
        if b <= a {
            assert(!char_is_whitespace(s[a]));
            assert(false);
        }
        assert(t == s.subrange(a, b));
        assert(t[0] == s[a]);
        assert(t.last() == s[b - 1]);
    }
}

/// The other string methods give what std gives: `upper` and `lower` its case
/// mappings, `replace(a, b)` every match of `a` replaced by `b`, `split(sep)`
/// one string per part (split at spaces when no separator is given), and
/// `encode`/`decode` the string unchanged.
pub proof fn law_string_methods(s: Seq<char>, a: Seq<char>, b: Seq<char>)
    ensures
        method_spec(Val::Str(s), "upper"@, seq![]) == Ok::<Val, Seq<char>>(Val::Str(str_upper(s))),
        method_spec(Val::Str(s), "lower"@, seq![]) == Ok::<Val, Seq<char>>(Val::Str(str_lower(s))),
        method_spec(Val::Str(s), "replace"@, seq![Val::Str(a), Val::Str(b)]) == Ok::<Val, Seq<char>>(
            Val::Str(str_replace(s, a, b)),
        ),
        method_spec(Val::Str(s), "split"@, seq![Val::Str(a)]) matches Ok(Val::List(ps)) && ps.len() == str_split(
            s,
            a,
        ).len() && (forall|i: int| 0 <= i < ps.len() ==> #[trigger] ps[i] == Val::Str(str_split(s, a)[i])),
        method_spec(Val::Str(s), "split"@, seq![]) matches Ok(Val::List(ps)) && ps.len() == str_split(
            s,
            " "@,
        ).len() && (forall|i: int| 0 <= i < ps.len() ==> #[trigger] ps[i] == Val::Str(str_split(s, " "@)[i])),
        method_spec(Val::Str(s), "encode"@, seq![]) == Ok::<Val, Seq<char>>(Val::Str(s)),
        method_spec(Val::Str(s), "decode"@, seq![]) == Ok::<Val, Seq<char>>(Val::Str(s)),
{
    reveal_strlit("strip");
    reveal_strlit("upper");
    reveal_strlit("lower");
    reveal_strlit("isdigit");
    reveal_strlit("startswith");
    reveal_strlit("endswith");
    reveal_strlit("replace");
    reveal_strlit("split");
    reveal_strlit("encode");
    reveal_strlit("decode");
    assert("strip"@[0] != "upper"@[0]);
    assert("strip"@[0] != "lower"@[0]);
    assert("strip"@.len() != "isdigit"@.len());
    assert("strip"@.len() != "startswith"@.len());
    assert("strip"@.len() != "endswith"@.len());
    assert("strip"@.len() != "replace"@.len());
    assert("strip"@[1] != "split"@[1]);
    assert("strip"@.len() != "encode"@.len());
    assert("strip"@.len() != "decode"@.len());
    assert("upper"@[0] != "lower"@[0]);
    assert("upper"@.len() != "isdigit"@.len());
    assert("upper"@.len() != "startswith"@.len());
    assert("upper"@.len() != "endswith"@.len());
    assert("upper"@.len() != "replace"@.len());
    assert("upper"@[0] != "split"@[0]);
    assert("upper"@.len() != "encode"@.len());
    assert("upper"@.len() != "decode"@.len());
    assert("lower"@.len() != "isdigit"@.len());
    assert("lower"@.len() != "startswith"@.len());
    assert("lower"@.len() != "endswith"@.len());
    assert("lower"@.len() != "replace"@.len());
    assert("lower"@[0] != "split"@[0]);
    assert("lower"@.len() != "encode"@.len());
    assert("lower"@.len() != "decode"@.len());
    assert("isdigit"@.len() != "startswith"@.len());
    assert("isdigit"@.len() != "endswith"@.len());
    assert("isdigit"@[0] != "replace"@[0]);
    assert("isdigit"@.len() != "split"@.len());
    assert("isdigit"@.len() != "encode"@.len());
    assert("isdigit"@.len() != "decode"@.len());
    assert("startswith"@.len() != "endswith"@.len());
    assert("startswith"@.len() != "replace"@.len());
    assert("startswith"@.len() != "split"@.len());
    assert("startswith"@.len() != "encode"@.len());
    assert("startswith"@.len() != "decode"@.len());
    assert("endswith"@.len() != "replace"@.len());
    assert("endswith"@.len() != "split"@.len());
    assert("endswith"@.len() != "encode"@.len());
    assert("endswith"@.len() != "decode"@.len());
    assert("replace"@.len() != "split"@.len());
    assert("replace"@.len() != "encode"@.len());
    assert("replace"@.len() != "decode"@.len());
    assert("split"@.len() != "encode"@.len());
    assert("split"@.len() != "decode"@.len());
    assert("encode"@[0] != "decode"@[0]);
}

/// Item assignment: on a list, position `i` (from the end when negative)
/// takes the value and every other element stays; out of range the list is
/// unchanged. On a dictionary the key then reads back the value and every
/// other key reads as before.
pub proof fn law_item_assignment(xs: Seq<Val>, i: int, v: Val, ps: Seq<(Seq<char>, Val)>, k: Seq<char>, other: Seq<char>)
    ensures
        0 <= i < xs.len() ==> (with_item(Val::List(xs), Val::Int(i), v) matches Val::List(ys) && ys.len()
            == xs.len() && ys[i] == v && (forall|j: int| 0 <= j < xs.len() && j != i ==> #[trigger] ys[j] == xs[j])),
        -xs.len() <= i < 0 ==> (with_item(Val::List(xs), Val::Int(i), v) matches Val::List(ys) && ys.len()
            == xs.len() && ys[xs.len() + i] == v),
        (i >= xs.len() || i < -xs.len()) ==> with_item(Val::List(xs), Val::Int(i), v) == Val::List(xs),
        with_item(Val::Dict(ps), Val::Str(k), v) matches Val::Dict(qs) && item_of(Val::Dict(qs), Val::Str(k)) == Some(v)
            && (other != k ==> item_of(Val::Dict(qs), Val::Str(other)) == item_of(Val::Dict(ps), Val::Str(other))),
{
    law_read_after_write(ps, k, v);
    if other != k {
        law_write_keeps_others(ps, k, v, other);
    }
}

/// `GET_ATTR name` on a dictionary reads the value of the first entry named
/// `name`, and null when no entry has that name.
pub proof fn law_get_attr_on_dict(r: VState, ps: Seq<(Seq<char>, Val)>, attr: Seq<char>, f: int, ip: int)
    ensures
        dict_first(ps, attr, f) ==> get_attr_result(r, Val::Dict(ps), attr, ip) == done(pushed(r, ps[f].1), ip),
        (forall|j: int| 0 <= j < ps.len() ==> ps[j].0 != attr) ==> get_attr_result(r, Val::Dict(ps), attr, ip)
            == done(pushed(r, Val::Null), ip),
{
    if dict_first(ps, attr, f) {
        lemma_dict_pos(ps, attr);
        lemma_dict_first_unique(ps, attr, f, dict_pos(ps, attr));
    }
}

} // verus!
