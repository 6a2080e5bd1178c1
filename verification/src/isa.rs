//! The AVAP instruction set: each opcode's name, operand count and handler,
//! and the dispatch of an instruction to its handler.
use vstd::prelude::*;

use crate::bytecode::operand;
use crate::calls::{
    build_dict_step, build_list_step, call_func_fits, call_func_step, call_method_step,
};
use crate::exec::{step_of, Effect, Step};
use crate::flow::{
    bool_and_step, bool_or_step, call_ext_step, for_iter_step, get_iter_step, import_mod_step,
    in_step, is_instance_step, is_none_step, is_not_step, is_step, jmp_if_not_pop_step,
    jmp_if_not_step, jmp_if_pop_step, jmp_if_step, jmp_step, load_builtin_step,
    load_conector_step, load_task_step, not_in_step, pop_try_step, push_try_step, raise_step,
    return_step, type_of_step,
};
use crate::handlers::{
    add_step, div_step, dup_step, eq_step, gt_step, gte_step,
    load_none_step, load_step, lt_step, lte_step, mod_step, mul_step,
    neg_step, neq_step, nop_step, not_step, pop_step, push_step, store_step, sub_step,
};
use crate::objects::{delete_item_step, get_attr_step, get_item_step, set_attr_step, set_item_step};
use crate::op;
use crate::state::{VMState, VState};
use crate::value::Value;

verus! {

/// The name of the instruction set.
pub const NAME: &'static str = "AVAP-ISA";

/// The version of the instruction set.
pub const VERSION_MAJOR: u8 = 0;
pub const VERSION_MINOR: u8 = 1;
pub const VERSION_PATCH: u8 = 0;

/// An instruction's handler.
#[derive(Debug, Clone, Copy, PartialEq, Eq)]
pub enum Handler {
    Nop,
    Push,
    Pop,
    Dup,
    LoadNone,
    Load,
    Store,
    Add,
    Sub,
    Mul,
    Div,
    Mod,
    Neg,
    Not,
    Eq,
    Neq,
    Lt,
    Gt,
    Lte,
    Gte,
    In,
    NotIn,
    Is,
    IsNot,
    BoolAnd,
    BoolOr,
    Jmp,
    JmpIf,
    JmpIfNot,
    JmpIfPop,
    JmpIfNotPop,
    PushTry,
    PopTry,
    Raise,
    Return,
    GetIter,
    ForIter,
    GetAttr,
    SetAttr,
    GetItem,
    SetItem,
    DeleteItem,
    BuildList,
    BuildDict,
    BuildTuple,
    CallExt,
    CallFunc,
    CallMethod,
    LoadConector,
    LoadTask,
    LoadBuiltin,
    ImportMod,
    IsInstance,
    IsNone,
    TypeOf,
}

/// An instruction's description: its opcode, mnemonic, number of `u32`
/// operands and handler.
#[derive(Debug, Clone, Copy, PartialEq, Eq)]
pub struct InstructionMeta {
    pub opcode: u8,
    pub name: &'static str,
    pub n_u32_args: u8,
    pub handler: Handler,
}

/// The handler registered for an opcode, if any.
pub open spec fn handler_of(opcode: u8) -> Option<Handler> {
    if opcode == op::NOP {
        Some(Handler::Nop)
    }     else if opcode == op::PUSH {
        Some(Handler::Push)
    }     else if opcode == op::POP {
        Some(Handler::Pop)
    }     else if opcode == op::DUP {
        Some(Handler::Dup)
    }     else if opcode == op::LOAD_NONE {
        Some(Handler::LoadNone)
    }     else if opcode == op::LOAD {
        Some(Handler::Load)
    }     else if opcode == op::STORE {
        Some(Handler::Store)
    }     else if opcode == op::ADD {
        Some(Handler::Add)
    }     else if opcode == op::SUB {
        Some(Handler::Sub)
    }     else if opcode == op::MUL {
        Some(Handler::Mul)
    }     else if opcode == op::DIV {
        Some(Handler::Div)
    }     else if opcode == op::MOD {
        Some(Handler::Mod)
    }     else if opcode == op::NEG {
        Some(Handler::Neg)
    }     else if opcode == op::NOT {
        Some(Handler::Not)
    }     else if opcode == op::EQ {
        Some(Handler::Eq)
    }     else if opcode == op::NEQ {
        Some(Handler::Neq)
    }     else if opcode == op::LT {
        Some(Handler::Lt)
    }     else if opcode == op::GT {
        Some(Handler::Gt)
    }     else if opcode == op::LTE {
        Some(Handler::Lte)
    }     else if opcode == op::GTE {
        Some(Handler::Gte)
    }     else if opcode == op::IN {
        Some(Handler::In)
    }     else if opcode == op::NOT_IN {
        Some(Handler::NotIn)
    }     else if opcode == op::IS {
        Some(Handler::Is)
    }     else if opcode == op::IS_NOT {
        Some(Handler::IsNot)
    }     else if opcode == op::BOOL_AND {
        Some(Handler::BoolAnd)
    }     else if opcode == op::BOOL_OR {
        Some(Handler::BoolOr)
    }     else if opcode == op::JMP {
        Some(Handler::Jmp)
    }     else if opcode == op::JMP_IF {
        Some(Handler::JmpIf)
    }     else if opcode == op::JMP_IF_NOT {
        Some(Handler::JmpIfNot)
    }     else if opcode == op::JMP_IF_POP {
        Some(Handler::JmpIfPop)
    }     else if opcode == op::JMP_IF_NOT_POP {
        Some(Handler::JmpIfNotPop)
    }     else if opcode == op::PUSH_TRY {
        Some(Handler::PushTry)
    }     else if opcode == op::POP_TRY {
        Some(Handler::PopTry)
    }     else if opcode == op::RAISE {
        Some(Handler::Raise)
    }     else if opcode == op::RETURN {
        Some(Handler::Return)
    }     else if opcode == op::GET_ITER {
        Some(Handler::GetIter)
    }     else if opcode == op::FOR_ITER {
        Some(Handler::ForIter)
    }     else if opcode == op::GET_ATTR {
        Some(Handler::GetAttr)
    }     else if opcode == op::SET_ATTR {
        Some(Handler::SetAttr)
    }     else if opcode == op::GET_ITEM {
        Some(Handler::GetItem)
    }     else if opcode == op::SET_ITEM {
        Some(Handler::SetItem)
    }     else if opcode == op::DELETE_ITEM {
        Some(Handler::DeleteItem)
    }     else if opcode == op::BUILD_LIST {
        Some(Handler::BuildList)
    }     else if opcode == op::BUILD_DICT {
        Some(Handler::BuildDict)
    }     else if opcode == op::BUILD_TUPLE {
        Some(Handler::BuildTuple)
    }     else if opcode == op::CALL_EXT {
        Some(Handler::CallExt)
    }     else if opcode == op::CALL_FUNC {
        Some(Handler::CallFunc)
    }     else if opcode == op::CALL_METHOD {
        Some(Handler::CallMethod)
    }     else if opcode == op::LOAD_CONECTOR {
        Some(Handler::LoadConector)
    }     else if opcode == op::LOAD_TASK {
        Some(Handler::LoadTask)
    }     else if opcode == op::LOAD_BUILTIN {
        Some(Handler::LoadBuiltin)
    }     else if opcode == op::IMPORT_MOD {
        Some(Handler::ImportMod)
    }     else if opcode == op::IS_INSTANCE {
        Some(Handler::IsInstance)
    }     else if opcode == op::IS_NONE {
        Some(Handler::IsNone)
    }     else if opcode == op::TYPE_OF {
        Some(Handler::TypeOf)
    } else {
        None
    }
}

/// The opcode of a handler's instruction.
pub open spec fn opcode_of(h: Handler) -> u8 {
    match h {
        Handler::Nop => op::NOP,
        Handler::Push => op::PUSH,
        Handler::Pop => op::POP,
        Handler::Dup => op::DUP,
        Handler::LoadNone => op::LOAD_NONE,
        Handler::Load => op::LOAD,
        Handler::Store => op::STORE,
        Handler::Add => op::ADD,
        Handler::Sub => op::SUB,
        Handler::Mul => op::MUL,
        Handler::Div => op::DIV,
        Handler::Mod => op::MOD,
        Handler::Neg => op::NEG,
        Handler::Not => op::NOT,
        Handler::Eq => op::EQ,
        Handler::Neq => op::NEQ,
        Handler::Lt => op::LT,
        Handler::Gt => op::GT,
        Handler::Lte => op::LTE,
        Handler::Gte => op::GTE,
        Handler::In => op::IN,
        Handler::NotIn => op::NOT_IN,
        Handler::Is => op::IS,
        Handler::IsNot => op::IS_NOT,
        Handler::BoolAnd => op::BOOL_AND,
        Handler::BoolOr => op::BOOL_OR,
        Handler::Jmp => op::JMP,
        Handler::JmpIf => op::JMP_IF,
        Handler::JmpIfNot => op::JMP_IF_NOT,
        Handler::JmpIfPop => op::JMP_IF_POP,
        Handler::JmpIfNotPop => op::JMP_IF_NOT_POP,
        Handler::PushTry => op::PUSH_TRY,
        Handler::PopTry => op::POP_TRY,
        Handler::Raise => op::RAISE,
        Handler::Return => op::RETURN,
        Handler::GetIter => op::GET_ITER,
        Handler::ForIter => op::FOR_ITER,
        Handler::GetAttr => op::GET_ATTR,
        Handler::SetAttr => op::SET_ATTR,
        Handler::GetItem => op::GET_ITEM,
        Handler::SetItem => op::SET_ITEM,
        Handler::DeleteItem => op::DELETE_ITEM,
        Handler::BuildList => op::BUILD_LIST,
        Handler::BuildDict => op::BUILD_DICT,
        Handler::BuildTuple => op::BUILD_TUPLE,
        Handler::CallExt => op::CALL_EXT,
        Handler::CallFunc => op::CALL_FUNC,
        Handler::CallMethod => op::CALL_METHOD,
        Handler::LoadConector => op::LOAD_CONECTOR,
        Handler::LoadTask => op::LOAD_TASK,
        Handler::LoadBuiltin => op::LOAD_BUILTIN,
        Handler::ImportMod => op::IMPORT_MOD,
        Handler::IsInstance => op::IS_INSTANCE,
        Handler::IsNone => op::IS_NONE,
        Handler::TypeOf => op::TYPE_OF,
    }
}

/// The mnemonic of a handler's instruction.
pub open spec fn mnemonic_of(h: Handler) -> Seq<char> {
    match h {
        Handler::Nop => "NOP"@,
        Handler::Push => "PUSH"@,
        Handler::Pop => "POP"@,
        Handler::Dup => "DUP"@,
        Handler::LoadNone => "LOAD_NONE"@,
        Handler::Load => "LOAD"@,
        Handler::Store => "STORE"@,
        Handler::Add => "ADD"@,
        Handler::Sub => "SUB"@,
        Handler::Mul => "MUL"@,
        Handler::Div => "DIV"@,
        Handler::Mod => "MOD"@,
        Handler::Neg => "NEG"@,
        Handler::Not => "NOT"@,
        Handler::Eq => "EQ"@,
        Handler::Neq => "NEQ"@,
        Handler::Lt => "LT"@,
        Handler::Gt => "GT"@,
        Handler::Lte => "LTE"@,
        Handler::Gte => "GTE"@,
        Handler::In => "IN"@,
        Handler::NotIn => "NOT_IN"@,
        Handler::Is => "IS"@,
        Handler::IsNot => "IS_NOT"@,
        Handler::BoolAnd => "BOOL_AND"@,
        Handler::BoolOr => "BOOL_OR"@,
        Handler::Jmp => "JMP"@,
        Handler::JmpIf => "JMP_IF"@,
        Handler::JmpIfNot => "JMP_IF_NOT"@,
        Handler::JmpIfPop => "JMP_IF_POP"@,
        Handler::JmpIfNotPop => "JMP_IF_NOT_POP"@,
        Handler::PushTry => "PUSH_TRY"@,
        Handler::PopTry => "POP_TRY"@,
        Handler::Raise => "RAISE"@,
        Handler::Return => "RETURN"@,
        Handler::GetIter => "GET_ITER"@,
        Handler::ForIter => "FOR_ITER"@,
        Handler::GetAttr => "GET_ATTR"@,
        Handler::SetAttr => "SET_ATTR"@,
        Handler::GetItem => "GET_ITEM"@,
        Handler::SetItem => "SET_ITEM"@,
        Handler::DeleteItem => "DELETE_ITEM"@,
        Handler::BuildList => "BUILD_LIST"@,
        Handler::BuildDict => "BUILD_DICT"@,
        Handler::BuildTuple => "BUILD_TUPLE"@,
        Handler::CallExt => "CALL_EXT"@,
        Handler::CallFunc => "CALL_FUNC"@,
        Handler::CallMethod => "CALL_METHOD"@,
        Handler::LoadConector => "LOAD_CONECTOR"@,
        Handler::LoadTask => "LOAD_TASK"@,
        Handler::LoadBuiltin => "LOAD_BUILTIN"@,
        Handler::ImportMod => "IMPORT_MOD"@,
        Handler::IsInstance => "IS_INSTANCE"@,
        Handler::IsNone => "IS_NONE"@,
        Handler::TypeOf => "TYPE_OF"@,
    }
}

/// The number of `u32` operands of a handler's instruction.
pub open spec fn arg_count_of(h: Handler) -> u8 {
    match h {
        Handler::Nop => 0,
        Handler::Push => 1,
        Handler::Pop => 0,
        Handler::Dup => 0,
        Handler::LoadNone => 0,
        Handler::Load => 1,
        Handler::Store => 1,
        Handler::Add => 0,
        Handler::Sub => 0,
        Handler::Mul => 0,
        Handler::Div => 0,
        Handler::Mod => 0,
        Handler::Neg => 0,
        Handler::Not => 0,
        Handler::Eq => 0,
        Handler::Neq => 0,
        Handler::Lt => 0,
        Handler::Gt => 0,
        Handler::Lte => 0,
        Handler::Gte => 0,
        Handler::In => 0,
        Handler::NotIn => 0,
        Handler::Is => 0,
        Handler::IsNot => 0,
        Handler::BoolAnd => 0,
        Handler::BoolOr => 0,
        Handler::Jmp => 1,
        Handler::JmpIf => 1,
        Handler::JmpIfNot => 1,
        Handler::JmpIfPop => 1,
        Handler::JmpIfNotPop => 1,
        Handler::PushTry => 1,
        Handler::PopTry => 0,
        Handler::Raise => 0,
        Handler::Return => 0,
        Handler::GetIter => 0,
        Handler::ForIter => 1,
        Handler::GetAttr => 1,
        Handler::SetAttr => 1,
        Handler::GetItem => 0,
        Handler::SetItem => 0,
        Handler::DeleteItem => 0,
        Handler::BuildList => 1,
        Handler::BuildDict => 1,
        Handler::BuildTuple => 1,
        Handler::CallExt => 1,
        Handler::CallFunc => 1,
        Handler::CallMethod => 2,
        Handler::LoadConector => 0,
        Handler::LoadTask => 0,
        Handler::LoadBuiltin => 1,
        Handler::ImportMod => 1,
        Handler::IsInstance => 0,
        Handler::IsNone => 0,
        Handler::TypeOf => 0,
    }
}

/// The description of a handler's instruction.
pub open spec fn meta_fits(m: InstructionMeta) -> bool {
    &&& m.opcode == opcode_of(m.handler)
    &&& m.name@ == mnemonic_of(m.handler)
    &&& m.n_u32_args == arg_count_of(m.handler)
}

/// The description of the instruction with this opcode, if one is registered.
pub fn lookup(opcode: u8) -> (r: Option<InstructionMeta>)
    ensures
        match r {
            Some(m) => handler_of(opcode) == Some(m.handler) && m.opcode == opcode && meta_fits(m),
            None => handler_of(opcode) is None,
        },
{
    if opcode == op::NOP {
        Some(InstructionMeta { opcode, name: "NOP", n_u32_args: 0, handler: Handler::Nop })
    }     else if opcode == op::PUSH {
        Some(InstructionMeta { opcode, name: "PUSH", n_u32_args: 1, handler: Handler::Push })
    }     else if opcode == op::POP {
        Some(InstructionMeta { opcode, name: "POP", n_u32_args: 0, handler: Handler::Pop })
    }     else if opcode == op::DUP {
        Some(InstructionMeta { opcode, name: "DUP", n_u32_args: 0, handler: Handler::Dup })
    }     else if opcode == op::LOAD_NONE {
        Some(InstructionMeta { opcode, name: "LOAD_NONE", n_u32_args: 0, handler: Handler::LoadNone })
    }     else if opcode == op::LOAD {
        Some(InstructionMeta { opcode, name: "LOAD", n_u32_args: 1, handler: Handler::Load })
    }     else if opcode == op::STORE {
        Some(InstructionMeta { opcode, name: "STORE", n_u32_args: 1, handler: Handler::Store })
    }     else if opcode == op::ADD {
        Some(InstructionMeta { opcode, name: "ADD", n_u32_args: 0, handler: Handler::Add })
    }     else if opcode == op::SUB {
        Some(InstructionMeta { opcode, name: "SUB", n_u32_args: 0, handler: Handler::Sub })
    }     else if opcode == op::MUL {
        Some(InstructionMeta { opcode, name: "MUL", n_u32_args: 0, handler: Handler::Mul })
    }     else if opcode == op::DIV {
        Some(InstructionMeta { opcode, name: "DIV", n_u32_args: 0, handler: Handler::Div })
    }     else if opcode == op::MOD {
        Some(InstructionMeta { opcode, name: "MOD", n_u32_args: 0, handler: Handler::Mod })
    }     else if opcode == op::NEG {
        Some(InstructionMeta { opcode, name: "NEG", n_u32_args: 0, handler: Handler::Neg })
    }     else if opcode == op::NOT {
        Some(InstructionMeta { opcode, name: "NOT", n_u32_args: 0, handler: Handler::Not })
    }     else if opcode == op::EQ {
        Some(InstructionMeta { opcode, name: "EQ", n_u32_args: 0, handler: Handler::Eq })
    }     else if opcode == op::NEQ {
        Some(InstructionMeta { opcode, name: "NEQ", n_u32_args: 0, handler: Handler::Neq })
    }     else if opcode == op::LT {
        Some(InstructionMeta { opcode, name: "LT", n_u32_args: 0, handler: Handler::Lt })
    }     else if opcode == op::GT {
        Some(InstructionMeta { opcode, name: "GT", n_u32_args: 0, handler: Handler::Gt })
    }     else if opcode == op::LTE {
        Some(InstructionMeta { opcode, name: "LTE", n_u32_args: 0, handler: Handler::Lte })
    }     else if opcode == op::GTE {
        Some(InstructionMeta { opcode, name: "GTE", n_u32_args: 0, handler: Handler::Gte })
    }     else if opcode == op::IN {
        Some(InstructionMeta { opcode, name: "IN", n_u32_args: 0, handler: Handler::In })
    }     else if opcode == op::NOT_IN {
        Some(InstructionMeta { opcode, name: "NOT_IN", n_u32_args: 0, handler: Handler::NotIn })
    }     else if opcode == op::IS {
        Some(InstructionMeta { opcode, name: "IS", n_u32_args: 0, handler: Handler::Is })
    }     else if opcode == op::IS_NOT {
        Some(InstructionMeta { opcode, name: "IS_NOT", n_u32_args: 0, handler: Handler::IsNot })
    }     else if opcode == op::BOOL_AND {
        Some(InstructionMeta { opcode, name: "BOOL_AND", n_u32_args: 0, handler: Handler::BoolAnd })
    }     else if opcode == op::BOOL_OR {
        Some(InstructionMeta { opcode, name: "BOOL_OR", n_u32_args: 0, handler: Handler::BoolOr })
    }     else if opcode == op::JMP {
        Some(InstructionMeta { opcode, name: "JMP", n_u32_args: 1, handler: Handler::Jmp })
    }     else if opcode == op::JMP_IF {
        Some(InstructionMeta { opcode, name: "JMP_IF", n_u32_args: 1, handler: Handler::JmpIf })
    }     else if opcode == op::JMP_IF_NOT {
        Some(InstructionMeta { opcode, name: "JMP_IF_NOT", n_u32_args: 1, handler: Handler::JmpIfNot })
    }     else if opcode == op::JMP_IF_POP {
        Some(InstructionMeta { opcode, name: "JMP_IF_POP", n_u32_args: 1, handler: Handler::JmpIfPop })
    }     else if opcode == op::JMP_IF_NOT_POP {
        Some(InstructionMeta { opcode, name: "JMP_IF_NOT_POP", n_u32_args: 1, handler: Handler::JmpIfNotPop })
    }     else if opcode == op::PUSH_TRY {
        Some(InstructionMeta { opcode, name: "PUSH_TRY", n_u32_args: 1, handler: Handler::PushTry })
    }     else if opcode == op::POP_TRY {
        Some(InstructionMeta { opcode, name: "POP_TRY", n_u32_args: 0, handler: Handler::PopTry })
    }     else if opcode == op::RAISE {
        Some(InstructionMeta { opcode, name: "RAISE", n_u32_args: 0, handler: Handler::Raise })
    }     else if opcode == op::RETURN {
        Some(InstructionMeta { opcode, name: "RETURN", n_u32_args: 0, handler: Handler::Return })
    }     else if opcode == op::GET_ITER {
        Some(InstructionMeta { opcode, name: "GET_ITER", n_u32_args: 0, handler: Handler::GetIter })
    }     else if opcode == op::FOR_ITER {
        Some(InstructionMeta { opcode, name: "FOR_ITER", n_u32_args: 1, handler: Handler::ForIter })
    }     else if opcode == op::GET_ATTR {
        Some(InstructionMeta { opcode, name: "GET_ATTR", n_u32_args: 1, handler: Handler::GetAttr })
    }     else if opcode == op::SET_ATTR {
        Some(InstructionMeta { opcode, name: "SET_ATTR", n_u32_args: 1, handler: Handler::SetAttr })
    }     else if opcode == op::GET_ITEM {
        Some(InstructionMeta { opcode, name: "GET_ITEM", n_u32_args: 0, handler: Handler::GetItem })
    }     else if opcode == op::SET_ITEM {
        Some(InstructionMeta { opcode, name: "SET_ITEM", n_u32_args: 0, handler: Handler::SetItem })
    }     else if opcode == op::DELETE_ITEM {
        Some(InstructionMeta { opcode, name: "DELETE_ITEM", n_u32_args: 0, handler: Handler::DeleteItem })
    }     else if opcode == op::BUILD_LIST {
        Some(InstructionMeta { opcode, name: "BUILD_LIST", n_u32_args: 1, handler: Handler::BuildList })
    }     else if opcode == op::BUILD_DICT {
        Some(InstructionMeta { opcode, name: "BUILD_DICT", n_u32_args: 1, handler: Handler::BuildDict })
    }     else if opcode == op::BUILD_TUPLE {
        Some(InstructionMeta { opcode, name: "BUILD_TUPLE", n_u32_args: 1, handler: Handler::BuildTuple })
    }     else if opcode == op::CALL_EXT {
        Some(InstructionMeta { opcode, name: "CALL_EXT", n_u32_args: 1, handler: Handler::CallExt })
    }     else if opcode == op::CALL_FUNC {
        Some(InstructionMeta { opcode, name: "CALL_FUNC", n_u32_args: 1, handler: Handler::CallFunc })
    }     else if opcode == op::CALL_METHOD {
        Some(InstructionMeta { opcode, name: "CALL_METHOD", n_u32_args: 2, handler: Handler::CallMethod })
    }     else if opcode == op::LOAD_CONECTOR {
        Some(InstructionMeta { opcode, name: "LOAD_CONECTOR", n_u32_args: 0, handler: Handler::LoadConector })
    }     else if opcode == op::LOAD_TASK {
        Some(InstructionMeta { opcode, name: "LOAD_TASK", n_u32_args: 0, handler: Handler::LoadTask })
    }     else if opcode == op::LOAD_BUILTIN {
        Some(InstructionMeta { opcode, name: "LOAD_BUILTIN", n_u32_args: 1, handler: Handler::LoadBuiltin })
    }     else if opcode == op::IMPORT_MOD {
        Some(InstructionMeta { opcode, name: "IMPORT_MOD", n_u32_args: 1, handler: Handler::ImportMod })
    }     else if opcode == op::IS_INSTANCE {
        Some(InstructionMeta { opcode, name: "IS_INSTANCE", n_u32_args: 0, handler: Handler::IsInstance })
    }     else if opcode == op::IS_NONE {
        Some(InstructionMeta { opcode, name: "IS_NONE", n_u32_args: 0, handler: Handler::IsNone })
    }     else if opcode == op::TYPE_OF {
        Some(InstructionMeta { opcode, name: "TYPE_OF", n_u32_args: 0, handler: Handler::TypeOf })
    } else {
        None
    }
}

/// The handlers of the instruction set, in opcode order.
pub open spec fn all_handlers() -> Seq<Handler> {
    seq![
        Handler::Nop,
        Handler::Push,
        Handler::Pop,
        Handler::Dup,
        Handler::LoadNone,
        Handler::Load,
        Handler::Store,
        Handler::Add,
        Handler::Sub,
        Handler::Mul,
        Handler::Div,
        Handler::Mod,
        Handler::Neg,
        Handler::Not,
        Handler::Eq,
        Handler::Neq,
        Handler::Lt,
        Handler::Gt,
        Handler::Lte,
        Handler::Gte,
        Handler::In,
        Handler::NotIn,
        Handler::Is,
        Handler::IsNot,
        Handler::BoolAnd,
        Handler::BoolOr,
        Handler::Jmp,
        Handler::JmpIf,
        Handler::JmpIfNot,
        Handler::JmpIfPop,
        Handler::JmpIfNotPop,
        Handler::PushTry,
        Handler::PopTry,
        Handler::Raise,
        Handler::Return,
        Handler::GetIter,
        Handler::ForIter,
        Handler::GetAttr,
        Handler::SetAttr,
        Handler::GetItem,
        Handler::SetItem,
        Handler::DeleteItem,
        Handler::BuildList,
        Handler::BuildDict,
        Handler::BuildTuple,
        Handler::CallExt,
        Handler::CallFunc,
        Handler::CallMethod,
        Handler::LoadConector,
        Handler::LoadTask,
        Handler::LoadBuiltin,
        Handler::ImportMod,
        Handler::IsInstance,
        Handler::IsNone,
        Handler::TypeOf,
    ]
}

/// The effect of executing the instruction of handler `h` with the
/// instruction pointer just past its opcode.
pub open spec fn step_spec(h: Handler, s: VState, code: Seq<u8>, ip: int) -> Step {
    match h {
        Handler::Nop => nop_step(s, ip),
        Handler::Push => push_step(s, code, ip),
        Handler::Pop => pop_step(s, ip),
        Handler::Dup => dup_step(s, ip),
        Handler::LoadNone => load_none_step(s, ip),
        Handler::Load => load_step(s, code, ip),
        Handler::Store => store_step(s, code, ip),
        Handler::Add => add_step(s, ip),
        Handler::Sub => sub_step(s, ip),
        Handler::Mul => mul_step(s, ip),
        Handler::Div => div_step(s, ip),
        Handler::Mod => mod_step(s, ip),
        Handler::Neg => neg_step(s, ip),
        Handler::Not => not_step(s, ip),
        Handler::Eq => eq_step(s, ip),
        Handler::Neq => neq_step(s, ip),
        Handler::Lt => lt_step(s, ip),
        Handler::Gt => gt_step(s, ip),
        Handler::Lte => lte_step(s, ip),
        Handler::Gte => gte_step(s, ip),
        Handler::In => in_step(s, ip),
        Handler::NotIn => not_in_step(s, ip),
        Handler::Is => is_step(s, ip),
        Handler::IsNot => is_not_step(s, ip),
        Handler::BoolAnd => bool_and_step(s, ip),
        Handler::BoolOr => bool_or_step(s, ip),
        Handler::Jmp => jmp_step(s, code, ip),
        Handler::JmpIf => jmp_if_step(s, code, ip),
        Handler::JmpIfNot => jmp_if_not_step(s, code, ip),
        Handler::JmpIfPop => jmp_if_pop_step(s, code, ip),
        Handler::JmpIfNotPop => jmp_if_not_pop_step(s, code, ip),
        Handler::PushTry => push_try_step(s, code, ip),
        Handler::PopTry => pop_try_step(s, ip),
        Handler::Raise => raise_step(s, ip),
        Handler::Return => return_step(s, ip),
        Handler::GetIter => get_iter_step(s, ip),
        Handler::ForIter => for_iter_step(s, code, ip),
        Handler::GetAttr => get_attr_step(s, code, ip),
        Handler::SetAttr => set_attr_step(s, code, ip),
        Handler::GetItem => get_item_step(s, ip),
        Handler::SetItem => set_item_step(s, ip),
        Handler::DeleteItem => delete_item_step(s, ip),
        Handler::BuildList => build_list_step(s, code, ip),
        Handler::BuildDict => build_dict_step(s, code, ip),
        Handler::BuildTuple => build_list_step(s, code, ip),
        Handler::CallExt => call_ext_step(s, code, ip),
        Handler::CallFunc => call_func_step(s, code, ip),
        Handler::CallMethod => call_method_step(s, code, ip),
        Handler::LoadConector => load_conector_step(s, ip),
        Handler::LoadTask => load_task_step(s, ip),
        Handler::LoadBuiltin => load_builtin_step(s, code, ip),
        Handler::ImportMod => import_mod_step(s, code, ip),
        Handler::IsInstance => is_instance_step(s, ip),
        Handler::IsNone => is_none_step(s, ip),
        Handler::TypeOf => type_of_step(s, ip),
    }
}

/// The instruction may run: the builtin it calls does not fault.
pub open spec fn step_allowed(h: Handler, s: VState, code: Seq<u8>, ip: int) -> bool {
    match h {
        Handler::CallFunc => call_func_fits(s, code, ip),
        _ => true,
    }
}

/// Executes the instruction of handler `h` (see `step_spec`).
pub fn execute(h: Handler, s: &mut VMState, code: &[u8], ip: &mut usize) -> (r: Result<Effect, String>)
    requires
        step_allowed(h, old(s)@, code@, *old(ip) as int),
    ensures
        step_of(final(s)@, *final(ip) as int, r) == step_spec(h, old(s)@, code@, *old(ip) as int),
{
    match h {
        Handler::Nop => crate::handlers::h_nop(s, code, ip),
        Handler::Push => crate::handlers::h_push(s, code, ip),
        Handler::Pop => crate::handlers::h_pop(s, code, ip),
        Handler::Dup => crate::handlers::h_dup(s, code, ip),
        Handler::LoadNone => crate::handlers::h_load_none(s, code, ip),
        Handler::Load => crate::handlers::h_load(s, code, ip),
        Handler::Store => crate::handlers::h_store(s, code, ip),
        Handler::Add => crate::handlers::h_add(s, code, ip),
        Handler::Sub => crate::handlers::h_sub(s, code, ip),
        Handler::Mul => crate::handlers::h_mul(s, code, ip),
        Handler::Div => crate::handlers::h_div(s, code, ip),
        Handler::Mod => crate::handlers::h_mod(s, code, ip),
        Handler::Neg => crate::handlers::h_neg(s, code, ip),
        Handler::Not => crate::handlers::h_not(s, code, ip),
        Handler::Eq => crate::handlers::h_eq(s, code, ip),
        Handler::Neq => crate::handlers::h_neq(s, code, ip),
        Handler::Lt => crate::handlers::h_lt(s, code, ip),
        Handler::Gt => crate::handlers::h_gt(s, code, ip),
        Handler::Lte => crate::handlers::h_lte(s, code, ip),
        Handler::Gte => crate::handlers::h_gte(s, code, ip),
        Handler::In => crate::flow::h_in(s, code, ip),
        Handler::NotIn => crate::flow::h_not_in(s, code, ip),
        Handler::Is => crate::flow::h_is(s, code, ip),
        Handler::IsNot => crate::flow::h_is_not(s, code, ip),
        Handler::BoolAnd => crate::flow::h_bool_and(s, code, ip),
        Handler::BoolOr => crate::flow::h_bool_or(s, code, ip),
        Handler::Jmp => crate::flow::h_jmp(s, code, ip),
        Handler::JmpIf => crate::flow::h_jmp_if(s, code, ip),
        Handler::JmpIfNot => crate::flow::h_jmp_if_not(s, code, ip),
        Handler::JmpIfPop => crate::flow::h_jmp_if_pop(s, code, ip),
        Handler::JmpIfNotPop => crate::flow::h_jmp_if_not_pop(s, code, ip),
        Handler::PushTry => crate::flow::h_push_try(s, code, ip),
        Handler::PopTry => crate::flow::h_pop_try(s, code, ip),
        Handler::Raise => crate::flow::h_raise(s, code, ip),
        Handler::Return => crate::flow::h_return(s, code, ip),
        Handler::GetIter => crate::flow::h_get_iter(s, code, ip),
        Handler::ForIter => crate::flow::h_for_iter(s, code, ip),
        Handler::GetAttr => crate::objects::h_get_attr(s, code, ip),
        Handler::SetAttr => crate::objects::h_set_attr(s, code, ip),
        Handler::GetItem => crate::objects::h_get_item(s, code, ip),
        Handler::SetItem => crate::objects::h_set_item(s, code, ip),
        Handler::DeleteItem => crate::objects::h_delete_item(s, code, ip),
        Handler::BuildList => crate::calls::h_build_list(s, code, ip),
        Handler::BuildDict => crate::calls::h_build_dict(s, code, ip),
        Handler::BuildTuple => crate::calls::h_build_tuple(s, code, ip),
        Handler::CallExt => crate::flow::h_call_ext(s, code, ip),
        Handler::CallFunc => crate::calls::h_call_func(s, code, ip),
        Handler::CallMethod => crate::calls::h_call_method(s, code, ip),
        Handler::LoadConector => crate::flow::h_load_conector(s, code, ip),
        Handler::LoadTask => crate::flow::h_load_task(s, code, ip),
        Handler::LoadBuiltin => crate::flow::h_load_builtin(s, code, ip),
        Handler::ImportMod => crate::flow::h_import_mod(s, code, ip),
        Handler::IsInstance => crate::flow::h_is_instance(s, code, ip),
        Handler::IsNone => crate::flow::h_is_none(s, code, ip),
        Handler::TypeOf => crate::flow::h_type_of(s, code, ip),
    }
}

/// The instruction set: the handler of each registered opcode, and the
/// opcode that halts the machine.
pub struct InstructionSet {
    halt: u8,
}

impl InstructionSet {
    /// The opcode that halts the machine.
    pub closed spec fn halt_opcode(&self) -> u8 {
        self.halt
    }

    /// The description of the instruction with this opcode, if one is registered.
    pub fn get(&self, opcode: u8) -> (r: Option<InstructionMeta>)
        ensures
            match r {
                Some(m) => handler_of(opcode) == Some(m.handler) && m.opcode == opcode && meta_fits(m),
                None => handler_of(opcode) is None,
            },
    {
        lookup(opcode)
    }

    /// Whether the opcode halts the machine.
    pub fn is_halt(&self, opcode: u8) -> (r: bool)
        ensures
            r == (opcode == self.halt_opcode()),
    {
        opcode == self.halt
    }

    /// The number of opcodes the set knows: each registered instruction and
    /// the halting opcode.
    pub fn len(&self) -> (r: usize)
        ensures
            r == all_handlers().len() + 1,
    {
        56
    }
}

/// The AVAP instruction set for the Platon kernel.
pub struct AvapISA {
    isa: InstructionSet,
}

impl AvapISA {
    /// The instruction set with every AVAP instruction registered and `HALT`
    /// as the halting opcode.
    pub fn new() -> (r: AvapISA)
        ensures
            r.instruction_set().halt_opcode() == op::HALT,
    {
        AvapISA { isa: InstructionSet { halt: op::HALT } }
    }

    /// The instruction set's name.
    pub fn name(&self) -> (r: &'static str)
        ensures
            r@ == NAME@,
    {
        NAME
    }

    /// The instruction set's version (major, minor, patch).
    pub fn version(&self) -> (r: (u8, u8, u8))
        ensures
            r == (VERSION_MAJOR, VERSION_MINOR, VERSION_PATCH),
    {
        (VERSION_MAJOR, VERSION_MINOR, VERSION_PATCH)
    }

    /// The registered instructions.
    pub closed spec fn instruction_set_spec(&self) -> &InstructionSet {
        &self.isa
    }

    /// The registered instructions.
    #[verifier::when_used_as_spec(instruction_set_spec)]
    pub fn instruction_set(&self) -> (r: &InstructionSet)
        ensures
            r == self.instruction_set_spec(),
    {
        &self.isa
    }
}

// ---------------------------------------------------------------------------
// Whether an instruction may run
// ---------------------------------------------------------------------------

fn call_func_ok(s: &VMState, code: &[u8], ip: usize) -> (r: bool)
    ensures
        r == call_func_fits(s@, code@, ip as int),
{
    broadcast use crate::value::group_value_views;

    let mut at = ip;
    let n = match crate::bytecode::read_u32(code, &mut at) {
        Ok(v) => v as usize,
        Err(_) => return true,
    };
    let len = s.stack.len();
    if n >= len {
        return true;
    }
    match &s.stack[len - n - 1] {
        Value::Str(name) => {
            if !crate::text::str_is(name, "list") {
                return true;
            }
            if n == 0 {
                return true;
            }
            assert(s@.stack.subrange(len - n, len as int)[0] == s@.stack[len - n]);
            match &s.stack[len - n] {
                Value::Iter(items, idx) => *idx <= items.len(),
                _ => true,
            }
        },
        _ => true,
    }
}

/// Decides `step_allowed`.
pub fn can_step(h: Handler, s: &VMState, code: &[u8], ip: usize) -> (r: bool)
    ensures
        r == step_allowed(h, s@, code@, ip as int),
{
    match h {
        Handler::CallFunc => call_func_ok(s, code, ip),
        _ => true,
    }
}

} // verus!
