//! Opcode values of the AVAP instruction set.
use vstd::prelude::*;

verus! {

pub const NOP: u8 = 0x00;
pub const PUSH: u8 = 0x01;
pub const POP: u8 = 0x02;
pub const DUP: u8 = 0x03;
pub const LOAD_NONE: u8 = 0x04;
pub const ADD: u8 = 0x10;
pub const SUB: u8 = 0x11;
pub const MUL: u8 = 0x12;
pub const DIV: u8 = 0x13;
pub const MOD: u8 = 0x14;
pub const NEG: u8 = 0x15;
pub const NOT: u8 = 0x16;
pub const EQ: u8 = 0x20;
pub const LT: u8 = 0x21;
pub const GT: u8 = 0x22;
pub const LTE: u8 = 0x23;
pub const GTE: u8 = 0x24;
pub const NEQ: u8 = 0x25;
pub const IN: u8 = 0x26;
pub const NOT_IN: u8 = 0x27;
pub const IS: u8 = 0x28;
pub const IS_NOT: u8 = 0x29;
pub const BOOL_AND: u8 = 0x2A;
pub const BOOL_OR: u8 = 0x2B;
pub const JMP: u8 = 0x30;
pub const JMP_IF: u8 = 0x31;
pub const JMP_IF_NOT: u8 = 0x32;
pub const JMP_IF_POP: u8 = 0x33;
pub const JMP_IF_NOT_POP: u8 = 0x34;
pub const PUSH_TRY: u8 = 0x35;
pub const POP_TRY: u8 = 0x36;
pub const RAISE: u8 = 0x37;
pub const RETURN: u8 = 0x38;
pub const GET_ITER: u8 = 0x3A;
pub const FOR_ITER: u8 = 0x3B;
pub const LOAD: u8 = 0x40;
pub const STORE: u8 = 0x41;
pub const GET_ATTR: u8 = 0x50;
pub const SET_ATTR: u8 = 0x51;
pub const GET_ITEM: u8 = 0x52;
pub const SET_ITEM: u8 = 0x53;
pub const DELETE_ITEM: u8 = 0x54;
pub const BUILD_LIST: u8 = 0x55;
pub const BUILD_DICT: u8 = 0x56;
pub const BUILD_TUPLE: u8 = 0x57;
pub const CALL_EXT: u8 = 0x60;
pub const CALL_FUNC: u8 = 0x61;
pub const CALL_METHOD: u8 = 0x62;
pub const LOAD_CONECTOR: u8 = 0x70;
pub const LOAD_TASK: u8 = 0x71;
pub const LOAD_BUILTIN: u8 = 0x72;
pub const IS_INSTANCE: u8 = 0x80;
pub const IS_NONE: u8 = 0x81;
pub const TYPE_OF: u8 = 0x82;
pub const IMPORT_MOD: u8 = 0x90;
pub const HALT: u8 = 0xFF;
} // verus!
