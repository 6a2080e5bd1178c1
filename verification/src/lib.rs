//! The AVAP instruction set for the Platon virtual machine kernel, with its
//! behaviour stated as contracts and proved.

pub mod value;
pub mod text;
pub mod access;
pub mod repr;
pub mod state;
pub mod arith;
pub mod strings;
pub mod builtins;
pub mod bytecode;
pub mod op;
pub mod exec;
pub mod handlers;
pub mod flow;
pub mod objects;
pub mod calls;
pub mod isa;
pub mod laws;
