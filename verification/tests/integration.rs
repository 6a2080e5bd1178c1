// Instruction-level tests: each builds AVBC bytecode and runs it through the
// AVAP instruction set with a small host loop (float work and text with floats
// are done here, as a host does).

use avap_isa::arith::{CmpOp, FloatOp, FloatTask, Num};
use avap_isa::calls::FloatReply;
use avap_isa::exec::Effect;
use avap_isa::isa::{can_step, execute, AvapISA, Handler};
use avap_isa::state::Namespace;
use avap_isa::strings::{lower, replace, split, trim, upper};
use avap_isa::repr::{fill_floats, Piece};
use avap_isa::state::VMState;
use avap_isa::value::Value;

// ─── Bytecode builder ────────────────────────────────────────────────────────

struct BytecodeBuilder {
    constants: Vec<Value>,
    code: Vec<u8>,
}

#[allow(dead_code)]
impl BytecodeBuilder {
    fn new() -> Self {
        Self { constants: vec![], code: vec![] }
    }

    fn const_int(&mut self, v: i64) -> u32 {
        self.constants.push(Value::Int(v));
        (self.constants.len() - 1) as u32
    }
    fn const_float(&mut self, v: f64) -> u32 {
        self.constants.push(Value::Float(v.to_bits()));
        (self.constants.len() - 1) as u32
    }
    fn const_str(&mut self, v: &str) -> u32 {
        self.constants.push(Value::Str(v.to_string()));
        (self.constants.len() - 1) as u32
    }
    fn const_bool(&mut self, v: bool) -> u32 {
        self.constants.push(Value::Bool(v));
        (self.constants.len() - 1) as u32
    }
    fn const_null(&mut self) -> u32 {
        self.constants.push(Value::Null);
        (self.constants.len() - 1) as u32
    }

    fn op(&mut self, opcode: u8) -> &mut Self {
        self.code.push(opcode);
        self
    }
    fn op1(&mut self, opcode: u8, arg: u32) -> &mut Self {
        self.code.push(opcode);
        self.code.extend_from_slice(&arg.to_le_bytes());
        self
    }
    fn op2(&mut self, opcode: u8, a1: u32, a2: u32) -> &mut Self {
        self.code.push(opcode);
        self.code.extend_from_slice(&a1.to_le_bytes());
        self.code.extend_from_slice(&a2.to_le_bytes());
        self
    }

    fn ip(&self) -> u32 {
        self.code.len() as u32
    }

    fn patch(&mut self, patch_offset: usize, target: u32) {
        let bytes = target.to_le_bytes();
        self.code[patch_offset..patch_offset + 4].copy_from_slice(&bytes);
    }

    fn halt(&mut self) -> &mut Self {
        self.code.push(0xFF);
        self
    }

    fn build(&self) -> Vec<u8> {
        let mut pool: Vec<u8> = vec![];
        for c in &self.constants {
            match c {
                Value::Null => pool.push(0x01),
                Value::Int(i) => {
                    pool.push(0x02);
                    pool.extend_from_slice(&i.to_le_bytes());
                }
                Value::Float(f) => {
                    pool.push(0x03);
                    pool.extend_from_slice(&f.to_le_bytes());
                }
                Value::Str(s) => {
                    pool.push(0x04);
                    pool.extend_from_slice(&(s.len() as u32).to_le_bytes());
                    pool.extend_from_slice(s.as_bytes());
                }
                Value::Bool(b) => pool.push(if *b { 0x05 } else { 0x06 }),
                _ => pool.push(0x01),
            }
        }
        let mut header = vec![0u8; 128];
        header[0..4].copy_from_slice(b"AVBC");
        header[4..6].copy_from_slice(&1u16.to_le_bytes());
        header[8..12].copy_from_slice(&(self.code.len() as u32).to_le_bytes());
        header[12..16].copy_from_slice(&(self.constants.len() as u32).to_le_bytes());
        let mut out = header;
        out.extend_from_slice(&pool);
        out.extend_from_slice(&self.code);
        out
    }
}

// ─── Host loop ───────────────────────────────────────────────────────────────

fn num_f64(n: &Num) -> f64 {
    match n {
        Num::Int(i) => *i as f64,
        Num::Float(b) => f64::from_bits(*b),
    }
}

fn float_reply(task: &FloatTask) -> FloatReply {
    match task {
        FloatTask::Arith(op, a, b) => {
            let (x, y) = (num_f64(a), num_f64(b));
            let r = match op {
                FloatOp::Add => x + y,
                FloatOp::Sub => x - y,
                FloatOp::Mul => x * y,
                FloatOp::Div => x / y,
                FloatOp::Rem => x % y,
            };
            FloatReply::Float(r.to_bits())
        }
        FloatTask::Compare(op, a, b) => {
            let (x, y) = (num_f64(a), num_f64(b));
            FloatReply::Bool(match op {
                CmpOp::Lt => x < y,
                CmpOp::Gt => x > y,
                CmpOp::Le => x <= y,
                CmpOp::Ge => x >= y,
            })
        }
        FloatTask::Truncate(b) => FloatReply::Int(f64::from_bits(*b) as i64),
        FloatTask::FromInt(i) => FloatReply::Float((*i as f64).to_bits()),
        FloatTask::Parse(s) => match s.parse::<f64>() {
            Ok(f) => FloatReply::Float(f.to_bits()),
            Err(_) => FloatReply::NotANumber,
        },
    }
}

fn settle(state: &mut VMState, first: Result<Effect, String>) -> Result<(), String> {
    let mut r = first;
    loop {
        match r {
            Ok(Effect::Done) => return Ok(()),
            Ok(Effect::Print(line)) => {
                println!("{}", line);
                return Ok(());
            }
            Ok(Effect::CallExt(id)) => return Err(format!("CALL_EXT: no registry (func_id={})", id)),
            Ok(Effect::Float(task)) => {
                let reply = float_reply(&task);
                r = state.resume_float(&task, reply);
            }
            Ok(Effect::Text(pieces, then)) => {
                let floats: Vec<String> = pieces
                    .iter()
                    .filter_map(|p| match p {
                        Piece::Float(b) => Some(format!("{}", f64::from_bits(*b))),
                        Piece::Text(_) => None,
                    })
                    .collect();
                let text = fill_floats(&pieces, &floats).expect("one text per float");
                r = state.resume_text(then, text);
            }
            Err(e) => return Err(e),
        }
    }
}

fn run(bytecode: &[u8]) -> Result<VMState, String> {
    let isa = AvapISA::new();
    let mut state = VMState::new();

    if bytecode.len() < 128 || &bytecode[0..4] != b"AVBC" {
        return Err("bad header".to_string());
    }
    let code_size = u32::from_le_bytes(bytecode[8..12].try_into().unwrap()) as usize;
    let const_count = u32::from_le_bytes(bytecode[12..16].try_into().unwrap()) as usize;
    let entry = u32::from_le_bytes(bytecode[16..20].try_into().unwrap()) as usize;

    let mut off = 128usize;
    for _ in 0..const_count {
        let tag = bytecode[off];
        off += 1;
        match tag {
            0x02 => {
                let v = i64::from_le_bytes(bytecode[off..off + 8].try_into().unwrap());
                state.constants.push(Value::Int(v));
                off += 8;
            }
            0x03 => {
                let v = u64::from_le_bytes(bytecode[off..off + 8].try_into().unwrap());
                state.constants.push(Value::Float(v));
                off += 8;
            }
            0x04 => {
                let ln = u32::from_le_bytes(bytecode[off..off + 4].try_into().unwrap()) as usize;
                off += 4;
                let s = std::str::from_utf8(&bytecode[off..off + ln]).unwrap();
                state.constants.push(Value::Str(s.to_string()));
                off += ln;
            }
            0x05 => state.constants.push(Value::Bool(true)),
            0x06 => state.constants.push(Value::Bool(false)),
            _ => state.constants.push(Value::Null),
        }
    }
    let code = bytecode[off..off + code_size].to_vec();

    let instruction_set = isa.instruction_set();
    let mut ip = entry;
    let mut count = 0u64;

    loop {
        if ip >= code.len() {
            break;
        }
        if count > 100_000 {
            return Err("instruction limit".to_string());
        }
        let opcode = code[ip];
        ip += 1;
        if instruction_set.is_halt(opcode) {
            break;
        }
        let instr = instruction_set
            .get(opcode)
            .ok_or_else(|| format!("unknown opcode 0x{:02X} at ip={}", opcode, ip - 1))?;
        assert!(can_step(instr.handler, &state, &code, ip), "list() of an iterator past its end");
        let first = execute(instr.handler, &mut state, &code, &mut ip);
        if let Err(e) = settle(&mut state, first) {
            if let Some(handler_ip) = state.try_stack.pop() {
                state.push(Value::Str(e));
                ip = handler_ip;
            } else {
                return Err(e);
            }
        }
        count += 1;
    }
    Ok(state)
}

fn top(state: &VMState) -> Value {
    match state.stack.last() {
        Some(v) => v.duplicate(),
        None => Value::Null,
    }
}

// ─── Tests: Stack & Variables ────────────────────────────────────────────────

#[test]
fn push_halt_leaves_value_on_stack() {
    let mut b = BytecodeBuilder::new();
    let idx = b.const_int(42);
    b.op1(0x01, idx).halt(); // PUSH 42, HALT
    let state = run(&b.build()).unwrap();
    assert_eq!(top(&state), Value::Int(42));
}

#[test]
fn nop_does_nothing() {
    let mut b = BytecodeBuilder::new();
    let idx = b.const_int(7);
    b.op(0x00).op1(0x01, idx).halt(); // NOP, PUSH 7, HALT
    let state = run(&b.build()).unwrap();
    assert_eq!(top(&state), Value::Int(7));
}

#[test]
fn pop_discards_top() {
    let mut b = BytecodeBuilder::new();
    let i1 = b.const_int(1);
    let i2 = b.const_int(2);
    b.op1(0x01, i1).op1(0x01, i2).op(0x02).halt(); // PUSH 1, PUSH 2, POP, HALT
    let state = run(&b.build()).unwrap();
    assert_eq!(top(&state), Value::Int(1)); // 2 was popped
}

#[test]
fn dup_copies_top() {
    let mut b = BytecodeBuilder::new();
    let idx = b.const_int(99);
    b.op1(0x01, idx).op(0x03).halt(); // PUSH 99, DUP, HALT
    let state = run(&b.build()).unwrap();
    // Stack should have two 99s
    assert_eq!(state.stack.len(), 2);
    assert_eq!(state.stack[0], Value::Int(99));
    assert_eq!(state.stack[1], Value::Int(99));
}

#[test]
fn load_none_pushes_null() {
    let mut b = BytecodeBuilder::new();
    b.op(0x04).halt(); // LOAD_NONE, HALT
    let state = run(&b.build()).unwrap();
    assert_eq!(top(&state), Value::Null);
}

#[test]
fn store_and_load_variable() {
    let mut b = BytecodeBuilder::new();
    let val_idx  = b.const_int(123);
    let name_idx = b.const_str("myVar");
    b.op1(0x01, val_idx)   // PUSH 123
     .op1(0x41, name_idx)  // STORE "myVar"
     .op1(0x40, name_idx)  // LOAD "myVar"
     .halt();
    let state = run(&b.build()).unwrap();
    assert_eq!(top(&state), Value::Int(123));
    assert_eq!(state.globals.get("myVar"), Some(&Value::Int(123)));
}

// ─── Tests: Arithmetic ───────────────────────────────────────────────────────

#[test]
fn add_integers() {
    let mut b = BytecodeBuilder::new();
    let i3 = b.const_int(3);
    let i4 = b.const_int(4);
    b.op1(0x01, i3).op1(0x01, i4).op(0x10).halt(); // PUSH 3, PUSH 4, ADD
    let state = run(&b.build()).unwrap();
    assert_eq!(top(&state), Value::Int(7));
}

#[test]
fn sub_integers() {
    let mut b = BytecodeBuilder::new();
    let i10 = b.const_int(10);
    let i3  = b.const_int(3);
    b.op1(0x01, i10).op1(0x01, i3).op(0x11).halt(); // 10 - 3 = 7
    let state = run(&b.build()).unwrap();
    assert_eq!(top(&state), Value::Int(7));
}

#[test]
fn mul_integers() {
    let mut b = BytecodeBuilder::new();
    let i6 = b.const_int(6);
    let i7 = b.const_int(7);
    b.op1(0x01, i6).op1(0x01, i7).op(0x12).halt(); // 6 * 7 = 42
    let state = run(&b.build()).unwrap();
    assert_eq!(top(&state), Value::Int(42));
}

#[test]
fn div_integers() {
    let mut b = BytecodeBuilder::new();
    let i10 = b.const_int(10);
    let i2  = b.const_int(2);
    b.op1(0x01, i10).op1(0x01, i2).op(0x13).halt();
    let state = run(&b.build()).unwrap();
    assert_eq!(top(&state), Value::Float(5.0f64.to_bits())); // avap_div always returns Float
}

#[test]
fn mod_integers() {
    let mut b = BytecodeBuilder::new();
    let i10 = b.const_int(10);
    let i3  = b.const_int(3);
    b.op1(0x01, i10).op1(0x01, i3).op(0x14).halt();
    let state = run(&b.build()).unwrap();
    assert_eq!(top(&state), Value::Int(1));
}

#[test]
fn neg_integer() {
    let mut b = BytecodeBuilder::new();
    let i5 = b.const_int(5);
    b.op1(0x01, i5).op(0x15).halt(); // NEG
    let state = run(&b.build()).unwrap();
    assert_eq!(top(&state), Value::Int(-5));
}

#[test]
fn not_true_gives_false() {
    let mut b = BytecodeBuilder::new();
    let t = b.const_bool(true);
    b.op1(0x01, t).op(0x16).halt(); // NOT
    let state = run(&b.build()).unwrap();
    assert_eq!(top(&state), Value::Bool(false));
}

#[test]
fn add_strings_concatenates() {
    let mut b = BytecodeBuilder::new();
    let s1 = b.const_str("hello ");
    let s2 = b.const_str("world");
    b.op1(0x01, s1).op1(0x01, s2).op(0x10).halt();
    let state = run(&b.build()).unwrap();
    assert_eq!(top(&state), Value::Str("hello world".to_string()));
}

// ─── Tests: Comparison ───────────────────────────────────────────────────────

#[test]
fn eq_same_values() {
    let mut b = BytecodeBuilder::new();
    let i = b.const_int(5);
    b.op1(0x01, i).op1(0x01, i).op(0x20).halt(); // 5 == 5
    let state = run(&b.build()).unwrap();
    assert_eq!(top(&state), Value::Bool(true));
}

#[test]
fn eq_different_values() {
    let mut b = BytecodeBuilder::new();
    let i1 = b.const_int(1);
    let i2 = b.const_int(2);
    b.op1(0x01, i1).op1(0x01, i2).op(0x20).halt(); // 1 == 2
    let state = run(&b.build()).unwrap();
    assert_eq!(top(&state), Value::Bool(false));
}

#[test]
fn lt_comparison() {
    let mut b = BytecodeBuilder::new();
    let i3 = b.const_int(3);
    let i5 = b.const_int(5);
    b.op1(0x01, i3).op1(0x01, i5).op(0x21).halt(); // 3 < 5
    let state = run(&b.build()).unwrap();
    assert_eq!(top(&state), Value::Bool(true));
}

#[test]
fn gte_comparison() {
    let mut b = BytecodeBuilder::new();
    let i5 = b.const_int(5);
    let i3 = b.const_int(3);
    b.op1(0x01, i5).op1(0x01, i3).op(0x24).halt(); // 5 >= 3
    let state = run(&b.build()).unwrap();
    assert_eq!(top(&state), Value::Bool(true));
}

#[test]
fn in_list_membership() {
    let mut b = BytecodeBuilder::new();
    let i2 = b.const_int(2);
    let i1 = b.const_int(1);
    let i3 = b.const_int(3);
    // IN: pop container, pop item — so push item first, then container
    b.op1(0x01, i2);                                   // push item (2)
    b.op1(0x01, i1).op1(0x01, i2).op1(0x01, i3).op1(0x55, 3); // push [1,2,3]
    b.op(0x26).halt(); // IN
    let state = run(&b.build()).unwrap();
    assert_eq!(top(&state), Value::Bool(true));
}

// ─── Tests: Control Flow ─────────────────────────────────────────────────────

#[test]
fn jmp_unconditional() {
    // JMP over a value that should never be pushed
    let mut b = BytecodeBuilder::new();
    let v_skip   = b.const_int(999);
    let v_result = b.const_int(42);

    // Code: JMP → skip 999, push 42, HALT
    b.op1(0x30, 0); // JMP placeholder (will be patched)
    let jmp_target_offset = b.code.len() - 4;

    b.op1(0x01, v_skip); // PUSH 999 — should be skipped

    let target = b.ip();
    b.patch(jmp_target_offset, target);

    b.op1(0x01, v_result).halt(); // PUSH 42, HALT
    let state = run(&b.build()).unwrap();
    assert_eq!(top(&state), Value::Int(42));
    // Stack should only have 42, not 999
    assert_eq!(state.stack.len(), 1);
}

#[test]
fn jmp_if_not_skips_on_false() {
    // JMP_IF_NOT does NOT pop — false stays on stack after jump
    let mut b = BytecodeBuilder::new();
    let f   = b.const_bool(false);
    let v99 = b.const_int(99);
    let v1  = b.const_int(1);

    b.op1(0x01, f);    // PUSH false
    b.op1(0x32, 0);    // JMP_IF_NOT placeholder (does not pop)
    let patch = b.code.len() - 4;

    b.op1(0x01, v99);  // PUSH 99 (skipped when false)

    let target = b.ip();
    b.patch(patch, target);
    b.op(0x02);        // POP the false (it was not consumed by JMP_IF_NOT)
    b.op1(0x01, v1).halt(); // PUSH 1, HALT
    let state = run(&b.build()).unwrap();
    assert_eq!(state.stack, vec![Value::Int(1)]);
}

#[test]
fn jmp_if_not_pop_conditional_branch() {
    // Short-circuit AND: push true, JMP_IF_NOT_POP → if false jump
    let mut b = BytecodeBuilder::new();
    let t   = b.const_bool(true);
    let i42 = b.const_int(42);

    b.op1(0x01, t);    // PUSH true
    b.op1(0x34, 0);    // JMP_IF_NOT_POP placeholder
    let patch = b.code.len() - 4;

    b.op(0x02);        // POP (remove true)
    b.op1(0x01, i42);  // PUSH 42

    let target = b.ip();
    b.patch(patch, target);
    b.halt();
    let state = run(&b.build()).unwrap();
    assert_eq!(top(&state), Value::Int(42));
}

// ─── Tests: Error Handling ───────────────────────────────────────────────────

#[test]
fn push_try_pop_try_normal_path() {
    // try block that succeeds — POP_TRY should clean up
    let mut b = BytecodeBuilder::new();
    let v42 = b.const_int(42);

    b.op1(0x35, 0);    // PUSH_TRY handler_ip (placeholder)
    let patch = b.code.len() - 4;

    b.op1(0x01, v42);  // PUSH 42 (guarded)
    b.op(0x36);        // POP_TRY (normal exit)

    b.op1(0x30, 0);    // JMP end (placeholder)
    let jmp_end_patch = b.code.len() - 4;

    // Handler (should not run)
    let handler_ip = b.ip();
    b.patch(patch, handler_ip);
    let v_err = b.const_int(999);
    b.op1(0x01, v_err); // PUSH 999 (error path)

    let end = b.ip();
    b.patch(jmp_end_patch, end);
    b.halt();

    let state = run(&b.build()).unwrap();
    // Normal path: 42 on stack, try_stack empty
    assert_eq!(top(&state), Value::Int(42));
    assert!(state.try_stack.is_empty());
}

#[test]
fn raise_jumps_to_handler() {
    let mut b = BytecodeBuilder::new();
    let err_msg = b.const_str("something went wrong");
    let v_ok    = b.const_int(0);
    let v_caught = b.const_int(1);

    b.op1(0x35, 0);     // PUSH_TRY handler_ip
    let patch = b.code.len() - 4;

    b.op1(0x01, err_msg); // PUSH error message
    b.op(0x37);           // RAISE — should jump to handler

    b.op1(0x01, v_ok);    // PUSH 0 (should be skipped)
    b.op(0x36);           // POP_TRY (should be skipped)
    b.op1(0x30, 0);       // JMP end
    let jmp_end_patch = b.code.len() - 4;

    // Handler: error message is on stack (pushed by RAISE mechanism)
    let handler_ip = b.ip();
    b.patch(patch, handler_ip);
    b.op(0x02);           // POP the error message
    b.op1(0x01, v_caught);// PUSH 1 (caught!)

    let end = b.ip();
    b.patch(jmp_end_patch, end);
    b.halt();

    let state = run(&b.build()).unwrap();
    assert_eq!(top(&state), Value::Int(1));
}

// ─── Tests: Iteration ────────────────────────────────────────────────────────

#[test]
fn for_iter_over_list() {
    // Sum [1, 2, 3] using FOR_ITER
    // Expected: globals["sum"] = 6
    let mut b = BytecodeBuilder::new();
    let i0    = b.const_int(0);
    let i1    = b.const_int(1);
    let i2    = b.const_int(2);
    let i3    = b.const_int(3);
    let s_sum = b.const_str("sum");
    let s_item = b.const_str("item");

    // sum = 0
    b.op1(0x01, i0).op1(0x41, s_sum);
    // Build list [1, 2, 3]
    b.op1(0x01, i1).op1(0x01, i2).op1(0x01, i3).op1(0x55, 3);
    // GET_ITER
    b.op(0x3A);

    // Loop start
    let loop_start = b.ip();
    b.op1(0x3B, 0);  // FOR_ITER → exit_ip (placeholder)
    let for_iter_patch = b.code.len() - 4;

    // item = TOS (next value)
    b.op1(0x41, s_item);
    // sum = sum + item
    b.op1(0x40, s_sum).op1(0x40, s_item).op(0x10);
    b.op1(0x41, s_sum);
    // JMP back to loop start
    b.op1(0x30, loop_start);

    // Exit
    let exit_ip = b.ip();
    b.patch(for_iter_patch, exit_ip);
    b.halt();

    let state = run(&b.build()).unwrap();
    assert_eq!(state.globals.get("sum"), Some(&Value::Int(6)));
}

// ─── Tests: Collections ──────────────────────────────────────────────────────

#[test]
fn build_list() {
    let mut b = BytecodeBuilder::new();
    let i1 = b.const_int(1);
    let i2 = b.const_int(2);
    let i3 = b.const_int(3);
    b.op1(0x01, i1).op1(0x01, i2).op1(0x01, i3);
    b.op1(0x55, 3).halt(); // BUILD_LIST n=3
    let state = run(&b.build()).unwrap();
    assert_eq!(top(&state),
        Value::List(vec![Value::Int(1), Value::Int(2), Value::Int(3)]));
}

#[test]
fn build_dict() {
    let mut b = BytecodeBuilder::new();
    let k1 = b.const_str("x");
    let v1 = b.const_int(10);
    let k2 = b.const_str("y");
    let v2 = b.const_int(20);
    b.op1(0x01, k1).op1(0x01, v1)
     .op1(0x01, k2).op1(0x01, v2);
    b.op1(0x56, 2).halt(); // BUILD_DICT n=2
    let state = run(&b.build()).unwrap();
    match top(&state) {
        Value::Dict(pairs) => {
            assert_eq!(pairs.len(), 2);
            assert_eq!(pairs[0], ("x".to_string(), Value::Int(10)));
            assert_eq!(pairs[1], ("y".to_string(), Value::Int(20)));
        }
        other => panic!("expected Dict, got {:?}", other.type_str()),
    }
}

// ─── Tests: Object Access ────────────────────────────────────────────────────

#[test]
fn get_item_from_dict() {
    let mut b = BytecodeBuilder::new();
    let k = b.const_str("name");
    let v = b.const_str("Alice");
    let s_name = b.const_str("name");
    // Build {"name": "Alice"}
    b.op1(0x01, k).op1(0x01, v).op1(0x56, 1);
    // GET_ITEM "name"
    b.op1(0x01, s_name).op(0x52).halt();
    let state = run(&b.build()).unwrap();
    assert_eq!(top(&state), Value::Str("Alice".to_string()));
}

#[test]
fn set_item_in_dict_on_stack() {
    let mut b = BytecodeBuilder::new();
    let k = b.const_str("count");
    let v0 = b.const_int(0);
    let k2 = b.const_str("count");
    let v99 = b.const_int(99);
    // Build {"count": 0}
    b.op1(0x01, k).op1(0x01, v0).op1(0x56, 1);
    // SET_ITEM: dict["count"] = 99
    b.op1(0x01, k2).op1(0x01, v99).op(0x53);
    // GET_ITEM "count"
    b.op1(0x01, k2).op(0x52).halt();
    let state = run(&b.build()).unwrap();
    assert_eq!(top(&state), Value::Int(99));
}

#[test]
fn get_attr_from_dict() {
    let mut b = BytecodeBuilder::new();
    let k = b.const_str("status");
    let v = b.const_str("ok");
    let attr = b.const_str("status");
    b.op1(0x01, k).op1(0x01, v).op1(0x56, 1); // {"status": "ok"}
    b.op1(0x50, attr).halt(); // GET_ATTR "status"
    let state = run(&b.build()).unwrap();
    assert_eq!(top(&state), Value::Str("ok".to_string()));
}

// ─── Tests: Type System ──────────────────────────────────────────────────────

#[test]
fn is_instance_int() {
    let mut b = BytecodeBuilder::new();
    let v42   = b.const_int(42);
    let t_int = b.const_str("int");
    b.op1(0x01, v42).op1(0x72, t_int).op(0x80).halt(); // LOAD_BUILTIN "int", IS_INSTANCE
    let state = run(&b.build()).unwrap();
    assert_eq!(top(&state), Value::Bool(true));
}

#[test]
fn is_instance_wrong_type() {
    let mut b = BytecodeBuilder::new();
    let v_str  = b.const_str("hello");
    let t_int  = b.const_str("int");
    b.op1(0x01, v_str).op1(0x72, t_int).op(0x80).halt();
    let state = run(&b.build()).unwrap();
    assert_eq!(top(&state), Value::Bool(false));
}

#[test]
fn is_instance_tuple_of_types() {
    // isinstance(42, (int, float)) → true
    let mut b = BytecodeBuilder::new();
    let v42     = b.const_int(42);
    let t_int   = b.const_str("int");
    let t_float = b.const_str("float");
    b.op1(0x01, v42);
    b.op1(0x72, t_int).op1(0x72, t_float).op1(0x57, 2); // BUILD_TUPLE (int, float)
    b.op(0x80).halt();
    let state = run(&b.build()).unwrap();
    assert_eq!(top(&state), Value::Bool(true));
}

#[test]
fn is_none_on_null() {
    let mut b = BytecodeBuilder::new();
    b.op(0x04).op(0x81).halt(); // LOAD_NONE, IS_NONE
    let state = run(&b.build()).unwrap();
    assert_eq!(top(&state), Value::Bool(true));
}

#[test]
fn is_none_on_value_is_false() {
    let mut b = BytecodeBuilder::new();
    let i = b.const_int(0);
    b.op1(0x01, i).op(0x81).halt();
    let state = run(&b.build()).unwrap();
    assert_eq!(top(&state), Value::Bool(false));
}

#[test]
fn type_of_returns_name() {
    let mut b = BytecodeBuilder::new();
    let v = b.const_str("hello");
    b.op1(0x01, v).op(0x82).halt(); // TYPE_OF
    let state = run(&b.build()).unwrap();
    assert_eq!(top(&state), Value::Str("string".to_string()));
}

// ─── Tests: Conector Namespaces ──────────────────────────────────────────────

#[test]
fn load_conector_then_get_attr_variables_then_set_item_writes_to_conector_vars() {
    // Simulates: self.conector.variables["x"] = 42
    let mut b = BytecodeBuilder::new();
    let v_x  = b.const_str("x");
    let v42  = b.const_int(42);
    let attr_vars = b.const_str("variables");

    b.op(0x70);             // LOAD_CONECTOR → "__CONECTOR__"
    b.op1(0x50, attr_vars); // GET_ATTR "variables" → "__CONECTOR_VARS__"
    b.op1(0x01, v_x);       // PUSH "x"
    b.op1(0x01, v42);       // PUSH 42
    b.op(0x53);             // SET_ITEM → writes to VMState.conector_vars
    b.halt();

    let state = run(&b.build()).unwrap();
    assert_eq!(state.conector_vars.get("x"), Some(&Value::Int(42)));
}

#[test]
fn load_conector_results_set_item_writes_to_results() {
    // Simulates: self.conector.results["output"] = "hello"
    let mut b = BytecodeBuilder::new();
    let v_key    = b.const_str("output");
    let v_val    = b.const_str("hello");
    let attr_res = b.const_str("results");

    b.op(0x70);             // LOAD_CONECTOR
    b.op1(0x50, attr_res);  // GET_ATTR "results" → "__CONECTOR_RESULTS__"
    b.op1(0x01, v_key);
    b.op1(0x01, v_val);
    b.op(0x53);             // SET_ITEM
    b.halt();

    let state = run(&b.build()).unwrap();
    assert_eq!(state.results.get("output"), Some(&Value::Str("hello".to_string())));
}

// ─── Tests: CALL_METHOD ──────────────────────────────────────────────────────

#[test]
fn call_method_str_strip() {
    let mut b = BytecodeBuilder::new();
    let s      = b.const_str("  hello  ");
    let m_strip = b.const_str("strip");
    b.op1(0x01, s).op2(0x62, m_strip, 0).halt(); // CALL_METHOD "strip" nargs=0
    let state = run(&b.build()).unwrap();
    assert_eq!(top(&state), Value::Str("hello".to_string()));
}

#[test]
fn call_method_str_upper() {
    let mut b = BytecodeBuilder::new();
    let s       = b.const_str("hello");
    let m_upper = b.const_str("upper");
    b.op1(0x01, s).op2(0x62, m_upper, 0).halt();
    let state = run(&b.build()).unwrap();
    assert_eq!(top(&state), Value::Str("HELLO".to_string()));
}

#[test]
fn call_method_dict_get_existing_key() {
    // {"x": 42}.get("x", None) → 42
    let mut b = BytecodeBuilder::new();
    let k     = b.const_str("x");
    let v42   = b.const_int(42);
    let k2    = b.const_str("x");
    let m_get = b.const_str("get");
    b.op1(0x01, k).op1(0x01, v42).op1(0x56, 1); // BUILD_DICT {"x": 42}
    b.op1(0x01, k2);                              // push key arg
    b.op2(0x62, m_get, 1).halt();                 // CALL_METHOD "get" nargs=1
    let state = run(&b.build()).unwrap();
    assert_eq!(top(&state), Value::Int(42));
}

#[test]
fn call_method_dict_get_missing_key_returns_default() {
    // {}.get("missing", 0) → 0
    let mut b = BytecodeBuilder::new();
    let k_missing = b.const_str("missing");
    let default   = b.const_int(0);
    let m_get     = b.const_str("get");
    b.op1(0x56, 0);                                // BUILD_DICT {}
    b.op1(0x01, k_missing).op1(0x01, default);    // args: key, default
    b.op2(0x62, m_get, 2).halt();
    let state = run(&b.build()).unwrap();
    assert_eq!(top(&state), Value::Int(0));
}

// ─── Tests: Error cases ──────────────────────────────────────────────────────

#[test]
fn unknown_opcode_returns_error() {
    let mut b = BytecodeBuilder::new();
    b.op(0xEE).halt(); // 0xEE not registered
    let result = run(&b.build());
    assert!(result.is_err());
    let err = match result { Err(e) => e, Ok(_) => panic!("expected error") };
    assert!(err.contains("0xEE") || err.contains("unknown"), "error was: {}", err);
}

#[test]
fn invalid_magic_returns_error() {
    let mut fake = vec![0u8; 135];
    fake[0..4].copy_from_slice(b"JUNK");
    let result = run(&fake);
    assert!(result.is_err());
}

#[test]
fn bytecode_too_short_returns_error() {
    let result = run(&[0u8; 50]);
    assert!(result.is_err());
}

// ─── Further cases: laws on concrete programs ────────────────────────────────

fn run_err(bytecode: &[u8]) -> String {
    match run(bytecode) {
        Err(e) => e,
        Ok(_) => panic!("expected an error"),
    }
}

#[test]
fn push_then_pop_restores_stack() {
    let mut b = BytecodeBuilder::new();
    let i1 = b.const_int(1);
    let i2 = b.const_int(2);
    b.op1(0x01, i1).op1(0x01, i2).op(0x02).halt();
    let state = run(&b.build()).unwrap();
    assert_eq!(state.stack, vec![Value::Int(1)]);
}

#[test]
fn store_overwrites_and_keeps_other_globals() {
    let mut b = BytecodeBuilder::new();
    let i1 = b.const_int(1);
    let i2 = b.const_int(2);
    let i3 = b.const_int(3);
    let a = b.const_str("a");
    let c = b.const_str("c");
    b.op1(0x01, i1).op1(0x41, a);
    b.op1(0x01, i2).op1(0x41, c);
    b.op1(0x01, i3).op1(0x41, a);
    b.op1(0x40, a).op1(0x40, c).halt();
    let state = run(&b.build()).unwrap();
    assert_eq!(state.stack, vec![Value::Int(3), Value::Int(2)]);
    assert_eq!(state.globals.len(), 2);
    assert_eq!(state.globals.get("a"), Some(&Value::Int(3)));
    assert_eq!(state.globals.get("c"), Some(&Value::Int(2)));
}

#[test]
fn load_of_unbound_global_is_null() {
    let mut b = BytecodeBuilder::new();
    let n = b.const_str("nothing");
    b.op1(0x40, n).halt();
    let state = run(&b.build()).unwrap();
    assert_eq!(state.stack, vec![Value::Null]);
}

#[test]
fn conector_vars_read_back_and_membership() {
    let mut b = BytecodeBuilder::new();
    let k = b.const_str("x");
    let v = b.const_int(42);
    let vars = b.const_str("variables");
    let get = b.const_str("get");
    b.op(0x70).op1(0x50, vars); // marker for the variables
    b.op(0x03); // keep a copy of the marker
    b.op1(0x01, k).op1(0x01, v).op(0x53); // vars["x"] = 42, marker left on top
    b.op(0x02); // drop it
    b.op1(0x01, k).op(0x52); // vars["x"]
    b.op1(0x01, k).op(0x70).op1(0x50, vars).op(0x26); // "x" in vars
    b.op(0x70).op1(0x50, vars).op1(0x01, k).op2(0x62, get, 1); // vars.get("x")
    b.halt();
    let state = run(&b.build()).unwrap();
    assert_eq!(state.stack, vec![Value::Int(42), Value::Bool(true), Value::Int(42)]);
    assert_eq!(state.conector_vars.get("x"), Some(&Value::Int(42)));
}

#[test]
fn conector_results_read_back() {
    let mut b = BytecodeBuilder::new();
    let k = b.const_str("out");
    let v = b.const_str("done");
    let res = b.const_str("results");
    let other = b.const_str("missing");
    b.op(0x70).op1(0x50, res).op1(0x01, k).op1(0x01, v).op(0x53);
    b.op1(0x01, k).op(0x52);
    b.op1(0x01, other).op(0x70).op1(0x50, res).op(0x27); // "missing" not in results
    b.halt();
    let state = run(&b.build()).unwrap();
    assert_eq!(
        state.stack,
        vec![Value::Str("done".to_string()), Value::Bool(true)]
    );
}

#[test]
fn conector_vars_filled_lazily_from_snapshot() {
    // __conector__ = {"variables": {"a": 1}}; conector.variables["a"]
    let mut b = BytecodeBuilder::new();
    let key_vars = b.const_str("variables");
    let a = b.const_str("a");
    let one = b.const_int(1);
    let snap = b.const_str("__conector__");
    b.op1(0x01, key_vars).op1(0x01, a).op1(0x01, one).op1(0x56, 1).op1(0x56, 1);
    b.op1(0x41, snap);
    b.op(0x70).op1(0x50, key_vars).op1(0x01, a).op(0x52).halt();
    let state = run(&b.build()).unwrap();
    assert_eq!(top(&state), Value::Int(1));
    assert_eq!(state.conector_vars.get("a"), Some(&Value::Int(1)));
}

#[test]
fn other_conector_attribute_reads_cattr_global() {
    let mut b = BytecodeBuilder::new();
    let g = b.const_str("__cattr_name__");
    let v = b.const_str("svc");
    let attr = b.const_str("name");
    b.op1(0x01, v).op1(0x41, g).op(0x70).op1(0x50, attr).halt();
    let state = run(&b.build()).unwrap();
    assert_eq!(top(&state), Value::Str("svc".to_string()));
}

#[test]
fn and_short_circuit_keeps_falsy_left() {
    // 0 and 5 → 0 ; 3 and 5 → 5
    for (left, expected) in [(0i64, 0i64), (3, 5)] {
        let mut b = BytecodeBuilder::new();
        let l = b.const_int(left);
        let r = b.const_int(5);
        b.op1(0x01, l).op1(0x32, 0);
        let patch = b.code.len() - 4;
        b.op(0x02).op1(0x01, r);
        let end = b.ip();
        b.patch(patch, end);
        b.halt();
        let state = run(&b.build()).unwrap();
        assert_eq!(state.stack, vec![Value::Int(expected)]);
    }
}

#[test]
fn or_short_circuit_keeps_truthy_left() {
    // 7 or 5 → 7 ; "" or 5 → 5
    for (left, expected) in [(Value::Int(7), Value::Int(7)), (Value::Str(String::new()), Value::Int(5))] {
        let mut b = BytecodeBuilder::new();
        b.constants.push(left);
        let l = 0u32;
        let r = b.const_int(5);
        b.op1(0x01, l).op1(0x31, 0);
        let patch = b.code.len() - 4;
        b.op(0x02).op1(0x01, r);
        let end = b.ip();
        b.patch(patch, end);
        b.halt();
        let state = run(&b.build()).unwrap();
        assert_eq!(state.stack, vec![expected]);
    }
}

#[test]
fn jmp_if_pop_pops_and_jumps_on_truthy() {
    let mut b = BytecodeBuilder::new();
    let t = b.const_bool(true);
    let skip = b.const_int(9);
    b.op1(0x01, t).op1(0x33, 0);
    let patch = b.code.len() - 4;
    b.op1(0x01, skip);
    let end = b.ip();
    b.patch(patch, end);
    b.halt();
    let state = run(&b.build()).unwrap();
    assert!(state.stack.is_empty());
}

#[test]
fn bool_and_or_pick_operands() {
    let mut b = BytecodeBuilder::new();
    let z = b.const_int(0);
    let s = b.const_str("s");
    b.op1(0x01, z).op1(0x01, s).op(0x2A); // 0 and "s" → 0
    b.op1(0x01, z).op1(0x01, s).op(0x2B); // 0 or "s" → "s"
    b.halt();
    let state = run(&b.build()).unwrap();
    assert_eq!(state.stack, vec![Value::Int(0), Value::Str("s".to_string())]);
}

#[test]
fn lte_gte_neq_on_integers() {
    let mut b = BytecodeBuilder::new();
    let i3 = b.const_int(3);
    let i5 = b.const_int(5);
    b.op1(0x01, i5).op1(0x01, i3).op(0x23); // 5 <= 3
    b.op1(0x01, i3).op1(0x01, i3).op(0x23); // 3 <= 3
    b.op1(0x01, i3).op1(0x01, i5).op(0x24); // 3 >= 5
    b.op1(0x01, i3).op1(0x01, i5).op(0x25); // 3 != 5
    b.op1(0x01, i5).op1(0x01, i3).op(0x22); // 5 > 3
    b.halt();
    let state = run(&b.build()).unwrap();
    assert_eq!(
        state.stack,
        vec![Value::Bool(false), Value::Bool(true), Value::Bool(false), Value::Bool(true), Value::Bool(true)]
    );
}

#[test]
fn mixed_int_float_arithmetic_and_comparison() {
    let mut b = BytecodeBuilder::new();
    let i1 = b.const_int(1);
    let f = b.const_float(2.5);
    b.op1(0x01, i1).op1(0x01, f).op(0x10); // 1 + 2.5
    b.op1(0x01, f).op1(0x01, i1).op(0x11); // 2.5 - 1
    b.op1(0x01, f).op1(0x01, f).op(0x12); // 2.5 * 2.5
    b.op1(0x01, i1).op1(0x01, f).op(0x21); // 1 < 2.5
    b.op1(0x01, f).op1(0x01, f).op(0x14); // 2.5 % 2.5
    b.op1(0x01, f).op(0x15); // -2.5
    b.halt();
    let state = run(&b.build()).unwrap();
    assert_eq!(
        state.stack,
        vec![
            Value::Float(3.5f64.to_bits()),
            Value::Float(1.5f64.to_bits()),
            Value::Float(6.25f64.to_bits()),
            Value::Bool(true),
            Value::Float(0.0f64.to_bits()),
            Value::Float((-2.5f64).to_bits()),
        ]
    );
}

#[test]
fn div_of_integers_is_float_even_when_exact() {
    let mut b = BytecodeBuilder::new();
    let i7 = b.const_int(7);
    let i2 = b.const_int(2);
    b.op1(0x01, i7).op1(0x01, i2).op(0x13).halt();
    let state = run(&b.build()).unwrap();
    assert_eq!(top(&state), Value::Float(3.5f64.to_bits()));
}

#[test]
fn mod_of_negative_integers_truncates() {
    let mut b = BytecodeBuilder::new();
    let a = b.const_int(-7);
    let m = b.const_int(3);
    b.op1(0x01, a).op1(0x01, m).op(0x14).halt();
    let state = run(&b.build()).unwrap();
    assert_eq!(top(&state), Value::Int(-1));
}

#[test]
fn neg_float_twice_restores_bits() {
    let mut b = BytecodeBuilder::new();
    let f = b.const_float(1.25);
    b.op1(0x01, f).op(0x15).op(0x15).halt();
    let state = run(&b.build()).unwrap();
    assert_eq!(top(&state), Value::Float(1.25f64.to_bits()));
}

#[test]
fn is_instance_float_admits_int() {
    let mut b = BytecodeBuilder::new();
    let v = b.const_int(42);
    let t = b.const_str("float");
    let f = b.const_float(1.0);
    let ti = b.const_str("int");
    b.op1(0x01, v).op1(0x72, t).op(0x80);
    b.op1(0x01, f).op1(0x72, ti).op(0x80);
    b.halt();
    let state = run(&b.build()).unwrap();
    assert_eq!(state.stack, vec![Value::Bool(true), Value::Bool(false)]);
}

#[test]
fn delete_item_pops_key_and_object() {
    let mut b = BytecodeBuilder::new();
    let x = b.const_str("x");
    let y = b.const_str("y");
    let one = b.const_int(1);
    let two = b.const_int(2);
    b.op1(0x01, one);
    b.op1(0x01, x).op1(0x01, one).op1(0x01, y).op1(0x01, two).op1(0x56, 2);
    b.op1(0x01, x).op(0x54);
    b.halt();
    let state = run(&b.build()).unwrap();
    assert_eq!(state.stack, vec![Value::Int(1)]);
    let mut b = BytecodeBuilder::new();
    let x = b.const_str("x");
    b.op1(0x01, x).op(0x54).halt();
    assert_eq!(run_err(&b.build()), "DELETE_ITEM: empty");
}

#[test]
fn set_attr_on_dict_adds_and_replaces() {
    let mut b = BytecodeBuilder::new();
    let x = b.const_str("x");
    let one = b.const_int(1);
    let two = b.const_int(2);
    let y = b.const_str("y");
    b.op1(0x01, x).op1(0x01, one).op1(0x56, 1);
    b.op1(0x01, two).op1(0x51, x); // .x = 2
    b.op1(0x01, one).op1(0x51, y); // .y = 1
    b.halt();
    let state = run(&b.build()).unwrap();
    assert_eq!(
        top(&state),
        Value::Dict(vec![("x".to_string(), Value::Int(2)), ("y".to_string(), Value::Int(1))])
    );
}

#[test]
fn get_item_negative_index_and_missing_key() {
    let mut b = BytecodeBuilder::new();
    let i1 = b.const_int(1);
    let i2 = b.const_int(2);
    let m1 = b.const_int(-1);
    let k = b.const_str("k");
    b.op1(0x01, i1).op1(0x01, i2).op1(0x55, 2).op1(0x01, m1).op(0x52); // [1,2][-1]
    b.op1(0x56, 0).op1(0x01, k).op(0x52); // {}["k"]
    b.halt();
    let state = run(&b.build()).unwrap();
    assert_eq!(state.stack, vec![Value::Int(2), Value::Null]);
}

#[test]
fn build_dict_skips_non_string_keys() {
    let mut b = BytecodeBuilder::new();
    let i1 = b.const_int(1);
    let x = b.const_str("x");
    let i2 = b.const_int(2);
    b.op1(0x01, i1).op1(0x01, i1).op1(0x01, x).op1(0x01, i2).op1(0x56, 2).halt();
    let state = run(&b.build()).unwrap();
    assert_eq!(top(&state), Value::Dict(vec![("x".to_string(), Value::Int(2))]));
}

#[test]
fn build_tuple_is_a_list() {
    let mut b = BytecodeBuilder::new();
    let i1 = b.const_int(1);
    let s = b.const_str("a");
    b.op1(0x01, i1).op1(0x01, s).op1(0x57, 2).halt();
    let state = run(&b.build()).unwrap();
    assert_eq!(top(&state), Value::List(vec![Value::Int(1), Value::Str("a".to_string())]));
}

#[test]
fn for_iter_exhausted_pops_iterator() {
    let mut b = BytecodeBuilder::new();
    b.op1(0x55, 0).op(0x3A).op1(0x3B, 0);
    let patch = b.code.len() - 4;
    let end = b.ip();
    b.patch(patch, end);
    b.halt();
    let state = run(&b.build()).unwrap();
    assert!(state.stack.is_empty());
}

#[test]
fn type_of_each_kind() {
    let mut b = BytecodeBuilder::new();
    let i = b.const_int(1);
    let f = b.const_float(1.5);
    let t = b.const_bool(true);
    b.op(0x04).op(0x82);
    b.op1(0x01, t).op(0x82);
    b.op1(0x01, i).op(0x82);
    b.op1(0x01, f).op(0x82);
    b.op1(0x55, 0).op(0x82);
    b.op1(0x56, 0).op(0x82);
    b.op1(0x55, 0).op(0x3A).op(0x82);
    b.halt();
    let state = run(&b.build()).unwrap();
    let names: Vec<Value> = ["null", "bool", "int", "float", "list", "dict", "iterator"]
        .iter()
        .map(|s| Value::Str(s.to_string()))
        .collect();
    assert_eq!(state.stack, names);
}

#[test]
fn is_and_is_not_compare_with_null() {
    let mut b = BytecodeBuilder::new();
    let i = b.const_int(0);
    b.op(0x04).op(0x04).op(0x28); // None is None
    b.op1(0x01, i).op(0x04).op(0x28); // 0 is None
    b.op1(0x01, i).op(0x04).op(0x29); // 0 is not None
    b.halt();
    let state = run(&b.build()).unwrap();
    assert_eq!(state.stack, vec![Value::Bool(true), Value::Bool(false), Value::Bool(true)]);
}

#[test]
fn runtime_names_are_pushed() {
    let mut b = BytecodeBuilder::new();
    let m = b.const_str("json");
    let task = b.const_str("__task__");
    let v = b.const_int(5);
    b.op1(0x01, v).op1(0x41, task);
    b.op1(0x90, m).op(0x71).op(0x70).halt();
    let state = run(&b.build()).unwrap();
    assert_eq!(
        state.stack,
        vec![
            Value::Str("__module__:json".to_string()),
            Value::Int(5),
            Value::Str("__CONECTOR__".to_string()),
        ]
    );
}

#[test]
fn return_does_nothing() {
    let mut b = BytecodeBuilder::new();
    let v = b.const_int(3);
    b.op1(0x01, v).op(0x38).halt();
    let state = run(&b.build()).unwrap();
    assert_eq!(state.stack, vec![Value::Int(3)]);
}

// ─── Further cases: builtins and methods ─────────────────────────────────────

fn call_builtin_program(name: &str, args: Vec<Value>) -> Result<VMState, String> {
    let mut state = VMState::new();
    state.push(Value::Str(name.to_string()));
    let count = args.len() as u32;
    for a in args {
        state.push(a);
    }
    let code = count.to_le_bytes().to_vec();
    let mut ip = 0usize;
    assert!(can_step(Handler::CallFunc, &state, &code, 0));
    let first = execute(Handler::CallFunc, &mut state, &code, &mut ip);
    settle(&mut state, first).map(|_| state)
}

#[test]
fn builtin_str_writes_values() {
    let v = Value::List(vec![
        Value::Int(-12),
        Value::Null,
        Value::Bool(false),
        Value::Str("a".to_string()),
    ]);
    let state = call_builtin_program("str", vec![v]).unwrap();
    assert_eq!(top(&state), Value::Str("[-12, None, False, a]".to_string()));
}

#[test]
fn builtin_str_of_float_uses_host_text() {
    let state = call_builtin_program("str", vec![Value::Float(3.5f64.to_bits())]).unwrap();
    assert_eq!(top(&state), Value::Str("3.5".to_string()));
}

#[test]
fn builtin_int_conversions() {
    let s = call_builtin_program("int", vec![Value::Str("  -42 ".to_string())]).unwrap();
    assert_eq!(top(&s), Value::Int(-42));
    let s = call_builtin_program("int", vec![Value::Float(7.9f64.to_bits())]).unwrap();
    assert_eq!(top(&s), Value::Int(7));
    let s = call_builtin_program("int", vec![Value::Bool(true)]).unwrap();
    assert_eq!(top(&s), Value::Int(1));
    let e = match call_builtin_program("int", vec![Value::Str("4x".to_string())]) {
        Err(e) => e,
        Ok(_) => panic!("expected an error"),
    };
    assert_eq!(e, "Cannot convert to int");
    let e = match call_builtin_program("int", vec![]) {
        Err(e) => e,
        Ok(_) => panic!("expected an error"),
    };
    assert_eq!(e, "Cannot convert null to int");
}

#[test]
fn builtin_float_conversions() {
    let s = call_builtin_program("float", vec![Value::Str(" 2.5 ".to_string())]).unwrap();
    assert_eq!(top(&s), Value::Float(2.5f64.to_bits()));
    let s = call_builtin_program("float", vec![Value::Int(3)]).unwrap();
    assert_eq!(top(&s), Value::Float(3.0f64.to_bits()));
    let e = match call_builtin_program("float", vec![Value::Str("abc".to_string())]) {
        Err(e) => e,
        Ok(_) => panic!("expected an error"),
    };
    assert_eq!(e, "Cannot convert to float");
}

#[test]
fn builtin_len_bool_list_dict() {
    let s = call_builtin_program("len", vec![Value::Str("añb".to_string())]).unwrap();
    assert_eq!(top(&s), Value::Int(4)); // bytes of the UTF-8 text
    let s = call_builtin_program("bool", vec![Value::Str(String::new())]).unwrap();
    assert_eq!(top(&s), Value::Bool(false));
    let s = call_builtin_program("dict", vec![]).unwrap();
    assert_eq!(top(&s), Value::Dict(vec![]));
    let it = Value::Iter(vec![Value::Int(1), Value::Int(2), Value::Int(3)], 1);
    let s = call_builtin_program("list", vec![it]).unwrap();
    assert_eq!(top(&s), Value::List(vec![Value::Int(2), Value::Int(3)]));
    let e = match call_builtin_program("len", vec![Value::Int(1)]) {
        Err(e) => e,
        Ok(_) => panic!("expected an error"),
    };
    assert_eq!(e, "len() on int");
}

#[test]
fn builtin_isinstance_and_print() {
    let s = call_builtin_program("isinstance", vec![Value::Int(1), Value::Str("int".to_string())]).unwrap();
    assert_eq!(top(&s), Value::Bool(true));
    let s = call_builtin_program("isinstance", vec![Value::Int(1), Value::Str("float".to_string())]).unwrap();
    assert_eq!(top(&s), Value::Bool(false));
    let s = call_builtin_program("print", vec![Value::Str("hi".to_string()), Value::Int(2)]).unwrap();
    assert_eq!(top(&s), Value::Null);
    let e = match call_builtin_program("nope", vec![]) {
        Err(e) => e,
        Ok(_) => panic!("expected an error"),
    };
    assert_eq!(e, "Unknown builtin: nope");
}

#[test]
fn print_hands_back_the_line() {
    let mut state = VMState::new();
    state.constants.push(Value::Str("print".to_string()));
    state.constants.push(Value::Str("a".to_string()));
    state.constants.push(Value::Int(1));
    let mut code: Vec<u8> = vec![];
    for (op, arg) in [(0x72u8, 0u32), (0x01, 1), (0x01, 2), (0x61, 2)] {
        code.push(op);
        code.extend_from_slice(&arg.to_le_bytes());
    }
    let isa = AvapISA::new();
    let mut ip = 0usize;
    let mut last = None;
    while ip < code.len() {
        let m = isa.instruction_set().get(code[ip]).unwrap();
        ip += 1;
        last = Some(execute(m.handler, &mut state, &code, &mut ip));
    }
    assert_eq!(last, Some(Ok(Effect::Print("a 1".to_string()))));
    assert_eq!(state.stack, vec![Value::Null]);
}

fn call_method_program(obj: Value, method: &str, args: Vec<Value>) -> Result<VMState, String> {
    let mut state = VMState::new();
    state.constants.push(Value::Str(method.to_string()));
    state.push(obj);
    let count = args.len() as u32;
    for a in args {
        state.push(a);
    }
    let mut code = 0u32.to_le_bytes().to_vec();
    code.extend_from_slice(&count.to_le_bytes());
    let mut ip = 0usize;
    let first = execute(Handler::CallMethod, &mut state, &code, &mut ip);
    settle(&mut state, first).map(|_| state)
}

fn s(text: &str) -> Value {
    Value::Str(text.to_string())
}

#[test]
fn string_methods() {
    let cases: Vec<(Value, &str, Vec<Value>, Value)> = vec![
        (s("\u{a0} x y\t\n"), "strip", vec![], s("x y")),
        (s("straße"), "upper", vec![], s("STRASSE")),
        (s("ÀB"), "lower", vec![], s("àb")),
        (s("0123"), "isdigit", vec![], Value::Bool(true)),
        (s(""), "isdigit", vec![], Value::Bool(false)),
        (s("12a"), "isdigit", vec![], Value::Bool(false)),
        (s("hello"), "startswith", vec![s("he")], Value::Bool(true)),
        (s("hello"), "endswith", vec![s("lo")], Value::Bool(true)),
        (s("hello"), "endswith", vec![s("he")], Value::Bool(false)),
        (s("a-b-c"), "replace", vec![s("-"), s("+")], s("a+b+c")),
        (s("a,b,,c"), "split", vec![s(",")], Value::List(vec![s("a"), s("b"), s(""), s("c")])),
        (s("a b"), "split", vec![], Value::List(vec![s("a"), s("b")])),
        (s("raw"), "encode", vec![], s("raw")),
    ];
    for (obj, m, args, expected) in cases {
        let state = call_method_program(obj, m, args).unwrap();
        assert_eq!(top(&state), expected, "method {}", m);
    }
}

#[test]
fn dict_methods() {
    let d = Value::Dict(vec![("a".to_string(), Value::Int(1)), ("b".to_string(), Value::Int(2))]);
    let dup = |v: &Value| v.duplicate();
    let st = call_method_program(dup(&d), "keys", vec![]).unwrap();
    assert_eq!(top(&st), Value::List(vec![s("a"), s("b")]));
    let st = call_method_program(dup(&d), "values", vec![]).unwrap();
    assert_eq!(top(&st), Value::List(vec![Value::Int(1), Value::Int(2)]));
    let st = call_method_program(dup(&d), "items", vec![]).unwrap();
    assert_eq!(
        top(&st),
        Value::List(vec![
            Value::List(vec![s("a"), Value::Int(1)]),
            Value::List(vec![s("b"), Value::Int(2)]),
        ])
    );
    let st = call_method_program(dup(&d), "get", vec![s("z")]).unwrap();
    assert_eq!(top(&st), Value::Null);
    let st = call_method_program(dup(&d), "update", vec![]).unwrap();
    assert_eq!(top(&st), Value::Null);
    let st = call_method_program(Value::List(vec![]), "append", vec![Value::Int(1)]).unwrap();
    assert_eq!(top(&st), Value::Null);
    let e = match call_method_program(Value::Int(1), "foo", vec![]) {
        Err(e) => e,
        Ok(_) => panic!("expected an error"),
    };
    assert_eq!(e, "Unknown method int.foo()");
}

#[test]
fn conector_vars_update_and_keys() {
    let mut b = BytecodeBuilder::new();
    let vars = b.const_str("variables");
    let upd = b.const_str("update");
    let keys = b.const_str("keys");
    let x = b.const_str("x");
    let y = b.const_str("y");
    let one = b.const_int(1);
    b.op(0x70).op1(0x50, vars);
    b.op1(0x01, x).op1(0x01, one).op1(0x01, y).op1(0x01, one).op1(0x56, 2);
    b.op2(0x62, upd, 1);
    b.op(0x70).op1(0x50, vars).op2(0x62, keys, 0);
    b.halt();
    let state = run(&b.build()).unwrap();
    assert_eq!(state.stack, vec![Value::Null, Value::List(vec![s("x"), s("y")])]);
    assert_eq!(state.conector_vars.len(), 2);
}

// ─── Further cases: errors ───────────────────────────────────────────────────

#[test]
fn error_messages_of_instructions() {
    let mut b = BytecodeBuilder::new();
    b.op(0x03).halt();
    assert_eq!(run_err(&b.build()), "DUP: empty stack");

    let mut b = BytecodeBuilder::new();
    b.op1(0x01, 5).halt();
    assert_eq!(run_err(&b.build()), "PUSH: index 5 OOB");

    let mut b = BytecodeBuilder::new();
    b.code.extend_from_slice(&[0x01, 0x00]);
    assert_eq!(run_err(&b.build()), "read_u32: operand runs past the end of the code");

    let mut b = BytecodeBuilder::new();
    let i = b.const_int(1);
    b.op1(0x40, i).halt();
    assert_eq!(run_err(&b.build()), "LOAD: not a string");

    let mut b = BytecodeBuilder::new();
    let n = b.const_str("n");
    b.op1(0x41, n).halt();
    assert_eq!(run_err(&b.build()), "STORE: empty stack");

    let mut b = BytecodeBuilder::new();
    let i = b.const_int(1);
    let z = b.const_int(0);
    b.op1(0x01, i).op1(0x01, z).op(0x13).halt();
    assert_eq!(run_err(&b.build()), "Division by zero");

    let mut b = BytecodeBuilder::new();
    let i = b.const_int(1);
    let z = b.const_int(0);
    b.op1(0x01, i).op1(0x01, z).op(0x14).halt();
    assert_eq!(run_err(&b.build()), "Modulo by zero");

    let mut b = BytecodeBuilder::new();
    let i = b.const_int(1);
    let t = b.const_str("t");
    b.op1(0x01, i).op1(0x01, t).op(0x10).halt();
    assert_eq!(run_err(&b.build()), "Cannot add int and string");

    let mut b = BytecodeBuilder::new();
    let i = b.const_int(1);
    let t = b.const_str("t");
    b.op1(0x01, t).op1(0x01, i).op(0x11).halt();
    assert_eq!(run_err(&b.build()), "Cannot sub string and int");

    let mut b = BytecodeBuilder::new();
    let t = b.const_str("t");
    b.op1(0x01, t).op1(0x01, t).op(0x21).halt();
    assert_eq!(run_err(&b.build()), "Cannot compare string < string");

    let mut b = BytecodeBuilder::new();
    let t = b.const_str("t");
    b.op1(0x01, t).op(0x15).halt();
    assert_eq!(run_err(&b.build()), "NEG: not a number");

    let mut b = BytecodeBuilder::new();
    let i = b.const_int(4);
    b.op1(0x01, i).op(0x3A).halt();
    assert_eq!(run_err(&b.build()), "GET_ITER: int is not iterable");

    let mut b = BytecodeBuilder::new();
    let i = b.const_int(4);
    b.op1(0x01, i).op1(0x3B, 0).halt();
    assert_eq!(run_err(&b.build()), "FOR_ITER: not an iterator");

    let mut b = BytecodeBuilder::new();
    let i = b.const_int(4);
    b.op1(0x01, i).op1(0x61, 0).halt();
    assert_eq!(run_err(&b.build()), "CALL_FUNC: not a callable name");

    let mut b = BytecodeBuilder::new();
    b.op1(0x60, 7).halt();
    assert_eq!(run_err(&b.build()), "CALL_EXT: no registry (func_id=7)");

    let mut b = BytecodeBuilder::new();
    let l = b.const_int(3);
    b.op1(0x01, l).op(0x37).halt();
    assert_eq!(run_err(&b.build()), "3");
}

#[test]
fn caught_error_message_is_pushed() {
    let mut b = BytecodeBuilder::new();
    let i = b.const_int(1);
    let z = b.const_int(0);
    b.op1(0x35, 0);
    let patch = b.code.len() - 4;
    b.op1(0x01, i).op1(0x01, z).op(0x13);
    let handler = b.ip();
    b.patch(patch, handler);
    b.halt();
    let state = run(&b.build()).unwrap();
    assert_eq!(state.stack, vec![s("Division by zero")]);
    assert!(state.try_stack.is_empty());
}

#[test]
fn integer_arithmetic_wraps() {
    let mut b = BytecodeBuilder::new();
    let max = b.const_int(i64::MAX);
    let min = b.const_int(i64::MIN);
    let one = b.const_int(1);
    let m1 = b.const_int(-1);
    let two = b.const_int(2);
    b.op1(0x01, max).op1(0x01, one).op(0x10); // MAX + 1
    b.op1(0x01, min).op1(0x01, one).op(0x11); // MIN - 1
    b.op1(0x01, max).op1(0x01, two).op(0x12); // MAX * 2
    b.op1(0x01, min).op1(0x01, m1).op(0x14); // MIN % -1
    b.op1(0x01, min).op(0x15); // -MIN
    b.halt();
    let state = run(&b.build()).unwrap();
    assert_eq!(
        state.stack,
        vec![
            Value::Int(i64::MIN),
            Value::Int(i64::MAX),
            Value::Int(-2),
            Value::Int(0),
            Value::Int(i64::MIN),
        ]
    );
}

#[test]
fn list_of_iterator_past_its_end_is_not_allowed() {
    let mut state = VMState::new();
    state.push(Value::Str("list".to_string()));
    state.push(Value::Iter(vec![Value::Int(1)], 2));
    let code = 1u32.to_le_bytes();
    assert!(!can_step(Handler::CallFunc, &state, &code, 0));
    assert!(can_step(Handler::Add, &state, &code, 0));
}

#[test]
fn lte_gte_are_false_on_nan() {
    let mut b = BytecodeBuilder::new();
    let nan = b.const_float(f64::NAN);
    let one = b.const_int(1);
    let f = b.const_float(1.0);
    b.op1(0x01, nan).op1(0x01, one).op(0x23); // NaN <= 1
    b.op1(0x01, one).op1(0x01, nan).op(0x24); // 1 >= NaN
    b.op1(0x01, f).op1(0x01, one).op(0x23); // 1.0 <= 1
    b.op1(0x01, one).op1(0x01, f).op(0x24); // 1 >= 1.0
    b.halt();
    let state = run(&b.build()).unwrap();
    assert_eq!(
        state.stack,
        vec![Value::Bool(false), Value::Bool(false), Value::Bool(true), Value::Bool(true)]
    );
}

// ─── Further cases: the instruction set and the host interface ──────────────

#[test]
fn instruction_set_table() {
    let isa = AvapISA::new();
    let set = isa.instruction_set();
    assert_eq!(set.len(), 56);
    assert!(set.is_halt(0xFF));
    assert!(set.get(0xFF).is_none());
    assert!(set.get(0xEE).is_none());
    let m = set.get(0x62).unwrap();
    assert_eq!(m.opcode, 0x62);
    assert_eq!(m.name, "CALL_METHOD");
    assert_eq!(m.n_u32_args, 2);
    let mut registered = 0;
    for op in 0u8..=255 {
        if let Some(m) = set.get(op) {
            assert_eq!(m.opcode, op);
            registered += 1;
        }
    }
    assert_eq!(registered, 55);
    assert_eq!(isa.name(), "AVAP-ISA");
    assert_eq!(isa.version(), (0, 1, 0));
}

#[test]
fn call_ext_hands_back_and_finishes() {
    let mut state = VMState::new();
    state.store_global("a".to_string(), Value::Int(1));
    let code: Vec<u8> = vec![9, 0, 0, 0];
    let mut ip = 0usize;
    let r = execute(Handler::CallExt, &mut state, &code, &mut ip);
    assert_eq!(r, Ok(Effect::CallExt(9)));
    assert_eq!(ip, 4);
    state.finish_call_ext(
        vec![("b".to_string(), Value::Int(2)), ("a".to_string(), Value::Int(3))],
        Some(s("ret")),
    );
    assert_eq!(state.globals.get("a"), Some(&Value::Int(3)));
    assert_eq!(state.globals.get("b"), Some(&Value::Int(2)));
    assert_eq!(state.stack, vec![s("ret")]);
}

#[test]
fn namespace_insert_then_get() {
    let mut ns = Namespace::new();
    ns.insert("k".to_string(), Value::Int(1));
    ns.insert("j".to_string(), Value::Int(2));
    ns.insert("k".to_string(), Value::Int(3));
    assert_eq!(ns.len(), 2);
    assert_eq!(ns.get("k"), Some(&Value::Int(3)));
    assert_eq!(ns.get("j"), Some(&Value::Int(2)));
    assert_eq!(ns.get("z"), None);
    assert_eq!(ns.keys(), vec!["k".to_string(), "j".to_string()]);
    assert!(ns.contains_key(&"j".to_string()));
}

#[test]
fn string_helpers_call_std() {
    assert_eq!(upper(&"ǆx".to_string()), "ǄX");
    assert_eq!(lower(&"ÉA".to_string()), "éa");
    assert_eq!(replace(&"aaa".to_string(), &"a".to_string(), &"bb".to_string()), "bbbbbb");
    assert_eq!(split(&"1::2".to_string(), &"::".to_string()), vec!["1".to_string(), "2".to_string()]);
    assert_eq!(trim(&"\u{2003}z\u{3000}".to_string()), "z");
}

#[test]
fn conector_results_method_get_with_default() {
    let mut b = BytecodeBuilder::new();
    let res = b.const_str("results");
    let get = b.const_str("get");
    let k = b.const_str("k");
    let missing = b.const_str("missing");
    let v = b.const_int(5);
    let d = b.const_int(-1);
    b.op(0x70).op1(0x50, res).op1(0x01, k).op1(0x01, v).op(0x53).op(0x02);
    b.op(0x70).op1(0x50, res).op1(0x01, k).op1(0x01, d).op2(0x62, get, 2);
    b.op(0x70).op1(0x50, res).op1(0x01, missing).op1(0x01, d).op2(0x62, get, 2);
    b.op(0x70).op1(0x50, res).op1(0x01, v).op2(0x62, get, 1); // key not a string: null
    b.op(0x70).op1(0x50, res).op1(0x01, v).op1(0x01, d).op2(0x62, get, 2); // key not a string: default
    b.halt();
    let state = run(&b.build()).unwrap();
    assert_eq!(state.stack, vec![Value::Int(5), Value::Int(-1), Value::Null, Value::Int(-1)]);
}

#[test]
fn std_string_functions_match_their_statements() {
    let st = |t: &str| t.to_string();
    // empty pattern: matches at every character boundary
    assert_eq!(replace(&st("abc"), &st(""), &st("-")), "-a-b-c-");
    assert_eq!(replace(&st(""), &st(""), &st("-")), "-");
    // left to right, without overlapping
    assert_eq!(replace(&st("aaa"), &st("aa"), &st("b")), "ba");
    assert_eq!(replace(&st("xyz"), &st("q"), &st("b")), "xyz");
    assert_eq!(split(&st("rust"), &st("")), vec![st(""), st("r"), st("u"), st("s"), st("t"), st("")]);
    assert_eq!(split(&st(""), &st("")), vec![st(""), st("")]);
    assert_eq!(split(&st(""), &st(",")), vec![st("")]);
    assert_eq!(split(&st("a,"), &st(",")), vec![st("a"), st("")]);
    assert_eq!(split(&st("aaa"), &st("aa")), vec![st(""), st("a")]);
    // White_Space: U+0085 and U+205F are whitespace, U+180E and U+200B are not
    assert_eq!(trim(&st("\u{85}x\u{205F}")), "x");
    assert_eq!(trim(&st("\u{180E}x\u{200B}")), "\u{180E}x\u{200B}");
    assert_eq!(trim(&st("\u{1c}x\u{b}")), "\u{1c}x");
}
