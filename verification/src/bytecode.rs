//! The instruction stream: decoding of instruction operands.
//!
//! An instruction is an opcode byte followed by its operands, each a `u32`
//! in little-endian order (4 bytes).
use vstd::prelude::*;

verus! {

/// The value of the little-endian `u32` whose bytes start at `ip`, if all
/// four bytes lie in `code`.
pub open spec fn operand(code: Seq<u8>, ip: int) -> Option<u32> {
    if 0 <= ip && ip + 4 <= code.len() {
        Some(
            (code[ip] as int + code[ip + 1] as int * 256 + code[ip + 2] as int * 65536 + code[ip
                + 3] as int * 16777216) as u32,
        )
    } else {
        None
    }
}

/// The error for an operand that runs past the end of the code.
pub open spec fn operand_error() -> Seq<char> {
    "read_u32: operand runs past the end of the code"@
}

/// Reads the `u32` operand at `ip` and moves `ip` past it; fails, leaving `ip`
/// where it was, when the operand runs past the end of the code.
pub fn read_u32(code: &[u8], ip: &mut usize) -> (r: Result<u32, String>)
    ensures
        match operand(code@, *old(ip) as int) {
            Some(v) => r == Ok::<u32, String>(v) && *final(ip) == *old(ip) + 4,
            None => r is Err && *final(ip) == *old(ip),
        },
        r matches Err(e) ==> e@ == operand_error(),
{
    let at = *ip;
    if at > code.len() || code.len() - at < 4 {
        return Err(String::from_str("read_u32: operand runs past the end of the code"));
    }
    let v: u32 = (code[at] as u32) + (code[at + 1] as u32) * 256 + (code[at + 2] as u32) * 65536
        + (code[at + 3] as u32) * 16777216;
    *ip = at + 4;
    Ok(v)
}

} // verus!
