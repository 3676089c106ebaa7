//! Disassembly text for tracing.  The strings are purely advisory: they are
//! formatted mnemonics and operands for logging and never influence control
//! flow or register state.

use vstd::prelude::*;
use vstd::string::StringExecFns;

use crate::cpu_core::Core;
use crate::decode::{FormatB, FormatI, FormatJ, FormatR, FormatS, FormatU};

verus! {

/// An owned copy of a string slice.
pub(crate) fn owned_str(s: &str) -> (r: String)
    ensures
        r@ == s@,
{
    String::from_str(s)
}

/// Appends one decimal digit.
fn append_digit(s: &mut String, d: u8)
    requires
        d < 10,
{
    if d == 0 {
        s.append("0");
    } else if d == 1 {
        s.append("1");
    } else if d == 2 {
        s.append("2");
    } else if d == 3 {
        s.append("3");
    } else if d == 4 {
        s.append("4");
    } else if d == 5 {
        s.append("5");
    } else if d == 6 {
        s.append("6");
    } else if d == 7 {
        s.append("7");
    } else if d == 8 {
        s.append("8");
    } else {
        s.append("9");
    }
}

/// Appends a number in decimal.
fn append_u64(s: &mut String, v: u64) {
    let mut digits: Vec<u8> = Vec::new();
    let mut x = v;
    if x == 0 {
        digits.push(0);
    }
    while x > 0
        invariant
            forall|j: int| 0 <= j < digits@.len() ==> digits@[j] < 10,
        decreases x,
    {
        digits.push((x % 10) as u8);
        x = x / 10;
    }
    let mut i = digits.len();
    while i > 0
        invariant
            i <= digits@.len(),
            forall|j: int| 0 <= j < digits@.len() ==> digits@[j] < 10,
        decreases i,
    {
        i = i - 1;
        let d = digits[i];
        append_digit(s, d);
    }
}

/// Appends a signed number in decimal.
fn append_i32(s: &mut String, v: i32) {
    if v < 0 {
        s.append("-");
        let m: u64 = (-(v as i64)) as u64;
        append_u64(s, m);
    } else {
        append_u64(s, v as u64);
    }
}

/// Appends a register operand, as `x<index>` or by mnemonic name.
fn append_reg(s: &mut String, core: &Core, index: usize, use_reg_name: bool)
    requires
        index < 32,
{
    if use_reg_name {
        if let Some(name) = core.get_reg_name_by_index(index) {
            s.append(name);
        }
    } else {
        s.append("x");
        append_u64(s, index as u64);
    }
}

/// The disassembly of an R-format instruction.
pub(crate) fn disasm_format_r(
    name: &str,
    operands: &FormatR,
    core: &Core,
    use_reg_name: bool,
) -> String
    requires
        operands.rd < 32,
        operands.rs1 < 32,
        operands.rs2 < 32,
{
    let mut s = String::new();
    s.append(name);
    s.append(" ");
    append_reg(&mut s, core, operands.rd, use_reg_name);
    s.append(", ");
    append_reg(&mut s, core, operands.rs1, use_reg_name);
    s.append(", ");
    append_reg(&mut s, core, operands.rs2, use_reg_name);
    s
}

/// The disassembly of an I-format instruction.
pub(crate) fn disasm_format_i(
    name: &str,
    operands: &FormatI,
    core: &Core,
    use_reg_name: bool,
) -> String
    requires
        operands.rd < 32,
        operands.rs1 < 32,
{
    let mut s = String::new();
    s.append(name);
    s.append(" ");
    append_reg(&mut s, core, operands.rd, use_reg_name);
    s.append(", ");
    append_reg(&mut s, core, operands.rs1, use_reg_name);
    s.append(", ");
    append_i32(&mut s, operands.imm);
    s
}

/// The disassembly of an S-format instruction.
pub(crate) fn disasm_format_s(
    name: &str,
    operands: &FormatS,
    core: &Core,
    use_reg_name: bool,
) -> String
    requires
        operands.rs1 < 32,
        operands.rs2 < 32,
{
    let mut s = String::new();
    s.append(name);
    s.append(" ");
    append_reg(&mut s, core, operands.rs1, use_reg_name);
    s.append(", ");
    append_reg(&mut s, core, operands.rs2, use_reg_name);
    s.append(", ");
    append_i32(&mut s, operands.imm);
    s
}

/// The disassembly of a B-format instruction.
pub(crate) fn disasm_format_b(
    name: &str,
    operands: &FormatB,
    core: &Core,
    use_reg_name: bool,
) -> String
    requires
        operands.rs1 < 32,
        operands.rs2 < 32,
{
    let mut s = String::new();
    s.append(name);
    s.append(" ");
    append_reg(&mut s, core, operands.rs1, use_reg_name);
    s.append(", ");
    append_reg(&mut s, core, operands.rs2, use_reg_name);
    s.append(", ");
    append_i32(&mut s, operands.imm);
    s
}

/// The disassembly of a U-format instruction.
pub(crate) fn disasm_format_u(
    name: &str,
    operands: &FormatU,
    core: &Core,
    use_reg_name: bool,
) -> String
    requires
        operands.rd < 32,
{
    let mut s = String::new();
    s.append(name);
    s.append(" ");
    append_reg(&mut s, core, operands.rd, use_reg_name);
    s.append(", ");
    append_i32(&mut s, operands.imm);
    s
}

/// The disassembly of a J-format instruction.
pub(crate) fn disasm_format_j(
    name: &str,
    operands: &FormatJ,
    core: &Core,
    use_reg_name: bool,
) -> String
    requires
        operands.rd < 32,
{
    let mut s = String::new();
    s.append(name);
    s.append(" ");
    append_reg(&mut s, core, operands.rd, use_reg_name);
    s.append(", ");
    append_i32(&mut s, operands.imm);
    s
}

/// Appends a 32-bit value as eight hexadecimal digits after `0x`.
pub(crate) fn append_hex32(s: &mut String, v: u32) {
    s.append("0x");
    let mut shift: u32 = 32;
    while shift > 0
        invariant
            shift <= 32,
            shift % 4 == 0,
        decreases shift,
    {
        shift = shift - 4;
        proof {
            assert(((v >> shift) & 0xf) < 16) by (bit_vector);
        }
        let d = ((v >> shift) & 0xf) as u8;
        if d < 10 {
            append_digit(s, d);
        } else if d == 10 {
            s.append("a");
        } else if d == 11 {
            s.append("b");
        } else if d == 12 {
            s.append("c");
        } else if d == 13 {
            s.append("d");
        } else if d == 14 {
            s.append("e");
        } else {
            s.append("f");
        }
    }
}

} // verus!
