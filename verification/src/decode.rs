//! Instruction format parsers.
//!
//! Pure functions extracting register indices and sign-extended immediates
//! from a 32-bit instruction word, one for each of the six base encodings
//! (R, I, S, B, U, J).  Parsing never fails: malformed fields simply produce
//! a value; choosing the right parser is the decoder's job.

use vstd::prelude::*;

use crate::{signed32, GprSigned, GprUnsigned, MachineInstruction, RegisterIndex};

verus! {

/// The per-step output of an executor: an optional program-counter override
/// (absence means "advance by 4") and an optional disassembly string.
pub struct ExecutionReturnData {
    pub pc: Option<crate::ProgramCounter>,
    pub disasm: Option<String>,
}

/// Operands of an R-format instruction.
#[derive(Debug, PartialEq, Eq, Structural)]
pub struct FormatR {
    pub rd: RegisterIndex,
    pub rs1: RegisterIndex,
    pub rs2: RegisterIndex,
}

/// Operands of an I-format instruction.
#[derive(Debug, PartialEq, Eq, Structural)]
pub struct FormatI {
    pub rd: RegisterIndex,
    pub rs1: RegisterIndex,
    pub imm: GprSigned,
}

/// Operands of an S-format instruction.
#[derive(Debug, PartialEq, Eq, Structural)]
pub struct FormatS {
    pub rs1: RegisterIndex,
    pub rs2: RegisterIndex,
    pub imm: GprSigned,
}

/// Operands of a B-format instruction.
#[derive(Debug, PartialEq, Eq, Structural)]
pub struct FormatB {
    pub rs1: RegisterIndex,
    pub rs2: RegisterIndex,
    pub imm: GprSigned,
}

/// Operands of a U-format instruction.
#[derive(Debug, PartialEq, Eq, Structural)]
pub struct FormatU {
    pub rd: RegisterIndex,
    pub imm: GprSigned,
}

/// Operands of a J-format instruction.
#[derive(Debug, PartialEq, Eq, Structural)]
pub struct FormatJ {
    pub rd: RegisterIndex,
    pub imm: GprSigned,
}

/// The destination register field, bits 11:7.
pub open spec fn spec_rd(inst: u32) -> RegisterIndex {
    ((inst >> 7) & 0x1f) as RegisterIndex
}

/// The first source register field, bits 19:15.
pub open spec fn spec_rs1(inst: u32) -> RegisterIndex {
    ((inst >> 15) & 0x1f) as RegisterIndex
}

/// The second source register field, bits 24:20.
pub open spec fn spec_rs2(inst: u32) -> RegisterIndex {
    ((inst >> 20) & 0x1f) as RegisterIndex
}

/// The I-format immediate: bits 31:20, sign-extended from bit 31.
pub open spec fn spec_imm_i(inst: u32) -> u32 {
    (if inst & 0x8000_0000 != 0 {
        0xFFFF_F800u32
    } else {
        0u32
    }) | ((inst >> 20) & 0x7ff)
}

/// The S-format immediate: bits 31:25 and 11:7, sign-extended from bit 31.
pub open spec fn spec_imm_s(inst: u32) -> u32 {
    (if inst & 0x8000_0000 != 0 {
        0xFFFF_F800u32
    } else {
        0u32
    }) | (((inst >> 20) & 0x7e0) | ((inst >> 7) & 0x1f))
}

/// The B-format immediate: bits 31, 7, 30:25 and 11:8 over an even offset,
/// sign-extended from bit 31.
pub open spec fn spec_imm_b(inst: u32) -> u32 {
    (if inst & 0x8000_0000 != 0 {
        0xFFFF_F000u32
    } else {
        0u32
    }) | ((((inst << 4) & 0x0800) | ((inst >> 20) & 0x07e0)) | ((inst >> 7) & 0x001e))
}

/// The U-format immediate: bits 31:12 shifted into the upper word.
pub open spec fn spec_imm_u(inst: u32) -> u32 {
    (if inst & 0x8000_0000 != 0 {
        0x8000_0000u32
    } else {
        0u32
    }) | (inst & 0x7fff_f000)
}

/// The J-format immediate: bits 31, 19:12, 20 and 30:21 over an even offset,
/// sign-extended from bit 31.
pub open spec fn spec_imm_j(inst: u32) -> u32 {
    (if inst & 0x8000_0000 != 0 {
        0xFFF0_0000u32
    } else {
        0u32
    }) | (((inst & 0xf_f000) | ((inst & 0x0010_0000) >> 9)) | ((inst & 0x7fe0_0000) >> 20))
}

/// The sign bit of a 32-bit instruction word.
pub const SIGN_BIT: u32 = 0x8000_0000;

/// Every register field of an instruction word is an index below 32.
pub proof fn lemma_reg_fields_bounded(inst: u32)
    ensures
        spec_rd(inst) < 32,
        spec_rs1(inst) < 32,
        spec_rs2(inst) < 32,
{
    assert(((inst >> 7) & 0x1f) < 32 && ((inst >> 15) & 0x1f) < 32 && ((inst >> 20) & 0x1f) < 32)
        by (bit_vector);
}

/// The all-ones fill above each format's data bits.
proof fn lemma_sign_fill_constants()
    by (bit_vector)
    ensures
        !0x7ffu32 == 0xFFFF_F800u32,
        !0xfffu32 == 0xFFFF_F000u32,
        !0x7fff_ffffu32 == 0x8000_0000u32,
        !0xf_ffffu32 == 0xFFF0_0000u32,
{
}

/// The upper bits that sign extension fills when the sign bit is set:
/// all ones above the format's data bits.
pub(crate) fn sign_extend_clear_data_bits(data_bits_mask: u32) -> (r: GprUnsigned)
    ensures
        r == !data_bits_mask,
{
    let all_ones: GprUnsigned = u32::MAX;
    assert(0xFFFF_FFFFu32 & !data_bits_mask == !data_bits_mask) by (bit_vector);
    all_ones & !data_bits_mask
}

/// Extracts the register operands of an R-format instruction.
pub fn parse_r_type(inst: MachineInstruction) -> (r: FormatR)
    ensures
        r.rd == spec_rd(inst),
        r.rs1 == spec_rs1(inst),
        r.rs2 == spec_rs2(inst),
        r.rd < 32,
        r.rs1 < 32,
        r.rs2 < 32,
{
    proof {
        lemma_reg_fields_bounded(inst);
    }
    FormatR {
        rd: ((inst >> 7) & 0x1f) as RegisterIndex,
        rs1: ((inst >> 15) & 0x1f) as RegisterIndex,
        rs2: ((inst >> 20) & 0x1f) as RegisterIndex,
    }
}

/// Extracts the operands and sign-extended immediate of an I-format instruction.
pub fn parse_i_type(inst: MachineInstruction) -> (r: FormatI)
    ensures
        r.rd == spec_rd(inst),
        r.rs1 == spec_rs1(inst),
        r.imm == signed32(spec_imm_i(inst)),
        r.rd < 32,
        r.rs1 < 32,
{
    proof {
        lemma_reg_fields_bounded(inst);
    }
    let data_bits_mask: u32 = 0x7ff;
    let sign_bits: GprUnsigned = if (inst & SIGN_BIT) != 0 {
        sign_extend_clear_data_bits(data_bits_mask)
    } else {
        0
    };
    let data_bits: GprUnsigned = (inst >> 20) & data_bits_mask;
    let imm: GprSigned = #[verifier::truncate] ((sign_bits | data_bits) as GprSigned);
    proof {
        lemma_sign_fill_constants();
        let w = sign_bits | data_bits;
        crate::lemma_bits_to_signed32(imm, w);
    }
    FormatI {
        rd: ((inst >> 7) & 0x1f) as RegisterIndex,
        rs1: ((inst >> 15) & 0x1f) as RegisterIndex,
        imm,
    }
}

/// Extracts the operands and sign-extended immediate of an S-format instruction.
pub fn parse_s_type(inst: MachineInstruction) -> (r: FormatS)
    ensures
        r.rs1 == spec_rs1(inst),
        r.rs2 == spec_rs2(inst),
        r.imm == signed32(spec_imm_s(inst)),
        r.rs1 < 32,
        r.rs2 < 32,
{
    proof {
        lemma_reg_fields_bounded(inst);
    }
    let data_bits_mask: u32 = 0x7ff;
    let sign_bits: GprUnsigned = if (inst & SIGN_BIT) != 0 {
        sign_extend_clear_data_bits(data_bits_mask)
    } else {
        0
    };
    let data_bits: GprUnsigned = ((inst >> 20) & 0x7e0) | ((inst >> 7) & 0x1f);
    let imm: GprSigned = #[verifier::truncate] ((sign_bits | data_bits) as GprSigned);
    proof {
        lemma_sign_fill_constants();
        let w = sign_bits | data_bits;
        crate::lemma_bits_to_signed32(imm, w);
    }
    FormatS {
        rs1: ((inst >> 15) & 0x1f) as RegisterIndex,
        rs2: ((inst >> 20) & 0x1f) as RegisterIndex,
        imm,
    }
}

/// Extracts the operands and sign-extended immediate of a B-format instruction.
pub fn parse_b_type(inst: MachineInstruction) -> (r: FormatB)
    ensures
        r.rs1 == spec_rs1(inst),
        r.rs2 == spec_rs2(inst),
        r.imm == signed32(spec_imm_b(inst)),
        r.rs1 < 32,
        r.rs2 < 32,
{
    proof {
        lemma_reg_fields_bounded(inst);
    }
    let data_bits_mask: u32 = 0xfff;
    let sign_bits: GprUnsigned = if (inst & SIGN_BIT) != 0 {
        sign_extend_clear_data_bits(data_bits_mask)
    } else {
        0
    };
    let data_bits: GprUnsigned = ((inst << 4) & 0x0800) | ((inst >> 20) & 0x07e0) | ((inst >> 7)
        & 0x001e);
    let imm: GprSigned = #[verifier::truncate] ((sign_bits | data_bits) as GprSigned);
    proof {
        lemma_sign_fill_constants();
        let w = sign_bits | data_bits;
        crate::lemma_bits_to_signed32(imm, w);
    }
    FormatB {
        rs1: ((inst >> 15) & 0x1f) as RegisterIndex,
        rs2: ((inst >> 20) & 0x1f) as RegisterIndex,
        imm,
    }
}

/// Extracts the operand and upper immediate of a U-format instruction.
pub fn parse_u_type(inst: MachineInstruction) -> (r: FormatU)
    ensures
        r.rd == spec_rd(inst),
        r.imm == signed32(spec_imm_u(inst)),
        r.rd < 32,
{
    proof {
        lemma_reg_fields_bounded(inst);
    }
    let data_bits_mask: u32 = 0x7fff_ffff;
    let sign_bits: GprUnsigned = if (inst & SIGN_BIT) != 0 {
        sign_extend_clear_data_bits(data_bits_mask)
    } else {
        0
    };
    let data_bits: GprUnsigned = inst & 0x7fff_f000;
    let imm: GprSigned = #[verifier::truncate] ((sign_bits | data_bits) as GprSigned);
    proof {
        lemma_sign_fill_constants();
        let w = sign_bits | data_bits;
        crate::lemma_bits_to_signed32(imm, w);
    }
    FormatU { rd: ((inst >> 7) & 0x1f) as RegisterIndex, imm }
}

/// Extracts the operand and sign-extended immediate of a J-format instruction.
pub fn parse_j_type(inst: MachineInstruction) -> (r: FormatJ)
    ensures
        r.rd == spec_rd(inst),
        r.imm == signed32(spec_imm_j(inst)),
        r.rd < 32,
{
    proof {
        lemma_reg_fields_bounded(inst);
    }
    let data_bits_mask: u32 = 0xf_ffff;
    let sign_bits: GprUnsigned = if (inst & SIGN_BIT) != 0 {
        sign_extend_clear_data_bits(data_bits_mask)
    } else {
        0
    };
    let data_bits: GprUnsigned = (inst & 0xf_f000) | ((inst & 0x0010_0000) >> 9) | ((inst
        & 0x7fe0_0000) >> 20);
    let imm: GprSigned = #[verifier::truncate] ((sign_bits | data_bits) as GprSigned);
    proof {
        lemma_sign_fill_constants();
        let w = sign_bits | data_bits;
        crate::lemma_bits_to_signed32(imm, w);
    }
    FormatJ { rd: ((inst >> 7) & 0x1f) as RegisterIndex, imm }
}

} // verus!
