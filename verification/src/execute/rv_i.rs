//! Executors for the RV32I base integer instructions: arithmetic, logic,
//! comparisons, branches, jumps, loads, stores and environment calls.

use vstd::prelude::*;

use crate::bus::Bus;
use crate::cpu_core::Core;
use crate::decode::{self, ExecutionReturnData};
use crate::disassemble::{
    disasm_format_b, disasm_format_i, disasm_format_j, disasm_format_r, disasm_format_s,
    disasm_format_u,
};
use crate::execute::{
    alu_apply, alu_i_post, alu_r_post, auipc_post, branch_apply, branch_post, fence_post,
    jal_post, jalr_post, load_post, lui_post, store_byte_post, store_halfword_post,
    store_word_post, trap_set_post, AluOp, BranchOp, LoadKind,
};
use crate::trap::{Exception, Trap};
use crate::{signed32, GprUnsigned, MachineInstruction, RvCoreError};

verus! {

/// Shared executor for the R-format ALU instructions.
pub(crate) fn execute_shift_arithmetic_logical_compare_r(
    raw: MachineInstruction,
    core: &mut Core,
    disasm: bool,
    op: AluOp,
    mnemonic: &str,
) -> (r: Result<Option<ExecutionReturnData>, RvCoreError>)
    requires
        old(core).wf(),
    ensures
        alu_r_post(op, raw, *old(core), *final(core), r, disasm),
{
    let operands = decode::parse_r_type(raw);
    let rs1 = core.read_register(operands.rs1).unwrap();
    let rs2 = core.read_register(operands.rs2).unwrap();
    let value = alu_apply(op, rs1, rs2);
    let _ = core.write_register(operands.rd, value).unwrap();

    if disasm {
        Ok(
            Some(
                ExecutionReturnData {
                    pc: None,
                    disasm: Some(disasm_format_r(mnemonic, &operands, core, false)),
                },
            ),
        )
    } else {
        Ok(None)
    }
}

/// Shared executor for the I-format ALU instructions.
pub(crate) fn execute_arithmetic_logical_compare_i(
    raw: MachineInstruction,
    core: &mut Core,
    disasm: bool,
    op: AluOp,
    mnemonic: &str,
) -> (r: Result<Option<ExecutionReturnData>, RvCoreError>)
    requires
        old(core).wf(),
    ensures
        alu_i_post(op, raw, *old(core), *final(core), r, disasm),
{
    let operands = decode::parse_i_type(raw);
    let rs1 = core.read_register(operands.rs1).unwrap();
    let imm = #[verifier::truncate] (operands.imm as GprUnsigned);
    proof {
        let w = decode::spec_imm_i(raw);
        crate::lemma_signed32_to_bits(imm, operands.imm, w);
    }
    let value = alu_apply(op, rs1, imm);
    let _ = core.write_register(operands.rd, value).unwrap();

    if disasm {
        Ok(
            Some(
                ExecutionReturnData {
                    pc: None,
                    disasm: Some(disasm_format_i(mnemonic, &operands, core, false)),
                },
            ),
        )
    } else {
        Ok(None)
    }
}

/// Shared executor for the conditional branches.
pub(crate) fn execute_branch_instruction(
    mnemonic: &str,
    raw: MachineInstruction,
    core: &mut Core,
    disasm: bool,
    op: BranchOp,
) -> (r: Result<Option<ExecutionReturnData>, RvCoreError>)
    requires
        old(core).wf(),
    ensures
        branch_post(op, raw, *old(core), *final(core), r, disasm),
{
    let operands = decode::parse_b_type(raw);
    let rs1 = core.read_register(operands.rs1).unwrap();
    let rs2 = core.read_register(operands.rs2).unwrap();

    let imm = #[verifier::truncate] (operands.imm as GprUnsigned);
    proof {
        let w = decode::spec_imm_b(raw);
        crate::lemma_signed32_to_bits(imm, operands.imm, w);
    }
    let pc: Option<u32> = if branch_apply(op, rs1, rs2) {
        let new_pc = core.get_pc().wrapping_add(imm);
        Some(new_pc)
    } else {
        None
    };

    let disasm_text: Option<String> = if disasm {
        Some(disasm_format_b(mnemonic, &operands, core, false))
    } else {
        None
    };

    if pc.is_none() && disasm_text.is_none() {
        Ok(None)
    } else {
        Ok(Some(ExecutionReturnData { pc, disasm: disasm_text }))
    }
}

/// Shared executor for the loads.
pub(crate) fn execute_load_i_type(
    kind: LoadKind,
    mnemonic: &str,
    raw: MachineInstruction,
    core: &mut Core,
    bus: &mut Bus,
    disasm: bool,
) -> (r: Result<Option<ExecutionReturnData>, RvCoreError>)
    requires
        old(core).wf(),
    ensures
        *final(bus) == *old(bus),
        load_post(kind, raw, *old(core), *old(bus), *final(core), r, disasm),
{
    let operands = decode::parse_i_type(raw);
    let rs1 = core.read_register(operands.rs1).unwrap();
    let imm = #[verifier::truncate] (operands.imm as GprUnsigned);
    proof {
        let w = decode::spec_imm_i(raw);
        crate::lemma_signed32_to_bits(imm, operands.imm, w);
    }
    let mem_addr = rs1.wrapping_add(imm);

    let value: GprUnsigned = match kind {
        LoadKind::Byte => {
            match bus.read_byte(mem_addr as usize) {
                Ok(v) => (v as u32) | (
                if v >= 0x80 {
                    0xFFFF_FF00u32
                } else {
                    0u32
                }),
                Err(e) => {
                    return Err(RvCoreError::CpuPeripheralsError(e));
                },
            }
        },
        LoadKind::ByteUnsigned => {
            match bus.read_byte(mem_addr as usize) {
                Ok(v) => v as u32,
                Err(e) => {
                    return Err(RvCoreError::CpuPeripheralsError(e));
                },
            }
        },
        LoadKind::Halfword => {
            match bus.read_halfword(mem_addr as usize) {
                Ok(v) => (v as u32) | (
                if v >= 0x8000 {
                    0xFFFF_0000u32
                } else {
                    0u32
                }),
                Err(e) => {
                    return Err(RvCoreError::CpuPeripheralsError(e));
                },
            }
        },
        LoadKind::HalfwordUnsigned => {
            match bus.read_halfword(mem_addr as usize) {
                Ok(v) => v as u32,
                Err(e) => {
                    return Err(RvCoreError::CpuPeripheralsError(e));
                },
            }
        },
        LoadKind::Word => {
            match bus.read_word(mem_addr as usize) {
                Ok(v) => v,
                Err(e) => {
                    return Err(RvCoreError::CpuPeripheralsError(e));
                },
            }
        },
    };
    let _ = core.write_register(operands.rd, value).unwrap();

    if disasm {
        Ok(
            Some(
                ExecutionReturnData {
                    pc: None,
                    disasm: Some(disasm_format_i(mnemonic, &operands, core, false)),
                },
            ),
        )
    } else {
        Ok(None)
    }
}

pub(crate) fn execute_add(
    raw: MachineInstruction,
    core: &mut Core,
    _bus: &mut Bus,
    disasm: bool,
) -> (r: Result<Option<ExecutionReturnData>, RvCoreError>)
    requires
        old(core).wf(),
    ensures
        *final(_bus) == *old(_bus),
        alu_r_post(AluOp::Add, raw, *old(core), *final(core), r, disasm),
{
    execute_shift_arithmetic_logical_compare_r(raw, core, disasm, AluOp::Add, "ADD")
}

pub(crate) fn execute_addi(
    raw: MachineInstruction,
    core: &mut Core,
    _bus: &mut Bus,
    disasm: bool,
) -> (r: Result<Option<ExecutionReturnData>, RvCoreError>)
    requires
        old(core).wf(),
    ensures
        *final(_bus) == *old(_bus),
        alu_i_post(AluOp::Add, raw, *old(core), *final(core), r, disasm),
{
    execute_arithmetic_logical_compare_i(raw, core, disasm, AluOp::Add, "ADDI")
}

pub(crate) fn execute_and(
    raw: MachineInstruction,
    core: &mut Core,
    _bus: &mut Bus,
    disasm: bool,
) -> (r: Result<Option<ExecutionReturnData>, RvCoreError>)
    requires
        old(core).wf(),
    ensures
        *final(_bus) == *old(_bus),
        alu_r_post(AluOp::And, raw, *old(core), *final(core), r, disasm),
{
    execute_shift_arithmetic_logical_compare_r(raw, core, disasm, AluOp::And, "AND")
}

pub(crate) fn execute_andi(
    raw: MachineInstruction,
    core: &mut Core,
    _bus: &mut Bus,
    disasm: bool,
) -> (r: Result<Option<ExecutionReturnData>, RvCoreError>)
    requires
        old(core).wf(),
    ensures
        *final(_bus) == *old(_bus),
        alu_i_post(AluOp::And, raw, *old(core), *final(core), r, disasm),
{
    execute_arithmetic_logical_compare_i(raw, core, disasm, AluOp::And, "ANDI")
}

pub(crate) fn execute_auipc(
    raw: MachineInstruction,
    core: &mut Core,
    _bus: &mut Bus,
    disasm: bool,
) -> (r: Result<Option<ExecutionReturnData>, RvCoreError>)
    requires
        old(core).wf(),
    ensures
        *final(_bus) == *old(_bus),
        auipc_post(raw, *old(core), *final(core), r, disasm),
{
    let operands = decode::parse_u_type(raw);
    let imm = #[verifier::truncate] (operands.imm as GprUnsigned);
    proof {
        let w = decode::spec_imm_u(raw);
        crate::lemma_signed32_to_bits(imm, operands.imm, w);
    }
    let rd_val = core.get_pc().wrapping_add(imm);
    let _ = core.write_register(operands.rd, rd_val).unwrap();

    if disasm {
        Ok(
            Some(
                ExecutionReturnData {
                    pc: None,
                    disasm: Some(disasm_format_u("AUIPC", &operands, core, false)),
                },
            ),
        )
    } else {
        Ok(None)
    }
}

pub(crate) fn execute_beq(
    raw: MachineInstruction,
    core: &mut Core,
    _bus: &mut Bus,
    disasm: bool,
) -> (r: Result<Option<ExecutionReturnData>, RvCoreError>)
    requires
        old(core).wf(),
    ensures
        *final(_bus) == *old(_bus),
        branch_post(BranchOp::Beq, raw, *old(core), *final(core), r, disasm),
{
    execute_branch_instruction("BEQ", raw, core, disasm, BranchOp::Beq)
}

pub(crate) fn execute_bge(
    raw: MachineInstruction,
    core: &mut Core,
    _bus: &mut Bus,
    disasm: bool,
) -> (r: Result<Option<ExecutionReturnData>, RvCoreError>)
    requires
        old(core).wf(),
    ensures
        *final(_bus) == *old(_bus),
        branch_post(BranchOp::Bge, raw, *old(core), *final(core), r, disasm),
{
    execute_branch_instruction("BGE", raw, core, disasm, BranchOp::Bge)
}

pub(crate) fn execute_bgeu(
    raw: MachineInstruction,
    core: &mut Core,
    _bus: &mut Bus,
    disasm: bool,
) -> (r: Result<Option<ExecutionReturnData>, RvCoreError>)
    requires
        old(core).wf(),
    ensures
        *final(_bus) == *old(_bus),
        branch_post(BranchOp::Bgeu, raw, *old(core), *final(core), r, disasm),
{
    execute_branch_instruction("BGEU", raw, core, disasm, BranchOp::Bgeu)
}

pub(crate) fn execute_blt(
    raw: MachineInstruction,
    core: &mut Core,
    _bus: &mut Bus,
    disasm: bool,
) -> (r: Result<Option<ExecutionReturnData>, RvCoreError>)
    requires
        old(core).wf(),
    ensures
        *final(_bus) == *old(_bus),
        branch_post(BranchOp::Blt, raw, *old(core), *final(core), r, disasm),
{
    execute_branch_instruction("BLT", raw, core, disasm, BranchOp::Blt)
}

pub(crate) fn execute_bltu(
    raw: MachineInstruction,
    core: &mut Core,
    _bus: &mut Bus,
    disasm: bool,
) -> (r: Result<Option<ExecutionReturnData>, RvCoreError>)
    requires
        old(core).wf(),
    ensures
        *final(_bus) == *old(_bus),
        branch_post(BranchOp::Bltu, raw, *old(core), *final(core), r, disasm),
{
    execute_branch_instruction("BLTU", raw, core, disasm, BranchOp::Bltu)
}

pub(crate) fn execute_bne(
    raw: MachineInstruction,
    core: &mut Core,
    _bus: &mut Bus,
    disasm: bool,
) -> (r: Result<Option<ExecutionReturnData>, RvCoreError>)
    requires
        old(core).wf(),
    ensures
        *final(_bus) == *old(_bus),
        branch_post(BranchOp::Bne, raw, *old(core), *final(core), r, disasm),
{
    execute_branch_instruction("BNE", raw, core, disasm, BranchOp::Bne)
}

pub(crate) fn execute_ebreak(
    raw: MachineInstruction,
    core: &mut Core,
    _bus: &mut Bus,
    disasm: bool,
) -> (r: Result<Option<ExecutionReturnData>, RvCoreError>)
    requires
        old(core).wf(),
    ensures
        *final(_bus) == *old(_bus),
        trap_set_post(Exception::Breakpoint, raw, *old(core), *final(core), r, disasm),
{
    let _ = core.set_trap(Trap::Exception(Exception::Breakpoint), raw);

    if disasm {
        Ok(
            Some(
                ExecutionReturnData {
                    pc: None,
                    disasm: Some(crate::disassemble::owned_str("EBREAK")),
                },
            ),
        )
    } else {
        Ok(None)
    }
}

pub(crate) fn execute_ecall(
    raw: MachineInstruction,
    core: &mut Core,
    _bus: &mut Bus,
    disasm: bool,
) -> (r: Result<Option<ExecutionReturnData>, RvCoreError>)
    requires
        old(core).wf(),
    ensures
        *final(_bus) == *old(_bus),
        trap_set_post(Exception::ECallFromMMode, raw, *old(core), *final(core), r, disasm),
{
    let _ = core.set_trap(Trap::Exception(Exception::ECallFromMMode), raw);

    if disasm {
        Ok(
            Some(
                ExecutionReturnData {
                    pc: None,
                    disasm: Some(crate::disassemble::owned_str("ECALL")),
                },
            ),
        )
    } else {
        Ok(None)
    }
}

/// FENCE orders memory accesses; with one core and no caches there is
/// nothing to order, and its semantics are not implemented: it fails loudly
/// so coverage gaps stay visible.
pub(crate) fn execute_fence(
    raw: MachineInstruction,
    core: &mut Core,
    _bus: &mut Bus,
    _disasm: bool,
) -> (r: Result<Option<ExecutionReturnData>, RvCoreError>)
    requires
        old(core).wf(),
    ensures
        *final(_bus) == *old(_bus),
        fence_post(raw, *old(core), *final(core), r),
{
    Err(RvCoreError::UnimplementedInstruction(raw))
}

pub(crate) fn execute_jal(
    raw: MachineInstruction,
    core: &mut Core,
    _bus: &mut Bus,
    disasm: bool,
) -> (r: Result<Option<ExecutionReturnData>, RvCoreError>)
    requires
        old(core).wf(),
    ensures
        *final(_bus) == *old(_bus),
        jal_post(raw, *old(core), *final(core), r, disasm),
{
    let operands = decode::parse_j_type(raw);
    let imm = #[verifier::truncate] (operands.imm as GprUnsigned);
    proof {
        let w = decode::spec_imm_j(raw);
        crate::lemma_signed32_to_bits(imm, operands.imm, w);
    }
    let pc = core.get_pc();
    let next_pc = pc.wrapping_add(4);
    let new_pc = pc.wrapping_add(imm);
    let _ = core.write_register(operands.rd, next_pc).unwrap();

    if disasm {
        Ok(
            Some(
                ExecutionReturnData {
                    pc: Some(new_pc),
                    disasm: Some(disasm_format_j("JAL", &operands, core, false)),
                },
            ),
        )
    } else {
        Ok(Some(ExecutionReturnData { pc: Some(new_pc), disasm: None }))
    }
}

pub(crate) fn execute_jalr(
    raw: MachineInstruction,
    core: &mut Core,
    _bus: &mut Bus,
    disasm: bool,
) -> (r: Result<Option<ExecutionReturnData>, RvCoreError>)
    requires
        old(core).wf(),
    ensures
        *final(_bus) == *old(_bus),
        jalr_post(raw, *old(core), *final(core), r, disasm),
{
    let operands = decode::parse_i_type(raw);
    let imm = #[verifier::truncate] (operands.imm as GprUnsigned);
    proof {
        let w = decode::spec_imm_i(raw);
        crate::lemma_signed32_to_bits(imm, operands.imm, w);
    }
    let next_pc = core.get_pc().wrapping_add(4);

    let rs1 = core.read_register(operands.rs1).unwrap();
    let new_pc = rs1.wrapping_add(imm);
    let _ = core.write_register(operands.rd, next_pc).unwrap();

    if disasm {
        Ok(
            Some(
                ExecutionReturnData {
                    pc: Some(new_pc),
                    disasm: Some(disasm_format_i("JALR", &operands, core, false)),
                },
            ),
        )
    } else {
        Ok(Some(ExecutionReturnData { pc: Some(new_pc), disasm: None }))
    }
}

pub(crate) fn execute_lb(
    raw: MachineInstruction,
    core: &mut Core,
    bus: &mut Bus,
    disasm: bool,
) -> (r: Result<Option<ExecutionReturnData>, RvCoreError>)
    requires
        old(core).wf(),
    ensures
        *final(bus) == *old(bus),
        load_post(LoadKind::Byte, raw, *old(core), *old(bus), *final(core), r, disasm),
{
    execute_load_i_type(LoadKind::Byte, "LB", raw, core, bus, disasm)
}

pub(crate) fn execute_lbu(
    raw: MachineInstruction,
    core: &mut Core,
    bus: &mut Bus,
    disasm: bool,
) -> (r: Result<Option<ExecutionReturnData>, RvCoreError>)
    requires
        old(core).wf(),
    ensures
        *final(bus) == *old(bus),
        load_post(LoadKind::ByteUnsigned, raw, *old(core), *old(bus), *final(core), r, disasm),
{
    execute_load_i_type(LoadKind::ByteUnsigned, "LBU", raw, core, bus, disasm)
}

pub(crate) fn execute_lh(
    raw: MachineInstruction,
    core: &mut Core,
    bus: &mut Bus,
    disasm: bool,
) -> (r: Result<Option<ExecutionReturnData>, RvCoreError>)
    requires
        old(core).wf(),
    ensures
        *final(bus) == *old(bus),
        load_post(LoadKind::Halfword, raw, *old(core), *old(bus), *final(core), r, disasm),
{
    execute_load_i_type(LoadKind::Halfword, "LH", raw, core, bus, disasm)
}

pub(crate) fn execute_lhu(
    raw: MachineInstruction,
    core: &mut Core,
    bus: &mut Bus,
    disasm: bool,
) -> (r: Result<Option<ExecutionReturnData>, RvCoreError>)
    requires
        old(core).wf(),
    ensures
        *final(bus) == *old(bus),
        load_post(
            LoadKind::HalfwordUnsigned,
            raw,
            *old(core),
            *old(bus),
            *final(core),
            r,
            disasm,
        ),
{
    execute_load_i_type(LoadKind::HalfwordUnsigned, "LHU", raw, core, bus, disasm)
}

pub(crate) fn execute_lui(
    raw: MachineInstruction,
    core: &mut Core,
    _bus: &mut Bus,
    disasm: bool,
) -> (r: Result<Option<ExecutionReturnData>, RvCoreError>)
    requires
        old(core).wf(),
    ensures
        *final(_bus) == *old(_bus),
        lui_post(raw, *old(core), *final(core), r, disasm),
{
    let operands = decode::parse_u_type(raw);
    let imm = #[verifier::truncate] (operands.imm as GprUnsigned);
    proof {
        let w = decode::spec_imm_u(raw);
        crate::lemma_signed32_to_bits(imm, operands.imm, w);
    }
    let _ = core.write_register(operands.rd, imm).unwrap();

    if disasm {
        Ok(
            Some(
                ExecutionReturnData {
                    pc: None,
                    disasm: Some(disasm_format_u("LUI", &operands, core, false)),
                },
            ),
        )
    } else {
        Ok(None)
    }
}

pub(crate) fn execute_lw(
    raw: MachineInstruction,
    core: &mut Core,
    bus: &mut Bus,
    disasm: bool,
) -> (r: Result<Option<ExecutionReturnData>, RvCoreError>)
    requires
        old(core).wf(),
    ensures
        *final(bus) == *old(bus),
        load_post(LoadKind::Word, raw, *old(core), *old(bus), *final(core), r, disasm),
{
    execute_load_i_type(LoadKind::Word, "LW", raw, core, bus, disasm)
}

pub(crate) fn execute_or(
    raw: MachineInstruction,
    core: &mut Core,
    _bus: &mut Bus,
    disasm: bool,
) -> (r: Result<Option<ExecutionReturnData>, RvCoreError>)
    requires
        old(core).wf(),
    ensures
        *final(_bus) == *old(_bus),
        alu_r_post(AluOp::Or, raw, *old(core), *final(core), r, disasm),
{
    execute_shift_arithmetic_logical_compare_r(raw, core, disasm, AluOp::Or, "OR")
}

pub(crate) fn execute_ori(
    raw: MachineInstruction,
    core: &mut Core,
    _bus: &mut Bus,
    disasm: bool,
) -> (r: Result<Option<ExecutionReturnData>, RvCoreError>)
    requires
        old(core).wf(),
    ensures
        *final(_bus) == *old(_bus),
        alu_i_post(AluOp::Or, raw, *old(core), *final(core), r, disasm),
{
    execute_arithmetic_logical_compare_i(raw, core, disasm, AluOp::Or, "ORI")
}

pub(crate) fn execute_sb(
    raw: MachineInstruction,
    core: &mut Core,
    bus: &mut Bus,
    disasm: bool,
) -> (r: Result<Option<ExecutionReturnData>, RvCoreError>)
    requires
        old(core).wf(),
    ensures
        final(core).wf(),
        store_byte_post(raw, *old(core), *old(bus), *final(core), *final(bus), r, disasm),
{
    let operands = decode::parse_s_type(raw);
    let rs1 = core.read_register(operands.rs1).unwrap();
    let imm = #[verifier::truncate] (operands.imm as GprUnsigned);
    proof {
        let w = decode::spec_imm_s(raw);
        crate::lemma_signed32_to_bits(imm, operands.imm, w);
    }
    let mem_addr = rs1.wrapping_add(imm);

    let rs2 = core.read_register(operands.rs2).unwrap();
    let b = #[verifier::truncate] (rs2 as u8);
    proof {
        assert(b == (rs2 & 0xff) as u8) by (bit_vector)
            requires
                b == rs2 as u8,
        ;
    }

    match bus.write_byte(mem_addr as usize, b) {
        Ok(()) => {},
        Err(e) => {
            return Err(RvCoreError::CpuPeripheralsError(e));
        },
    }

    if disasm {
        Ok(
            Some(
                ExecutionReturnData {
                    pc: None,
                    disasm: Some(disasm_format_s("SB", &operands, core, false)),
                },
            ),
        )
    } else {
        Ok(None)
    }
}

pub(crate) fn execute_sh(
    raw: MachineInstruction,
    core: &mut Core,
    bus: &mut Bus,
    disasm: bool,
) -> (r: Result<Option<ExecutionReturnData>, RvCoreError>)
    requires
        old(core).wf(),
    ensures
        final(core).wf(),
        store_halfword_post(raw, *old(core), *old(bus), *final(core), *final(bus), r, disasm),
{
    let operands = decode::parse_s_type(raw);
    let rs1 = core.read_register(operands.rs1).unwrap();
    let imm = #[verifier::truncate] (operands.imm as GprUnsigned);
    proof {
        let w = decode::spec_imm_s(raw);
        crate::lemma_signed32_to_bits(imm, operands.imm, w);
    }
    let mem_addr = rs1.wrapping_add(imm);

    let rs2 = core.read_register(operands.rs2).unwrap();
    let h = #[verifier::truncate] (rs2 as u16);
    proof {
        assert(h == (rs2 & 0xffff) as u16) by (bit_vector)
            requires
                h == rs2 as u16,
        ;
    }

    match bus.write_halfword(mem_addr as usize, h) {
        Ok(()) => {},
        Err(e) => {
            return Err(RvCoreError::CpuPeripheralsError(e));
        },
    }

    if disasm {
        Ok(
            Some(
                ExecutionReturnData {
                    pc: None,
                    disasm: Some(disasm_format_s("SH", &operands, core, false)),
                },
            ),
        )
    } else {
        Ok(None)
    }
}

pub(crate) fn execute_sll(
    raw: MachineInstruction,
    core: &mut Core,
    _bus: &mut Bus,
    disasm: bool,
) -> (r: Result<Option<ExecutionReturnData>, RvCoreError>)
    requires
        old(core).wf(),
    ensures
        *final(_bus) == *old(_bus),
        alu_r_post(AluOp::Sll, raw, *old(core), *final(core), r, disasm),
{
    execute_shift_arithmetic_logical_compare_r(raw, core, disasm, AluOp::Sll, "SLL")
}

pub(crate) fn execute_slt(
    raw: MachineInstruction,
    core: &mut Core,
    _bus: &mut Bus,
    disasm: bool,
) -> (r: Result<Option<ExecutionReturnData>, RvCoreError>)
    requires
        old(core).wf(),
    ensures
        *final(_bus) == *old(_bus),
        alu_r_post(AluOp::Slt, raw, *old(core), *final(core), r, disasm),
{
    execute_shift_arithmetic_logical_compare_r(raw, core, disasm, AluOp::Slt, "SLT")
}

pub(crate) fn execute_slti(
    raw: MachineInstruction,
    core: &mut Core,
    _bus: &mut Bus,
    disasm: bool,
) -> (r: Result<Option<ExecutionReturnData>, RvCoreError>)
    requires
        old(core).wf(),
    ensures
        *final(_bus) == *old(_bus),
        alu_i_post(AluOp::Slt, raw, *old(core), *final(core), r, disasm),
{
    execute_arithmetic_logical_compare_i(raw, core, disasm, AluOp::Slt, "SLTI")
}

pub(crate) fn execute_sltiu(
    raw: MachineInstruction,
    core: &mut Core,
    _bus: &mut Bus,
    disasm: bool,
) -> (r: Result<Option<ExecutionReturnData>, RvCoreError>)
    requires
        old(core).wf(),
    ensures
        *final(_bus) == *old(_bus),
        alu_i_post(AluOp::Sltu, raw, *old(core), *final(core), r, disasm),
{
    execute_arithmetic_logical_compare_i(raw, core, disasm, AluOp::Sltu, "SLTIU")
}

pub(crate) fn execute_sltu(
    raw: MachineInstruction,
    core: &mut Core,
    _bus: &mut Bus,
    disasm: bool,
) -> (r: Result<Option<ExecutionReturnData>, RvCoreError>)
    requires
        old(core).wf(),
    ensures
        *final(_bus) == *old(_bus),
        alu_r_post(AluOp::Sltu, raw, *old(core), *final(core), r, disasm),
{
    execute_shift_arithmetic_logical_compare_r(raw, core, disasm, AluOp::Sltu, "SLTU")
}

pub(crate) fn execute_sra(
    raw: MachineInstruction,
    core: &mut Core,
    _bus: &mut Bus,
    disasm: bool,
) -> (r: Result<Option<ExecutionReturnData>, RvCoreError>)
    requires
        old(core).wf(),
    ensures
        *final(_bus) == *old(_bus),
        alu_r_post(AluOp::Sra, raw, *old(core), *final(core), r, disasm),
{
    execute_shift_arithmetic_logical_compare_r(raw, core, disasm, AluOp::Sra, "SRA")
}

pub(crate) fn execute_srl(
    raw: MachineInstruction,
    core: &mut Core,
    _bus: &mut Bus,
    disasm: bool,
) -> (r: Result<Option<ExecutionReturnData>, RvCoreError>)
    requires
        old(core).wf(),
    ensures
        *final(_bus) == *old(_bus),
        alu_r_post(AluOp::Srl, raw, *old(core), *final(core), r, disasm),
{
    execute_shift_arithmetic_logical_compare_r(raw, core, disasm, AluOp::Srl, "SRL")
}

pub(crate) fn execute_sub(
    raw: MachineInstruction,
    core: &mut Core,
    _bus: &mut Bus,
    disasm: bool,
) -> (r: Result<Option<ExecutionReturnData>, RvCoreError>)
    requires
        old(core).wf(),
    ensures
        *final(_bus) == *old(_bus),
        alu_r_post(AluOp::Sub, raw, *old(core), *final(core), r, disasm),
{
    execute_shift_arithmetic_logical_compare_r(raw, core, disasm, AluOp::Sub, "SUB")
}

pub(crate) fn execute_sw(
    raw: MachineInstruction,
    core: &mut Core,
    bus: &mut Bus,
    disasm: bool,
) -> (r: Result<Option<ExecutionReturnData>, RvCoreError>)
    requires
        old(core).wf(),
    ensures
        final(core).wf(),
        store_word_post(raw, *old(core), *old(bus), *final(core), *final(bus), r, disasm),
{
    let operands = decode::parse_s_type(raw);
    let rs1 = core.read_register(operands.rs1).unwrap();
    let imm = #[verifier::truncate] (operands.imm as GprUnsigned);
    proof {
        let w = decode::spec_imm_s(raw);
        crate::lemma_signed32_to_bits(imm, operands.imm, w);
    }
    let mem_addr = rs1.wrapping_add(imm);

    let rs2 = core.read_register(operands.rs2).unwrap();

    match bus.write_word(mem_addr as usize, rs2) {
        Ok(()) => {},
        Err(e) => {
            return Err(RvCoreError::CpuPeripheralsError(e));
        },
    }

    if disasm {
        Ok(
            Some(
                ExecutionReturnData {
                    pc: None,
                    disasm: Some(disasm_format_s("SW", &operands, core, false)),
                },
            ),
        )
    } else {
        Ok(None)
    }
}

pub(crate) fn execute_xor(
    raw: MachineInstruction,
    core: &mut Core,
    _bus: &mut Bus,
    disasm: bool,
) -> (r: Result<Option<ExecutionReturnData>, RvCoreError>)
    requires
        old(core).wf(),
    ensures
        *final(_bus) == *old(_bus),
        alu_r_post(AluOp::Xor, raw, *old(core), *final(core), r, disasm),
{
    execute_shift_arithmetic_logical_compare_r(raw, core, disasm, AluOp::Xor, "XOR")
}

pub(crate) fn execute_xori(
    raw: MachineInstruction,
    core: &mut Core,
    _bus: &mut Bus,
    disasm: bool,
) -> (r: Result<Option<ExecutionReturnData>, RvCoreError>)
    requires
        old(core).wf(),
    ensures
        *final(_bus) == *old(_bus),
        alu_i_post(AluOp::Xor, raw, *old(core), *final(core), r, disasm),
{
    execute_arithmetic_logical_compare_i(raw, core, disasm, AluOp::Xor, "XORI")
}

} // verus!
