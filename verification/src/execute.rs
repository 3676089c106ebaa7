//! The execution engine: one semantic function per instruction mnemonic,
//! reading and writing registers and CSRs, issuing bus accesses, requesting
//! PC overrides and raising traps.
//!
//! This module holds the operation taxonomy, the specification of every
//! instruction's effect, and the dispatch from a decoded instruction to its
//! executor.

use vstd::prelude::*;

pub mod rv32_i;
pub mod rv_i;
pub mod rv_system;
pub mod rv_zicsr;

use crate::bus::{
    spec_bus_read_byte, spec_bus_read_halfword, spec_bus_read_word, spec_bus_write_byte_post,
    spec_bus_write_byte_result, spec_bus_write_halfword_post, spec_bus_write_halfword_result,
    spec_bus_write_word_post, spec_bus_write_word_result, Bus,
};
use crate::cpu_core::{regs_after_write, spec_privilege_mode, Core};
use crate::csr::{
    csr_written_value, is_known_csr, CsrError, CSR_MEPC, CSR_MSTATUS, CSR_MTVAL, MSTATUS_MPIE,
    MSTATUS_MPP,
};
use crate::decode::{
    spec_imm_b, spec_imm_i, spec_imm_j, spec_imm_u, spec_rd, spec_rs1, spec_rs2,
    ExecutionReturnData,
};
use crate::decoder::InstructionKind;
use crate::peripherals::CpuPeripheralsError;
use crate::trap::{Exception, Trap};
use crate::{signed32, MachineInstruction, RvCoreError};

verus! {

/// The arithmetic, logical, shift and comparison operations of the base set.
#[derive(Debug, Clone, Copy, PartialEq, Eq, Structural)]
pub enum AluOp {
    Add,
    Sub,
    And,
    Or,
    Xor,
    Sll,
    Srl,
    Sra,
    Slt,
    Sltu,
}

/// The branch comparisons of the base set.
#[derive(Debug, Clone, Copy, PartialEq, Eq, Structural)]
pub enum BranchOp {
    Beq,
    Bne,
    Blt,
    Bge,
    Bltu,
    Bgeu,
}

/// The load widths and extensions of the base set.
#[derive(Debug, Clone, Copy, PartialEq, Eq, Structural)]
pub enum LoadKind {
    Byte,
    ByteUnsigned,
    Halfword,
    HalfwordUnsigned,
    Word,
}

/// The read-modify-write rules of the CSR instructions.
#[derive(Debug, Clone, Copy, PartialEq, Eq, Structural)]
pub enum CsrOp {
    ReadWrite,
    ReadSet,
    ReadClear,
}

/// A byte sign-extended to 32 bits.
pub open spec fn sext8(b: u8) -> u32 {
    (b as u32) | (if b >= 0x80 {
        0xFFFF_FF00u32
    } else {
        0u32
    })
}

/// A halfword sign-extended to 32 bits.
pub open spec fn sext16(h: u16) -> u32 {
    (h as u32) | (if h >= 0x8000 {
        0xFFFF_0000u32
    } else {
        0u32
    })
}

/// An arithmetic right shift by `sh < 32`: the sign bit fills the vacated
/// positions.
pub open spec fn sra32(a: u32, sh: u32) -> u32 {
    (a >> sh) | (if a & 0x8000_0000 != 0 {
        !(0xFFFF_FFFFu32 >> sh)
    } else {
        0u32
    })
}

/// The value an ALU operation computes.  Addition and subtraction wrap;
/// shifts use the low five bits of the right operand; comparisons yield 0
/// or 1.
pub open spec fn alu_eval(op: AluOp, a: u32, b: u32) -> u32 {
    match op {
        AluOp::Add => vstd::wrapping::u32_specs::wrapping_add(a, b),
        AluOp::Sub => vstd::wrapping::u32_specs::wrapping_sub(a, b),
        AluOp::And => a & b,
        AluOp::Or => a | b,
        AluOp::Xor => a ^ b,
        AluOp::Sll => a << (b & 0x1f),
        AluOp::Srl => a >> (b & 0x1f),
        AluOp::Sra => sra32(a, b & 0x1f),
        AluOp::Slt => if signed32(a) < signed32(b) {
            1u32
        } else {
            0u32
        },
        AluOp::Sltu => if a < b {
            1u32
        } else {
            0u32
        },
    }
}

/// Whether a branch comparison holds.  BEQ and BNE are sign-agnostic; BLT
/// and BGE are signed; BLTU and BGEU are unsigned.
pub open spec fn branch_taken(op: BranchOp, a: u32, b: u32) -> bool {
    match op {
        BranchOp::Beq => a == b,
        BranchOp::Bne => a != b,
        BranchOp::Blt => signed32(a) < signed32(b),
        BranchOp::Bge => signed32(a) >= signed32(b),
        BranchOp::Bltu => a < b,
        BranchOp::Bgeu => a >= b,
    }
}

/// The PC override an executor's return value carries, if any.
pub open spec fn erd_pc(o: Option<ExecutionReturnData>) -> Option<u32> {
    match o {
        Option::None => None,
        Option::Some(rd) => rd.pc,
    }
}

/// The successful shape of an executor's return value: the PC override is
/// exactly `target`, a disassembly string is present exactly when requested,
/// and with neither an override nor a request the value is `None`.
pub open spec fn exec_ok_shape(
    r: Result<Option<ExecutionReturnData>, RvCoreError>,
    disasm: bool,
    target: Option<u32>,
) -> bool {
    match r {
        Ok(o) => {
            &&& erd_pc(o) == target
            &&& (disasm ==> (o matches Some(rd) && rd.disasm is Some))
            &&& (!disasm ==> (o matches Some(rd) ==> rd.disasm is None))
            &&& (!disasm && target is None ==> o is None)
        },
        Err(_) => false,
    }
}

/// The register values a core pair shares everything but.
pub open spec fn frame_regs_only(a: Core, b: Core) -> bool {
    &&& b.spec_pc() == a.spec_pc()
    &&& b.spec_csr() == a.spec_csr()
    &&& b.spec_trap() == a.spec_trap()
    &&& b.spec_mode() == a.spec_mode()
}

/// Two cores in the same state.
pub open spec fn core_state_eq(a: Core, b: Core) -> bool {
    &&& frame_regs_only(a, b)
    &&& b.spec_regs() == a.spec_regs()
}

/// The effect of an R-format ALU instruction: rd receives the operation of
/// rs1 and rs2; nothing else changes.
pub open spec fn alu_r_post(
    op: AluOp,
    raw: u32,
    c0: Core,
    c1: Core,
    r: Result<Option<ExecutionReturnData>, RvCoreError>,
    disasm: bool,
) -> bool {
    &&& c1.wf()
    &&& frame_regs_only(c0, c1)
    &&& c1.spec_regs() == regs_after_write(
        c0.spec_regs(),
        spec_rd(raw) as int,
        alu_eval(
            op,
            c0.spec_regs()[spec_rs1(raw) as int],
            c0.spec_regs()[spec_rs2(raw) as int],
        ),
    )
    &&& exec_ok_shape(r, disasm, None)
}

/// The effect of an I-format ALU instruction: rd receives the operation of
/// rs1 and the sign-extended immediate; nothing else changes.
pub open spec fn alu_i_post(
    op: AluOp,
    raw: u32,
    c0: Core,
    c1: Core,
    r: Result<Option<ExecutionReturnData>, RvCoreError>,
    disasm: bool,
) -> bool {
    &&& c1.wf()
    &&& frame_regs_only(c0, c1)
    &&& c1.spec_regs() == regs_after_write(
        c0.spec_regs(),
        spec_rd(raw) as int,
        alu_eval(op, c0.spec_regs()[spec_rs1(raw) as int], spec_imm_i(raw)),
    )
    &&& exec_ok_shape(r, disasm, None)
}

/// The effect of an immediate shift: a shift amount with bit 5 set is a
/// `ShamtIsInvalid` error; otherwise rd receives the shift of rs1.
pub open spec fn shift_imm_post(
    op: AluOp,
    raw: u32,
    c0: Core,
    c1: Core,
    r: Result<Option<ExecutionReturnData>, RvCoreError>,
    disasm: bool,
) -> bool {
    let shamt = spec_imm_i(raw) & 0x3f;
    &&& c1.wf()
    &&& frame_regs_only(c0, c1)
    &&& if shamt & 0x20 != 0 {
        r == Err::<Option<ExecutionReturnData>, RvCoreError>(RvCoreError::ShamtIsInvalid(shamt))
            && c1.spec_regs() == c0.spec_regs()
    } else {
        c1.spec_regs() == regs_after_write(
            c0.spec_regs(),
            spec_rd(raw) as int,
            alu_eval(op, c0.spec_regs()[spec_rs1(raw) as int], shamt),
        ) && exec_ok_shape(r, disasm, None)
    }
}

/// The effect of a branch: the core is untouched; a taken branch overrides
/// the PC with `pc + imm` (modular), an untaken one falls through.
pub open spec fn branch_post(
    op: BranchOp,
    raw: u32,
    c0: Core,
    c1: Core,
    r: Result<Option<ExecutionReturnData>, RvCoreError>,
    disasm: bool,
) -> bool {
    let taken = branch_taken(
        op,
        c0.spec_regs()[spec_rs1(raw) as int],
        c0.spec_regs()[spec_rs2(raw) as int],
    );
    &&& c1.wf()
    &&& core_state_eq(c0, c1)
    &&& exec_ok_shape(
        r,
        disasm,
        if taken {
            Some(vstd::wrapping::u32_specs::wrapping_add(c0.spec_pc(), spec_imm_b(raw)))
        } else {
            None
        },
    )
}

/// The effect of LUI: rd receives the upper immediate.
pub open spec fn lui_post(
    raw: u32,
    c0: Core,
    c1: Core,
    r: Result<Option<ExecutionReturnData>, RvCoreError>,
    disasm: bool,
) -> bool {
    &&& c1.wf()
    &&& frame_regs_only(c0, c1)
    &&& c1.spec_regs() == regs_after_write(c0.spec_regs(), spec_rd(raw) as int, spec_imm_u(raw))
    &&& exec_ok_shape(r, disasm, None)
}

/// The effect of AUIPC: rd receives `pc + imm` (modular).
pub open spec fn auipc_post(
    raw: u32,
    c0: Core,
    c1: Core,
    r: Result<Option<ExecutionReturnData>, RvCoreError>,
    disasm: bool,
) -> bool {
    &&& c1.wf()
    &&& frame_regs_only(c0, c1)
    &&& c1.spec_regs() == regs_after_write(
        c0.spec_regs(),
        spec_rd(raw) as int,
        vstd::wrapping::u32_specs::wrapping_add(c0.spec_pc(), spec_imm_u(raw)),
    )
    &&& exec_ok_shape(r, disasm, None)
}

/// The effect of JAL: rd receives the link address `pc + 4` and the PC is
/// overridden with `pc + imm` (both modular).
pub open spec fn jal_post(
    raw: u32,
    c0: Core,
    c1: Core,
    r: Result<Option<ExecutionReturnData>, RvCoreError>,
    disasm: bool,
) -> bool {
    &&& c1.wf()
    &&& frame_regs_only(c0, c1)
    &&& c1.spec_regs() == regs_after_write(
        c0.spec_regs(),
        spec_rd(raw) as int,
        vstd::wrapping::u32_specs::wrapping_add(c0.spec_pc(), 4u32),
    )
    &&& exec_ok_shape(
        r,
        disasm,
        Some(vstd::wrapping::u32_specs::wrapping_add(c0.spec_pc(), spec_imm_j(raw))),
    )
}

/// The effect of JALR: rd receives the link address `pc + 4`; the PC is
/// overridden with `rs1 + imm` (not PC-relative), rs1 read before rd is
/// written.
pub open spec fn jalr_post(
    raw: u32,
    c0: Core,
    c1: Core,
    r: Result<Option<ExecutionReturnData>, RvCoreError>,
    disasm: bool,
) -> bool {
    &&& c1.wf()
    &&& frame_regs_only(c0, c1)
    &&& c1.spec_regs() == regs_after_write(
        c0.spec_regs(),
        spec_rd(raw) as int,
        vstd::wrapping::u32_specs::wrapping_add(c0.spec_pc(), 4u32),
    )
    &&& exec_ok_shape(
        r,
        disasm,
        Some(
            vstd::wrapping::u32_specs::wrapping_add(
                c0.spec_regs()[spec_rs1(raw) as int],
                spec_imm_i(raw),
            ),
        ),
    )
}

/// The value a load of the given kind yields from the bus, extended per its
/// mnemonic, or the device error.
pub open spec fn spec_load_value(kind: LoadKind, b: Bus, addr: u32) -> Result<
    u32,
    CpuPeripheralsError,
> {
    match kind {
        LoadKind::Byte => match spec_bus_read_byte(b, addr as usize) {
            Ok(v) => Ok(sext8(v)),
            Err(e) => Err(e),
        },
        LoadKind::ByteUnsigned => match spec_bus_read_byte(b, addr as usize) {
            Ok(v) => Ok(v as u32),
            Err(e) => Err(e),
        },
        LoadKind::Halfword => match spec_bus_read_halfword(b, addr as usize) {
            Ok(v) => Ok(sext16(v)),
            Err(e) => Err(e),
        },
        LoadKind::HalfwordUnsigned => match spec_bus_read_halfword(b, addr as usize) {
            Ok(v) => Ok(v as u32),
            Err(e) => Err(e),
        },
        LoadKind::Word => match spec_bus_read_word(b, addr as usize) {
            Ok(v) => Ok(v),
            Err(e) => Err(e),
        },
    }
}

/// The effect of a load: the address is `rs1 + imm` (modular); on success rd
/// receives the extended value; a device error propagates and leaves the
/// core untouched.  The bus never changes.
pub open spec fn load_post(
    kind: LoadKind,
    raw: u32,
    c0: Core,
    b0: Bus,
    c1: Core,
    r: Result<Option<ExecutionReturnData>, RvCoreError>,
    disasm: bool,
) -> bool {
    let addr = vstd::wrapping::u32_specs::wrapping_add(
        c0.spec_regs()[spec_rs1(raw) as int],
        spec_imm_i(raw),
    );
    &&& c1.wf()
    &&& frame_regs_only(c0, c1)
    &&& match spec_load_value(kind, b0, addr) {
        Ok(v) => c1.spec_regs() == regs_after_write(c0.spec_regs(), spec_rd(raw) as int, v)
            && exec_ok_shape(r, disasm, None),
        Err(e) => r == Err::<Option<ExecutionReturnData>, RvCoreError>(
            RvCoreError::CpuPeripheralsError(e),
        ) && c1.spec_regs() == c0.spec_regs(),
    }
}

/// The effect of SB: the low byte of rs2 goes to `rs1 + imm` (modular); the
/// core is untouched; a device error propagates.
pub open spec fn store_byte_post(
    raw: u32,
    c0: Core,
    b0: Bus,
    c1: Core,
    b1: Bus,
    r: Result<Option<ExecutionReturnData>, RvCoreError>,
    disasm: bool,
) -> bool {
    let addr = vstd::wrapping::u32_specs::wrapping_add(
        c0.spec_regs()[spec_rs1(raw) as int],
        crate::decode::spec_imm_s(raw),
    );
    let value = (c0.spec_regs()[spec_rs2(raw) as int] & 0xff) as u8;
    &&& c1.wf()
    &&& core_state_eq(c0, c1)
    &&& spec_bus_write_byte_post(b0, addr as usize, value, b1)
    &&& match spec_bus_write_byte_result(b0, addr as usize, value) {
        Ok(_) => exec_ok_shape(r, disasm, None),
        Err(e) => r == Err::<Option<ExecutionReturnData>, RvCoreError>(
            RvCoreError::CpuPeripheralsError(e),
        ),
    }
}

/// The effect of SH: the low halfword of rs2 goes to `rs1 + imm` (modular).
pub open spec fn store_halfword_post(
    raw: u32,
    c0: Core,
    b0: Bus,
    c1: Core,
    b1: Bus,
    r: Result<Option<ExecutionReturnData>, RvCoreError>,
    disasm: bool,
) -> bool {
    let addr = vstd::wrapping::u32_specs::wrapping_add(
        c0.spec_regs()[spec_rs1(raw) as int],
        crate::decode::spec_imm_s(raw),
    );
    let value = (c0.spec_regs()[spec_rs2(raw) as int] & 0xffff) as u16;
    &&& c1.wf()
    &&& core_state_eq(c0, c1)
    &&& spec_bus_write_halfword_post(b0, addr as usize, value, b1)
    &&& match spec_bus_write_halfword_result(b0, addr as usize, value) {
        Ok(_) => exec_ok_shape(r, disasm, None),
        Err(e) => r == Err::<Option<ExecutionReturnData>, RvCoreError>(
            RvCoreError::CpuPeripheralsError(e),
        ),
    }
}

/// The effect of SW: rs2 goes to `rs1 + imm` (modular).
pub open spec fn store_word_post(
    raw: u32,
    c0: Core,
    b0: Bus,
    c1: Core,
    b1: Bus,
    r: Result<Option<ExecutionReturnData>, RvCoreError>,
    disasm: bool,
) -> bool {
    let addr = vstd::wrapping::u32_specs::wrapping_add(
        c0.spec_regs()[spec_rs1(raw) as int],
        crate::decode::spec_imm_s(raw),
    );
    let value = c0.spec_regs()[spec_rs2(raw) as int];
    &&& c1.wf()
    &&& core_state_eq(c0, c1)
    &&& spec_bus_write_word_post(b0, addr as usize, value, b1)
    &&& match spec_bus_write_word_result(b0, addr as usize, value) {
        Ok(_) => exec_ok_shape(r, disasm, None),
        Err(e) => r == Err::<Option<ExecutionReturnData>, RvCoreError>(
            RvCoreError::CpuPeripheralsError(e),
        ),
    }
}

/// The effect of ECALL or EBREAK: the pending-trap slot receives the
/// exception and mtval receives the raw word; the PC stays, the handler runs
/// later.
pub open spec fn trap_set_post(
    exception: Exception,
    raw: u32,
    c0: Core,
    c1: Core,
    r: Result<Option<ExecutionReturnData>, RvCoreError>,
    disasm: bool,
) -> bool {
    &&& c1.wf()
    &&& c1.spec_pc() == c0.spec_pc()
    &&& c1.spec_regs() == c0.spec_regs()
    &&& c1.spec_mode() == c0.spec_mode()
    &&& c1.spec_trap() == Some(Trap::Exception(exception))
    &&& c1.spec_csr().spec_read(CSR_MTVAL) == raw
    &&& forall|a: u16|
        is_known_csr(a) && a != CSR_MTVAL ==> #[trigger] c1.spec_csr().spec_read(a)
            == c0.spec_csr().spec_read(a)
    &&& exec_ok_shape(r, disasm, None)
}

/// The mstatus value MRET installs: MIE restored from MPIE, MPIE set, MPP
/// and MPRV cleared.
pub open spec fn mret_status(status: u32) -> u32 {
    let mpie = (status & MSTATUS_MPIE) >> 7;
    (status & !0x21888u32) | (mpie << 3) | (1u32 << 7)
}

/// The effect of MRET: the privilege mode is restored from mstatus.MPP, MIE
/// from MPIE, MPIE is set, MPP and MPRV cleared, and the PC overridden with
/// mepc.
/// An MPP holding the reserved encoding 2 is an `InvalidPrivilegeEncoding`
/// error that changes nothing.
pub open spec fn mret_post(
    raw: u32,
    c0: Core,
    c1: Core,
    r: Result<Option<ExecutionReturnData>, RvCoreError>,
    disasm: bool,
) -> bool {
    let status = c0.spec_csr().spec_read(CSR_MSTATUS);
    let epc = c0.spec_csr().spec_read(CSR_MEPC);
    let mpp = (status & MSTATUS_MPP) >> 11;
    &&& c1.wf()
    &&& c1.spec_pc() == c0.spec_pc()
    &&& c1.spec_regs() == c0.spec_regs()
    &&& c1.spec_trap() == c0.spec_trap()
    &&& if mpp == 2 {
        &&& r == Err::<Option<ExecutionReturnData>, RvCoreError>(
            RvCoreError::InvalidPrivilegeEncoding(mpp),
        )
        &&& c1.spec_mode() == c0.spec_mode()
        &&& c1.spec_csr() == c0.spec_csr()
    } else {
        &&& c1.spec_mode() == spec_privilege_mode(mpp as u8)
        &&& c1.spec_csr().spec_read(CSR_MSTATUS) == mret_status(status)
        &&& forall|a: u16|
            is_known_csr(a) && a != CSR_MSTATUS ==> #[trigger] c1.spec_csr().spec_read(a)
                == c0.spec_csr().spec_read(a)
        &&& exec_ok_shape(r, disasm, Some(epc))
    }
}

/// The effect of WFI: nothing; interrupts are not delivered, so it returns
/// at once.
pub open spec fn wfi_post(
    c0: Core,
    c1: Core,
    r: Result<Option<ExecutionReturnData>, RvCoreError>,
    disasm: bool,
) -> bool {
    &&& c1.wf()
    &&& core_state_eq(c0, c1)
    &&& exec_ok_shape(r, disasm, None)
}

/// The effect of FENCE, whose semantics are not implemented: it fails loudly
/// with `UnimplementedInstruction` and changes nothing.
pub open spec fn fence_post(
    raw: u32,
    c0: Core,
    c1: Core,
    r: Result<Option<ExecutionReturnData>, RvCoreError>,
) -> bool {
    &&& c1.wf()
    &&& core_state_eq(c0, c1)
    &&& r == Err::<Option<ExecutionReturnData>, RvCoreError>(
        RvCoreError::UnimplementedInstruction(raw),
    )
}

/// The CSR address field of a CSR instruction: the immediate's low 12 bits.
pub open spec fn spec_csr_addr(raw: u32) -> u16 {
    (spec_imm_i(raw) & 0xfff) as u16
}

/// The write operand of a CSR instruction.  The immediate forms use the
/// zero-extended 5-bit rs1 field itself; the register forms read the
/// register, except that index 0 uses the raw value 0 directly (an explicit
/// branch, behaviorally equal since x0 reads as 0).
pub open spec fn spec_csr_operand(raw: u32, c0: Core, imm_form: bool) -> u32 {
    if imm_form {
        spec_rs1(raw) as u32
    } else if spec_rs1(raw) == 0 {
        0u32
    } else {
        c0.spec_regs()[spec_rs1(raw) as int]
    }
}

/// The value a CSR read-modify-write rule computes from the old value and
/// the operand: swap, set-bits or clear-bits.
pub open spec fn csr_op_value(op: CsrOp, old_val: u32, operand: u32) -> u32 {
    match op {
        CsrOp::ReadWrite => operand,
        CsrOp::ReadSet => old_val | operand,
        CsrOp::ReadClear => old_val & !operand,
    }
}

/// The effect of a CSR instruction: the old CSR value goes to rd and the
/// CSR receives the rule's result under its writable mask; an unknown CSR
/// address is an `InvalidAddress` error that changes nothing.
pub open spec fn csr_post(
    op: CsrOp,
    imm_form: bool,
    raw: u32,
    c0: Core,
    c1: Core,
    r: Result<Option<ExecutionReturnData>, RvCoreError>,
    disasm: bool,
) -> bool {
    let addr = spec_csr_addr(raw);
    let operand = spec_csr_operand(raw, c0, imm_form);
    let old_val = c0.spec_csr().spec_read(addr);
    &&& c1.wf()
    &&& c1.spec_pc() == c0.spec_pc()
    &&& c1.spec_trap() == c0.spec_trap()
    &&& c1.spec_mode() == c0.spec_mode()
    &&& if is_known_csr(addr) {
        &&& c1.spec_csr().spec_read(addr) == csr_written_value(
            addr,
            old_val,
            csr_op_value(op, old_val, operand),
        )
        &&& forall|a: u16|
            is_known_csr(a) && a != addr ==> #[trigger] c1.spec_csr().spec_read(a)
                == c0.spec_csr().spec_read(a)
        &&& c1.spec_regs() == regs_after_write(c0.spec_regs(), spec_rd(raw) as int, old_val)
        &&& exec_ok_shape(r, disasm, None)
    } else {
        &&& r == Err::<Option<ExecutionReturnData>, RvCoreError>(
            RvCoreError::CsrError(CsrError::InvalidAddress),
        )
        &&& c1.spec_csr() == c0.spec_csr()
        &&& c1.spec_regs() == c0.spec_regs()
    }
}

/// The effect of one decoded instruction on the core and the bus.
pub open spec fn instr_post(
    kind: InstructionKind,
    raw: u32,
    c0: Core,
    b0: Bus,
    c1: Core,
    b1: Bus,
    r: Result<Option<ExecutionReturnData>, RvCoreError>,
    disasm: bool,
) -> bool {
    match kind {
        InstructionKind::Add => b1 == b0 && alu_r_post(AluOp::Add, raw, c0, c1, r, disasm),
        InstructionKind::Sub => b1 == b0 && alu_r_post(AluOp::Sub, raw, c0, c1, r, disasm),
        InstructionKind::And => b1 == b0 && alu_r_post(AluOp::And, raw, c0, c1, r, disasm),
        InstructionKind::Or => b1 == b0 && alu_r_post(AluOp::Or, raw, c0, c1, r, disasm),
        InstructionKind::Xor => b1 == b0 && alu_r_post(AluOp::Xor, raw, c0, c1, r, disasm),
        InstructionKind::Sll => b1 == b0 && alu_r_post(AluOp::Sll, raw, c0, c1, r, disasm),
        InstructionKind::Srl => b1 == b0 && alu_r_post(AluOp::Srl, raw, c0, c1, r, disasm),
        InstructionKind::Sra => b1 == b0 && alu_r_post(AluOp::Sra, raw, c0, c1, r, disasm),
        InstructionKind::Slt => b1 == b0 && alu_r_post(AluOp::Slt, raw, c0, c1, r, disasm),
        InstructionKind::Sltu => b1 == b0 && alu_r_post(AluOp::Sltu, raw, c0, c1, r, disasm),
        InstructionKind::Addi => b1 == b0 && alu_i_post(AluOp::Add, raw, c0, c1, r, disasm),
        InstructionKind::Andi => b1 == b0 && alu_i_post(AluOp::And, raw, c0, c1, r, disasm),
        InstructionKind::Ori => b1 == b0 && alu_i_post(AluOp::Or, raw, c0, c1, r, disasm),
        InstructionKind::Xori => b1 == b0 && alu_i_post(AluOp::Xor, raw, c0, c1, r, disasm),
        InstructionKind::Slti => b1 == b0 && alu_i_post(AluOp::Slt, raw, c0, c1, r, disasm),
        InstructionKind::Sltiu => b1 == b0 && alu_i_post(AluOp::Sltu, raw, c0, c1, r, disasm),
        InstructionKind::Slli => b1 == b0 && shift_imm_post(AluOp::Sll, raw, c0, c1, r, disasm),
        InstructionKind::Srli => b1 == b0 && shift_imm_post(AluOp::Srl, raw, c0, c1, r, disasm),
        InstructionKind::Srai => b1 == b0 && shift_imm_post(AluOp::Sra, raw, c0, c1, r, disasm),
        InstructionKind::Beq => b1 == b0 && branch_post(BranchOp::Beq, raw, c0, c1, r, disasm),
        InstructionKind::Bne => b1 == b0 && branch_post(BranchOp::Bne, raw, c0, c1, r, disasm),
        InstructionKind::Blt => b1 == b0 && branch_post(BranchOp::Blt, raw, c0, c1, r, disasm),
        InstructionKind::Bge => b1 == b0 && branch_post(BranchOp::Bge, raw, c0, c1, r, disasm),
        InstructionKind::Bltu => b1 == b0 && branch_post(BranchOp::Bltu, raw, c0, c1, r, disasm),
        InstructionKind::Bgeu => b1 == b0 && branch_post(BranchOp::Bgeu, raw, c0, c1, r, disasm),
        InstructionKind::Lui => b1 == b0 && lui_post(raw, c0, c1, r, disasm),
        InstructionKind::Auipc => b1 == b0 && auipc_post(raw, c0, c1, r, disasm),
        InstructionKind::Jal => b1 == b0 && jal_post(raw, c0, c1, r, disasm),
        InstructionKind::Jalr => b1 == b0 && jalr_post(raw, c0, c1, r, disasm),
        InstructionKind::Lb => b1 == b0 && load_post(LoadKind::Byte, raw, c0, b0, c1, r, disasm),
        InstructionKind::Lbu => b1 == b0 && load_post(
            LoadKind::ByteUnsigned,
            raw,
            c0,
            b0,
            c1,
            r,
            disasm,
        ),
        InstructionKind::Lh => b1 == b0 && load_post(
            LoadKind::Halfword,
            raw,
            c0,
            b0,
            c1,
            r,
            disasm,
        ),
        InstructionKind::Lhu => b1 == b0 && load_post(
            LoadKind::HalfwordUnsigned,
            raw,
            c0,
            b0,
            c1,
            r,
            disasm,
        ),
        InstructionKind::Lw => b1 == b0 && load_post(LoadKind::Word, raw, c0, b0, c1, r, disasm),
        InstructionKind::Sb => store_byte_post(raw, c0, b0, c1, b1, r, disasm),
        InstructionKind::Sh => store_halfword_post(raw, c0, b0, c1, b1, r, disasm),
        InstructionKind::Sw => store_word_post(raw, c0, b0, c1, b1, r, disasm),
        InstructionKind::Ecall => b1 == b0 && trap_set_post(
            Exception::ECallFromMMode,
            raw,
            c0,
            c1,
            r,
            disasm,
        ),
        InstructionKind::Ebreak => b1 == b0 && trap_set_post(
            Exception::Breakpoint,
            raw,
            c0,
            c1,
            r,
            disasm,
        ),
        InstructionKind::Fence => b1 == b0 && fence_post(raw, c0, c1, r),
        InstructionKind::Mret => b1 == b0 && mret_post(raw, c0, c1, r, disasm),
        InstructionKind::Wfi => b1 == b0 && wfi_post(c0, c1, r, disasm),
        InstructionKind::Csrrw => b1 == b0 && csr_post(CsrOp::ReadWrite, false, raw, c0, c1, r, disasm),
        InstructionKind::Csrrwi => b1 == b0 && csr_post(CsrOp::ReadWrite, true, raw, c0, c1, r, disasm),
        InstructionKind::Csrrs => b1 == b0 && csr_post(CsrOp::ReadSet, false, raw, c0, c1, r, disasm),
        InstructionKind::Csrrsi => b1 == b0 && csr_post(CsrOp::ReadSet, true, raw, c0, c1, r, disasm),
        InstructionKind::Csrrc => b1 == b0 && csr_post(CsrOp::ReadClear, false, raw, c0, c1, r, disasm),
        InstructionKind::Csrrci => b1 == b0 && csr_post(CsrOp::ReadClear, true, raw, c0, c1, r, disasm),
    }
}

/// Executes one decoded instruction against the core and the bus.
pub fn execute_instruction(
    kind: InstructionKind,
    raw: MachineInstruction,
    core: &mut Core,
    bus: &mut Bus,
    disasm: bool,
) -> (r: Result<Option<ExecutionReturnData>, RvCoreError>)
    requires
        old(core).wf(),
    ensures
        final(core).wf(),
        instr_post(kind, raw, *old(core), *old(bus), *final(core), *final(bus), r, disasm),
{
    match kind {
        InstructionKind::Add => rv_i::execute_add(raw, core, bus, disasm),
        InstructionKind::Sub => rv_i::execute_sub(raw, core, bus, disasm),
        InstructionKind::And => rv_i::execute_and(raw, core, bus, disasm),
        InstructionKind::Or => rv_i::execute_or(raw, core, bus, disasm),
        InstructionKind::Xor => rv_i::execute_xor(raw, core, bus, disasm),
        InstructionKind::Sll => rv_i::execute_sll(raw, core, bus, disasm),
        InstructionKind::Srl => rv_i::execute_srl(raw, core, bus, disasm),
        InstructionKind::Sra => rv_i::execute_sra(raw, core, bus, disasm),
        InstructionKind::Slt => rv_i::execute_slt(raw, core, bus, disasm),
        InstructionKind::Sltu => rv_i::execute_sltu(raw, core, bus, disasm),
        InstructionKind::Addi => rv_i::execute_addi(raw, core, bus, disasm),
        InstructionKind::Andi => rv_i::execute_andi(raw, core, bus, disasm),
        InstructionKind::Ori => rv_i::execute_ori(raw, core, bus, disasm),
        InstructionKind::Xori => rv_i::execute_xori(raw, core, bus, disasm),
        InstructionKind::Slti => rv_i::execute_slti(raw, core, bus, disasm),
        InstructionKind::Sltiu => rv_i::execute_sltiu(raw, core, bus, disasm),
        InstructionKind::Slli => rv32_i::execute_slli(raw, core, bus, disasm),
        InstructionKind::Srli => rv32_i::execute_srli(raw, core, bus, disasm),
        InstructionKind::Srai => rv32_i::execute_srai(raw, core, bus, disasm),
        InstructionKind::Beq => rv_i::execute_beq(raw, core, bus, disasm),
        InstructionKind::Bne => rv_i::execute_bne(raw, core, bus, disasm),
        InstructionKind::Blt => rv_i::execute_blt(raw, core, bus, disasm),
        InstructionKind::Bge => rv_i::execute_bge(raw, core, bus, disasm),
        InstructionKind::Bltu => rv_i::execute_bltu(raw, core, bus, disasm),
        InstructionKind::Bgeu => rv_i::execute_bgeu(raw, core, bus, disasm),
        InstructionKind::Lui => rv_i::execute_lui(raw, core, bus, disasm),
        InstructionKind::Auipc => rv_i::execute_auipc(raw, core, bus, disasm),
        InstructionKind::Jal => rv_i::execute_jal(raw, core, bus, disasm),
        InstructionKind::Jalr => rv_i::execute_jalr(raw, core, bus, disasm),
        InstructionKind::Lb => rv_i::execute_lb(raw, core, bus, disasm),
        InstructionKind::Lbu => rv_i::execute_lbu(raw, core, bus, disasm),
        InstructionKind::Lh => rv_i::execute_lh(raw, core, bus, disasm),
        InstructionKind::Lhu => rv_i::execute_lhu(raw, core, bus, disasm),
        InstructionKind::Lw => rv_i::execute_lw(raw, core, bus, disasm),
        InstructionKind::Sb => rv_i::execute_sb(raw, core, bus, disasm),
        InstructionKind::Sh => rv_i::execute_sh(raw, core, bus, disasm),
        InstructionKind::Sw => rv_i::execute_sw(raw, core, bus, disasm),
        InstructionKind::Ecall => rv_i::execute_ecall(raw, core, bus, disasm),
        InstructionKind::Ebreak => rv_i::execute_ebreak(raw, core, bus, disasm),
        InstructionKind::Fence => rv_i::execute_fence(raw, core, bus, disasm),
        InstructionKind::Mret => rv_system::execute_mret(raw, core, bus, disasm),
        InstructionKind::Wfi => rv_system::execute_wfi(raw, core, bus, disasm),
        InstructionKind::Csrrw => rv_zicsr::execute_csrrw(raw, core, bus, disasm),
        InstructionKind::Csrrwi => rv_zicsr::execute_csrrwi(raw, core, bus, disasm),
        InstructionKind::Csrrs => rv_zicsr::execute_csrrs(raw, core, bus, disasm),
        InstructionKind::Csrrsi => rv_zicsr::execute_csrrsi(raw, core, bus, disasm),
        InstructionKind::Csrrc => rv_zicsr::execute_csrrc(raw, core, bus, disasm),
        InstructionKind::Csrrci => rv_zicsr::execute_csrrci(raw, core, bus, disasm),
    }
}


/// Law: an SW followed by an LW whose computed address `rs1 + imm` equals
/// the store's, with that address inside a memory device, puts in the
/// load's rd exactly the register value the store wrote: the 32-bit value
/// round-trips through little-endian memory, and the load carries no PC
/// override.
pub proof fn lemma_sw_lw_round_trip(
    raw_s: u32,
    raw_l: u32,
    c0: Core,
    b0: Bus,
    c1: Core,
    b1: Bus,
    c2: Core,
    r1: Result<Option<ExecutionReturnData>, RvCoreError>,
    r2: Result<Option<ExecutionReturnData>, RvCoreError>,
    disasm: bool,
)
    requires
        store_word_post(raw_s, c0, b0, c1, b1, r1, disasm),
        load_post(LoadKind::Word, raw_l, c1, b1, c2, r2, disasm),
        // the load computes the same address as the store
        vstd::wrapping::u32_specs::wrapping_add(
            c1.spec_regs()[spec_rs1(raw_l) as int],
            spec_imm_i(raw_l),
        ) == vstd::wrapping::u32_specs::wrapping_add(
            c0.spec_regs()[spec_rs1(raw_s) as int],
            crate::decode::spec_imm_s(raw_s),
        ),
        // the address lies inside a registered memory device
        match crate::bus::spec_find_device(
            b0.entries(),
            vstd::wrapping::u32_specs::wrapping_add(
                c0.spec_regs()[spec_rs1(raw_s) as int],
                crate::decode::spec_imm_s(raw_s),
            ) as usize,
        ) {
            Some(i) => b0.entries()[i].device is Mem,
            None => false,
        },
        spec_bus_write_word_result(
            b0,
            vstd::wrapping::u32_specs::wrapping_add(
                c0.spec_regs()[spec_rs1(raw_s) as int],
                crate::decode::spec_imm_s(raw_s),
            ) as usize,
            c0.spec_regs()[spec_rs2(raw_s) as int],
        ) is Ok,
    ensures
        r2 is Ok,
        c2.spec_regs() == regs_after_write(
            c1.spec_regs(),
            spec_rd(raw_l) as int,
            c0.spec_regs()[spec_rs2(raw_s) as int],
        ),
        exec_ok_shape(r2, disasm, None),
{
    let addr = vstd::wrapping::u32_specs::wrapping_add(
        c0.spec_regs()[spec_rs1(raw_s) as int],
        crate::decode::spec_imm_s(raw_s),
    );
    let value = c0.spec_regs()[spec_rs2(raw_s) as int];
    crate::bus::lemma_bus_store_load_word(b0, b1, addr as usize, value);
    assert(spec_load_value(LoadKind::Word, b1, addr) == Ok::<u32, CpuPeripheralsError>(value));
}

/// Law: trap entry saves the current privilege mode into mstatus.MPP and
/// switches to Machine mode; the MRET that follows restores exactly the
/// saved mode and overrides the PC with mepc.
pub proof fn lemma_mret_round_trip(
    c0: Core,
    c1: Core,
    c2: Core,
    raw: u32,
    r: Result<Option<ExecutionReturnData>, RvCoreError>,
    disasm: bool,
)
    requires
        c0.wf(),
        c1.spec_mode() is Machine,
        c1.spec_csr().spec_read(CSR_MSTATUS) == crate::cpu_core::mstatus_on_trap_entry(
            c0.spec_csr().spec_read(CSR_MSTATUS),
            crate::cpu_core::spec_privilege_encoding(c0.spec_mode()),
        ),
        mret_post(raw, c1, c2, r, disasm),
    ensures
        c2.spec_mode() == c0.spec_mode(),
        exec_ok_shape(r, disasm, Some(c1.spec_csr().spec_read(CSR_MEPC))),
{
    let old_status = c0.spec_csr().spec_read(CSR_MSTATUS);
    let enc = crate::cpu_core::spec_privilege_encoding(c0.spec_mode());
    let status = c1.spec_csr().spec_read(CSR_MSTATUS);
    assert(enc <= 3 && enc != 2) by {
        let m = c0.spec_mode();
        if m is User {
        } else if m is Supervisor {
        } else if m is Machine {
        } else {
            assert(false);
        }
    };
    assert((status & MSTATUS_MPP) >> 11 == enc) by (bit_vector)
        requires
            status == crate::cpu_core::mstatus_on_trap_entry(old_status, enc),
            enc <= 3,
    ;
    let mpp = (status & MSTATUS_MPP) >> 11;
    assert(mpp == enc);
    assert(mpp as u8 == enc);
    assert(c2.spec_mode() == spec_privilege_mode(mpp as u8));
    assert(spec_privilege_mode(enc) == c0.spec_mode());
}

/// Applies an ALU operation.
pub(crate) fn alu_apply(op: AluOp, a: u32, b: u32) -> (v: u32)
    ensures
        v == alu_eval(op, a, b),
{
    match op {
        AluOp::Add => a.wrapping_add(b),
        AluOp::Sub => a.wrapping_sub(b),
        AluOp::And => a & b,
        AluOp::Or => a | b,
        AluOp::Xor => a ^ b,
        AluOp::Sll => {
            let sh = b & 0x1f;
            proof {
                assert(b & 0x1f < 32) by (bit_vector);
            }
            a << sh
        },
        AluOp::Srl => {
            let sh = b & 0x1f;
            proof {
                assert(b & 0x1f < 32) by (bit_vector);
            }
            a >> sh
        },
        AluOp::Sra => {
            let sh = b & 0x1f;
            proof {
                assert(b & 0x1f < 32) by (bit_vector);
            }
            // arithmetic right shift: the sign bit fills the vacated positions
            let filled: u32 = if (a & 0x8000_0000) != 0 {
                !(0xFFFF_FFFFu32 >> sh)
            } else {
                0
            };
            (a >> sh) | filled
        },
        AluOp::Slt => {
            let sa = #[verifier::truncate] (a as i32);
            let sb = #[verifier::truncate] (b as i32);
            proof {
                crate::lemma_bits_to_signed32(sa, a);
                crate::lemma_bits_to_signed32(sb, b);
            }
            if sa < sb {
                1
            } else {
                0
            }
        },
        AluOp::Sltu => if a < b {
            1
        } else {
            0
        },
    }
}

/// Evaluates a branch comparison.
pub(crate) fn branch_apply(op: BranchOp, a: u32, b: u32) -> (v: bool)
    ensures
        v == branch_taken(op, a, b),
{
    match op {
        BranchOp::Beq => a == b,
        BranchOp::Bne => a != b,
        BranchOp::Blt => {
            let sa = #[verifier::truncate] (a as i32);
            let sb = #[verifier::truncate] (b as i32);
            proof {
                crate::lemma_bits_to_signed32(sa, a);
                crate::lemma_bits_to_signed32(sb, b);
            }
            sa < sb
        },
        BranchOp::Bge => {
            let sa = #[verifier::truncate] (a as i32);
            let sb = #[verifier::truncate] (b as i32);
            proof {
                crate::lemma_bits_to_signed32(sa, a);
                crate::lemma_bits_to_signed32(sb, b);
            }
            sa >= sb
        },
        BranchOp::Bltu => a < b,
        BranchOp::Bgeu => a >= b,
    }
}

} // verus!
