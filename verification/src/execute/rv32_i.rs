//! Executors for the RV32-specific immediate shifts, whose shift amounts
//! are 0 to 31: a shift amount with bit 5 set is rejected.

use vstd::prelude::*;

use crate::bus::Bus;
use crate::cpu_core::Core;
use crate::decode::{self, ExecutionReturnData};
use crate::disassemble::disasm_format_i;
use crate::execute::{alu_apply, shift_imm_post, AluOp};
use crate::{signed32, GprUnsigned, MachineInstruction, RvCoreError};

verus! {

/// Rejects a shift amount outside 0 to 31.
fn check_shamt(shamt: GprUnsigned) -> (r: Result<(), RvCoreError>)
    ensures
        shamt & 0x20 != 0 ==> r == Err::<(), RvCoreError>(RvCoreError::ShamtIsInvalid(shamt)),
        shamt & 0x20 == 0 ==> r == Ok::<(), RvCoreError>(()),
{
    if (shamt & 0x20) != 0 {
        Err(RvCoreError::ShamtIsInvalid(shamt))
    } else {
        Ok(())
    }
}

/// Shared executor for the immediate shift instructions.
fn execute_shift_instruction(
    raw: MachineInstruction,
    core: &mut Core,
    disasm: bool,
    mnemonic: &str,
    op: AluOp,
) -> (r: Result<Option<ExecutionReturnData>, RvCoreError>)
    requires
        old(core).wf(),
    ensures
        shift_imm_post(op, raw, *old(core), *final(core), r, disasm),
{
    let operands = decode::parse_i_type(raw);

    let rs1 = core.read_register(operands.rs1).unwrap();
    let imm = #[verifier::truncate] (operands.imm as GprUnsigned);
    proof {
        let w = decode::spec_imm_i(raw);
        crate::lemma_signed32_to_bits(imm, operands.imm, w);
    }
    let shamt = imm & 0x3f;
    match check_shamt(shamt) {
        Ok(()) => {},
        Err(e) => {
            return Err(e);
        },
    }

    let val = alu_apply(op, rs1, shamt);

    let _ = core.write_register(operands.rd, val).unwrap();

    if disasm {
        Ok(
            Some(
                ExecutionReturnData {
                    pc: None,
                    disasm: Some(disasm_format_i(mnemonic, &operands, core, false)),
                },
            ),
        )
    } else {
        Ok(None)
    }
}

pub(crate) fn execute_slli(
    raw: MachineInstruction,
    core: &mut Core,
    _bus: &mut Bus,
    disasm: bool,
) -> (r: Result<Option<ExecutionReturnData>, RvCoreError>)
    requires
        old(core).wf(),
    ensures
        *final(_bus) == *old(_bus),
        shift_imm_post(AluOp::Sll, raw, *old(core), *final(core), r, disasm),
{
    execute_shift_instruction(raw, core, disasm, "SLLI", AluOp::Sll)
}

pub(crate) fn execute_srai(
    raw: MachineInstruction,
    core: &mut Core,
    _bus: &mut Bus,
    disasm: bool,
) -> (r: Result<Option<ExecutionReturnData>, RvCoreError>)
    requires
        old(core).wf(),
    ensures
        *final(_bus) == *old(_bus),
        shift_imm_post(AluOp::Sra, raw, *old(core), *final(core), r, disasm),
{
    execute_shift_instruction(raw, core, disasm, "SRAI", AluOp::Sra)
}

pub(crate) fn execute_srli(
    raw: MachineInstruction,
    core: &mut Core,
    _bus: &mut Bus,
    disasm: bool,
) -> (r: Result<Option<ExecutionReturnData>, RvCoreError>)
    requires
        old(core).wf(),
    ensures
        *final(_bus) == *old(_bus),
        shift_imm_post(AluOp::Srl, raw, *old(core), *final(core), r, disasm),
{
    execute_shift_instruction(raw, core, disasm, "SRLI", AluOp::Srl)
}

} // verus!
