//! Executors for the Zicsr instructions: each reads the old CSR value into
//! rd and writes a new value computed by its read-modify-write rule.

use vstd::prelude::*;

use crate::bus::Bus;
use crate::cpu_core::Core;
use crate::csr::CsrAddrType;
use crate::decode::{self, ExecutionReturnData};
use crate::disassemble::disasm_format_i;
use crate::execute::{csr_post, CsrOp};
use crate::{signed32, GprUnsigned, MachineInstruction, RvCoreError};

verus! {

/// Shared executor for the CSR instructions.  The immediate forms use the
/// zero-extended 5-bit rs1 field itself as the write operand; the register
/// forms read the register, except that when the operand register index is 0
/// the raw value 0 is used directly rather than reading x0 — behaviorally
/// equal since x0 reads as 0, but an explicit branch.
fn execute_csr_instruction(
    raw: MachineInstruction,
    core: &mut Core,
    disasm: bool,
    mnemonic: &str,
    op: CsrOp,
    imm_form: bool,
) -> (r: Result<Option<ExecutionReturnData>, RvCoreError>)
    requires
        old(core).wf(),
    ensures
        csr_post(op, imm_form, raw, *old(core), *final(core), r, disasm),
{
    let operands = decode::parse_i_type(raw);

    let imm = #[verifier::truncate] (operands.imm as GprUnsigned);
    proof {
        let w = decode::spec_imm_i(raw);
        crate::lemma_signed32_to_bits(imm, operands.imm, w);
        assert(imm & 0xfff < 0x1000) by (bit_vector);
    }
    let address = (imm & 0xfff) as CsrAddrType;
    let value: GprUnsigned = if imm_form {
        operands.rs1 as GprUnsigned
    } else if operands.rs1 == 0 {
        0
    } else {
        core.read_register(operands.rs1).unwrap()
    };

    let old_val = match op {
        CsrOp::ReadWrite => core.csrrw(address, value),
        CsrOp::ReadSet => core.csrrs(address, value),
        CsrOp::ReadClear => core.csrrc(address, value),
    };
    let old_val = match old_val {
        Ok(v) => v,
        Err(e) => {
            return Err(RvCoreError::CsrError(e));
        },
    };
    let _ = core.write_register(operands.rd, old_val).unwrap();

    if disasm {
        Ok(
            Some(
                ExecutionReturnData {
                    pc: None,
                    disasm: Some(disasm_format_i(mnemonic, &operands, core, false)),
                },
            ),
        )
    } else {
        Ok(None)
    }
}

pub(crate) fn execute_csrrc(
    raw: MachineInstruction,
    core: &mut Core,
    _bus: &mut Bus,
    disasm: bool,
) -> (r: Result<Option<ExecutionReturnData>, RvCoreError>)
    requires
        old(core).wf(),
    ensures
        *final(_bus) == *old(_bus),
        csr_post(CsrOp::ReadClear, false, raw, *old(core), *final(core), r, disasm),
{
    execute_csr_instruction(raw, core, disasm, "CSRRC", CsrOp::ReadClear, false)
}

pub(crate) fn execute_csrrci(
    raw: MachineInstruction,
    core: &mut Core,
    _bus: &mut Bus,
    disasm: bool,
) -> (r: Result<Option<ExecutionReturnData>, RvCoreError>)
    requires
        old(core).wf(),
    ensures
        *final(_bus) == *old(_bus),
        csr_post(CsrOp::ReadClear, true, raw, *old(core), *final(core), r, disasm),
{
    execute_csr_instruction(raw, core, disasm, "CSRRCI", CsrOp::ReadClear, true)
}

pub(crate) fn execute_csrrs(
    raw: MachineInstruction,
    core: &mut Core,
    _bus: &mut Bus,
    disasm: bool,
) -> (r: Result<Option<ExecutionReturnData>, RvCoreError>)
    requires
        old(core).wf(),
    ensures
        *final(_bus) == *old(_bus),
        csr_post(CsrOp::ReadSet, false, raw, *old(core), *final(core), r, disasm),
{
    execute_csr_instruction(raw, core, disasm, "CSRRS", CsrOp::ReadSet, false)
}

pub(crate) fn execute_csrrsi(
    raw: MachineInstruction,
    core: &mut Core,
    _bus: &mut Bus,
    disasm: bool,
) -> (r: Result<Option<ExecutionReturnData>, RvCoreError>)
    requires
        old(core).wf(),
    ensures
        *final(_bus) == *old(_bus),
        csr_post(CsrOp::ReadSet, true, raw, *old(core), *final(core), r, disasm),
{
    execute_csr_instruction(raw, core, disasm, "CSRRSI", CsrOp::ReadSet, true)
}

pub(crate) fn execute_csrrw(
    raw: MachineInstruction,
    core: &mut Core,
    _bus: &mut Bus,
    disasm: bool,
) -> (r: Result<Option<ExecutionReturnData>, RvCoreError>)
    requires
        old(core).wf(),
    ensures
        *final(_bus) == *old(_bus),
        csr_post(CsrOp::ReadWrite, false, raw, *old(core), *final(core), r, disasm),
{
    execute_csr_instruction(raw, core, disasm, "CSRRW", CsrOp::ReadWrite, false)
}

pub(crate) fn execute_csrrwi(
    raw: MachineInstruction,
    core: &mut Core,
    _bus: &mut Bus,
    disasm: bool,
) -> (r: Result<Option<ExecutionReturnData>, RvCoreError>)
    requires
        old(core).wf(),
    ensures
        *final(_bus) == *old(_bus),
        csr_post(CsrOp::ReadWrite, true, raw, *old(core), *final(core), r, disasm),
{
    execute_csr_instruction(raw, core, disasm, "CSRRWI", CsrOp::ReadWrite, true)
}

} // verus!
