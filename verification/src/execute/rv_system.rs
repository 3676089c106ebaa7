//! Executors for the machine-mode system instructions MRET and WFI.

use vstd::prelude::*;

use crate::bus::Bus;
use crate::cpu_core::{get_privilege_mode, Core, PrivilegeMode};
use crate::csr::{self, CSR_MEPC, CSR_MSTATUS};
use crate::decode::ExecutionReturnData;
use crate::disassemble::owned_str;
use crate::execute::{mret_post, mret_status, wfi_post};
use crate::{MachineInstruction, RvCoreError};

verus! {

/// MRET: sets the PC to mepc, restores the privilege mode from
/// mstatus.MPP, restores MIE from MPIE, sets MPIE, clears MPP, and
/// recomputes MPRV.  An MPP holding the reserved encoding 2 is an
/// `InvalidPrivilegeEncoding` error and changes nothing.
pub(crate) fn execute_mret(
    _raw: MachineInstruction,
    core: &mut Core,
    _bus: &mut Bus,
    disasm: bool,
) -> (r: Result<Option<ExecutionReturnData>, RvCoreError>)
    requires
        old(core).wf(),
    ensures
        *final(_bus) == *old(_bus),
        mret_post(_raw, *old(core), *final(core), r, disasm),
{
    let epc = core.read_csr(CSR_MEPC).unwrap();
    let status = core.read_csr(CSR_MSTATUS).unwrap();

    let mpie = (status & csr::MSTATUS_MPIE) >> 7;
    let mpp = (status & csr::MSTATUS_MPP) >> 11;
    proof {
        assert((status & csr::MSTATUS_MPP) >> 11 <= 3 && ((status & csr::MSTATUS_MPP) >> 11) >> 11
            == 0) by (bit_vector);
    }
    if mpp == 2 {
        return Err(RvCoreError::InvalidPrivilegeEncoding(mpp));
    }
    // MPRV (Modify PRiVilege) bit
    let mprv: u32 = match get_privilege_mode((mpp >> 11) as u8) {
        PrivilegeMode::Machine => (status & csr::MSTATUS_MPRV) >> 17,
        _ => 0,
    };
    // Override MIE[3] with MPIE[7], set MPIE[7] to 1, set MPP[12:11] to 0
    // and override MPRV[17]
    let new_status = (status & !0x21888u32) | (mprv << 17) | (mpie << 3) | (1u32 << 7);
    proof {
        assert(new_status == mret_status(status)) by (bit_vector)
            requires
                new_status == (status & !0x21888u32) | (mprv << 17) | (((status & 0x00000080u32)
                    >> 7) << 3) | (1u32 << 7),
                mprv == 0,
                mpie == (status & 0x00000080u32) >> 7,
        ;
    }
    match core.write_csr(CSR_MSTATUS, new_status) {
        Ok(()) => {
            proof {
                csr::lemma_full_mask_write(
                    CSR_MSTATUS,
                    old(core).spec_csr().spec_read(CSR_MSTATUS),
                    new_status,
                );
            }
        },
        Err(e) => {
            return Err(RvCoreError::CsrError(e));
        },
    }

    let privilege_mode = if mpp == 0 {
        PrivilegeMode::User
    } else if mpp == 1 {
        PrivilegeMode::Supervisor
    } else {
        PrivilegeMode::Machine
    };

    core.set_privilege_mode(privilege_mode);

    let new_pc = epc;
    if disasm {
        Ok(Some(ExecutionReturnData { pc: Some(new_pc), disasm: Some(owned_str("MRET")) }))
    } else {
        Ok(Some(ExecutionReturnData { pc: Some(new_pc), disasm: None }))
    }
}

/// WFI: a placeholder that returns at once, since no interrupt is ever
/// delivered to wait for.
pub(crate) fn execute_wfi(
    _raw: MachineInstruction,
    core: &mut Core,
    _bus: &mut Bus,
    disasm: bool,
) -> (r: Result<Option<ExecutionReturnData>, RvCoreError>)
    requires
        old(core).wf(),
    ensures
        *final(_bus) == *old(_bus),
        wfi_post(*old(core), *final(core), r, disasm),
{
    if disasm {
        Ok(Some(ExecutionReturnData { pc: None, disasm: Some(owned_str("WFI")) }))
    } else {
        Ok(None)
    }
}

} // verus!
