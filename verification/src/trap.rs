//! The trap and exception taxonomy, mcause encoding, and the vectored or
//! direct dispatch that computes the trap-handler address.

use vstd::prelude::*;

use crate::csr::{Csr, CSR_MCAUSE, CSR_MEPC, CSR_MTVEC};
use crate::decode::ExecutionReturnData;
use crate::{ProgramCounter, RvCoreError};

verus! {

/// The synchronous exception kinds, each with a fixed numeric cause code.
#[derive(Debug, PartialEq, Eq)]
pub enum Exception {
    InstructionAddressMisaligned,
    InstructionAccessFault,
    IllegalInstruction(u32),
    Breakpoint,
    LoadAddressMisaligned,
    LoadAccessFault,
    StoreAmoAddressMisaligned,
    StoreAmoAccessFault,
    ECallFromUMode,
    ECallFromSMode,
    ECallFromMMode,
    InstructionPageFault,
    LoadPageFault,
    StoreAmoPageFault,
}

/// The interrupt kinds, each with a fixed numeric cause code whose top bit
/// is set in mcause.
#[derive(Debug, PartialEq, Eq)]
pub enum Interrupt {
    SupervisorSoftwareInterrupt,
    MachineSoftwareInterrupt,
    SupervisorTimerInterrupt,
    MachineTimerInterrupt,
    SupervisorExternalInterrupt,
    MachineExternalInterrupt,
}

/// A trap: either a synchronous exception or an interrupt.
#[derive(Debug, PartialEq, Eq)]
pub enum Trap {
    Exception(Exception),
    Interrupt(Interrupt),
}

/// The numeric mcause code of an exception.
pub open spec fn exception_cause(e: Exception) -> u32 {
    match e {
        Exception::InstructionAddressMisaligned => 0u32,
        Exception::InstructionAccessFault => 1u32,
        Exception::IllegalInstruction(_) => 2u32,
        Exception::Breakpoint => 3u32,
        Exception::LoadAddressMisaligned => 4u32,
        Exception::LoadAccessFault => 5u32,
        Exception::StoreAmoAddressMisaligned => 6u32,
        Exception::StoreAmoAccessFault => 7u32,
        Exception::ECallFromUMode => 8u32,
        Exception::ECallFromSMode => 9u32,
        Exception::ECallFromMMode => 11u32,
        Exception::InstructionPageFault => 12u32,
        Exception::LoadPageFault => 13u32,
        Exception::StoreAmoPageFault => 15u32,
    }
}

/// The numeric mcause code of an interrupt: the interrupt number with the
/// top bit set.
pub open spec fn interrupt_cause(i: Interrupt) -> u32 {
    match i {
        Interrupt::SupervisorSoftwareInterrupt => 0x8000_0001u32,
        Interrupt::MachineSoftwareInterrupt => 0x8000_0003u32,
        Interrupt::SupervisorTimerInterrupt => 0x8000_0005u32,
        Interrupt::MachineTimerInterrupt => 0x8000_0007u32,
        Interrupt::SupervisorExternalInterrupt => 0x8000_0009u32,
        Interrupt::MachineExternalInterrupt => 0x8000_000Bu32,
    }
}

/// The mcause value a trap writes.
pub open spec fn trap_cause(t: Trap) -> u32 {
    match t {
        Trap::Exception(e) => exception_cause(e),
        Trap::Interrupt(i) => interrupt_cause(i),
    }
}

/// The value mepc receives on trap entry: the faulting instruction's address
/// for an exception, the address that would have executed next for an interrupt.
pub open spec fn trap_epc(t: Trap, current_pc: u32, next_pc: u32) -> u32 {
    match t {
        Trap::Exception(_) => current_pc,
        Trap::Interrupt(_) => next_pc,
    }
}

/// The handler address for a trap with cause `cause` under the given mtvec
/// value: direct mode jumps to the base, vectored mode to
/// `base + 4 * cause_number` (modular), with the cause's top bit cleared.
pub open spec fn trap_target(tvec: u32, cause: u32) -> u32 {
    let base = tvec & !0b11u32;
    if tvec & 0b11 == 0 {
        base
    } else {
        vstd::wrapping::u32_specs::wrapping_add(
            base,
            vstd::wrapping::u32_specs::wrapping_mul(cause & !(1u32 << 31), 4),
        )
    }
}

impl Trap {
    /// Checks the mtvec dispatch mode, then writes mepc and mcause for this
    /// trap and computes the handler address.  A dispatch mode outside
    /// direct (0) and vectored (1) is an unrecoverable `InvalidTrapMode`
    /// error found before anything is written, so mepc and mcause keep
    /// their prior values then.
    pub(crate) fn handle_trap(
        &self,
        csr: &mut Csr,
        current_pc: ProgramCounter,
        new_pc: ProgramCounter,
    ) -> (r: Result<Option<ExecutionReturnData>, RvCoreError>)
        requires
            old(csr).wf(),
        ensures
            final(csr).wf(),
            ({
                let tvec = old(csr).spec_read(CSR_MTVEC);
                let tvec_mode = tvec & 0b11;
                if tvec_mode == 0 || tvec_mode == 1 {
                    &&& final(csr).spec_read(CSR_MEPC) == trap_epc(*self, current_pc, new_pc)
                    &&& final(csr).spec_read(CSR_MCAUSE) == trap_cause(*self)
                    &&& forall|a: u16|
                        crate::csr::is_known_csr(a) && a != CSR_MEPC && a != CSR_MCAUSE
                            ==> #[trigger] final(csr).spec_read(a) == old(csr).spec_read(a)
                    &&& (r matches Ok(Some(rd)) && rd.pc == Some(
                        trap_target(tvec, trap_cause(*self)),
                    ) && rd.disasm is None)
                } else {
                    &&& r == Err::<Option<ExecutionReturnData>, RvCoreError>(
                        RvCoreError::InvalidTrapMode(tvec_mode),
                    )
                    &&& *final(csr) == *old(csr)
                }
            }),
    {
        let mut tvec = match csr.read(CSR_MTVEC) {
            Ok(v) => v,
            Err(e) => {
                return Err(RvCoreError::CsrError(e));
            },
        };
        let tvec_mode = tvec & 0b11;
        if tvec_mode >= 2 {
            return Err(RvCoreError::InvalidTrapMode(tvec_mode));
        }
        tvec = tvec & !0b11u32;

        match self {
            Trap::Exception(_) => {
                let r1 = csr.write(CSR_MEPC, current_pc);
                self.set_mcause_for_exception(csr)?;
            },
            Trap::Interrupt(_) => {
                let r1 = csr.write(CSR_MEPC, new_pc);
                self.set_mcause_for_interrupt(csr)?;
            },
        }
        proof {
            crate::csr::lemma_full_mask_write(
                CSR_MEPC,
                old(csr).spec_read(CSR_MEPC),
                trap_epc(*self, current_pc, new_pc),
            );
        }

        let new_pc: u32 = if tvec_mode == 0 {
            // direct mode
            tvec
        } else {
            // vectored mode
            let cause_no = match csr.read(CSR_MCAUSE) {
                Ok(v) => v & !(1u32 << 31),
                Err(e) => {
                    return Err(RvCoreError::CsrError(e));
                },
            };
            tvec.wrapping_add(cause_no.wrapping_mul(4))
        };

        Ok(Some(ExecutionReturnData { pc: Some(new_pc), disasm: None }))
    }

    /// Writes the exception's numeric code into mcause.
    fn set_mcause_for_exception(&self, csr: &mut Csr) -> (r: Result<(), RvCoreError>)
        requires
            old(csr).wf(),
            self is Exception,
        ensures
            final(csr).wf(),
            r is Ok,
            final(csr).spec_read(CSR_MCAUSE) == trap_cause(*self),
            forall|a: u16|
                crate::csr::is_known_csr(a) && a != CSR_MCAUSE ==> #[trigger] final(csr).spec_read(
                    a,
                ) == old(csr).spec_read(a),
    {
        let value: u32 = match self {
            Trap::Exception(exception) => match exception {
                Exception::InstructionAddressMisaligned => 0,
                Exception::InstructionAccessFault => 1,
                Exception::IllegalInstruction(_instruction) => 2,
                Exception::Breakpoint => 3,
                Exception::LoadAddressMisaligned => 4,
                Exception::LoadAccessFault => 5,
                Exception::StoreAmoAddressMisaligned => 6,
                Exception::StoreAmoAccessFault => 7,
                Exception::ECallFromUMode => 8,
                Exception::ECallFromSMode => 9,
                Exception::ECallFromMMode => 11,
                Exception::InstructionPageFault => 12,
                Exception::LoadPageFault => 13,
                Exception::StoreAmoPageFault => 15,
            },
            Trap::Interrupt(_) => 0,
        };
        match csr.write(CSR_MCAUSE, value) {
            Ok(()) => {
                proof {
                    crate::csr::lemma_full_mask_write(
                        CSR_MCAUSE,
                        old(csr).spec_read(CSR_MCAUSE),
                        value,
                    );
                }
                Ok(())
            },
            Err(e) => Err(RvCoreError::CsrError(e)),
        }
    }

    /// Writes the interrupt's numeric code, top bit set, into mcause.
    fn set_mcause_for_interrupt(&self, csr: &mut Csr) -> (r: Result<(), RvCoreError>)
        requires
            old(csr).wf(),
            self is Interrupt,
        ensures
            final(csr).wf(),
            r is Ok,
            final(csr).spec_read(CSR_MCAUSE) == trap_cause(*self),
            forall|a: u16|
                crate::csr::is_known_csr(a) && a != CSR_MCAUSE ==> #[trigger] final(csr).spec_read(
                    a,
                ) == old(csr).spec_read(a),
    {
        let value: u32 = match self {
            Trap::Interrupt(interrupt) => match interrupt {
                Interrupt::SupervisorSoftwareInterrupt => 0x8000_0001,
                Interrupt::MachineSoftwareInterrupt => 0x8000_0003,
                Interrupt::SupervisorTimerInterrupt => 0x8000_0005,
                Interrupt::MachineTimerInterrupt => 0x8000_0007,
                Interrupt::SupervisorExternalInterrupt => 0x8000_0009,
                Interrupt::MachineExternalInterrupt => 0x8000_000B,
            },
            Trap::Exception(_) => 0,
        };
        match csr.write(CSR_MCAUSE, value) {
            Ok(()) => {
                proof {
                    crate::csr::lemma_full_mask_write(
                        CSR_MCAUSE,
                        old(csr).spec_read(CSR_MCAUSE),
                        value,
                    );
                }
                Ok(())
            },
            Err(e) => Err(RvCoreError::CsrError(e)),
        }
    }
}

} // verus!
