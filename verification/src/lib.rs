//! A verified instruction-set simulator for a 32-bit RISC-V core.
//!
//! The library fetches machine words from an addressable memory space,
//! decodes them against the RV32I + Zicsr + machine-mode encoding table,
//! executes their semantics against a register/CSR state machine, and
//! handles traps to drive program termination.

use vstd::prelude::*;

pub mod csr;
pub mod mem;
pub mod uart;
pub mod clint;
pub mod bus;
pub mod decode;
pub mod decoder;
pub mod disassemble;
pub mod execute;
pub mod fetch;
pub mod cpu_core;
pub mod trap;

verus! {

/// The 32-bit word that an integer quantity wraps to (modular arithmetic).
pub open spec fn wrap32(x: int) -> u32 {
    (x % 0x1_0000_0000) as u32
}

/// A 32-bit word reinterpreted as a signed quantity (two's complement).
pub open spec fn signed32(x: u32) -> int {
    if x >= 0x8000_0000 {
        x - 0x1_0000_0000
    } else {
        x as int
    }
}

/// A truncating cast to `i32` yields the word's signed reading.
pub proof fn lemma_bits_to_signed32(s: i32, w: u32)
    by (bit_vector)
    requires
        s == w as i32,
    ensures
        s == signed32(w),
{
}

/// A truncating cast back to `u32` restores the word a signed reading came
/// from.
pub proof fn lemma_signed32_to_bits(imm: u32, s: i32, w: u32)
    by (bit_vector)
    requires
        imm == s as u32,
        s == signed32(w),
    ensures
        imm == w,
{
}

/// Address of the next instruction to fetch.
pub type ProgramCounter = u32;

/// A raw 32-bit instruction encoding.
pub type MachineInstruction = u32;

/// The value held by a general-purpose register.
pub type GprUnsigned = u32;

/// A general-purpose register value reinterpreted as a signed quantity.
pub type GprSigned = i32;

/// Index of a general-purpose register, 0 to 31.
pub type RegisterIndex = usize;

/// Errors raised by the core: decoding, register access, CSR access,
/// trap dispatch and operand validity.
#[derive(Debug, PartialEq, Eq)]
pub enum RvCoreError {
    /// No entry of the decode table matches the instruction word.
    InvalidInstruction(MachineInstruction),
    /// A register index at or above 32.
    InvalidRegisterIndex(RegisterIndex),
    /// A register mnemonic that names no register.
    InvalidRegisterName(String),
    /// A program counter outside every device range.
    InvalidProgramCounter(ProgramCounter),
    /// A memory address outside every device range.
    InvalidMemoryAddress(ProgramCounter),
    /// A memory size that no device can hold.
    InvalidMemorySize(ProgramCounter),
    /// A register access that the core refuses.
    InvalidRegisterAccess(String),
    /// A memory access outside the addressable space.
    IllegalMemoryAccess(u64),
    /// An instruction that decodes but whose semantics are not implemented.
    UnimplementedInstruction(u32),
    /// A shift amount outside 0 to 31.
    ShamtIsInvalid(u32),
    /// An mtvec dispatch mode outside direct and vectored.
    InvalidTrapMode(u32),
    /// A privilege encoding outside user, supervisor and machine.
    InvalidPrivilegeEncoding(u32),
    /// A CSR access failure.
    CsrError(crate::csr::CsrError),
    /// A bus or device access failure.
    CpuPeripheralsError(crate::peripherals::CpuPeripheralsError),
}

} // verus!

pub mod peripherals;
pub mod simulator;
