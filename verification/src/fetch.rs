//! Instruction fetch: reads the machine word at the program counter from a
//! device, surfacing any device failure as a typed error.

use vstd::prelude::*;

use crate::bus::{spec_device_read_word, DeviceHandler};
use crate::{MachineInstruction, ProgramCounter, RvCoreError};

verus! {

pub struct Fetcher;

impl Fetcher {
    /// Fetches the instruction word at `pc` from the given device.
    pub fn fetch(pc: ProgramCounter, mem: &DeviceHandler) -> (r: Result<
        MachineInstruction,
        RvCoreError,
    >)
        ensures
            match spec_device_read_word(*mem, pc as usize) {
                Ok(w) => r == Ok::<MachineInstruction, RvCoreError>(w),
                Err(e) => r == Err::<MachineInstruction, RvCoreError>(
                    RvCoreError::CpuPeripheralsError(e),
                ),
            },
    {
        match mem.read_word(pc as usize) {
            Ok(instr) => Ok(instr),
            Err(e) => Err(RvCoreError::CpuPeripheralsError(e)),
        }
    }
}

} // verus!
