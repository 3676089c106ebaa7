//! The core state machine: program counter, 32 general-purpose registers
//! with x0 hard-wired to zero, the CSR file, the privilege mode, and the
//! single pending-trap slot.

use vstd::prelude::*;

use crate::csr::{self, Csr, CsrAddrType, CsrError, CSR_MSTATUS, CSR_MTVAL};
use crate::decode::ExecutionReturnData;
use crate::trap::{trap_cause, trap_epc, trap_target, Exception, Trap};
use crate::{GprUnsigned, ProgramCounter, RegisterIndex, RvCoreError};

verus! {

/// The number of general-purpose registers.
pub(crate) const REGISTER_NUM: usize = 32;

/// The mnemonic names of the 32 general-purpose registers, in index order.
#[derive(Debug, Clone, Copy, PartialEq, Eq, Hash, Structural)]
pub enum RegName {
    Zero,
    Ra,
    Sp,
    Gp,
    Tp,
    T0,
    T1,
    T2,
    S0,
    S1,
    A0,
    A1,
    A2,
    A3,
    A4,
    A5,
    A6,
    A7,
    S2,
    S3,
    S4,
    S5,
    S6,
    S7,
    S8,
    S9,
    S10,
    S11,
    T3,
    T4,
    T5,
    T6,
}

/// The register index a mnemonic name denotes.
pub open spec fn spec_reg_index(r: RegName) -> RegisterIndex {
    match r {
        RegName::Zero => 0usize,
        RegName::Ra => 1usize,
        RegName::Sp => 2usize,
        RegName::Gp => 3usize,
        RegName::Tp => 4usize,
        RegName::T0 => 5usize,
        RegName::T1 => 6usize,
        RegName::T2 => 7usize,
        RegName::S0 => 8usize,
        RegName::S1 => 9usize,
        RegName::A0 => 10usize,
        RegName::A1 => 11usize,
        RegName::A2 => 12usize,
        RegName::A3 => 13usize,
        RegName::A4 => 14usize,
        RegName::A5 => 15usize,
        RegName::A6 => 16usize,
        RegName::A7 => 17usize,
        RegName::S2 => 18usize,
        RegName::S3 => 19usize,
        RegName::S4 => 20usize,
        RegName::S5 => 21usize,
        RegName::S6 => 22usize,
        RegName::S7 => 23usize,
        RegName::S8 => 24usize,
        RegName::S9 => 25usize,
        RegName::S10 => 26usize,
        RegName::S11 => 27usize,
        RegName::T3 => 28usize,
        RegName::T4 => 29usize,
        RegName::T5 => 30usize,
        RegName::T6 => 31usize,
    }
}

/// The mnemonic name a register index denotes, for indices 0 to 31.
pub open spec fn spec_reg_from_index(index: RegisterIndex) -> Option<RegName> {
    if index == 0 {
        Some(RegName::Zero)
    } else if index == 1 {
        Some(RegName::Ra)
    } else if index == 2 {
        Some(RegName::Sp)
    } else if index == 3 {
        Some(RegName::Gp)
    } else if index == 4 {
        Some(RegName::Tp)
    } else if index == 5 {
        Some(RegName::T0)
    } else if index == 6 {
        Some(RegName::T1)
    } else if index == 7 {
        Some(RegName::T2)
    } else if index == 8 {
        Some(RegName::S0)
    } else if index == 9 {
        Some(RegName::S1)
    } else if index == 10 {
        Some(RegName::A0)
    } else if index == 11 {
        Some(RegName::A1)
    } else if index == 12 {
        Some(RegName::A2)
    } else if index == 13 {
        Some(RegName::A3)
    } else if index == 14 {
        Some(RegName::A4)
    } else if index == 15 {
        Some(RegName::A5)
    } else if index == 16 {
        Some(RegName::A6)
    } else if index == 17 {
        Some(RegName::A7)
    } else if index == 18 {
        Some(RegName::S2)
    } else if index == 19 {
        Some(RegName::S3)
    } else if index == 20 {
        Some(RegName::S4)
    } else if index == 21 {
        Some(RegName::S5)
    } else if index == 22 {
        Some(RegName::S6)
    } else if index == 23 {
        Some(RegName::S7)
    } else if index == 24 {
        Some(RegName::S8)
    } else if index == 25 {
        Some(RegName::S9)
    } else if index == 26 {
        Some(RegName::S10)
    } else if index == 27 {
        Some(RegName::S11)
    } else if index == 28 {
        Some(RegName::T3)
    } else if index == 29 {
        Some(RegName::T4)
    } else if index == 30 {
        Some(RegName::T5)
    } else if index == 31 {
        Some(RegName::T6)
    } else {
        None
    }
}

impl RegName {
    /// The index this register name denotes.
    pub fn to_index(self) -> (r: usize)
        ensures
            r == spec_reg_index(self),
            r < 32,
    {
        match self {
            RegName::Zero => 0,
            RegName::Ra => 1,
            RegName::Sp => 2,
            RegName::Gp => 3,
            RegName::Tp => 4,
            RegName::T0 => 5,
            RegName::T1 => 6,
            RegName::T2 => 7,
            RegName::S0 => 8,
            RegName::S1 => 9,
            RegName::A0 => 10,
            RegName::A1 => 11,
            RegName::A2 => 12,
            RegName::A3 => 13,
            RegName::A4 => 14,
            RegName::A5 => 15,
            RegName::A6 => 16,
            RegName::A7 => 17,
            RegName::S2 => 18,
            RegName::S3 => 19,
            RegName::S4 => 20,
            RegName::S5 => 21,
            RegName::S6 => 22,
            RegName::S7 => 23,
            RegName::S8 => 24,
            RegName::S9 => 25,
            RegName::S10 => 26,
            RegName::S11 => 27,
            RegName::T3 => 28,
            RegName::T4 => 29,
            RegName::T5 => 30,
            RegName::T6 => 31,
        }
    }

    /// The register name a given index denotes, if the index is below 32.
    pub fn from_index(index: RegisterIndex) -> (r: Option<RegName>)
        ensures
            r == spec_reg_from_index(index),
    {
        if index == 0 {
            Some(RegName::Zero)
        } else if index == 1 {
            Some(RegName::Ra)
        } else if index == 2 {
            Some(RegName::Sp)
        } else if index == 3 {
            Some(RegName::Gp)
        } else if index == 4 {
            Some(RegName::Tp)
        } else if index == 5 {
            Some(RegName::T0)
        } else if index == 6 {
            Some(RegName::T1)
        } else if index == 7 {
            Some(RegName::T2)
        } else if index == 8 {
            Some(RegName::S0)
        } else if index == 9 {
            Some(RegName::S1)
        } else if index == 10 {
            Some(RegName::A0)
        } else if index == 11 {
            Some(RegName::A1)
        } else if index == 12 {
            Some(RegName::A2)
        } else if index == 13 {
            Some(RegName::A3)
        } else if index == 14 {
            Some(RegName::A4)
        } else if index == 15 {
            Some(RegName::A5)
        } else if index == 16 {
            Some(RegName::A6)
        } else if index == 17 {
            Some(RegName::A7)
        } else if index == 18 {
            Some(RegName::S2)
        } else if index == 19 {
            Some(RegName::S3)
        } else if index == 20 {
            Some(RegName::S4)
        } else if index == 21 {
            Some(RegName::S5)
        } else if index == 22 {
            Some(RegName::S6)
        } else if index == 23 {
            Some(RegName::S7)
        } else if index == 24 {
            Some(RegName::S8)
        } else if index == 25 {
            Some(RegName::S9)
        } else if index == 26 {
            Some(RegName::S10)
        } else if index == 27 {
            Some(RegName::S11)
        } else if index == 28 {
            Some(RegName::T3)
        } else if index == 29 {
            Some(RegName::T4)
        } else if index == 30 {
            Some(RegName::T5)
        } else if index == 31 {
            Some(RegName::T6)
        } else {
            None
        }
    }

    /// The mnemonic string of this register name.
    pub fn to_string(self) -> (r: &'static str)
        ensures
            r@ == spec_reg_name_str(self),
    {
        match self {
            RegName::Zero => "zero",
            RegName::Ra => "ra",
            RegName::Sp => "sp",
            RegName::Gp => "gp",
            RegName::Tp => "tp",
            RegName::T0 => "t0",
            RegName::T1 => "t1",
            RegName::T2 => "t2",
            RegName::S0 => "s0",
            RegName::S1 => "s1",
            RegName::A0 => "a0",
            RegName::A1 => "a1",
            RegName::A2 => "a2",
            RegName::A3 => "a3",
            RegName::A4 => "a4",
            RegName::A5 => "a5",
            RegName::A6 => "a6",
            RegName::A7 => "a7",
            RegName::S2 => "s2",
            RegName::S3 => "s3",
            RegName::S4 => "s4",
            RegName::S5 => "s5",
            RegName::S6 => "s6",
            RegName::S7 => "s7",
            RegName::S8 => "s8",
            RegName::S9 => "s9",
            RegName::S10 => "s10",
            RegName::S11 => "s11",
            RegName::T3 => "t3",
            RegName::T4 => "t4",
            RegName::T5 => "t5",
            RegName::T6 => "t6",
        }
    }
}

/// The mnemonic string of a register name.
pub open spec fn spec_reg_name_str(r: RegName) -> Seq<char> {
    match r {
        RegName::Zero => "zero"@,
        RegName::Ra => "ra"@,
        RegName::Sp => "sp"@,
        RegName::Gp => "gp"@,
        RegName::Tp => "tp"@,
        RegName::T0 => "t0"@,
        RegName::T1 => "t1"@,
        RegName::T2 => "t2"@,
        RegName::S0 => "s0"@,
        RegName::S1 => "s1"@,
        RegName::A0 => "a0"@,
        RegName::A1 => "a1"@,
        RegName::A2 => "a2"@,
        RegName::A3 => "a3"@,
        RegName::A4 => "a4"@,
        RegName::A5 => "a5"@,
        RegName::A6 => "a6"@,
        RegName::A7 => "a7"@,
        RegName::S2 => "s2"@,
        RegName::S3 => "s3"@,
        RegName::S4 => "s4"@,
        RegName::S5 => "s5"@,
        RegName::S6 => "s6"@,
        RegName::S7 => "s7"@,
        RegName::S8 => "s8"@,
        RegName::S9 => "s9"@,
        RegName::S10 => "s10"@,
        RegName::S11 => "s11"@,
        RegName::T3 => "t3"@,
        RegName::T4 => "t4"@,
        RegName::T5 => "t5"@,
        RegName::T6 => "t6"@,
    }
}

/// The register name a mnemonic string denotes; the mapping is a total
/// bijection over indices 0 to 31.
pub open spec fn spec_lookup_reg_name(s: Seq<char>) -> Option<RegName> {
    if s == "zero"@ {
        Some(RegName::Zero)
    } else if s == "ra"@ {
        Some(RegName::Ra)
    } else if s == "sp"@ {
        Some(RegName::Sp)
    } else if s == "gp"@ {
        Some(RegName::Gp)
    } else if s == "tp"@ {
        Some(RegName::Tp)
    } else if s == "t0"@ {
        Some(RegName::T0)
    } else if s == "t1"@ {
        Some(RegName::T1)
    } else if s == "t2"@ {
        Some(RegName::T2)
    } else if s == "s0"@ {
        Some(RegName::S0)
    } else if s == "s1"@ {
        Some(RegName::S1)
    } else if s == "a0"@ {
        Some(RegName::A0)
    } else if s == "a1"@ {
        Some(RegName::A1)
    } else if s == "a2"@ {
        Some(RegName::A2)
    } else if s == "a3"@ {
        Some(RegName::A3)
    } else if s == "a4"@ {
        Some(RegName::A4)
    } else if s == "a5"@ {
        Some(RegName::A5)
    } else if s == "a6"@ {
        Some(RegName::A6)
    } else if s == "a7"@ {
        Some(RegName::A7)
    } else if s == "s2"@ {
        Some(RegName::S2)
    } else if s == "s3"@ {
        Some(RegName::S3)
    } else if s == "s4"@ {
        Some(RegName::S4)
    } else if s == "s5"@ {
        Some(RegName::S5)
    } else if s == "s6"@ {
        Some(RegName::S6)
    } else if s == "s7"@ {
        Some(RegName::S7)
    } else if s == "s8"@ {
        Some(RegName::S8)
    } else if s == "s9"@ {
        Some(RegName::S9)
    } else if s == "s10"@ {
        Some(RegName::S10)
    } else if s == "s11"@ {
        Some(RegName::S11)
    } else if s == "t3"@ {
        Some(RegName::T3)
    } else if s == "t4"@ {
        Some(RegName::T4)
    } else if s == "t5"@ {
        Some(RegName::T5)
    } else if s == "t6"@ {
        Some(RegName::T6)
    } else {
        None
    }
}

/// Compares two string slices character by character.
fn str_eq(a: &str, b: &str) -> (r: bool)
    ensures
        r == (a@ == b@),
{
    let la = a.unicode_len();
    let lb = b.unicode_len();
    if la != lb {
        return false;
    }
    let mut i: usize = 0;
    while i < la
        invariant
            i <= la,
            la == a@.len(),
            lb == b@.len(),
            la == lb,
            forall|j: int| 0 <= j < i ==> a@[j] == b@[j],
        decreases la - i,
    {
        let ca = a.get_char(i);
        let cb = b.get_char(i);
        if ca != cb {
            return false;
        }
        i += 1;
    }
    proof {
        assert(a@ =~= b@);
    }
    true
}

/// Finds the register a mnemonic string names.
pub fn lookup_reg_name(name: &str) -> (r: Option<RegName>)
    ensures
        r == spec_lookup_reg_name(name@),
{
    if str_eq(name, "zero") {
        Some(RegName::Zero)
    } else if str_eq(name, "ra") {
        Some(RegName::Ra)
    } else if str_eq(name, "sp") {
        Some(RegName::Sp)
    } else if str_eq(name, "gp") {
        Some(RegName::Gp)
    } else if str_eq(name, "tp") {
        Some(RegName::Tp)
    } else if str_eq(name, "t0") {
        Some(RegName::T0)
    } else if str_eq(name, "t1") {
        Some(RegName::T1)
    } else if str_eq(name, "t2") {
        Some(RegName::T2)
    } else if str_eq(name, "s0") {
        Some(RegName::S0)
    } else if str_eq(name, "s1") {
        Some(RegName::S1)
    } else if str_eq(name, "a0") {
        Some(RegName::A0)
    } else if str_eq(name, "a1") {
        Some(RegName::A1)
    } else if str_eq(name, "a2") {
        Some(RegName::A2)
    } else if str_eq(name, "a3") {
        Some(RegName::A3)
    } else if str_eq(name, "a4") {
        Some(RegName::A4)
    } else if str_eq(name, "a5") {
        Some(RegName::A5)
    } else if str_eq(name, "a6") {
        Some(RegName::A6)
    } else if str_eq(name, "a7") {
        Some(RegName::A7)
    } else if str_eq(name, "s2") {
        Some(RegName::S2)
    } else if str_eq(name, "s3") {
        Some(RegName::S3)
    } else if str_eq(name, "s4") {
        Some(RegName::S4)
    } else if str_eq(name, "s5") {
        Some(RegName::S5)
    } else if str_eq(name, "s6") {
        Some(RegName::S6)
    } else if str_eq(name, "s7") {
        Some(RegName::S7)
    } else if str_eq(name, "s8") {
        Some(RegName::S8)
    } else if str_eq(name, "s9") {
        Some(RegName::S9)
    } else if str_eq(name, "s10") {
        Some(RegName::S10)
    } else if str_eq(name, "s11") {
        Some(RegName::S11)
    } else if str_eq(name, "t3") {
        Some(RegName::T3)
    } else if str_eq(name, "t4") {
        Some(RegName::T4)
    } else if str_eq(name, "t5") {
        Some(RegName::T5)
    } else if str_eq(name, "t6") {
        Some(RegName::T6)
    } else {
        None
    }
}

impl From<RegName> for usize {
    /// The index a register name denotes.
    fn from(reg: RegName) -> (r: usize) {
        reg.to_index()
    }
}

impl vstd::std_specs::convert::FromSpecImpl<RegName> for usize {
    open spec fn obeys_from_spec() -> bool {
        true
    }

    open spec fn from_spec(reg: RegName) -> usize {
        spec_reg_index(reg)
    }
}

/// The current execution authority level; the ordering is a privilege
/// ranking, Machine highest.  Reserved is unused and invalid.
#[derive(Debug, Clone, Copy, PartialEq, Eq, Structural)]
pub enum PrivilegeMode {
    User,
    Supervisor,
    Reserved,
    Machine,
}

/// The display name of a privilege mode.
pub open spec fn spec_privilege_mode_name(mode: PrivilegeMode) -> Seq<char> {
    match mode {
        PrivilegeMode::User => "User"@,
        PrivilegeMode::Supervisor => "Supervisor"@,
        PrivilegeMode::Reserved => "Reserved"@,
        PrivilegeMode::Machine => "Machine"@,
    }
}

/// Returns the display name of a privilege mode.
pub fn get_privilege_mode_name(mode: &PrivilegeMode) -> (r: &'static str)
    ensures
        r@ == spec_privilege_mode_name(*mode),
{
    match mode {
        PrivilegeMode::User => "User",
        PrivilegeMode::Supervisor => "Supervisor",
        PrivilegeMode::Reserved => "Reserved",
        PrivilegeMode::Machine => "Machine",
    }
}

/// The two-bit encoding of a privilege mode; a bigger number is a higher
/// privilege level.
pub open spec fn spec_privilege_encoding(mode: PrivilegeMode) -> u8 {
    match mode {
        PrivilegeMode::User => 0u8,
        PrivilegeMode::Supervisor => 1u8,
        PrivilegeMode::Reserved => 2u8,
        PrivilegeMode::Machine => 3u8,
    }
}

/// Returns the encoded privilege mode bits; Reserved has no encoding.
pub fn get_privilege_encoding(mode: &PrivilegeMode) -> (r: u8)
    requires
        !(mode is Reserved),
    ensures
        r == spec_privilege_encoding(*mode),
{
    match mode {
        PrivilegeMode::User => 0,
        PrivilegeMode::Supervisor => 1,
        PrivilegeMode::Reserved => 0,  // excluded by the precondition
        PrivilegeMode::Machine => 3,
    }
}

/// The privilege mode of encoded privilege mode bits.
pub open spec fn spec_privilege_mode(encoding: u8) -> PrivilegeMode {
    if encoding == 0 {
        PrivilegeMode::User
    } else if encoding == 1 {
        PrivilegeMode::Supervisor
    } else if encoding == 3 {
        PrivilegeMode::Machine
    } else {
        PrivilegeMode::Reserved
    }
}

/// Returns the `PrivilegeMode` of encoded privilege mode bits; 2 is a
/// reserved encoding that denotes no mode.
pub fn get_privilege_mode(encoding: u8) -> (r: PrivilegeMode)
    requires
        encoding == 0 || encoding == 1 || encoding == 3,
    ensures
        r == spec_privilege_mode(encoding),
{
    if encoding == 0 {
        PrivilegeMode::User
    } else if encoding == 1 {
        PrivilegeMode::Supervisor
    } else {
        PrivilegeMode::Machine
    }
}

/// The register file after writing `v` at index `i`: writes to the
/// hard-wired zero register are silently discarded.
pub open spec fn regs_after_write(s: Seq<u32>, i: int, v: u32) -> Seq<u32> {
    if i == 0 {
        s
    } else {
        s.update(i, v)
    }
}

/// The mstatus value after trap entry: the previous mode saved into MPP,
/// MIE saved into MPIE, and MIE cleared to disable interrupts.
pub open spec fn mstatus_on_trap_entry(old_val: u32, mode_enc: u8) -> u32 {
    let v1 = (old_val & !csr::MSTATUS_MPP) | ((mode_enc as u32) << 11);
    let v2 = (v1 & !csr::MSTATUS_MPIE) | ((old_val & csr::MSTATUS_MIE) << 4);
    v2 & !csr::MSTATUS_MIE
}

/// The core register/CSR state machine.
pub struct Core {
    pc: ProgramCounter,
    registers: Vec<GprUnsigned>,
    csr: Csr,
    trap: Option<Trap>,
    privilege_mode: PrivilegeMode,
}

impl Core {
    /// The program counter.
    pub closed spec fn spec_pc(self) -> u32 {
        self.pc
    }

    /// The 32 general-purpose register values.
    pub closed spec fn spec_regs(self) -> Seq<u32> {
        self.registers@
    }

    /// The CSR register file.
    pub closed spec fn spec_csr(self) -> Csr {
        self.csr
    }

    /// The single pending-trap slot.
    pub closed spec fn spec_trap(self) -> Option<Trap> {
        self.trap
    }

    /// The current privilege mode.
    pub closed spec fn spec_mode(self) -> PrivilegeMode {
        self.privilege_mode
    }

    /// Well-formedness: 32 registers, register 0 reading as zero, a
    /// well-formed CSR file, and a valid privilege mode.
    pub open spec fn wf(self) -> bool {
        &&& self.spec_regs().len() == 32
        &&& self.spec_regs()[0] == 0
        &&& self.spec_csr().wf()
        &&& !(self.spec_mode() is Reserved)
    }

    /// Creates a core at its power-on state: PC 0, all registers 0, CSRs at
    /// their reset values, no pending trap, Machine mode.
    pub fn new() -> (r: Self)
        ensures
            r.wf(),
            r.spec_pc() == 0,
            r.spec_regs().len() == 32,
            forall|i: int| 0 <= i < 32 ==> r.spec_regs()[i] == 0,
            r.spec_csr().wf(),
            forall|a: CsrAddrType|
                csr::is_known_csr(a) ==> #[trigger] r.spec_csr().spec_read(a)
                    == csr::csr_reset_value(a),
            r.spec_trap() is None,
            r.spec_mode() is Machine,
    {
        let mut registers: Vec<GprUnsigned> = Vec::new();
        let mut i: usize = 0;
        while i < REGISTER_NUM
            invariant
                i <= 32,
                registers@.len() == i,
                forall|j: int| 0 <= j < i ==> registers@[j] == 0,
            decreases 32 - i,
        {
            registers.push(0);
            i += 1;
        }
        Self {
            pc: 0,
            registers,
            csr: Csr::new(),
            trap: None,
            privilege_mode: PrivilegeMode::Machine,
        }
    }

    /// Restores the power-on state without reallocating.
    pub fn reset(&mut self)
        ensures
            final(self).wf(),
            final(self).spec_pc() == 0,
            final(self).spec_regs().len() == 32,
            forall|i: int| 0 <= i < 32 ==> final(self).spec_regs()[i] == 0,
            forall|a: CsrAddrType|
                csr::is_known_csr(a) ==> #[trigger] final(self).spec_csr().spec_read(a)
                    == csr::csr_reset_value(a),
            final(self).spec_trap() is None,
            final(self).spec_mode() is Machine,
    {
        self.pc = 0;
        let mut registers: Vec<GprUnsigned> = Vec::new();
        let mut i: usize = 0;
        while i < REGISTER_NUM
            invariant
                i <= 32,
                registers@.len() == i,
                forall|j: int| 0 <= j < i ==> registers@[j] == 0,
            decreases 32 - i,
        {
            registers.push(0);
            i += 1;
        }
        self.registers = registers;
        self.csr = Csr::new();
        self.trap = None;
        self.privilege_mode = PrivilegeMode::Machine;
    }

    /// Returns the mnemonic string of a register index, if it is below 32.
    pub fn get_reg_name_by_index(&self, index: RegisterIndex) -> (r: Option<&'static str>)
        ensures
            match spec_reg_from_index(index) {
                Some(rn) => r matches Some(s) && s@ == spec_reg_name_str(rn),
                None => r is None,
            },
    {
        if let Some(reg_name) = RegName::from_index(index) {
            Some(reg_name.to_string())
        } else {
            None
        }
    }

    /// The current program counter.
    pub fn get_pc(&self) -> (r: ProgramCounter)
        ensures
            r == self.spec_pc(),
    {
        self.pc
    }

    /// Sets the program counter.
    pub fn set_pc(&mut self, pc: ProgramCounter)
        ensures
            final(self).spec_pc() == pc,
            final(self).spec_regs() == old(self).spec_regs(),
            final(self).spec_csr() == old(self).spec_csr(),
            final(self).spec_trap() == old(self).spec_trap(),
            final(self).spec_mode() == old(self).spec_mode(),
            old(self).wf() ==> final(self).wf(),
    {
        self.pc = pc;
    }

    /// Reads a general-purpose register.  Register 0 always reads as 0; an
    /// index at or above 32 is an `InvalidRegisterIndex` error.
    pub fn read_register(&self, index: RegisterIndex) -> (r: Result<GprUnsigned, RvCoreError>)
        requires
            self.wf(),
        ensures
            index >= 32 ==> r == Err::<GprUnsigned, RvCoreError>(
                RvCoreError::InvalidRegisterIndex(index),
            ),
            index < 32 ==> r == Ok::<GprUnsigned, RvCoreError>(self.spec_regs()[index as int]),
    {
        if index >= REGISTER_NUM {
            return Err(RvCoreError::InvalidRegisterIndex(index));
        } else if index == 0 {
            return Ok(0);
        }
        Ok(self.registers[index])
    }

    /// Writes a general-purpose register.  Writes to register 0 are silently
    /// discarded; an index at or above 32 is an `InvalidRegisterIndex` error.
    pub fn write_register(&mut self, index: RegisterIndex, value: GprUnsigned) -> (r: Result<
        (),
        RvCoreError,
    >)
        requires
            old(self).wf(),
        ensures
            final(self).wf(),
            final(self).spec_pc() == old(self).spec_pc(),
            final(self).spec_csr() == old(self).spec_csr(),
            final(self).spec_trap() == old(self).spec_trap(),
            final(self).spec_mode() == old(self).spec_mode(),
            index >= 32 ==> r == Err::<(), RvCoreError>(RvCoreError::InvalidRegisterIndex(index))
                && final(self).spec_regs() == old(self).spec_regs(),
            index < 32 ==> r == Ok::<(), RvCoreError>(()) && final(self).spec_regs()
                == regs_after_write(old(self).spec_regs(), index as int, value),
    {
        if index >= REGISTER_NUM {
            return Err(RvCoreError::InvalidRegisterIndex(index));
        } else if index == 0 {
            return Ok(());
        }
        self.registers[index] = value;
        Ok(())
    }

    /// Reads a register by its mnemonic name; an unknown name is an
    /// `InvalidRegisterName` error.
    pub fn read_reg_by_name(&self, name: &str) -> (r: Result<GprUnsigned, RvCoreError>)
        requires
            self.wf(),
        ensures
            match spec_lookup_reg_name(name@) {
                Some(rn) => r == Ok::<GprUnsigned, RvCoreError>(
                    self.spec_regs()[spec_reg_index(rn) as int],
                ),
                None => r matches Err(RvCoreError::InvalidRegisterName(s)) && s@ == name@,
            },
    {
        if let Some(reg) = lookup_reg_name(name) {
            let index = reg.to_index();
            Ok(self.registers[index])
        } else {
            Err(RvCoreError::InvalidRegisterName(name.to_owned()))
        }
    }

    /// Writes a register by its mnemonic name; a write to "zero" is silently
    /// discarded; an unknown name is an `InvalidRegisterName` error.
    pub fn write_reg_by_name(&mut self, name: &str, value: GprUnsigned) -> (r: Result<
        (),
        RvCoreError,
    >)
        requires
            old(self).wf(),
        ensures
            final(self).wf(),
            final(self).spec_pc() == old(self).spec_pc(),
            final(self).spec_csr() == old(self).spec_csr(),
            final(self).spec_trap() == old(self).spec_trap(),
            final(self).spec_mode() == old(self).spec_mode(),
            match spec_lookup_reg_name(name@) {
                Some(rn) => r == Ok::<(), RvCoreError>(()) && final(self).spec_regs()
                    == regs_after_write(old(self).spec_regs(), spec_reg_index(rn) as int, value),
                None => final(self).spec_regs() == old(self).spec_regs() && (r matches Err(
                    RvCoreError::InvalidRegisterName(s),
                ) && s@ == name@),
            },
    {
        if let Some(reg) = lookup_reg_name(name) {
            if !matches!(reg, RegName::Zero) {
                let index = reg.to_index();
                self.registers[index] = value;
            }
            return Ok(());
        }
        Err(RvCoreError::InvalidRegisterName(name.to_owned()))
    }

    /// Reads a CSR register.
    pub fn read_csr(&self, addr: CsrAddrType) -> (r: Result<u32, CsrError>)
        ensures
            csr::is_known_csr(addr) ==> r == Ok::<u32, CsrError>(self.spec_csr().spec_read(addr)),
            !csr::is_known_csr(addr) ==> r == Err::<u32, CsrError>(CsrError::InvalidAddress),
    {
        self.csr.read(addr)
    }

    /// Writes a CSR register, under its writable mask.
    pub(crate) fn write_csr(&mut self, addr: CsrAddrType, value: u32) -> (r: Result<(), CsrError>)
        requires
            old(self).wf(),
        ensures
            final(self).wf(),
            final(self).spec_pc() == old(self).spec_pc(),
            final(self).spec_regs() == old(self).spec_regs(),
            final(self).spec_trap() == old(self).spec_trap(),
            final(self).spec_mode() == old(self).spec_mode(),
            csr::is_known_csr(addr) ==> r == Ok::<(), CsrError>(()) && final(self).spec_csr().spec_read(addr) == csr::csr_written_value(
                addr,
                old(self).spec_csr().spec_read(addr),
                value,
            ),
            !csr::is_known_csr(addr) ==> r == Err::<(), CsrError>(CsrError::InvalidAddress)
                && final(self).spec_csr() == old(self).spec_csr(),
            forall|a: CsrAddrType|
                csr::is_known_csr(a) && a != addr ==> #[trigger] final(self).spec_csr().spec_read(
                    a,
                ) == old(self).spec_csr().spec_read(a),
    {
        self.csr.write(addr, value)
    }


    /// Swaps a CSR's value under its writable mask, returning the pre-write
    /// value.
    pub(crate) fn csrrw(&mut self, addr: CsrAddrType, value: u32) -> (r: Result<u32, CsrError>)
        requires
            old(self).wf(),
        ensures
            final(self).wf(),
            final(self).spec_pc() == old(self).spec_pc(),
            final(self).spec_regs() == old(self).spec_regs(),
            final(self).spec_trap() == old(self).spec_trap(),
            final(self).spec_mode() == old(self).spec_mode(),
            csr::is_known_csr(addr) ==> r == Ok::<u32, CsrError>(
                old(self).spec_csr().spec_read(addr),
            ) && final(self).spec_csr().spec_read(addr) == csr::csr_written_value(
                addr,
                old(self).spec_csr().spec_read(addr),
                value,
            ),
            !csr::is_known_csr(addr) ==> r == Err::<u32, CsrError>(CsrError::InvalidAddress)
                && final(self).spec_csr() == old(self).spec_csr(),
            forall|a: CsrAddrType|
                csr::is_known_csr(a) && a != addr ==> #[trigger] final(self).spec_csr().spec_read(
                    a,
                ) == old(self).spec_csr().spec_read(a),
    {
        self.csr.csrrw(addr, value)
    }

    /// Sets bits in a CSR under its writable mask, returning the pre-write
    /// value.
    pub(crate) fn csrrs(&mut self, addr: CsrAddrType, value: u32) -> (r: Result<u32, CsrError>)
        requires
            old(self).wf(),
        ensures
            final(self).wf(),
            final(self).spec_pc() == old(self).spec_pc(),
            final(self).spec_regs() == old(self).spec_regs(),
            final(self).spec_trap() == old(self).spec_trap(),
            final(self).spec_mode() == old(self).spec_mode(),
            csr::is_known_csr(addr) ==> r == Ok::<u32, CsrError>(
                old(self).spec_csr().spec_read(addr),
            ) && final(self).spec_csr().spec_read(addr) == csr::csr_written_value(
                addr,
                old(self).spec_csr().spec_read(addr),
                old(self).spec_csr().spec_read(addr) | value,
            ),
            !csr::is_known_csr(addr) ==> r == Err::<u32, CsrError>(CsrError::InvalidAddress)
                && final(self).spec_csr() == old(self).spec_csr(),
            forall|a: CsrAddrType|
                csr::is_known_csr(a) && a != addr ==> #[trigger] final(self).spec_csr().spec_read(
                    a,
                ) == old(self).spec_csr().spec_read(a),
    {
        self.csr.csrrs(addr, value)
    }

    /// Clears bits in a CSR under its writable mask, returning the pre-write
    /// value.
    pub(crate) fn csrrc(&mut self, addr: CsrAddrType, value: u32) -> (r: Result<u32, CsrError>)
        requires
            old(self).wf(),
        ensures
            final(self).wf(),
            final(self).spec_pc() == old(self).spec_pc(),
            final(self).spec_regs() == old(self).spec_regs(),
            final(self).spec_trap() == old(self).spec_trap(),
            final(self).spec_mode() == old(self).spec_mode(),
            csr::is_known_csr(addr) ==> r == Ok::<u32, CsrError>(
                old(self).spec_csr().spec_read(addr),
            ) && final(self).spec_csr().spec_read(addr) == csr::csr_written_value(
                addr,
                old(self).spec_csr().spec_read(addr),
                old(self).spec_csr().spec_read(addr) & !value,
            ),
            !csr::is_known_csr(addr) ==> r == Err::<u32, CsrError>(CsrError::InvalidAddress)
                && final(self).spec_csr() == old(self).spec_csr(),
            forall|a: CsrAddrType|
                csr::is_known_csr(a) && a != addr ==> #[trigger] final(self).spec_csr().spec_read(
                    a,
                ) == old(self).spec_csr().spec_read(a),
    {
        self.csr.csrrc(addr, value)
    }

    /// Records a pending trap, writing the trap value into mtval.  A second
    /// trap before the first is consumed overwrites it: the core holds at
    /// most one.
    pub fn set_trap(&mut self, trap: Trap, tval: u32) -> (r: Result<(), RvCoreError>)
        requires
            old(self).wf(),
        ensures
            final(self).wf(),
            r is Ok,
            final(self).spec_pc() == old(self).spec_pc(),
            final(self).spec_regs() == old(self).spec_regs(),
            final(self).spec_mode() == old(self).spec_mode(),
            final(self).spec_trap() == Some(trap),
            final(self).spec_csr().spec_read(CSR_MTVAL) == tval,
            forall|a: CsrAddrType|
                csr::is_known_csr(a) && a != CSR_MTVAL ==> #[trigger] final(self).spec_csr().spec_read(a) == old(self).spec_csr().spec_read(a),
    {
        match self.csr.write(CSR_MTVAL, tval) {
            Ok(()) => {
                proof {
                    csr::lemma_full_mask_write(
                        CSR_MTVAL,
                        old(self).spec_csr().spec_read(CSR_MTVAL),
                        tval,
                    );
                }
                self.trap = Some(trap);
                Ok(())
            },
            Err(e) => Err(RvCoreError::CsrError(e)),
        }
    }

    /// True of the three environment-call exceptions.
    pub open spec fn spec_is_ecall(trap: Trap) -> bool {
        ||| trap == Trap::Exception(Exception::ECallFromUMode)
        ||| trap == Trap::Exception(Exception::ECallFromSMode)
        ||| trap == Trap::Exception(Exception::ECallFromMMode)
    }

    /// Whether a trap is one of the environment-call exceptions.
    pub fn is_ecall(trap: &Trap) -> (r: bool)
        ensures
            r == Self::spec_is_ecall(*trap),
    {
        match trap {
            Trap::Exception(Exception::ECallFromUMode)
            | Trap::Exception(Exception::ECallFromSMode)
            | Trap::Exception(Exception::ECallFromMMode) => true,
            _ => false,
        }
    }

    /// Consumes the pending trap, leaving the slot empty.
    pub fn take_trap(&mut self) -> (r: Option<Trap>)
        ensures
            r == old(self).spec_trap(),
            final(self).spec_trap() is None,
            final(self).spec_pc() == old(self).spec_pc(),
            final(self).spec_regs() == old(self).spec_regs(),
            final(self).spec_csr() == old(self).spec_csr(),
            final(self).spec_mode() == old(self).spec_mode(),
            old(self).wf() ==> final(self).wf(),
    {
        self.trap.take()
    }

    /// Dispatches a consumed trap: saves mstatus and the privilege mode and
    /// switches to Machine mode (once, before dispatch), then checks the
    /// mtvec mode, writes mepc and mcause, and computes the handler address.
    /// On an invalid dispatch mode the error is found before mepc and mcause
    /// are written, so they keep their prior values; the mstatus save has
    /// already happened.  `new_pc` is the address that would have executed
    /// next.
    pub fn handle_trap(&mut self, trap: &Trap, new_pc: ProgramCounter) -> (r: Result<
        Option<ExecutionReturnData>,
        RvCoreError,
    >)
        requires
            old(self).wf(),
        ensures
            final(self).wf(),
            final(self).spec_pc() == old(self).spec_pc(),
            final(self).spec_regs() == old(self).spec_regs(),
            final(self).spec_trap() == old(self).spec_trap(),
            final(self).spec_mode() is Machine,
            final(self).spec_csr().spec_read(CSR_MSTATUS) == mstatus_on_trap_entry(
                old(self).spec_csr().spec_read(CSR_MSTATUS),
                spec_privilege_encoding(old(self).spec_mode()),
            ),
            forall|a: CsrAddrType|
                csr::is_known_csr(a) && a != CSR_MSTATUS && a != crate::csr::CSR_MEPC && a
                    != crate::csr::CSR_MCAUSE ==> #[trigger] final(self).spec_csr().spec_read(a)
                    == old(self).spec_csr().spec_read(a),
            ({
                let tvec = old(self).spec_csr().spec_read(crate::csr::CSR_MTVEC);
                let tvec_mode = tvec & 0b11;
                if tvec_mode == 0 || tvec_mode == 1 {
                    &&& final(self).spec_csr().spec_read(crate::csr::CSR_MEPC) == trap_epc(
                        *trap,
                        old(self).spec_pc(),
                        new_pc,
                    )
                    &&& final(self).spec_csr().spec_read(crate::csr::CSR_MCAUSE) == trap_cause(
                        *trap,
                    )
                    &&& (r matches Ok(Some(rd)) && rd.pc == Some(
                        trap_target(tvec, trap_cause(*trap)),
                    ) && rd.disasm is None)
                } else {
                    &&& r == Err::<Option<ExecutionReturnData>, RvCoreError>(
                        RvCoreError::InvalidTrapMode(tvec_mode),
                    )
                    &&& final(self).spec_csr().spec_read(crate::csr::CSR_MEPC) == old(
                        self,
                    ).spec_csr().spec_read(crate::csr::CSR_MEPC)
                    &&& final(self).spec_csr().spec_read(crate::csr::CSR_MCAUSE) == old(
                        self,
                    ).spec_csr().spec_read(crate::csr::CSR_MCAUSE)
                }
            }),
    {
        self.set_mstatus_before_handle_trap()?;
        let current_pc = self.get_pc();
        trap.handle_trap(&mut self.csr, current_pc, new_pc)
    }

    /// Sets the privilege mode; Reserved is never installed.
    pub(crate) fn set_privilege_mode(&mut self, mode: PrivilegeMode)
        requires
            !(mode is Reserved),
        ensures
            final(self).spec_mode() == mode,
            final(self).spec_pc() == old(self).spec_pc(),
            final(self).spec_regs() == old(self).spec_regs(),
            final(self).spec_csr() == old(self).spec_csr(),
            final(self).spec_trap() == old(self).spec_trap(),
            old(self).wf() ==> final(self).wf(),
    {
        self.privilege_mode = mode;
    }

    /// The current privilege mode.
    pub(crate) fn get_privilege_mode(&self) -> (r: &PrivilegeMode)
        ensures
            *r == self.spec_mode(),
    {
        &self.privilege_mode
    }

    /// Saves the current privilege encoding into mstatus.MPP, the previous
    /// MIE into MPIE, clears MIE, and switches to Machine mode.
    fn set_mstatus_before_handle_trap(&mut self) -> (r: Result<(), RvCoreError>)
        requires
            old(self).wf(),
        ensures
            final(self).wf(),
            r is Ok,
            final(self).spec_pc() == old(self).spec_pc(),
            final(self).spec_regs() == old(self).spec_regs(),
            final(self).spec_trap() == old(self).spec_trap(),
            final(self).spec_mode() is Machine,
            final(self).spec_csr().spec_read(CSR_MSTATUS) == mstatus_on_trap_entry(
                old(self).spec_csr().spec_read(CSR_MSTATUS),
                spec_privilege_encoding(old(self).spec_mode()),
            ),
            forall|a: CsrAddrType|
                csr::is_known_csr(a) && a != CSR_MSTATUS ==> #[trigger] final(self).spec_csr().spec_read(a) == old(self).spec_csr().spec_read(a),
    {
        let old_val = match self.csr.read(CSR_MSTATUS) {
            Ok(v) => v,
            Err(e) => {
                return Err(RvCoreError::CsrError(e));
            },
        };
        let current_mode = self.get_privilege_mode();
        // Save the privilege mode before the trap into mstatus.MPP
        let enc = get_privilege_encoding(current_mode);
        let mut new_value = (old_val & !csr::MSTATUS_MPP) | ((enc as u32) << 11);

        // Change the privilege mode to Machine mode.
        self.set_privilege_mode(PrivilegeMode::Machine);

        // Save the previous mstatus.MIE into mstatus.MPIE
        new_value = (new_value & !csr::MSTATUS_MPIE) | ((old_val & csr::MSTATUS_MIE) << 4);

        // Set mstatus.MIE to zero to disable interrupts
        new_value = new_value & !csr::MSTATUS_MIE;

        match self.csr.write(CSR_MSTATUS, new_value) {
            Ok(()) => {
                proof {
                    csr::lemma_full_mask_write(
                        CSR_MSTATUS,
                        old(self).spec_csr().spec_read(CSR_MSTATUS),
                        new_value,
                    );
                }
                Ok(())
            },
            Err(e) => Err(RvCoreError::CsrError(e)),
        }
    }
}

/// Law: writing a register then reading it back yields the written value for
/// every valid index 1 to 31; for index 0 the write is discarded and the
/// read always yields 0, whatever was written.
pub proof fn lemma_register_write_read(regs: Seq<u32>, i: int, v: u32)
    requires
        regs.len() == 32,
        regs[0] == 0,
        0 <= i < 32,
    ensures
        1 <= i ==> regs_after_write(regs, i, v)[i] == v,
        i == 0 ==> regs_after_write(regs, i, v)[0] == 0,
{
}

} // verus!
