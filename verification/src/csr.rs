//! The machine-mode control and status register file.
//!
//! A fixed set of CSRs, each with a writable-bit mask and a declared reset
//! value.  Writes only change bits where the mask is 1; unknown addresses
//! fail with `InvalidAddress`; reset restores every register to its reset
//! value.

use vstd::prelude::*;

verus! {

/// A 12-bit CSR address.
pub type CsrAddrType = u16;

pub const CSR_MSTATUS: CsrAddrType = 0x300;
pub const CSR_MISA: CsrAddrType = 0x301;
pub const CSR_MIE: CsrAddrType = 0x304;
pub const CSR_MTVEC: CsrAddrType = 0x305;
pub const CSR_MSCRATCH: CsrAddrType = 0x340;
pub const CSR_MEPC: CsrAddrType = 0x341;
pub const CSR_MCAUSE: CsrAddrType = 0x342;
pub const CSR_MTVAL: CsrAddrType = 0x343;
pub const CSR_MIP: CsrAddrType = 0x344;

pub const MSTATUS_MIE: u32 = 0x00000008;
pub const MSTATUS_MPIE: u32 = 0x00000080;
pub const MSTATUS_MPP: u32 = 0x00001800;
pub const MSTATUS_MPRV: u32 = 0x00020000;

/// Error type for CSR operations.
#[derive(Debug, Clone, Copy, PartialEq, Eq)]
pub enum CsrError {
    /// The address maps to no supported CSR.
    InvalidAddress,
}

/// True of the addresses that this register file supports.
pub open spec fn is_known_csr(addr: CsrAddrType) -> bool {
    ||| addr == CSR_MSTATUS
    ||| addr == CSR_MISA
    ||| addr == CSR_MIE
    ||| addr == CSR_MTVEC
    ||| addr == CSR_MSCRATCH
    ||| addr == CSR_MEPC
    ||| addr == CSR_MCAUSE
    ||| addr == CSR_MTVAL
    ||| addr == CSR_MIP
}

/// The writable-bit mask a supported CSR is declared with.
pub open spec fn csr_writable_mask(addr: CsrAddrType) -> u32 {
    0xFFFF_FFFFu32
}

/// The value a supported CSR holds after power-on or reset.
pub open spec fn csr_reset_value(addr: CsrAddrType) -> u32 {
    if addr == CSR_MSTATUS {
        0x0000_1800u32
    } else if addr == CSR_MISA {
        0x4000_1100u32
    } else {
        0u32
    }
}

/// A single CSR register: current value, writable-bit mask, reset value.
struct CsrRegister {
    value: u32,
    writable_bits: u32,
    initial_value: u32,
}

impl CsrRegister {
    /// Creates a register with the given writable bits, holding its initial value.
    fn new(writable_bits: u32, initial_value: u32) -> (r: Self)
        ensures
            r.value == initial_value,
            r.writable_bits == writable_bits,
            r.initial_value == initial_value,
    {
        Self { value: initial_value, writable_bits, initial_value }
    }

    /// Reads the current value.
    fn read(&self) -> (r: u32)
        ensures
            r == self.value,
    {
        self.value
    }

    /// Writes a value, only modifying writable bits.
    fn write(&mut self, value: u32)
        ensures
            final(self).value == (old(self).value & !old(self).writable_bits) | (
            value & old(self).writable_bits),
            final(self).writable_bits == old(self).writable_bits,
            final(self).initial_value == old(self).initial_value,
    {
        let masked_value = value & self.writable_bits;
        self.value = (self.value & !self.writable_bits) | masked_value;
    }

    /// Restores the initial value.
    fn reset(&mut self)
        ensures
            final(self).value == old(self).initial_value,
            final(self).writable_bits == old(self).writable_bits,
            final(self).initial_value == old(self).initial_value,
    {
        self.value = self.initial_value;
    }
}

/// The RISC-V machine-mode control and status register file.
pub struct Csr {
    mstatus: CsrRegister,
    misa: CsrRegister,
    mie: CsrRegister,
    mtvec: CsrRegister,
    mscratch: CsrRegister,
    mepc: CsrRegister,
    mcause: CsrRegister,
    mtval: CsrRegister,
    mip: CsrRegister,
}

impl Csr {
    /// The current value of a supported CSR; 0 for unsupported addresses.
    pub closed spec fn spec_read(self, addr: CsrAddrType) -> u32 {
        if addr == CSR_MSTATUS {
            self.mstatus.value
        } else if addr == CSR_MISA {
            self.misa.value
        } else if addr == CSR_MIE {
            self.mie.value
        } else if addr == CSR_MTVEC {
            self.mtvec.value
        } else if addr == CSR_MSCRATCH {
            self.mscratch.value
        } else if addr == CSR_MEPC {
            self.mepc.value
        } else if addr == CSR_MCAUSE {
            self.mcause.value
        } else if addr == CSR_MTVAL {
            self.mtval.value
        } else if addr == CSR_MIP {
            self.mip.value
        } else {
            0u32
        }
    }

    /// Every register carries its declared writable mask and reset value.
    pub closed spec fn wf(self) -> bool {
        &&& self.mstatus.writable_bits == csr_writable_mask(CSR_MSTATUS)
        &&& self.mstatus.initial_value == csr_reset_value(CSR_MSTATUS)
        &&& self.misa.writable_bits == csr_writable_mask(CSR_MISA)
        &&& self.misa.initial_value == csr_reset_value(CSR_MISA)
        &&& self.mie.writable_bits == csr_writable_mask(CSR_MIE)
        &&& self.mie.initial_value == csr_reset_value(CSR_MIE)
        &&& self.mtvec.writable_bits == csr_writable_mask(CSR_MTVEC)
        &&& self.mtvec.initial_value == csr_reset_value(CSR_MTVEC)
        &&& self.mscratch.writable_bits == csr_writable_mask(CSR_MSCRATCH)
        &&& self.mscratch.initial_value == csr_reset_value(CSR_MSCRATCH)
        &&& self.mepc.writable_bits == csr_writable_mask(CSR_MEPC)
        &&& self.mepc.initial_value == csr_reset_value(CSR_MEPC)
        &&& self.mcause.writable_bits == csr_writable_mask(CSR_MCAUSE)
        &&& self.mcause.initial_value == csr_reset_value(CSR_MCAUSE)
        &&& self.mtval.writable_bits == csr_writable_mask(CSR_MTVAL)
        &&& self.mtval.initial_value == csr_reset_value(CSR_MTVAL)
        &&& self.mip.writable_bits == csr_writable_mask(CSR_MIP)
        &&& self.mip.initial_value == csr_reset_value(CSR_MIP)
    }

    /// Creates the register file with every register at its reset value.
    pub fn new() -> (r: Self)
        ensures
            r.wf(),
            forall|a: CsrAddrType|
                is_known_csr(a) ==> #[trigger] r.spec_read(a) == csr_reset_value(a),
    {
        Csr {
            mstatus: CsrRegister::new(0xFFFF_FFFF, 0x0000_1800),
            misa: CsrRegister::new(0xFFFF_FFFF, 0x4000_1100),
            mie: CsrRegister::new(0xFFFF_FFFF, 0x0000_0000),
            mtvec: CsrRegister::new(0xFFFF_FFFF, 0x0000_0000),
            mscratch: CsrRegister::new(0xFFFF_FFFF, 0x0000_0000),
            mepc: CsrRegister::new(0xFFFF_FFFF, 0x0000_0000),
            mcause: CsrRegister::new(0xFFFF_FFFF, 0x0000_0000),
            mtval: CsrRegister::new(0xFFFF_FFFF, 0x0000_0000),
            mip: CsrRegister::new(0xFFFF_FFFF, 0x0000_0000),
        }
    }

    /// Reads the value of a CSR register.
    pub fn read(&self, address: CsrAddrType) -> (r: Result<u32, CsrError>)
        ensures
            is_known_csr(address) ==> r == Ok::<u32, CsrError>(self.spec_read(address)),
            !is_known_csr(address) ==> r == Err::<u32, CsrError>(CsrError::InvalidAddress),
    {
        if address == CSR_MSTATUS {
            Ok(self.mstatus.read())
        } else if address == CSR_MISA {
            Ok(self.misa.read())
        } else if address == CSR_MIE {
            Ok(self.mie.read())
        } else if address == CSR_MTVEC {
            Ok(self.mtvec.read())
        } else if address == CSR_MSCRATCH {
            Ok(self.mscratch.read())
        } else if address == CSR_MEPC {
            Ok(self.mepc.read())
        } else if address == CSR_MCAUSE {
            Ok(self.mcause.read())
        } else if address == CSR_MTVAL {
            Ok(self.mtval.read())
        } else if address == CSR_MIP {
            Ok(self.mip.read())
        } else {
            Err(CsrError::InvalidAddress)
        }
    }

    /// Writes a value to a CSR register, only changing bits covered by the
    /// register's writable mask; every other register keeps its value.
    pub fn write(&mut self, address: CsrAddrType, value: u32) -> (r: Result<(), CsrError>)
        requires
            old(self).wf(),
        ensures
            final(self).wf(),
            is_known_csr(address) ==> r == Ok::<(), CsrError>(()) && final(self).spec_read(address)
                == (old(self).spec_read(address) & !csr_writable_mask(address)) | (value
                & csr_writable_mask(address)),
            !is_known_csr(address) ==> r == Err::<(), CsrError>(CsrError::InvalidAddress) && *final(self) == *old(self),
            forall|a: CsrAddrType|
                is_known_csr(a) && a != address ==> #[trigger] final(self).spec_read(a) == old(self).spec_read(a),
    {
        if address == CSR_MSTATUS {
            self.mstatus.write(value);
            Ok(())
        } else if address == CSR_MISA {
            self.misa.write(value);
            Ok(())
        } else if address == CSR_MIE {
            self.mie.write(value);
            Ok(())
        } else if address == CSR_MTVEC {
            self.mtvec.write(value);
            Ok(())
        } else if address == CSR_MSCRATCH {
            self.mscratch.write(value);
            Ok(())
        } else if address == CSR_MEPC {
            self.mepc.write(value);
            Ok(())
        } else if address == CSR_MCAUSE {
            self.mcause.write(value);
            Ok(())
        } else if address == CSR_MTVAL {
            self.mtval.write(value);
            Ok(())
        } else if address == CSR_MIP {
            self.mip.write(value);
            Ok(())
        } else {
            Err(CsrError::InvalidAddress)
        }
    }

    /// Restores every register to its declared reset value.
    pub fn reset(&mut self)
        requires
            old(self).wf(),
        ensures
            final(self).wf(),
            forall|a: CsrAddrType|
                is_known_csr(a) ==> #[trigger] final(self).spec_read(a) == csr_reset_value(a),
    {
        self.mstatus.reset();
        self.misa.reset();
        self.mie.reset();
        self.mtvec.reset();
        self.mscratch.reset();
        self.mepc.reset();
        self.mcause.reset();
        self.mtval.reset();
        self.mip.reset();
    }
}

/// The value a supported CSR holds after a masked write of `value` over `old_val`.
pub open spec fn csr_written_value(addr: CsrAddrType, old_val: u32, value: u32) -> u32 {
    (old_val & !csr_writable_mask(addr)) | (value & csr_writable_mask(addr))
}

impl Csr {
    /// Reads the value of a CSR and writes a new value; returns the pre-write value.
    pub fn csrrw(&mut self, address: CsrAddrType, rs1_val: u32) -> (r: Result<u32, CsrError>)
        requires
            old(self).wf(),
        ensures
            final(self).wf(),
            is_known_csr(address) ==> r == Ok::<u32, CsrError>(old(self).spec_read(address))
                && final(self).spec_read(address) == csr_written_value(
                address,
                old(self).spec_read(address),
                rs1_val,
            ),
            !is_known_csr(address) ==> r == Err::<u32, CsrError>(CsrError::InvalidAddress) && *final(self) == *old(self),
            forall|a: CsrAddrType|
                is_known_csr(a) && a != address ==> #[trigger] final(self).spec_read(a) == old(self).spec_read(a),
    {
        let old_val = self.read(address)?;
        self.write(address, rs1_val)?;
        Ok(old_val)
    }

    /// Reads the value of a CSR and sets the bits given by the operand;
    /// returns the pre-write value.
    pub fn csrrs(&mut self, address: CsrAddrType, rs1_val: u32) -> (r: Result<u32, CsrError>)
        requires
            old(self).wf(),
        ensures
            final(self).wf(),
            is_known_csr(address) ==> r == Ok::<u32, CsrError>(old(self).spec_read(address))
                && final(self).spec_read(address) == csr_written_value(
                address,
                old(self).spec_read(address),
                old(self).spec_read(address) | rs1_val,
            ),
            !is_known_csr(address) ==> r == Err::<u32, CsrError>(CsrError::InvalidAddress) && *final(self) == *old(self),
            forall|a: CsrAddrType|
                is_known_csr(a) && a != address ==> #[trigger] final(self).spec_read(a) == old(self).spec_read(a),
    {
        let old_val = self.read(address)?;
        let new_val = old_val | rs1_val;
        self.write(address, new_val)?;
        Ok(old_val)
    }

    /// Reads the value of a CSR and clears the bits given by the operand;
    /// returns the pre-write value.
    pub fn csrrc(&mut self, address: CsrAddrType, rs1_val: u32) -> (r: Result<u32, CsrError>)
        requires
            old(self).wf(),
        ensures
            final(self).wf(),
            is_known_csr(address) ==> r == Ok::<u32, CsrError>(old(self).spec_read(address))
                && final(self).spec_read(address) == csr_written_value(
                address,
                old(self).spec_read(address),
                old(self).spec_read(address) & !rs1_val,
            ),
            !is_known_csr(address) ==> r == Err::<u32, CsrError>(CsrError::InvalidAddress) && *final(self) == *old(self),
            forall|a: CsrAddrType|
                is_known_csr(a) && a != address ==> #[trigger] final(self).spec_read(a) == old(self).spec_read(a),
    {
        let old_val = self.read(address)?;
        let new_val = old_val & !rs1_val;
        self.write(address, new_val)?;
        Ok(old_val)
    }
}

/// With a full writable mask, a masked write stores the value unchanged.
pub proof fn lemma_full_mask_write(addr: CsrAddrType, old_val: u32, value: u32)
    ensures
        csr_written_value(addr, old_val, value) == value,
{
    assert((old_val & !0xFFFF_FFFFu32) | (value & 0xFFFF_FFFFu32) == value) by (bit_vector);
}

/// Law: a masked CSR write leaves every bit outside the writable mask at its
/// pre-write value, and the value read back afterwards is exactly the written
/// bits under the mask joined with the preserved bits outside it.
pub proof fn lemma_csr_write_masking(old_val: u32, value: u32, addr: CsrAddrType)
    requires
        is_known_csr(addr),
    ensures
        csr_written_value(addr, old_val, value) == (value & csr_writable_mask(addr)) | (old_val
            & !csr_writable_mask(addr)),
        csr_written_value(addr, old_val, value) & !csr_writable_mask(addr) == old_val
            & !csr_writable_mask(addr),
{
    let m = csr_writable_mask(addr);
    assert((old_val & !m) | (value & m) == (value & m) | (old_val & !m)) by (bit_vector);
    assert(((old_val & !m) | (value & m)) & !m == old_val & !m) by (bit_vector);
}

} // verus!
