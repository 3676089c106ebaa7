//! A flat little-endian memory device.

use vstd::prelude::*;

use crate::peripherals::{CpuPeripheralsError, Device, DeviceAddress, DeviceType};

verus! {

/// The 16-bit value two little-endian bytes compose.
pub open spec fn spec_le16(b0: u8, b1: u8) -> u16 {
    (b0 as u16) | ((b1 as u16) << 8)
}

/// The 32-bit value four little-endian bytes compose.
pub open spec fn spec_le32(b0: u8, b1: u8, b2: u8, b3: u8) -> u32 {
    (b0 as u32) | ((b1 as u32) << 8) | ((b2 as u32) << 16) | ((b3 as u32) << 24)
}

/// The low byte of a 16-bit value.
pub open spec fn spec_lo8_of16(v: u16) -> u8 {
    (v & 0xff) as u8
}

/// The high byte of a 16-bit value.
pub open spec fn spec_hi8_of16(v: u16) -> u8 {
    ((v >> 8) & 0xff) as u8
}

/// Byte `i` (0 lowest) of a 32-bit value.
pub open spec fn spec_byte_of32(v: u32, i: int) -> u8 {
    (((v >> (8 * i)) as u32) & 0xff) as u8
}

/// A memory device: a byte array at a base address.
pub struct Mem {
    base_addr: DeviceAddress,
    data: Vec<u8>,
}

impl Mem {
    /// The device's base address on the bus.
    pub closed spec fn spec_base(self) -> DeviceAddress {
        self.base_addr
    }

    /// The bytes the device holds.
    pub closed spec fn spec_data(self) -> Seq<u8> {
        self.data@
    }

    /// Whether `width` bytes at absolute address `addr` lie inside the device.
    pub open spec fn can_access(self, addr: DeviceAddress, width: int) -> bool {
        &&& self.spec_base() <= addr
        &&& addr - self.spec_base() + width <= self.spec_data().len()
    }

    /// The byte at absolute address `addr` plus offset `i`.
    pub open spec fn byte_at(self, addr: DeviceAddress, i: int) -> u8 {
        self.spec_data()[addr - self.spec_base() + i]
    }

    /// Creates a memory of `size` zeroed bytes at base address 0.
    pub fn new(size: usize) -> (r: Self)
        ensures
            r.spec_base() == 0,
            r.spec_data().len() == size,
            forall|i: int| 0 <= i < size ==> r.spec_data()[i] == 0,
    {
        let mut data: Vec<u8> = Vec::new();
        let mut i: usize = 0;
        while i < size
            invariant
                i <= size,
                data@.len() == i,
                forall|j: int| 0 <= j < i ==> data@[j] == 0,
            decreases size - i,
        {
            data.push(0);
            i += 1;
        }
        Self { base_addr: 0, data }
    }

    /// Sets the device's base address at registration time.
    pub fn set_base_addr(&mut self, base_addr: DeviceAddress)
        ensures
            final(self).spec_base() == base_addr,
            final(self).spec_data() == old(self).spec_data(),
    {
        self.base_addr = base_addr;
    }

    /// The number of bytes the device holds.
    pub fn size(&self) -> (r: usize)
        ensures
            r == self.spec_data().len(),
    {
        self.data.len()
    }

    /// The result a byte read at `addr` yields.
    pub open spec fn spec_read_byte(self, addr: DeviceAddress) -> Result<u8, CpuPeripheralsError> {
        if self.can_access(addr, 1) {
            Ok(self.byte_at(addr, 0))
        } else {
            Err(CpuPeripheralsError::InvalidAddress(addr))
        }
    }

    /// The result a halfword read at `addr` yields (little-endian).
    pub open spec fn spec_read_halfword(self, addr: DeviceAddress) -> Result<
        u16,
        CpuPeripheralsError,
    > {
        if self.can_access(addr, 2) {
            Ok(spec_le16(self.byte_at(addr, 0), self.byte_at(addr, 1)))
        } else {
            Err(CpuPeripheralsError::InvalidAddress(addr))
        }
    }

    /// The result a word read at `addr` yields (little-endian).
    pub open spec fn spec_read_word(self, addr: DeviceAddress) -> Result<
        u32,
        CpuPeripheralsError,
    > {
        if self.can_access(addr, 4) {
            Ok(
                spec_le32(
                    self.byte_at(addr, 0),
                    self.byte_at(addr, 1),
                    self.byte_at(addr, 2),
                    self.byte_at(addr, 3),
                ),
            )
        } else {
            Err(CpuPeripheralsError::InvalidAddress(addr))
        }
    }

    /// Reads a byte.
    pub fn read_byte(&self, address: DeviceAddress) -> (r: Result<u8, CpuPeripheralsError>)
        ensures
            r == self.spec_read_byte(address),
    {
        if address < self.base_addr {
            return Err(CpuPeripheralsError::InvalidAddress(address));
        }
        let addr = address - self.base_addr;
        if addr >= self.data.len() {
            return Err(CpuPeripheralsError::InvalidAddress(address));
        }
        Ok(self.data[addr])
    }

    /// Writes a byte.
    pub fn write_byte(&mut self, address: DeviceAddress, value: u8) -> (r: Result<
        (),
        CpuPeripheralsError,
    >)
        ensures
            final(self).spec_base() == old(self).spec_base(),
            old(self).can_access(address, 1) ==> r == Ok::<(), CpuPeripheralsError>(()) && final(self).spec_data() == old(self).spec_data().update(
                address - old(self).spec_base(),
                value,
            ),
            !old(self).can_access(address, 1) ==> r == Err::<(), CpuPeripheralsError>(
                CpuPeripheralsError::InvalidAddress(address),
            ) && final(self).spec_data() == old(self).spec_data(),
    {
        if address < self.base_addr {
            return Err(CpuPeripheralsError::InvalidAddress(address));
        }
        let addr = address - self.base_addr;
        if addr >= self.data.len() {
            return Err(CpuPeripheralsError::InvalidAddress(address));
        }
        self.data[addr] = value;
        Ok(())
    }

    /// Reads a little-endian halfword.
    pub fn read_halfword(&self, address: DeviceAddress) -> (r: Result<u16, CpuPeripheralsError>)
        ensures
            r == self.spec_read_halfword(address),
    {
        if address < self.base_addr {
            return Err(CpuPeripheralsError::InvalidAddress(address));
        }
        let addr = address - self.base_addr;
        if self.data.len() < 2 || addr > self.data.len() - 2 {
            return Err(CpuPeripheralsError::InvalidAddress(address));
        }
        let b0 = self.data[addr];
        let b1 = self.data[addr + 1];
        Ok((b0 as u16) | ((b1 as u16) << 8))
    }

    /// Writes a little-endian halfword.
    pub fn write_halfword(&mut self, address: DeviceAddress, value: u16) -> (r: Result<
        (),
        CpuPeripheralsError,
    >)
        ensures
            final(self).spec_base() == old(self).spec_base(),
            old(self).can_access(address, 2) ==> r == Ok::<(), CpuPeripheralsError>(()) && final(self).spec_data() == old(self).spec_data().update(
                address - old(self).spec_base(),
                spec_lo8_of16(value),
            ).update(address - old(self).spec_base() + 1, spec_hi8_of16(value)),
            !old(self).can_access(address, 2) ==> r == Err::<(), CpuPeripheralsError>(
                CpuPeripheralsError::InvalidAddress(address),
            ) && final(self).spec_data() == old(self).spec_data(),
    {
        if address < self.base_addr {
            return Err(CpuPeripheralsError::InvalidAddress(address));
        }
        let addr = address - self.base_addr;
        if self.data.len() < 2 || addr > self.data.len() - 2 {
            return Err(CpuPeripheralsError::InvalidAddress(address));
        }
        self.data[addr] = (value & 0xff) as u8;
        self.data[addr + 1] = ((value >> 8) & 0xff) as u8;
        Ok(())
    }

    /// Reads a little-endian word.
    pub fn read_word(&self, address: DeviceAddress) -> (r: Result<u32, CpuPeripheralsError>)
        ensures
            r == self.spec_read_word(address),
    {
        if address < self.base_addr {
            return Err(CpuPeripheralsError::InvalidAddress(address));
        }
        let addr = address - self.base_addr;
        if self.data.len() < 4 || addr > self.data.len() - 4 {
            return Err(CpuPeripheralsError::InvalidAddress(address));
        }
        let b0 = self.data[addr];
        let b1 = self.data[addr + 1];
        let b2 = self.data[addr + 2];
        let b3 = self.data[addr + 3];
        Ok((b0 as u32) | ((b1 as u32) << 8) | ((b2 as u32) << 16) | ((b3 as u32) << 24))
    }

    /// Writes a little-endian word.
    pub fn write_word(&mut self, address: DeviceAddress, value: u32) -> (r: Result<
        (),
        CpuPeripheralsError,
    >)
        ensures
            final(self).spec_base() == old(self).spec_base(),
            old(self).can_access(address, 4) ==> r == Ok::<(), CpuPeripheralsError>(()) && final(self).spec_data() == old(self).spec_data().update(
                address - old(self).spec_base(),
                spec_byte_of32(value, 0),
            ).update(address - old(self).spec_base() + 1, spec_byte_of32(value, 1)).update(
                address - old(self).spec_base() + 2,
                spec_byte_of32(value, 2),
            ).update(address - old(self).spec_base() + 3, spec_byte_of32(value, 3)),
            !old(self).can_access(address, 4) ==> r == Err::<(), CpuPeripheralsError>(
                CpuPeripheralsError::InvalidAddress(address),
            ) && final(self).spec_data() == old(self).spec_data(),
    {
        if address < self.base_addr {
            return Err(CpuPeripheralsError::InvalidAddress(address));
        }
        let addr = address - self.base_addr;
        if self.data.len() < 4 || addr > self.data.len() - 4 {
            return Err(CpuPeripheralsError::InvalidAddress(address));
        }
        self.data[addr] = (value & 0xff) as u8;
        self.data[addr + 1] = ((value >> 8) & 0xff) as u8;
        self.data[addr + 2] = ((value >> 16) & 0xff) as u8;
        self.data[addr + 3] = ((value >> 24) & 0xff) as u8;
        proof {
            assert((value & 0xff) < 256 && ((value >> 8) & 0xff) < 256 && ((value >> 16) & 0xff)
                < 256 && ((value >> 24) & 0xff) < 256) by (bit_vector);
            assert(((value >> (8 * 0)) as u32) & 0xff == value & 0xff) by (bit_vector);
            assert(((value >> (8 * 1)) as u32) & 0xff == (value >> 8) & 0xff) by (bit_vector);
            assert(((value >> (8 * 2)) as u32) & 0xff == (value >> 16) & 0xff) by (bit_vector);
            assert(((value >> (8 * 3)) as u32) & 0xff == (value >> 24) & 0xff) by (bit_vector);
        }
        Ok(())
    }

    /// Reads `size` bytes starting at `address`.
    pub fn read(&self, address: DeviceAddress, size: usize) -> (r: Result<
        Vec<u8>,
        CpuPeripheralsError,
    >)
        ensures
            size > self.spec_data().len() ==> r == Err::<Vec<u8>, CpuPeripheralsError>(
                CpuPeripheralsError::InvalidSize(size),
            ),
            size <= self.spec_data().len() && !self.can_access(address, size as int) ==> r
                == Err::<Vec<u8>, CpuPeripheralsError>(
                CpuPeripheralsError::InvalidAddress(address),
            ),
            size <= self.spec_data().len() && self.can_access(address, size as int) ==> (r
                matches Ok(v) && v@ == self.spec_data().subrange(
                address - self.spec_base(),
                address - self.spec_base() + size,
            )),
    {
        if size > self.data.len() {
            return Err(CpuPeripheralsError::InvalidSize(size));
        }
        if address < self.base_addr {
            return Err(CpuPeripheralsError::InvalidAddress(address));
        }
        let addr = address - self.base_addr;
        if addr > self.data.len() - size {
            return Err(CpuPeripheralsError::InvalidAddress(address));
        }
        let mut out: Vec<u8> = Vec::new();
        let mut i: usize = 0;
        while i < size
            invariant
                i <= size,
                addr + size <= self.data.len(),
                out@.len() == i,
                forall|j: int| 0 <= j < i ==> out@[j] == self.data@[addr + j],
            decreases size - i,
        {
            out.push(self.data[addr + i]);
            i += 1;
        }
        proof {
            assert(out@ =~= self.spec_data().subrange(
                address - self.spec_base(),
                address - self.spec_base() + size,
            ));
        }
        Ok(out)
    }

    /// Writes the given bytes starting at `address`.
    pub fn write(&mut self, address: DeviceAddress, data: &[u8]) -> (r: Result<
        (),
        CpuPeripheralsError,
    >)
        ensures
            final(self).spec_base() == old(self).spec_base(),
            data@.len() > old(self).spec_data().len() ==> r == Err::<(), CpuPeripheralsError>(
                CpuPeripheralsError::InvalidSize(data@.len() as usize),
            ) && final(self).spec_data() == old(self).spec_data(),
            data@.len() <= old(self).spec_data().len() && !old(self).can_access(
                address,
                data@.len() as int,
            ) ==> r == Err::<(), CpuPeripheralsError>(
                CpuPeripheralsError::InvalidAddress(address),
            ) && final(self).spec_data() == old(self).spec_data(),
            data@.len() <= old(self).spec_data().len() && old(self).can_access(
                address,
                data@.len() as int,
            ) ==> r == Ok::<(), CpuPeripheralsError>(()) && final(self).spec_data().len() == old(
                self,
            ).spec_data().len() && (forall|k: int|
                0 <= k < old(self).spec_data().len() ==> final(self).spec_data()[k] == (
                if address - old(self).spec_base() <= k < address - old(self).spec_base()
                    + data@.len() {
                    data@[k - (address - old(self).spec_base())]
                } else {
                    old(self).spec_data()[k]
                })),
    {
        let size = data.len();
        if size > self.data.len() {
            return Err(CpuPeripheralsError::InvalidSize(size));
        }
        if address < self.base_addr {
            return Err(CpuPeripheralsError::InvalidAddress(address));
        }
        let addr = address - self.base_addr;
        if addr > self.data.len() - size {
            return Err(CpuPeripheralsError::InvalidAddress(address));
        }
        let mut i: usize = 0;
        while i < size
            invariant
                i <= size,
                size == data@.len(),
                addr + size <= self.data.len(),
                self.data@.len() == old(self).spec_data().len(),
                self.base_addr == old(self).spec_base(),
                forall|k: int|
                    0 <= k < self.data@.len() ==> self.data@[k] == (
                    if addr <= k < addr + i {
                        data@[k - addr]
                    } else {
                        old(self).spec_data()[k]
                    }),
            decreases size - i,
        {
            self.data[addr + i] = data[i];
            i += 1;
        }
        Ok(())
    }
}

/// Law: composing the four little-endian bytes of a word restores the word.
pub proof fn lemma_le32_of_bytes(v: u32)
    ensures
        spec_le32(
            spec_byte_of32(v, 0),
            spec_byte_of32(v, 1),
            spec_byte_of32(v, 2),
            spec_byte_of32(v, 3),
        ) == v,
{
    assert((((((v >> (8 * 0)) as u32) & 0xff) as u8) as u32) | (((((v >> (8 * 1)) as u32) & 0xff)
        as u8) as u32) << 8 | (((((v >> (8 * 2)) as u32) & 0xff) as u8) as u32) << 16 | (((((v >> (
    8 * 3)) as u32) & 0xff) as u8) as u32) << 24 == v) by (bit_vector);
}

/// Law: composing the two little-endian bytes of a halfword restores it.
pub proof fn lemma_le16_of_bytes(v: u16)
    ensures
        spec_le16(spec_lo8_of16(v), spec_hi8_of16(v)) == v,
{
    assert((((v & 0xff) as u8) as u16) | ((((v >> 8) & 0xff) as u8) as u16) << 8 == v)
        by (bit_vector);
}


impl Device for Mem {
    open spec fn spec_device_type(&self) -> DeviceType {
        DeviceType::Mem
    }

    fn get_type(&self) -> (r: DeviceType)
        ensures
            r == self.spec_device_type(),
    {
        DeviceType::Mem
    }

    fn set_base_addr(&mut self, base_addr: DeviceAddress) {
        Mem::set_base_addr(self, base_addr)
    }

    fn read_byte(&self, address: DeviceAddress) -> Result<u8, CpuPeripheralsError> {
        Mem::read_byte(self, address)
    }

    fn write_byte(&mut self, address: DeviceAddress, value: u8) -> Result<
        (),
        CpuPeripheralsError,
    > {
        Mem::write_byte(self, address, value)
    }

    fn read_halfword(&self, address: DeviceAddress) -> Result<u16, CpuPeripheralsError> {
        Mem::read_halfword(self, address)
    }

    fn write_halfword(&mut self, address: DeviceAddress, value: u16) -> Result<
        (),
        CpuPeripheralsError,
    > {
        Mem::write_halfword(self, address, value)
    }

    fn read_word(&self, address: DeviceAddress) -> Result<u32, CpuPeripheralsError> {
        Mem::read_word(self, address)
    }

    fn write_word(&mut self, address: DeviceAddress, value: u32) -> Result<
        (),
        CpuPeripheralsError,
    > {
        Mem::write_word(self, address, value)
    }

    fn read(&self, address: DeviceAddress, size: usize) -> Result<Vec<u8>, CpuPeripheralsError> {
        Mem::read(self, address, size)
    }

    fn write(&mut self, address: DeviceAddress, data: &[u8]) -> Result<(), CpuPeripheralsError> {
        Mem::write(self, address, data)
    }
}

} // verus!
