//! A core-local interruptor stub: every read yields zero and every write is
//! accepted and discarded.

use vstd::prelude::*;

use crate::peripherals::{CpuPeripheralsError, Device, DeviceAddress, DeviceType};

verus! {

/// A CLINT device holding only its base address.
pub struct Clint {
    base_addr: DeviceAddress,
}

impl Clint {
    /// The device's base address on the bus.
    pub closed spec fn spec_base(self) -> DeviceAddress {
        self.base_addr
    }

    /// Creates a CLINT at base address 0.
    pub fn new() -> (r: Self)
        ensures
            r.spec_base() == 0,
    {
        Self { base_addr: 0 }
    }

    /// Sets the device's base address at registration time.
    pub fn set_base_addr(&mut self, base_addr: DeviceAddress)
        ensures
            final(self).spec_base() == base_addr,
    {
        self.base_addr = base_addr;
    }

    /// Reads a byte: always 0.
    pub fn read_byte(&self, _address: DeviceAddress) -> (r: Result<u8, CpuPeripheralsError>)
        ensures
            r == Ok::<u8, CpuPeripheralsError>(0u8),
    {
        Ok(0)
    }

    /// Writes a byte: accepted and discarded.
    pub fn write_byte(&mut self, _address: DeviceAddress, _value: u8) -> (r: Result<
        (),
        CpuPeripheralsError,
    >)
        ensures
            *final(self) == *old(self),
            r == Ok::<(), CpuPeripheralsError>(()),
    {
        Ok(())
    }

    /// Reads a halfword: always 0.
    pub fn read_halfword(&self, _address: DeviceAddress) -> (r: Result<u16, CpuPeripheralsError>)
        ensures
            r == Ok::<u16, CpuPeripheralsError>(0u16),
    {
        Ok(0)
    }

    /// Writes a halfword: accepted and discarded.
    pub fn write_halfword(&mut self, _address: DeviceAddress, _value: u16) -> (r: Result<
        (),
        CpuPeripheralsError,
    >)
        ensures
            *final(self) == *old(self),
            r == Ok::<(), CpuPeripheralsError>(()),
    {
        Ok(())
    }

    /// Reads a word: always 0.
    pub fn read_word(&self, _address: DeviceAddress) -> (r: Result<u32, CpuPeripheralsError>)
        ensures
            r == Ok::<u32, CpuPeripheralsError>(0u32),
    {
        Ok(0)
    }

    /// Writes a word: accepted and discarded.
    pub fn write_word(&mut self, _address: DeviceAddress, _value: u32) -> (r: Result<
        (),
        CpuPeripheralsError,
    >)
        ensures
            *final(self) == *old(self),
            r == Ok::<(), CpuPeripheralsError>(()),
    {
        Ok(())
    }

    /// Reads `size` bytes: all zero.
    pub fn read(&self, _address: DeviceAddress, size: usize) -> (r: Result<
        Vec<u8>,
        CpuPeripheralsError,
    >)
        ensures
            r matches Ok(v) && v@.len() == size && (forall|i: int| 0 <= i < size ==> v@[i] == 0),
    {
        let mut out: Vec<u8> = Vec::new();
        let mut i: usize = 0;
        while i < size
            invariant
                i <= size,
                out@.len() == i,
                forall|j: int| 0 <= j < i ==> out@[j] == 0,
            decreases size - i,
        {
            out.push(0);
            i += 1;
        }
        Ok(out)
    }

    /// Writes a run of bytes: accepted and discarded.
    pub fn write(&mut self, _address: DeviceAddress, _data: &[u8]) -> (r: Result<
        (),
        CpuPeripheralsError,
    >)
        ensures
            *final(self) == *old(self),
            r == Ok::<(), CpuPeripheralsError>(()),
    {
        Ok(())
    }
}


impl Device for Clint {
    open spec fn spec_device_type(&self) -> DeviceType {
        DeviceType::Clint
    }

    fn get_type(&self) -> (r: DeviceType)
        ensures
            r == self.spec_device_type(),
    {
        DeviceType::Clint
    }

    fn set_base_addr(&mut self, base_addr: DeviceAddress) {
        Clint::set_base_addr(self, base_addr)
    }

    fn read_byte(&self, address: DeviceAddress) -> Result<u8, CpuPeripheralsError> {
        Clint::read_byte(self, address)
    }

    fn write_byte(&mut self, address: DeviceAddress, value: u8) -> Result<
        (),
        CpuPeripheralsError,
    > {
        Clint::write_byte(self, address, value)
    }

    fn read_halfword(&self, address: DeviceAddress) -> Result<u16, CpuPeripheralsError> {
        Clint::read_halfword(self, address)
    }

    fn write_halfword(&mut self, address: DeviceAddress, value: u16) -> Result<
        (),
        CpuPeripheralsError,
    > {
        Clint::write_halfword(self, address, value)
    }

    fn read_word(&self, address: DeviceAddress) -> Result<u32, CpuPeripheralsError> {
        Clint::read_word(self, address)
    }

    fn write_word(&mut self, address: DeviceAddress, value: u32) -> Result<
        (),
        CpuPeripheralsError,
    > {
        Clint::write_word(self, address, value)
    }

    fn read(&self, address: DeviceAddress, size: usize) -> Result<Vec<u8>, CpuPeripheralsError> {
        Clint::read(self, address, size)
    }

    fn write(&mut self, address: DeviceAddress, data: &[u8]) -> Result<(), CpuPeripheralsError> {
        Clint::write(self, address, data)
    }
}

} // verus!
