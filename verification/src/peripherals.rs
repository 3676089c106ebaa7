//! The addressable-device contract and its error taxonomy.
//!
//! A device owns a contiguous half-open address range and answers byte,
//! halfword, word and variable-length reads and writes keyed by absolute
//! address.

use vstd::prelude::*;

verus! {

/// An absolute address on the bus.
pub type DeviceAddress = usize;

/// The size of a device's address range, in bytes.
pub type DeviceSize = usize;

/// Error type for bus and device operations.
#[derive(Debug, PartialEq, Eq)]
pub enum CpuPeripheralsError {
    /// A device failed to initialize.
    DeviceInitializationFailed(String),
    /// An operation a device does not support at this address.
    InvalidDeviceOperation(u64),
    /// A read the device refuses.
    DeviceReadFailed(u64),
    /// A write the device refuses.
    DeviceWriteFailed(u64),
    /// A transfer size the device cannot hold.
    InvalidSize(usize),
    /// An address outside the device's own storage.
    InvalidAddress(DeviceAddress),
    /// An address that no registered device covers.
    InvalidDeviceAddress(DeviceAddress),
}

/// The kind of a device on the bus.
#[derive(Debug, PartialEq, Eq, Structural, Clone, Copy)]
pub enum DeviceType {
    Clint,
    Mem,
    Uart,
}

/// The addressable-device contract: byte, halfword, word and variable-length
/// reads and writes keyed by absolute address.  A device learns its base
/// address once, at registration.
pub trait Device: Sized {
    /// The kind of this device.
    spec fn spec_device_type(&self) -> DeviceType;

    /// Returns the kind of this device.
    fn get_type(&self) -> (r: DeviceType)
        ensures
            r == self.spec_device_type(),
    ;

    /// Tells the device its base address.
    fn set_base_addr(&mut self, base_addr: DeviceAddress);

    /// Reads the byte at an absolute address.
    fn read_byte(&self, address: DeviceAddress) -> Result<u8, CpuPeripheralsError>;

    /// Writes a byte at an absolute address.
    fn write_byte(&mut self, address: DeviceAddress, value: u8) -> Result<
        (),
        CpuPeripheralsError,
    >;

    /// Reads the little-endian halfword at an absolute address.
    fn read_halfword(&self, address: DeviceAddress) -> Result<u16, CpuPeripheralsError>;

    /// Writes a little-endian halfword at an absolute address.
    fn write_halfword(&mut self, address: DeviceAddress, value: u16) -> Result<
        (),
        CpuPeripheralsError,
    >;

    /// Reads the little-endian word at an absolute address.
    fn read_word(&self, address: DeviceAddress) -> Result<u32, CpuPeripheralsError>;

    /// Writes a little-endian word at an absolute address.
    fn write_word(&mut self, address: DeviceAddress, value: u32) -> Result<
        (),
        CpuPeripheralsError,
    >;

    /// Reads `size` bytes starting at an absolute address.
    fn read(&self, address: DeviceAddress, size: usize) -> Result<Vec<u8>, CpuPeripheralsError>;

    /// Writes a run of bytes starting at an absolute address.
    fn write(&mut self, address: DeviceAddress, data: &[u8]) -> Result<(), CpuPeripheralsError>;
}

} // verus!
