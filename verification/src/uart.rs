//! A transmit-only UART device.
//!
//! Bytes written to the transmit-data register collect in a line buffer that
//! starts with a `[name] ` head; a newline completes the line, which moves
//! to the device's output so the host can drain and display it.

use vstd::prelude::*;

use crate::peripherals::{CpuPeripheralsError, Device, DeviceAddress, DeviceType};
use vstd::string::StringSliceAdditionalSpecFns;

verus! {

/// Offset of the transmit data register.
pub const UART_TXDATA: DeviceAddress = 0x00;

/// Offset of the receive data register.
pub const UART_RXDATA: DeviceAddress = 0x04;

/// A UART device: a name, a base address, the line buffer being filled, and
/// the completed output not yet drained by the host.
pub struct Uart {
    name: &'static str,
    base_addr: DeviceAddress,
    tx_buffer: Vec<u8>,
    output: Vec<u8>,
}

/// The line-buffer head for a device name: the name in brackets and a space.
pub open spec fn spec_uart_head(name: Seq<u8>) -> Seq<u8> {
    seq![91u8] + name + seq![93u8, 32u8]
}

/// The line buffer and output after one byte arrives: a newline flushes the
/// buffer (newline included) to the output and restarts the buffer at the
/// head.
pub open spec fn spec_uart_feed(tx: Seq<u8>, out: Seq<u8>, head: Seq<u8>, b: u8) -> (Seq<u8>, Seq<
    u8,
>) {
    if b == 10u8 {
        (head, out + tx.push(b))
    } else {
        (tx.push(b), out)
    }
}

/// The line buffer and output after a run of bytes arrives, first byte first.
pub open spec fn spec_uart_feed_all(tx: Seq<u8>, out: Seq<u8>, head: Seq<u8>, data: Seq<u8>) -> (
    Seq<u8>,
    Seq<u8>,
)
    decreases data.len(),
{
    if data.len() == 0 {
        (tx, out)
    } else {
        let stepped = spec_uart_feed(tx, out, head, data[0]);
        spec_uart_feed_all(stepped.0, stepped.1, head, data.skip(1))
    }
}

impl Uart {
    /// The device name.
    pub closed spec fn spec_name(self) -> Seq<u8> {
        self.name.spec_bytes()
    }

    /// The device's base address on the bus.
    pub closed spec fn spec_base(self) -> DeviceAddress {
        self.base_addr
    }

    /// The line buffer being filled.
    pub closed spec fn spec_tx_buffer(self) -> Seq<u8> {
        self.tx_buffer@
    }

    /// The completed output not yet drained.
    pub closed spec fn spec_output(self) -> Seq<u8> {
        self.output@
    }

    /// The line-buffer head of this device.
    pub open spec fn spec_head(self) -> Seq<u8> {
        spec_uart_head(self.spec_name())
    }

    /// Creates a UART at base address 0 with an empty line started.
    pub fn new(name: &'static str) -> (r: Self)
        ensures
            r.spec_name() == name.spec_bytes(),
            r.spec_base() == 0,
            r.spec_tx_buffer() == r.spec_head(),
            r.spec_output() == Seq::<u8>::empty(),
    {
        let mut uart = Self { name, base_addr: 0, tx_buffer: Vec::new(), output: Vec::new() };
        uart.add_head_to_tx_buffer();
        uart
    }

    /// Sets the device's base address at registration time.
    pub fn set_base_addr(&mut self, base_addr: DeviceAddress)
        ensures
            final(self).spec_base() == base_addr,
            final(self).spec_name() == old(self).spec_name(),
            final(self).spec_tx_buffer() == old(self).spec_tx_buffer(),
            final(self).spec_output() == old(self).spec_output(),
    {
        self.base_addr = base_addr;
    }

    /// The device's base address.
    pub fn base_addr(&self) -> (r: DeviceAddress)
        ensures
            r == self.spec_base(),
    {
        self.base_addr
    }

    /// The device name.
    pub fn name(&self) -> (r: &'static str)
        ensures
            r.spec_bytes() == self.spec_name(),
    {
        self.name
    }

    /// The current line buffer, for inspection.
    pub fn tx_buffer(&self) -> (r: &Vec<u8>)
        ensures
            r@ == self.spec_tx_buffer(),
    {
        &self.tx_buffer
    }

    /// Removes and returns the completed output collected so far.
    pub fn take_output(&mut self) -> (r: Vec<u8>)
        ensures
            r@ == old(self).spec_output(),
            final(self).spec_output() == Seq::<u8>::empty(),
            final(self).spec_tx_buffer() == old(self).spec_tx_buffer(),
            final(self).spec_base() == old(self).spec_base(),
            final(self).spec_name() == old(self).spec_name(),
    {
        let mut out: Vec<u8> = Vec::new();
        core::mem::swap(&mut out, &mut self.output);
        out
    }

    /// Whether an absolute address is the transmit data register.
    fn is_txdata_addr(&self, address: DeviceAddress) -> (r: bool)
        requires
            self.spec_base() + UART_TXDATA <= usize::MAX,
        ensures
            r == (address == self.spec_base() + UART_TXDATA),
    {
        address == UART_TXDATA + self.base_addr
    }

    /// Feeds one byte into the line buffer; a newline flushes the line.
    fn write_tx_buffer(&mut self, value: u8)
        ensures
            (final(self).spec_tx_buffer(), final(self).spec_output()) == spec_uart_feed(
                old(self).spec_tx_buffer(),
                old(self).spec_output(),
                old(self).spec_head(),
                value,
            ),
            final(self).spec_base() == old(self).spec_base(),
            final(self).spec_name() == old(self).spec_name(),
    {
        self.tx_buffer.push(value);
        if value == 10u8 {
            self.reset_tx_buffer();
        }
    }

    /// Starts a new line buffer with the `[name] ` head.
    fn add_head_to_tx_buffer(&mut self)
        ensures
            final(self).spec_tx_buffer() == old(self).spec_tx_buffer() + spec_uart_head(
                old(self).spec_name(),
            ),
            final(self).spec_output() == old(self).spec_output(),
            final(self).spec_base() == old(self).spec_base(),
            final(self).spec_name() == old(self).spec_name(),
    {
        self.tx_buffer.push(91u8);
        self.tx_buffer.extend_from_slice(self.name.as_bytes());
        self.tx_buffer.push(93u8);
        self.tx_buffer.push(32u8);
        proof {
            assert(self.tx_buffer@ =~= old(self).spec_tx_buffer() + spec_uart_head(
                old(self).spec_name(),
            ));
        }
    }

    /// Moves the completed line to the output and restarts the buffer.
    fn reset_tx_buffer(&mut self)
        ensures
            final(self).spec_output() == old(self).spec_output() + old(self).spec_tx_buffer(),
            final(self).spec_tx_buffer() == old(self).spec_head(),
            final(self).spec_base() == old(self).spec_base(),
            final(self).spec_name() == old(self).spec_name(),
    {
        let mut line: Vec<u8> = Vec::new();
        core::mem::swap(&mut line, &mut self.tx_buffer);
        self.output.append(&mut line);
        self.add_head_to_tx_buffer();
        proof {
            assert(self.tx_buffer@ =~= old(self).spec_head());
        }
    }

    /// A UART cannot be read byte-wise.
    pub fn read_byte(&self, address: DeviceAddress) -> (r: Result<u8, CpuPeripheralsError>)
        ensures
            r == Err::<u8, CpuPeripheralsError>(CpuPeripheralsError::DeviceReadFailed(
                address as u64,
            )),
    {
        Err(CpuPeripheralsError::DeviceReadFailed(address as u64))
    }

    /// Writes a byte: accepted only at the transmit data register.
    pub fn write_byte(&mut self, address: DeviceAddress, value: u8) -> (r: Result<
        (),
        CpuPeripheralsError,
    >)
        requires
            old(self).spec_base() + UART_TXDATA <= usize::MAX,
        ensures
            final(self).spec_base() == old(self).spec_base(),
            final(self).spec_name() == old(self).spec_name(),
            address == old(self).spec_base() + UART_TXDATA ==> r == Ok::<(), CpuPeripheralsError>(
                (),
            ) && (final(self).spec_tx_buffer(), final(self).spec_output()) == spec_uart_feed(
                old(self).spec_tx_buffer(),
                old(self).spec_output(),
                old(self).spec_head(),
                value,
            ),
            address != old(self).spec_base() + UART_TXDATA ==> r == Err::<
                (),
                CpuPeripheralsError,
            >(CpuPeripheralsError::DeviceWriteFailed(address as u64)) && final(self).spec_tx_buffer() == old(self).spec_tx_buffer() && final(self).spec_output() == old(self).spec_output(),
    {
        if self.is_txdata_addr(address) {
            self.write_tx_buffer(value);
            Ok(())
        } else {
            Err(CpuPeripheralsError::DeviceWriteFailed(address as u64))
        }
    }

    /// A UART cannot be read halfword-wise.
    pub fn read_halfword(&self, address: DeviceAddress) -> (r: Result<u16, CpuPeripheralsError>)
        ensures
            r == Err::<u16, CpuPeripheralsError>(CpuPeripheralsError::DeviceReadFailed(
                address as u64,
            )),
    {
        Err(CpuPeripheralsError::DeviceReadFailed(address as u64))
    }

    /// A UART refuses halfword writes.
    pub fn write_halfword(&mut self, address: DeviceAddress, _value: u16) -> (r: Result<
        (),
        CpuPeripheralsError,
    >)
        ensures
            *final(self) == *old(self),
            r == Err::<(), CpuPeripheralsError>(CpuPeripheralsError::DeviceWriteFailed(
                address as u64,
            )),
    {
        Err(CpuPeripheralsError::DeviceWriteFailed(address as u64))
    }

    /// A UART cannot be read word-wise.
    pub fn read_word(&self, address: DeviceAddress) -> (r: Result<u32, CpuPeripheralsError>)
        ensures
            r == Err::<u32, CpuPeripheralsError>(CpuPeripheralsError::DeviceReadFailed(
                address as u64,
            )),
    {
        Err(CpuPeripheralsError::DeviceReadFailed(address as u64))
    }

    /// Writes a word: the low byte goes to the transmit data register.
    pub fn write_word(&mut self, address: DeviceAddress, value: u32) -> (r: Result<
        (),
        CpuPeripheralsError,
    >)
        requires
            old(self).spec_base() + UART_TXDATA <= usize::MAX,
        ensures
            final(self).spec_base() == old(self).spec_base(),
            final(self).spec_name() == old(self).spec_name(),
            address == old(self).spec_base() + UART_TXDATA ==> r == Ok::<(), CpuPeripheralsError>(
                (),
            ) && (final(self).spec_tx_buffer(), final(self).spec_output()) == spec_uart_feed(
                old(self).spec_tx_buffer(),
                old(self).spec_output(),
                old(self).spec_head(),
                (value & 0xFF) as u8,
            ),
            address != old(self).spec_base() + UART_TXDATA ==> r == Err::<
                (),
                CpuPeripheralsError,
            >(CpuPeripheralsError::DeviceWriteFailed(address as u64)) && final(self).spec_tx_buffer() == old(self).spec_tx_buffer() && final(self).spec_output() == old(self).spec_output(),
    {
        if self.is_txdata_addr(address) {
            self.write_tx_buffer((value & 0xFF) as u8);
            Ok(())
        } else {
            Err(CpuPeripheralsError::DeviceWriteFailed(address as u64))
        }
    }

    /// A UART cannot be read in bulk.
    pub fn read(&self, address: DeviceAddress, _size: usize) -> (r: Result<
        Vec<u8>,
        CpuPeripheralsError,
    >)
        ensures
            r == Err::<Vec<u8>, CpuPeripheralsError>(CpuPeripheralsError::DeviceReadFailed(
                address as u64,
            )),
    {
        Err(CpuPeripheralsError::DeviceReadFailed(address as u64))
    }

    /// Writes a run of bytes to the transmit data register, first byte first.
    pub fn write(&mut self, address: DeviceAddress, data: &[u8]) -> (r: Result<
        (),
        CpuPeripheralsError,
    >)
        requires
            old(self).spec_base() + UART_TXDATA <= usize::MAX,
        ensures
            final(self).spec_base() == old(self).spec_base(),
            final(self).spec_name() == old(self).spec_name(),
            address == old(self).spec_base() + UART_TXDATA ==> r == Ok::<(), CpuPeripheralsError>(
                (),
            ) && (final(self).spec_tx_buffer(), final(self).spec_output()) == spec_uart_feed_all(
                old(self).spec_tx_buffer(),
                old(self).spec_output(),
                old(self).spec_head(),
                data@,
            ),
            address != old(self).spec_base() + UART_TXDATA ==> r == Err::<
                (),
                CpuPeripheralsError,
            >(CpuPeripheralsError::DeviceWriteFailed(address as u64)) && final(self).spec_tx_buffer() == old(self).spec_tx_buffer() && final(self).spec_output() == old(self).spec_output(),
    {
        if self.is_txdata_addr(address) {
            proof {
                assert(data@.skip(0) =~= data@);
            }
            let mut i: usize = 0;
            while i < data.len()
                invariant
                    i <= data@.len(),
                    self.spec_base() == old(self).spec_base(),
                    self.spec_name() == old(self).spec_name(),
                    spec_uart_feed_all(
                        self.spec_tx_buffer(),
                        self.spec_output(),
                        self.spec_head(),
                        data@.skip(i as int),
                    ) == spec_uart_feed_all(
                        old(self).spec_tx_buffer(),
                        old(self).spec_output(),
                        old(self).spec_head(),
                        data@,
                    ),
                decreases data@.len() - i,
            {
                proof {
                    assert(data@.skip(i as int)[0] == data@[i as int]);
                    assert(data@.skip(i as int).skip(1) =~= data@.skip(i as int + 1));
                }
                self.write_tx_buffer(data[i]);
                i += 1;
            }
            proof {
                assert(data@.skip(data@.len() as int) =~= Seq::<u8>::empty());
            }
            Ok(())
        } else {
            Err(CpuPeripheralsError::DeviceWriteFailed(address as u64))
        }
    }
}


impl Device for Uart {
    open spec fn spec_device_type(&self) -> DeviceType {
        DeviceType::Uart
    }

    fn get_type(&self) -> (r: DeviceType)
        ensures
            r == self.spec_device_type(),
    {
        DeviceType::Uart
    }

    fn set_base_addr(&mut self, base_addr: DeviceAddress) {
        Uart::set_base_addr(self, base_addr)
    }

    fn read_byte(&self, address: DeviceAddress) -> Result<u8, CpuPeripheralsError> {
        Uart::read_byte(self, address)
    }

    fn write_byte(&mut self, address: DeviceAddress, value: u8) -> Result<
        (),
        CpuPeripheralsError,
    > {
        Uart::write_byte(self, address, value)
    }

    fn read_halfword(&self, address: DeviceAddress) -> Result<u16, CpuPeripheralsError> {
        Uart::read_halfword(self, address)
    }

    fn write_halfword(&mut self, address: DeviceAddress, value: u16) -> Result<
        (),
        CpuPeripheralsError,
    > {
        Uart::write_halfword(self, address, value)
    }

    fn read_word(&self, address: DeviceAddress) -> Result<u32, CpuPeripheralsError> {
        Uart::read_word(self, address)
    }

    fn write_word(&mut self, address: DeviceAddress, value: u32) -> Result<
        (),
        CpuPeripheralsError,
    > {
        Uart::write_word(self, address, value)
    }

    fn read(&self, address: DeviceAddress, size: usize) -> Result<Vec<u8>, CpuPeripheralsError> {
        Uart::read(self, address, size)
    }

    fn write(&mut self, address: DeviceAddress, data: &[u8]) -> Result<(), CpuPeripheralsError> {
        Uart::write(self, address, data)
    }
}

} // verus!
