//! The bus: an address-range registry of devices, dispatching byte, halfword
//! and word reads and writes to the first registered device whose half-open
//! range `[base, base+size)` contains the address.

use vstd::prelude::*;

use crate::clint::Clint;
use crate::mem::Mem;
use crate::peripherals::{CpuPeripheralsError, DeviceAddress, DeviceSize, DeviceType};
use crate::uart::{Uart, UART_TXDATA};

verus! {

/// A device on the bus: one of the supported peripheral kinds.
pub enum DeviceHandler {
    Clint(Clint),
    Mem(Mem),
    Uart(Uart),
}

/// A registered device with its half-open address range `[start, end)`.
pub struct BusEntry {
    pub start: DeviceAddress,
    pub end: DeviceAddress,
    pub device: DeviceHandler,
}

/// The kind of a device.
pub open spec fn spec_device_type(d: DeviceHandler) -> DeviceType {
    match d {
        DeviceHandler::Clint(_) => DeviceType::Clint,
        DeviceHandler::Mem(_) => DeviceType::Mem,
        DeviceHandler::Uart(_) => DeviceType::Uart,
    }
}

/// The result a byte read yields on a device.
pub open spec fn spec_device_read_byte(d: DeviceHandler, addr: DeviceAddress) -> Result<
    u8,
    CpuPeripheralsError,
> {
    match d {
        DeviceHandler::Clint(_) => Ok(0u8),
        DeviceHandler::Mem(m) => m.spec_read_byte(addr),
        DeviceHandler::Uart(_) => Err(CpuPeripheralsError::DeviceReadFailed(addr as u64)),
    }
}

/// The result a halfword read yields on a device.
pub open spec fn spec_device_read_halfword(d: DeviceHandler, addr: DeviceAddress) -> Result<
    u16,
    CpuPeripheralsError,
> {
    match d {
        DeviceHandler::Clint(_) => Ok(0u16),
        DeviceHandler::Mem(m) => m.spec_read_halfword(addr),
        DeviceHandler::Uart(_) => Err(CpuPeripheralsError::DeviceReadFailed(addr as u64)),
    }
}

/// The result a word read yields on a device.
pub open spec fn spec_device_read_word(d: DeviceHandler, addr: DeviceAddress) -> Result<
    u32,
    CpuPeripheralsError,
> {
    match d {
        DeviceHandler::Clint(_) => Ok(0u32),
        DeviceHandler::Mem(m) => m.spec_read_word(addr),
        DeviceHandler::Uart(_) => Err(CpuPeripheralsError::DeviceReadFailed(addr as u64)),
    }
}

/// How a byte write transforms a device: relates the device before, the
/// device after and the result.
pub open spec fn spec_device_write_byte(
    pre: DeviceHandler,
    addr: DeviceAddress,
    value: u8,
    post: DeviceHandler,
    r: Result<(), CpuPeripheralsError>,
) -> bool {
    match pre {
        DeviceHandler::Clint(_) => post == pre && r == Ok::<(), CpuPeripheralsError>(()),
        DeviceHandler::Mem(m) => (post matches DeviceHandler::Mem(m2) && m2.spec_base()
            == m.spec_base() && (if m.can_access(addr, 1) {
            r == Ok::<(), CpuPeripheralsError>(()) && m2.spec_data() == m.spec_data().update(
                addr - m.spec_base(),
                value,
            )
        } else {
            r == Err::<(), CpuPeripheralsError>(CpuPeripheralsError::InvalidAddress(addr))
                && m2.spec_data() == m.spec_data()
        })),
        DeviceHandler::Uart(u) => (post matches DeviceHandler::Uart(u2) && u2.spec_base()
            == u.spec_base() && u2.spec_name() == u.spec_name() && (if addr == u.spec_base()
            + UART_TXDATA {
            r == Ok::<(), CpuPeripheralsError>(()) && (u2.spec_tx_buffer(), u2.spec_output())
                == crate::uart::spec_uart_feed(
                u.spec_tx_buffer(),
                u.spec_output(),
                u.spec_head(),
                value,
            )
        } else {
            r == Err::<(), CpuPeripheralsError>(CpuPeripheralsError::DeviceWriteFailed(
                addr as u64,
            )) && u2.spec_tx_buffer() == u.spec_tx_buffer() && u2.spec_output() == u.spec_output()
        })),
    }
}

/// How a halfword write transforms a device.
pub open spec fn spec_device_write_halfword(
    pre: DeviceHandler,
    addr: DeviceAddress,
    value: u16,
    post: DeviceHandler,
    r: Result<(), CpuPeripheralsError>,
) -> bool {
    match pre {
        DeviceHandler::Clint(_) => post == pre && r == Ok::<(), CpuPeripheralsError>(()),
        DeviceHandler::Mem(m) => (post matches DeviceHandler::Mem(m2) && m2.spec_base()
            == m.spec_base() && (if m.can_access(addr, 2) {
            r == Ok::<(), CpuPeripheralsError>(()) && m2.spec_data() == m.spec_data().update(
                addr - m.spec_base(),
                crate::mem::spec_lo8_of16(value),
            ).update(addr - m.spec_base() + 1, crate::mem::spec_hi8_of16(value))
        } else {
            r == Err::<(), CpuPeripheralsError>(CpuPeripheralsError::InvalidAddress(addr))
                && m2.spec_data() == m.spec_data()
        })),
        DeviceHandler::Uart(u) => post == pre && r == Err::<(), CpuPeripheralsError>(
            CpuPeripheralsError::DeviceWriteFailed(addr as u64),
        ),
    }
}

/// How a word write transforms a device.
pub open spec fn spec_device_write_word(
    pre: DeviceHandler,
    addr: DeviceAddress,
    value: u32,
    post: DeviceHandler,
    r: Result<(), CpuPeripheralsError>,
) -> bool {
    match pre {
        DeviceHandler::Clint(_) => post == pre && r == Ok::<(), CpuPeripheralsError>(()),
        DeviceHandler::Mem(m) => (post matches DeviceHandler::Mem(m2) && m2.spec_base()
            == m.spec_base() && (if m.can_access(addr, 4) {
            r == Ok::<(), CpuPeripheralsError>(()) && m2.spec_data() == m.spec_data().update(
                addr - m.spec_base(),
                crate::mem::spec_byte_of32(value, 0),
            ).update(addr - m.spec_base() + 1, crate::mem::spec_byte_of32(value, 1)).update(
                addr - m.spec_base() + 2,
                crate::mem::spec_byte_of32(value, 2),
            ).update(addr - m.spec_base() + 3, crate::mem::spec_byte_of32(value, 3))
        } else {
            r == Err::<(), CpuPeripheralsError>(CpuPeripheralsError::InvalidAddress(addr))
                && m2.spec_data() == m.spec_data()
        })),
        DeviceHandler::Uart(u) => (post matches DeviceHandler::Uart(u2) && u2.spec_base()
            == u.spec_base() && u2.spec_name() == u.spec_name() && (if addr == u.spec_base()
            + UART_TXDATA {
            r == Ok::<(), CpuPeripheralsError>(()) && (u2.spec_tx_buffer(), u2.spec_output())
                == crate::uart::spec_uart_feed(
                u.spec_tx_buffer(),
                u.spec_output(),
                u.spec_head(),
                (value & 0xFF) as u8,
            )
        } else {
            r == Err::<(), CpuPeripheralsError>(CpuPeripheralsError::DeviceWriteFailed(
                addr as u64,
            )) && u2.spec_tx_buffer() == u.spec_tx_buffer() && u2.spec_output() == u.spec_output()
        })),
    }
}

/// The result a run-of-bytes write yields on a device.
pub open spec fn spec_device_write_result(
    pre: DeviceHandler,
    addr: DeviceAddress,
    data: Seq<u8>,
) -> Result<(), CpuPeripheralsError> {
    match pre {
        DeviceHandler::Clint(_) => Ok(()),
        DeviceHandler::Mem(m) => if data.len() > m.spec_data().len() {
            Err(CpuPeripheralsError::InvalidSize(data.len() as usize))
        } else if !m.can_access(addr, data.len() as int) {
            Err(CpuPeripheralsError::InvalidAddress(addr))
        } else {
            Ok(())
        },
        DeviceHandler::Uart(u) => if addr == u.spec_base() + UART_TXDATA {
            Ok(())
        } else {
            Err(CpuPeripheralsError::DeviceWriteFailed(addr as u64))
        },
    }
}

/// How a run-of-bytes write transforms a device: a CLINT discards it, a
/// memory takes the bytes in place when they fit, a UART feeds them through
/// its line buffer when aimed at the transmit register.
pub open spec fn spec_device_write_state_rel(
    pre: DeviceHandler,
    addr: DeviceAddress,
    data: Seq<u8>,
    post: DeviceHandler,
) -> bool {
    match pre {
        DeviceHandler::Clint(_) => post == pre,
        DeviceHandler::Mem(m) => (post matches DeviceHandler::Mem(m2) && m2.spec_base()
            == m.spec_base() && (if data.len() <= m.spec_data().len() && m.can_access(
            addr,
            data.len() as int,
        ) {
            m2.spec_data().len() == m.spec_data().len() && (forall|k: int|
                0 <= k < m.spec_data().len() ==> m2.spec_data()[k] == (
                if addr - m.spec_base() <= k < addr - m.spec_base() + data.len() {
                    data[k - (addr - m.spec_base())]
                } else {
                    m.spec_data()[k]
                }))
        } else {
            m2.spec_data() == m.spec_data()
        })),
        DeviceHandler::Uart(u) => (post matches DeviceHandler::Uart(u2) && u2.spec_base()
            == u.spec_base() && u2.spec_name() == u.spec_name() && (if addr == u.spec_base()
            + UART_TXDATA {
            (u2.spec_tx_buffer(), u2.spec_output()) == crate::uart::spec_uart_feed_all(
                u.spec_tx_buffer(),
                u.spec_output(),
                u.spec_head(),
                data,
            )
        } else {
            u2.spec_tx_buffer() == u.spec_tx_buffer() && u2.spec_output() == u.spec_output()
        })),
    }
}

/// How setting the base address transforms a device.
pub open spec fn spec_device_set_base(
    pre: DeviceHandler,
    base: DeviceAddress,
    post: DeviceHandler,
) -> bool {
    match pre {
        DeviceHandler::Clint(_) => (post matches DeviceHandler::Clint(c2) && c2.spec_base()
            == base),
        DeviceHandler::Mem(m) => (post matches DeviceHandler::Mem(m2) && m2.spec_base() == base
            && m2.spec_data() == m.spec_data()),
        DeviceHandler::Uart(u) => (post matches DeviceHandler::Uart(u2) && u2.spec_base() == base
            && u2.spec_name() == u.spec_name() && u2.spec_tx_buffer() == u.spec_tx_buffer()
            && u2.spec_output() == u.spec_output()),
    }
}

impl DeviceHandler {
    /// The kind of this device.
    pub fn get_type(&self) -> (r: DeviceType)
        ensures
            r == spec_device_type(*self),
    {
        match self {
            DeviceHandler::Clint(_) => DeviceType::Clint,
            DeviceHandler::Mem(_) => DeviceType::Mem,
            DeviceHandler::Uart(_) => DeviceType::Uart,
        }
    }

    /// Tells the device its base address.
    pub fn set_base_addr(&mut self, base_addr: DeviceAddress)
        ensures
            spec_device_set_base(*old(self), base_addr, *final(self)),
    {
        match self {
            DeviceHandler::Clint(c) => c.set_base_addr(base_addr),
            DeviceHandler::Mem(m) => m.set_base_addr(base_addr),
            DeviceHandler::Uart(u) => u.set_base_addr(base_addr),
        }
    }

    /// Reads a byte from the device at an absolute address.
    pub fn read_byte(&self, address: DeviceAddress) -> (r: Result<u8, CpuPeripheralsError>)
        ensures
            r == spec_device_read_byte(*self, address),
    {
        match self {
            DeviceHandler::Clint(c) => c.read_byte(address),
            DeviceHandler::Mem(m) => m.read_byte(address),
            DeviceHandler::Uart(u) => u.read_byte(address),
        }
    }

    /// Reads a halfword from the device at an absolute address.
    pub fn read_halfword(&self, address: DeviceAddress) -> (r: Result<u16, CpuPeripheralsError>)
        ensures
            r == spec_device_read_halfword(*self, address),
    {
        match self {
            DeviceHandler::Clint(c) => c.read_halfword(address),
            DeviceHandler::Mem(m) => m.read_halfword(address),
            DeviceHandler::Uart(u) => u.read_halfword(address),
        }
    }

    /// Reads a word from the device at an absolute address.
    pub fn read_word(&self, address: DeviceAddress) -> (r: Result<u32, CpuPeripheralsError>)
        ensures
            r == spec_device_read_word(*self, address),
    {
        match self {
            DeviceHandler::Clint(c) => c.read_word(address),
            DeviceHandler::Mem(m) => m.read_word(address),
            DeviceHandler::Uart(u) => u.read_word(address),
        }
    }

    /// Writes a byte to the device at an absolute address.
    pub fn write_byte(&mut self, address: DeviceAddress, value: u8) -> (r: Result<
        (),
        CpuPeripheralsError,
    >)
        ensures
            spec_device_write_byte(*old(self), address, value, *final(self), r),
    {
        match self {
            DeviceHandler::Clint(c) => c.write_byte(address, value),
            DeviceHandler::Mem(m) => m.write_byte(address, value),
            DeviceHandler::Uart(u) => u.write_byte(address, value),
        }
    }

    /// Writes a halfword to the device at an absolute address.
    pub fn write_halfword(&mut self, address: DeviceAddress, value: u16) -> (r: Result<
        (),
        CpuPeripheralsError,
    >)
        ensures
            spec_device_write_halfword(*old(self), address, value, *final(self), r),
    {
        match self {
            DeviceHandler::Clint(c) => c.write_halfword(address, value),
            DeviceHandler::Mem(m) => m.write_halfword(address, value),
            DeviceHandler::Uart(u) => u.write_halfword(address, value),
        }
    }

    /// Writes a word to the device at an absolute address.
    pub fn write_word(&mut self, address: DeviceAddress, value: u32) -> (r: Result<
        (),
        CpuPeripheralsError,
    >)
        ensures
            spec_device_write_word(*old(self), address, value, *final(self), r),
    {
        match self {
            DeviceHandler::Clint(c) => c.write_word(address, value),
            DeviceHandler::Mem(m) => m.write_word(address, value),
            DeviceHandler::Uart(u) => u.write_word(address, value),
        }
    }

    /// Writes a run of bytes to the device at an absolute address.
    pub fn write(&mut self, address: DeviceAddress, data: &[u8]) -> (r: Result<
        (),
        CpuPeripheralsError,
    >)
        ensures
            r == spec_device_write_result(*old(self), address, data@),
            spec_device_write_state_rel(*old(self), address, data@, *final(self)),
    {
        match self {
            DeviceHandler::Clint(c) => c.write(address, data),
            DeviceHandler::Mem(m) => m.write(address, data),
            DeviceHandler::Uart(u) => u.write(address, data),
        }
    }
}

/// Whether a registered range contains an address.
pub open spec fn covers(e: BusEntry, addr: DeviceAddress) -> bool {
    e.start <= addr < e.end
}

/// The index of the first registered device whose range contains `addr`.
pub open spec fn spec_find_device(entries: Seq<BusEntry>, addr: DeviceAddress) -> Option<int>
    decreases entries.len(),
{
    if entries.len() == 0 {
        None
    } else if covers(entries[0], addr) {
        Some(0)
    } else {
        match spec_find_device(entries.skip(1), addr) {
            Some(i) => Some(i + 1),
            None => None,
        }
    }
}

/// If `i` is the first covering index, the scan finds exactly `i`.
pub proof fn lemma_find_device_at(entries: Seq<BusEntry>, addr: DeviceAddress, i: int)
    requires
        0 <= i < entries.len(),
        covers(entries[i], addr),
        forall|j: int| 0 <= j < i ==> !covers(entries[j], addr),
    ensures
        spec_find_device(entries, addr) == Some(i),
    decreases i,
{
    if i == 0 {
    } else {
        assert(forall|j: int|
            0 <= j < i - 1 ==> entries.skip(1)[j] == entries[j + 1] && !covers(
                entries.skip(1)[j],
                addr,
            ));
        lemma_find_device_at(entries.skip(1), addr, i - 1);
    }
}

/// If no index covers the address, the scan finds none.
pub proof fn lemma_find_device_none(entries: Seq<BusEntry>, addr: DeviceAddress)
    requires
        forall|j: int| 0 <= j < entries.len() ==> !covers(entries[j], addr),
    ensures
        spec_find_device(entries, addr) is None,
    decreases entries.len(),
{
    if entries.len() > 0 {
        assert(forall|j: int|
            0 <= j < entries.len() - 1 ==> entries.skip(1)[j] == entries[j + 1] && !covers(
                entries.skip(1)[j],
                addr,
            ));
        lemma_find_device_none(entries.skip(1), addr);
    }
}

/// If some entry covers the address, the scan finds one.
pub proof fn lemma_find_device_some(entries: Seq<BusEntry>, addr: DeviceAddress)
    requires
        exists|i: int| 0 <= i < entries.len() && covers(#[trigger] entries[i], addr),
    ensures
        spec_find_device(entries, addr) is Some,
    decreases entries.len(),
{
    if !covers(entries[0], addr) {
        let i = choose|i: int| 0 <= i < entries.len() && covers(#[trigger] entries[i], addr);
        assert(entries.skip(1)[i - 1] == entries[i]);
        assert(covers(entries.skip(1)[i - 1], addr));
        lemma_find_device_some(entries.skip(1), addr);
    }
}

/// Law: a device registered over a half-open range answers every address
/// inside it — the first registered covering device is found — and an
/// address outside every registered range fails with `InvalidDeviceAddress`,
/// for reads and writes alike.
pub proof fn lemma_bus_addressing(b: Bus, addr: DeviceAddress, value: u8)
    ensures
        (exists|i: int| 0 <= i < b.entries().len() && covers(#[trigger] b.entries()[i], addr))
            ==> spec_find_device(b.entries(), addr) is Some,
        (forall|i: int| 0 <= i < b.entries().len() ==> !covers(#[trigger] b.entries()[i], addr))
            ==> spec_bus_read_byte(b, addr) == Err::<u8, CpuPeripheralsError>(
            CpuPeripheralsError::InvalidDeviceAddress(addr),
        ) && spec_bus_write_byte_result(b, addr, value) == Err::<(), CpuPeripheralsError>(
            CpuPeripheralsError::InvalidDeviceAddress(addr),
        ),
{
    if exists|i: int| 0 <= i < b.entries().len() && covers(#[trigger] b.entries()[i], addr) {
        lemma_find_device_some(b.entries(), addr);
    }
    if forall|i: int| 0 <= i < b.entries().len() ==> !covers(#[trigger] b.entries()[i], addr) {
        lemma_find_device_none(b.entries(), addr);
    }
}

/// Two registries with the same ranges in the same order find the same
/// device index for every address.
pub proof fn lemma_find_device_same_ranges(
    e1: Seq<BusEntry>,
    e2: Seq<BusEntry>,
    addr: DeviceAddress,
)
    requires
        e1.len() == e2.len(),
        forall|j: int|
            0 <= j < e1.len() ==> #[trigger] e2[j].start == e1[j].start && e2[j].end == e1[j].end,
    ensures
        spec_find_device(e1, addr) == spec_find_device(e2, addr),
    decreases e1.len(),
{
    if e1.len() > 0 {
        assert(forall|j: int|
            0 <= j < e1.len() - 1 ==> e1.skip(1)[j] == e1[j + 1] && e2.skip(1)[j] == e2[j + 1]);
        lemma_find_device_same_ranges(e1.skip(1), e2.skip(1), addr);
    }
}

/// Law: a word written through the bus into a memory device reads back
/// exactly, from the same address.
pub proof fn lemma_bus_store_load_word(pre: Bus, post: Bus, addr: DeviceAddress, value: u32)
    requires
        spec_bus_write_word_post(pre, addr, value, post),
        spec_bus_write_word_result(pre, addr, value) is Ok,
        match spec_find_device(pre.entries(), addr) {
            Some(i) => pre.entries()[i].device is Mem,
            None => false,
        },
    ensures
        spec_bus_read_word(post, addr) == Ok::<u32, CpuPeripheralsError>(value),
{
    let i = spec_find_device(pre.entries(), addr)->Some_0;
    assert(forall|j: int|
        0 <= j < pre.entries().len() ==> #[trigger] post.entries()[j].start
            == pre.entries()[j].start && post.entries()[j].end == pre.entries()[j].end);
    lemma_find_device_same_ranges(pre.entries(), post.entries(), addr);
    let m = pre.entries()[i].device->Mem_0;
    let m2 = post.entries()[i].device->Mem_0;
    assert(m2.spec_data().len() == m.spec_data().len());
    assert(m2.can_access(addr, 4));
    crate::mem::lemma_le32_of_bytes(value);
}

/// The result a byte read on the bus yields: the first covering device
/// answers; an address outside every range is `InvalidDeviceAddress`.
pub open spec fn spec_bus_read_byte(b: Bus, addr: DeviceAddress) -> Result<u8, CpuPeripheralsError> {
    match spec_find_device(b.entries(), addr) {
        Some(i) => spec_device_read_byte(b.entries()[i].device, addr),
        None => Err(CpuPeripheralsError::InvalidDeviceAddress(addr)),
    }
}

/// The result a halfword read on the bus yields.
pub open spec fn spec_bus_read_halfword(b: Bus, addr: DeviceAddress) -> Result<
    u16,
    CpuPeripheralsError,
> {
    match spec_find_device(b.entries(), addr) {
        Some(i) => spec_device_read_halfword(b.entries()[i].device, addr),
        None => Err(CpuPeripheralsError::InvalidDeviceAddress(addr)),
    }
}

/// The result a word read on the bus yields.
pub open spec fn spec_bus_read_word(b: Bus, addr: DeviceAddress) -> Result<
    u32,
    CpuPeripheralsError,
> {
    match spec_find_device(b.entries(), addr) {
        Some(i) => spec_device_read_word(b.entries()[i].device, addr),
        None => Err(CpuPeripheralsError::InvalidDeviceAddress(addr)),
    }
}

/// The result a byte write on the bus yields.
pub open spec fn spec_bus_write_byte_result(b: Bus, addr: DeviceAddress, value: u8) -> Result<
    (),
    CpuPeripheralsError,
> {
    match spec_find_device(b.entries(), addr) {
        None => Err(CpuPeripheralsError::InvalidDeviceAddress(addr)),
        Some(i) => match b.entries()[i].device {
            DeviceHandler::Clint(_) => Ok(()),
            DeviceHandler::Mem(m) => if m.can_access(addr, 1) {
                Ok(())
            } else {
                Err(CpuPeripheralsError::InvalidAddress(addr))
            },
            DeviceHandler::Uart(u) => if addr == u.spec_base() + UART_TXDATA {
                Ok(())
            } else {
                Err(CpuPeripheralsError::DeviceWriteFailed(addr as u64))
            },
        },
    }
}

/// The result a halfword write on the bus yields.
pub open spec fn spec_bus_write_halfword_result(b: Bus, addr: DeviceAddress, value: u16) -> Result<
    (),
    CpuPeripheralsError,
> {
    match spec_find_device(b.entries(), addr) {
        None => Err(CpuPeripheralsError::InvalidDeviceAddress(addr)),
        Some(i) => match b.entries()[i].device {
            DeviceHandler::Clint(_) => Ok(()),
            DeviceHandler::Mem(m) => if m.can_access(addr, 2) {
                Ok(())
            } else {
                Err(CpuPeripheralsError::InvalidAddress(addr))
            },
            DeviceHandler::Uart(u) => Err(CpuPeripheralsError::DeviceWriteFailed(addr as u64)),
        },
    }
}

/// The result a word write on the bus yields.
pub open spec fn spec_bus_write_word_result(b: Bus, addr: DeviceAddress, value: u32) -> Result<
    (),
    CpuPeripheralsError,
> {
    match spec_find_device(b.entries(), addr) {
        None => Err(CpuPeripheralsError::InvalidDeviceAddress(addr)),
        Some(i) => match b.entries()[i].device {
            DeviceHandler::Clint(_) => Ok(()),
            DeviceHandler::Mem(m) => if m.can_access(addr, 4) {
                Ok(())
            } else {
                Err(CpuPeripheralsError::InvalidAddress(addr))
            },
            DeviceHandler::Uart(u) => if addr == u.spec_base() + UART_TXDATA {
                Ok(())
            } else {
                Err(CpuPeripheralsError::DeviceWriteFailed(addr as u64))
            },
        },
    }
}

/// How a byte write transforms the bus: only the first covering device
/// changes, per its own write semantics; its range and every other entry
/// stay as they were.
pub open spec fn spec_bus_write_byte_post(
    pre: Bus,
    addr: DeviceAddress,
    value: u8,
    post: Bus,
) -> bool {
    match spec_find_device(pre.entries(), addr) {
        None => post == pre,
        Some(i) => {
            &&& post.entries().len() == pre.entries().len()
            &&& post.entries()[i].start == pre.entries()[i].start
            &&& post.entries()[i].end == pre.entries()[i].end
            &&& forall|j: int|
                0 <= j < pre.entries().len() && j != i ==> post.entries()[j] == pre.entries()[j]
            &&& spec_device_write_byte(
                pre.entries()[i].device,
                addr,
                value,
                post.entries()[i].device,
                spec_bus_write_byte_result(pre, addr, value),
            )
        },
    }
}

/// How a halfword write transforms the bus.
pub open spec fn spec_bus_write_halfword_post(
    pre: Bus,
    addr: DeviceAddress,
    value: u16,
    post: Bus,
) -> bool {
    match spec_find_device(pre.entries(), addr) {
        None => post == pre,
        Some(i) => {
            &&& post.entries().len() == pre.entries().len()
            &&& post.entries()[i].start == pre.entries()[i].start
            &&& post.entries()[i].end == pre.entries()[i].end
            &&& forall|j: int|
                0 <= j < pre.entries().len() && j != i ==> post.entries()[j] == pre.entries()[j]
            &&& spec_device_write_halfword(
                pre.entries()[i].device,
                addr,
                value,
                post.entries()[i].device,
                spec_bus_write_halfword_result(pre, addr, value),
            )
        },
    }
}

/// How a word write transforms the bus.
pub open spec fn spec_bus_write_word_post(
    pre: Bus,
    addr: DeviceAddress,
    value: u32,
    post: Bus,
) -> bool {
    match spec_find_device(pre.entries(), addr) {
        None => post == pre,
        Some(i) => {
            &&& post.entries().len() == pre.entries().len()
            &&& post.entries()[i].start == pre.entries()[i].start
            &&& post.entries()[i].end == pre.entries()[i].end
            &&& forall|j: int|
                0 <= j < pre.entries().len() && j != i ==> post.entries()[j] == pre.entries()[j]
            &&& spec_device_write_word(
                pre.entries()[i].device,
                addr,
                value,
                post.entries()[i].device,
                spec_bus_write_word_result(pre, addr, value),
            )
        },
    }
}

/// The address-range registry of devices.
pub struct Bus {
    devices: Vec<BusEntry>,
}

impl Bus {
    /// The registered devices, in registration order.
    pub closed spec fn entries(self) -> Seq<BusEntry> {
        self.devices@
    }

    /// Creates an empty bus.
    pub fn new() -> (r: Self)
        ensures
            r.entries() == Seq::<BusEntry>::empty(),
    {
        Self { devices: Vec::new() }
    }

    /// Registers a device over the half-open range `[base, base+size)` and
    /// tells it its base address.  The first registered device that covers an
    /// address answers for it.
    pub fn add_device(
        &mut self,
        base_addr: DeviceAddress,
        size: DeviceSize,
        device: DeviceHandler,
    ) -> (r: Result<(), CpuPeripheralsError>)
        requires
            base_addr + size <= usize::MAX,
        ensures
            r == Ok::<(), CpuPeripheralsError>(()),
            final(self).entries().len() == old(self).entries().len() + 1,
            final(self).entries().subrange(0, old(self).entries().len() as int) == old(self).entries(),
            ({
                let e = final(self).entries()[old(self).entries().len() as int];
                e.start == base_addr && e.end == base_addr + size && spec_device_set_base(
                    device,
                    base_addr,
                    e.device,
                )
            }),
    {
        let mut device = device;
        device.set_base_addr(base_addr);
        self.devices.push(BusEntry { start: base_addr, end: base_addr + size, device });
        proof {
            assert(self.entries().subrange(0, old(self).entries().len() as int) =~= old(self).entries());
        }
        Ok(())
    }

    /// Finds the first registered device whose range contains the address.
    pub fn find_device(&self, address: DeviceAddress) -> (r: Result<
        &DeviceHandler,
        CpuPeripheralsError,
    >)
        ensures
            match spec_find_device(self.entries(), address) {
                Some(i) => r matches Ok(d) && *d == self.entries()[i].device,
                None => r matches Err(e) && e == CpuPeripheralsError::InvalidDeviceAddress(
                    address,
                ),
            },
    {
        let n = self.devices.len();
        let mut i: usize = 0;
        while i < n
            invariant
                i <= n,
                n == self.entries().len(),
                forall|j: int| 0 <= j < i ==> !covers(self.entries()[j], address),
            decreases n - i,
        {
            let e = &self.devices[i];
            if e.start <= address && address < e.end {
                proof {
                    lemma_find_device_at(self.entries(), address, i as int);
                }
                return Ok(&e.device);
            }
            i += 1;
        }
        proof {
            lemma_find_device_none(self.entries(), address);
        }
        Err(CpuPeripheralsError::InvalidDeviceAddress(address))
    }

    /// Finds the index of the first registered device whose range contains
    /// the address, for mutation.
    pub fn find_device_mut(&mut self, address: DeviceAddress) -> (r: Result<
        usize,
        CpuPeripheralsError,
    >)
        ensures
            *final(self) == *old(self),
            match spec_find_device(old(self).entries(), address) {
                Some(i) => r == Ok::<usize, CpuPeripheralsError>(i as usize) && 0 <= i
                    < old(self).entries().len(),
                None => r == Err::<usize, CpuPeripheralsError>(
                    CpuPeripheralsError::InvalidDeviceAddress(address),
                ),
            },
    {
        let n = self.devices.len();
        let mut i: usize = 0;
        while i < n
            invariant
                i <= n,
                n == self.entries().len(),
                forall|j: int| 0 <= j < i ==> !covers(self.entries()[j], address),
            decreases n - i,
        {
            let e = &self.devices[i];
            if e.start <= address && address < e.end {
                proof {
                    lemma_find_device_at(self.entries(), address, i as int);
                }
                return Ok(i);
            }
            i += 1;
        }
        proof {
            lemma_find_device_none(self.entries(), address);
        }
        Err(CpuPeripheralsError::InvalidDeviceAddress(address))
    }

    /// Reads a byte from the device covering the address.
    pub fn read_byte(&self, address: DeviceAddress) -> (r: Result<u8, CpuPeripheralsError>)
        ensures
            r == spec_bus_read_byte(*self, address),
            match spec_find_device(self.entries(), address) {
                Some(i) => r == spec_device_read_byte(self.entries()[i].device, address),
                None => r == Err::<u8, CpuPeripheralsError>(
                    CpuPeripheralsError::InvalidDeviceAddress(address),
                ),
            },
    {
        match self.find_device(address) {
            Ok(device) => device.read_byte(address),
            Err(e) => Err(e),
        }
    }

    /// Writes a byte through the device covering the address.
    pub fn write_byte(&mut self, address: DeviceAddress, value: u8) -> (r: Result<
        (),
        CpuPeripheralsError,
    >)
        ensures
            r == spec_bus_write_byte_result(*old(self), address, value),
            spec_bus_write_byte_post(*old(self), address, value, *final(self)),
            match spec_find_device(old(self).entries(), address) {
                Some(i) => {
                    &&& final(self).entries().len() == old(self).entries().len()
                    &&& spec_device_write_byte(
                        old(self).entries()[i].device,
                        address,
                        value,
                        final(self).entries()[i].device,
                        r,
                    )
                    &&& final(self).entries()[i].start == old(self).entries()[i].start
                    &&& final(self).entries()[i].end == old(self).entries()[i].end
                    &&& forall|j: int|
                        0 <= j < old(self).entries().len() && j != i ==> final(self).entries()[j]
                            == old(self).entries()[j]
                },
                None => r == Err::<(), CpuPeripheralsError>(
                    CpuPeripheralsError::InvalidDeviceAddress(address),
                ) && *final(self) == *old(self),
            },
    {
        let idx = match self.find_device_mut(address) {
            Ok(i) => i,
            Err(e) => {
                return Err(e);
            },
        };
        let mut entry = self.devices.remove(idx);
        let res = entry.device.write_byte(address, value);
        self.devices.insert(idx, entry);
        proof {
            assert(self.entries() =~= old(self).entries().update(
                idx as int,
                self.entries()[idx as int],
            ));
        }
        res
    }

    /// Reads a halfword from the device covering the address (little-endian).
    pub fn read_halfword(&self, address: DeviceAddress) -> (r: Result<u16, CpuPeripheralsError>)
        ensures
            r == spec_bus_read_halfword(*self, address),
            match spec_find_device(self.entries(), address) {
                Some(i) => r == spec_device_read_halfword(self.entries()[i].device, address),
                None => r == Err::<u16, CpuPeripheralsError>(
                    CpuPeripheralsError::InvalidDeviceAddress(address),
                ),
            },
    {
        match self.find_device(address) {
            Ok(device) => device.read_halfword(address),
            Err(e) => Err(e),
        }
    }

    /// Writes a halfword through the device covering the address.
    pub fn write_halfword(&mut self, address: DeviceAddress, value: u16) -> (r: Result<
        (),
        CpuPeripheralsError,
    >)
        ensures
            r == spec_bus_write_halfword_result(*old(self), address, value),
            spec_bus_write_halfword_post(*old(self), address, value, *final(self)),
            match spec_find_device(old(self).entries(), address) {
                Some(i) => {
                    &&& final(self).entries().len() == old(self).entries().len()
                    &&& spec_device_write_halfword(
                        old(self).entries()[i].device,
                        address,
                        value,
                        final(self).entries()[i].device,
                        r,
                    )
                    &&& final(self).entries()[i].start == old(self).entries()[i].start
                    &&& final(self).entries()[i].end == old(self).entries()[i].end
                    &&& forall|j: int|
                        0 <= j < old(self).entries().len() && j != i ==> final(self).entries()[j]
                            == old(self).entries()[j]
                },
                None => r == Err::<(), CpuPeripheralsError>(
                    CpuPeripheralsError::InvalidDeviceAddress(address),
                ) && *final(self) == *old(self),
            },
    {
        let idx = match self.find_device_mut(address) {
            Ok(i) => i,
            Err(e) => {
                return Err(e);
            },
        };
        let mut entry = self.devices.remove(idx);
        let res = entry.device.write_halfword(address, value);
        self.devices.insert(idx, entry);
        proof {
            assert(self.entries() =~= old(self).entries().update(
                idx as int,
                self.entries()[idx as int],
            ));
        }
        res
    }

    /// Reads a word from the device covering the address (little-endian).
    pub fn read_word(&self, address: DeviceAddress) -> (r: Result<u32, CpuPeripheralsError>)
        ensures
            r == spec_bus_read_word(*self, address),
            match spec_find_device(self.entries(), address) {
                Some(i) => r == spec_device_read_word(self.entries()[i].device, address),
                None => r == Err::<u32, CpuPeripheralsError>(
                    CpuPeripheralsError::InvalidDeviceAddress(address),
                ),
            },
    {
        match self.find_device(address) {
            Ok(device) => device.read_word(address),
            Err(e) => Err(e),
        }
    }

    /// Writes a word through the device covering the address.
    pub fn write_word(&mut self, address: DeviceAddress, value: u32) -> (r: Result<
        (),
        CpuPeripheralsError,
    >)
        ensures
            r == spec_bus_write_word_result(*old(self), address, value),
            spec_bus_write_word_post(*old(self), address, value, *final(self)),
            match spec_find_device(old(self).entries(), address) {
                Some(i) => {
                    &&& final(self).entries().len() == old(self).entries().len()
                    &&& spec_device_write_word(
                        old(self).entries()[i].device,
                        address,
                        value,
                        final(self).entries()[i].device,
                        r,
                    )
                    &&& final(self).entries()[i].start == old(self).entries()[i].start
                    &&& final(self).entries()[i].end == old(self).entries()[i].end
                    &&& forall|j: int|
                        0 <= j < old(self).entries().len() && j != i ==> final(self).entries()[j]
                            == old(self).entries()[j]
                },
                None => r == Err::<(), CpuPeripheralsError>(
                    CpuPeripheralsError::InvalidDeviceAddress(address),
                ) && *final(self) == *old(self),
            },
    {
        let idx = match self.find_device_mut(address) {
            Ok(i) => i,
            Err(e) => {
                return Err(e);
            },
        };
        let mut entry = self.devices.remove(idx);
        let res = entry.device.write_word(address, value);
        self.devices.insert(idx, entry);
        proof {
            assert(self.entries() =~= old(self).entries().update(
                idx as int,
                self.entries()[idx as int],
            ));
        }
        res
    }

    /// Drains the completed output of the UART covering the address; an
    /// address with no UART under it yields nothing.
    pub fn take_uart_output(&mut self, address: DeviceAddress) -> (r: Vec<u8>)
        ensures
            final(self).entries().len() == old(self).entries().len(),
            match spec_find_device(old(self).entries(), address) {
                Some(i) => {
                    &&& forall|j: int|
                        0 <= j < old(self).entries().len() && j != i ==> final(self).entries()[j]
                            == old(self).entries()[j]
                    &&& (old(self).entries()[i].device matches DeviceHandler::Uart(u) ==> r@
                        == u.spec_output() && (final(self).entries()[i].device matches
                        DeviceHandler::Uart(u2) && u2.spec_output() == Seq::<u8>::empty()
                        && u2.spec_tx_buffer() == u.spec_tx_buffer() && u2.spec_base()
                        == u.spec_base() && u2.spec_name() == u.spec_name()))
                    &&& (!(old(self).entries()[i].device is Uart) ==> final(self).entries()[i]
                        == old(self).entries()[i] && r@ == Seq::<u8>::empty())
                    &&& final(self).entries()[i].start == old(self).entries()[i].start
                    &&& final(self).entries()[i].end == old(self).entries()[i].end
                },
                None => *final(self) == *old(self) && r@ == Seq::<u8>::empty(),
            },
    {
        let idx = match self.find_device_mut(address) {
            Ok(i) => i,
            Err(_) => {
                return Vec::new();
            },
        };
        let mut entry = self.devices.remove(idx);
        let out = match &mut entry.device {
            DeviceHandler::Uart(u) => u.take_output(),
            _ => Vec::new(),
        };
        self.devices.insert(idx, entry);
        proof {
            assert(self.entries() =~= old(self).entries().update(
                idx as int,
                self.entries()[idx as int],
            ));
        }
        out
    }

    /// Writes a run of bytes through the device covering the start address.
    pub fn write(&mut self, address: DeviceAddress, data: &[u8]) -> (r: Result<
        (),
        CpuPeripheralsError,
    >)
        ensures
            match spec_find_device(old(self).entries(), address) {
                Some(i) => {
                    &&& final(self).entries().len() == old(self).entries().len()
                    &&& final(self).entries()[i].start == old(self).entries()[i].start
                    &&& final(self).entries()[i].end == old(self).entries()[i].end
                    &&& forall|j: int|
                        0 <= j < old(self).entries().len() && j != i ==> final(self).entries()[j]
                            == old(self).entries()[j]
                    &&& r == spec_device_write_result(
                        old(self).entries()[i].device,
                        address,
                        data@,
                    )
                    &&& spec_device_write_state_rel(
                        old(self).entries()[i].device,
                        address,
                        data@,
                        final(self).entries()[i].device,
                    )
                },
                None => r == Err::<(), CpuPeripheralsError>(
                    CpuPeripheralsError::InvalidDeviceAddress(address),
                ) && *final(self) == *old(self),
            },
    {
        let idx = match self.find_device_mut(address) {
            Ok(i) => i,
            Err(e) => {
                return Err(e);
            },
        };
        let mut entry = self.devices.remove(idx);
        let res = entry.device.write(address, data);
        self.devices.insert(idx, entry);
        proof {
            assert(self.entries() =~= old(self).entries().update(
                idx as int,
                self.entries()[idx as int],
            ));
        }
        res
    }
}

} // verus!
