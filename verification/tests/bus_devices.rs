// Tests for the bus dispatch and the peripheral devices.

use rv_iss::bus::{Bus, DeviceHandler};
use rv_iss::clint::Clint;
use rv_iss::mem::Mem;
use rv_iss::peripherals::{CpuPeripheralsError, Device, DeviceType};
use rv_iss::uart::{Uart, UART_TXDATA};

#[test]
fn test_bus_add_and_find_device() {
    let mut bus = Bus::new();
    let clint = DeviceHandler::Clint(Clint::new());
    let mem = DeviceHandler::Mem(Mem::new(256));
    let uart = DeviceHandler::Uart(Uart::new("test_uart"));

    let _ = bus.add_device(0x0000_0000, 0x1000, clint);
    let _ = bus.add_device(0x1000_0000, 0x1000, mem);
    let _ = bus.add_device(0x2000_0000, 0x1000, uart);

    assert_eq!(bus.find_device(0x0000_0000).unwrap().get_type(), DeviceType::Clint);
    assert_eq!(bus.find_device(0x1000_0000).unwrap().get_type(), DeviceType::Mem);
    assert_eq!(bus.find_device(0x2000_0000).unwrap().get_type(), DeviceType::Uart);
}

#[test]
fn test_bus_read_and_write_byte() {
    let mut bus = Bus::new();
    let mem = DeviceHandler::Mem(Mem::new(256));
    let _ = bus.add_device(0x1000_0000, 256, mem);

    assert!(bus.write_byte(0x1000_0000, 0xFF).is_ok());
    assert_eq!(bus.read_byte(0x1000_0000), Ok(0xFF));

    assert!(bus.write_halfword(0x1000_0004, 0x1234).is_ok());
    assert_eq!(bus.read_halfword(0x1000_0004), Ok(0x1234));

    assert!(bus.write_word(0x1000_0008, 0x1234abcd).is_ok());
    assert_eq!(bus.read_word(0x1000_0008), Ok(0x1234abcd));
}

#[test]
fn test_bus_unmapped_address_fails() {
    let mut bus = Bus::new();
    let mem = DeviceHandler::Mem(Mem::new(256));
    let _ = bus.add_device(0x1000, 256, mem);

    // every address in the half-open range answers
    assert!(bus.read_byte(0x1000).is_ok());
    assert!(bus.read_byte(0x1000 + 255).is_ok());
    // an address outside every registered range fails
    assert_eq!(
        bus.read_byte(0x1000 + 256),
        Err(CpuPeripheralsError::InvalidDeviceAddress(0x1000 + 256))
    );
    assert_eq!(bus.read_byte(5), Err(CpuPeripheralsError::InvalidDeviceAddress(5)));
    assert_eq!(
        bus.write_byte(0xfff, 1),
        Err(CpuPeripheralsError::InvalidDeviceAddress(0xfff))
    );
}

#[test]
fn test_clint_device() {
    let clint = Clint::new();
    assert_eq!(clint.get_type(), DeviceType::Clint);
}

#[test]
fn test_mem_device() {
    let mem = Mem::new(256);
    assert_eq!(mem.get_type(), DeviceType::Mem);
}

#[test]
fn test_uart_device() {
    let uart = Uart::new("UARTX");
    assert_eq!(uart.get_type(), DeviceType::Uart);
}

#[test]
fn mem_new() {
    let size = 256;
    let mem = Mem::new(size);
    assert_eq!(mem.size(), size);
}

#[test]
fn mem_read_byte() {
    let mem = Mem::new(256);
    let address = 0;
    let result = mem.read_byte(address);
    assert_eq!(result.unwrap(), 0);
}

#[test]
fn mem_write_byte() {
    let mut mem = Mem::new(256);
    let address = 4;
    let value = 5u8;
    mem.write_byte(address, value).unwrap();
    assert_eq!(mem.read_byte(4), Ok(value));
}

#[test]
fn mem_read_halfword() {
    let mem = Mem::new(256);
    let address = 8;
    let result = mem.read_halfword(address);
    assert_eq!(result.unwrap(), 0);
}

#[test]
fn mem_write_halfword() {
    let mut mem = Mem::new(256);
    let address = 12;
    let value = 0x1234u16;
    mem.write_halfword(address, value).unwrap();
    assert_eq!(mem.read_byte(12), Ok(value.to_le_bytes()[0]));
    assert_eq!(mem.read_byte(13), Ok(value.to_le_bytes()[1]));
}

#[test]
fn mem_read_word() {
    let mem = Mem::new(256);
    let address = 16;
    let result = mem.read_word(address);
    assert_eq!(result.unwrap(), 0);
}

#[test]
fn mem_write_word() {
    let mut mem = Mem::new(256);
    let address = 20;
    let value = 0xabcd1234u32;
    mem.write_word(address, value).unwrap();
    assert_eq!(mem.read_byte(20), Ok(value.to_le_bytes()[0]));
    assert_eq!(mem.read_byte(21), Ok(value.to_le_bytes()[1]));
    assert_eq!(mem.read_byte(22), Ok(value.to_le_bytes()[2]));
    assert_eq!(mem.read_byte(23), Ok(value.to_le_bytes()[3]));
}

#[test]
fn mem_out_of_bounds_fails() {
    let mut mem = Mem::new(16);
    assert_eq!(mem.read_byte(16), Err(CpuPeripheralsError::InvalidAddress(16)));
    assert_eq!(mem.read_word(13), Err(CpuPeripheralsError::InvalidAddress(13)));
    assert_eq!(mem.write_byte(99, 1), Err(CpuPeripheralsError::InvalidAddress(99)));
}

#[test]
fn test_uart_new() {
    let uart = Uart::new("test");
    assert_eq!(uart.name(), "test");
    assert_eq!(uart.base_addr(), 0);
    assert_eq!(uart.tx_buffer().len(), "test".len() + 3);
}

#[test]
fn uart_write_byte_to_txdata_address_should_succeed() {
    let mut uart = Uart::new("test_uart");
    uart.set_base_addr(0x1000);

    let address = 0x1000 + UART_TXDATA;
    let data = b'A';

    assert!(uart.write_byte(address, data).is_ok());
    assert_eq!(
        uart.tx_buffer(),
        &vec![b'[', b't', b'e', b's', b't', b'_', b'u', b'a', b'r', b't', b']', b' ', b'A']
    );
}

#[test]
fn uart_write_byte_to_non_txdata_address_should_fail() {
    let mut uart = Uart::new("test_uart");
    uart.set_base_addr(0x1000);

    let address = 0x1000 + 0xFF;
    let data = b'A';

    assert!(uart.write_byte(address, data).is_err());
}

#[test]
fn uart_write_word_to_txdata_address_should_succeed() {
    let mut uart = Uart::new("test_uart");
    uart.set_base_addr(0x1000);

    let address = 0x1000 + UART_TXDATA;
    let data = 0xABCD;

    assert!(uart.write_word(address, data).is_ok());
    assert_eq!(
        uart.tx_buffer(),
        &vec![b'[', b't', b'e', b's', b't', b'_', b'u', b'a', b'r', b't', b']', b' ', 0xcd]
    );
}

#[test]
fn uart_write_arbitrary_length_to_txdata_address_should_succeed() {
    let mut uart = Uart::new("test_uart");
    uart.set_base_addr(0x1000);

    let address = 0x1000 + UART_TXDATA;
    let data = b"Hello World\n";

    assert!(uart.write(address, data).is_ok());
    assert_eq!(
        uart.tx_buffer(),
        &vec![b'[', b't', b'e', b's', b't', b'_', b'u', b'a', b'r', b't', b']', b' ']
    );
}

#[test]
fn uart_completed_line_moves_to_output() {
    let mut uart = Uart::new("u");
    let address = UART_TXDATA;
    assert!(uart.write(address, b"hi\n").is_ok());
    let out = uart.take_output();
    assert_eq!(out, b"[u] hi\n".to_vec());
    assert!(uart.take_output().is_empty());
}
