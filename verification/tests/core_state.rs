// Tests for the core register/CSR state machine.

use rv_iss::cpu_core::{Core, RegName};
use rv_iss::cpu_core::lookup_reg_name;
use rv_iss::csr::{Csr, CSR_MSTATUS};
use rv_iss::trap::{Exception, Trap};
use rv_iss::{GprUnsigned, RvCoreError};

#[test]
fn test_core_new() {
    let core = Core::new();
    assert_eq!(core.get_pc(), 0);
    for index in 0..32 {
        assert_eq!(core.read_register(index), Ok(0));
    }
}

#[test]
fn test_set_take_trap() {
    let mut core = Core::new();
    assert_eq!(core.take_trap(), None);
    let _ = core.set_trap(Trap::Exception(Exception::InstructionAddressMisaligned), 0);
    assert_eq!(
        core.take_trap(),
        Some(Trap::Exception(Exception::InstructionAddressMisaligned))
    );
    assert_eq!(core.take_trap(), None);
}

#[test]
fn test_read_register_zero_index() {
    let core = Core::new();
    let result = core.read_register(0);
    assert_eq!(result.unwrap(), 0);
}

#[test]
fn test_write_register_zero_index() {
    let mut core = Core::new();
    core.write_register(0, 42).unwrap();
    let result = core.read_register(0);
    assert_eq!(result.unwrap(), 0);
}

#[test]
fn test_read_register_valid_index() {
    let mut core = Core::new();
    core.write_register(1, 42).unwrap();
    let result = core.read_register(1);
    assert_eq!(result.unwrap(), 42);
}

#[test]
fn test_read_register_invalid_index() {
    let core = Core::new();
    let result = core.read_register(32);
    assert_eq!(result.unwrap_err(), RvCoreError::InvalidRegisterIndex(32));
}

#[test]
fn test_write_register_valid_index() {
    let mut core = Core::new();
    core.write_register(1, 42).unwrap();
    assert_eq!(core.read_register(1), Ok(42));
}

#[test]
fn test_write_register_invalid_index() {
    let mut core = Core::new();
    let result = core.write_register(32, 42);
    assert_eq!(result.unwrap_err(), RvCoreError::InvalidRegisterIndex(32));
}

#[test]
fn test_new_reg_name_map() {
    assert_eq!(lookup_reg_name("zero"), Some(RegName::Zero));
    assert_eq!(lookup_reg_name("ra"), Some(RegName::Ra));
    assert_eq!(lookup_reg_name("sp"), Some(RegName::Sp));
    assert_eq!(lookup_reg_name("gp"), Some(RegName::Gp));
    assert_eq!(lookup_reg_name("tp"), Some(RegName::Tp));
    assert_eq!(lookup_reg_name("t0"), Some(RegName::T0));
    assert_eq!(lookup_reg_name("t1"), Some(RegName::T1));
    assert_eq!(lookup_reg_name("t2"), Some(RegName::T2));
    assert_eq!(lookup_reg_name("s0"), Some(RegName::S0));
    assert_eq!(lookup_reg_name("s1"), Some(RegName::S1));
    assert_eq!(lookup_reg_name("a0"), Some(RegName::A0));
    assert_eq!(lookup_reg_name("a1"), Some(RegName::A1));
    assert_eq!(lookup_reg_name("a2"), Some(RegName::A2));
    assert_eq!(lookup_reg_name("a3"), Some(RegName::A3));
    assert_eq!(lookup_reg_name("a4"), Some(RegName::A4));
    assert_eq!(lookup_reg_name("a5"), Some(RegName::A5));
    assert_eq!(lookup_reg_name("a6"), Some(RegName::A6));
    assert_eq!(lookup_reg_name("a7"), Some(RegName::A7));
    assert_eq!(lookup_reg_name("s2"), Some(RegName::S2));
    assert_eq!(lookup_reg_name("s3"), Some(RegName::S3));
    assert_eq!(lookup_reg_name("s4"), Some(RegName::S4));
    assert_eq!(lookup_reg_name("s5"), Some(RegName::S5));
    assert_eq!(lookup_reg_name("s6"), Some(RegName::S6));
    assert_eq!(lookup_reg_name("s7"), Some(RegName::S7));
    assert_eq!(lookup_reg_name("s8"), Some(RegName::S8));
    assert_eq!(lookup_reg_name("s9"), Some(RegName::S9));
    assert_eq!(lookup_reg_name("s10"), Some(RegName::S10));
    assert_eq!(lookup_reg_name("s11"), Some(RegName::S11));
    assert_eq!(lookup_reg_name("t3"), Some(RegName::T3));
    assert_eq!(lookup_reg_name("t4"), Some(RegName::T4));
    assert_eq!(lookup_reg_name("t5"), Some(RegName::T5));
    assert_eq!(lookup_reg_name("t6"), Some(RegName::T6));
    assert_eq!(lookup_reg_name("frobnicate"), None);
}

#[test]
fn test_reg_name_to_index() {
    let cases = [
        (RegName::Zero, 0),
        (RegName::Ra, 1),
        (RegName::Sp, 2),
        (RegName::Gp, 3),
        (RegName::Tp, 4),
        (RegName::T0, 5),
        (RegName::T1, 6),
        (RegName::T2, 7),
        (RegName::S0, 8),
        (RegName::S1, 9),
        (RegName::A0, 10),
        (RegName::A1, 11),
        (RegName::A2, 12),
        (RegName::A3, 13),
        (RegName::A4, 14),
        (RegName::A5, 15),
        (RegName::A6, 16),
        (RegName::A7, 17),
        (RegName::S2, 18),
        (RegName::S3, 19),
        (RegName::S4, 20),
        (RegName::S5, 21),
        (RegName::S6, 22),
        (RegName::S7, 23),
        (RegName::S8, 24),
        (RegName::S9, 25),
        (RegName::S10, 26),
        (RegName::S11, 27),
        (RegName::T3, 28),
        (RegName::T4, 29),
        (RegName::T5, 30),
        (RegName::T6, 31),
    ];

    for (reg_name, expected_index) in cases {
        assert_eq!(reg_name.to_index(), expected_index);
    }
}

#[test]
fn test_read_reg_by_regname_enum() {
    let core = Core::new();
    assert_eq!(core.read_register(RegName::Zero.into()), Ok(0));
}

#[test]
fn test_read_write_reg_by_name() {
    let mut core = Core::new();
    let test_val: GprUnsigned = 42;
    let reg_name = "t0";
    let _ = core.write_reg_by_name(reg_name, test_val);
    assert_eq!(core.read_reg_by_name(reg_name), Ok(test_val));
}

#[test]
fn test_reg_by_unknown_name_fails() {
    let mut core = Core::new();
    assert!(core.read_reg_by_name("x99").is_err());
    assert!(core.write_reg_by_name("x99", 1).is_err());
    assert_eq!(
        core.read_reg_by_name("qq"),
        Err(RvCoreError::InvalidRegisterName("qq".to_string()))
    );
}

#[test]
fn test_write_reg_by_name_zero_discarded() {
    let mut core = Core::new();
    let _ = core.write_reg_by_name("zero", 7).unwrap();
    assert_eq!(core.read_reg_by_name("zero"), Ok(0));
}

#[test]
fn test_csr_read_write() {
    let mut csr = Csr::new();
    assert_eq!(csr.read(CSR_MSTATUS), Ok(0x00001800));
    csr.write(CSR_MSTATUS, 42).unwrap();
    assert_eq!(csr.read(CSR_MSTATUS), Ok(42));
    assert!(csr.write(4096, 42).is_err());
    assert!(csr.read(4096).is_err());
}

#[test]
fn test_csr_instructions() {
    let mut csr = Csr::new();
    csr.write(CSR_MSTATUS, 42).unwrap();
    assert_eq!(csr.csrrw(CSR_MSTATUS, 10).unwrap(), 42);
    assert_eq!(csr.read(CSR_MSTATUS).unwrap(), 10);
    assert_eq!(csr.csrrs(CSR_MSTATUS, 5).unwrap(), 10);
    assert_eq!(csr.read(CSR_MSTATUS).unwrap(), 10 | 5);
    assert_eq!(csr.csrrc(CSR_MSTATUS, 3).unwrap(), 10 | 5);
    assert_eq!(csr.read(CSR_MSTATUS).unwrap(), (10 | 5) & (!3));
}

#[test]
fn test_csr_reset_restores_declared_values() {
    let mut csr = Csr::new();
    csr.write(CSR_MSTATUS, 0xffff_ffff).unwrap();
    csr.write(rv_iss::csr::CSR_MEPC, 0x1234).unwrap();
    csr.reset();
    assert_eq!(csr.read(CSR_MSTATUS), Ok(0x0000_1800));
    assert_eq!(csr.read(rv_iss::csr::CSR_MISA), Ok(0x4000_1100));
    assert_eq!(csr.read(rv_iss::csr::CSR_MEPC), Ok(0));
}

#[test]
fn test_core_reset() {
    let mut core = Core::new();
    core.set_pc(0x100);
    core.write_register(5, 9).unwrap();
    core.reset();
    assert_eq!(core.get_pc(), 0);
    assert_eq!(core.read_register(5), Ok(0));
}
