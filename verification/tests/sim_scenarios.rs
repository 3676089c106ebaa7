// End-to-end scenarios: the exit-code convention, store/load round trips,
// trap entry and return, and the error taxonomy.

use rv_iss::bus::{Bus, DeviceHandler};
use rv_iss::csr::{CsrError, CSR_MEPC, CSR_MTVEC};
use rv_iss::mem::Mem;
use rv_iss::simulator::Simulator;
use rv_iss::{ProgramCounter, RvCoreError};

const MEMORY_BASE_ADDRESS: usize = 0x1_0000;
const MEMORY_SIZE: usize = 0x1000;

fn make_sim(program: &[u32]) -> Simulator {
    let mut bus = Bus::new();
    let memory = DeviceHandler::Mem(Mem::new(MEMORY_SIZE));
    let _ = bus.add_device(MEMORY_BASE_ADDRESS, MEMORY_SIZE, memory);
    let mut sim = Simulator::new(bus);
    let mut bytes: Vec<u8> = Vec::new();
    for word in program {
        bytes.extend_from_slice(&word.to_le_bytes());
    }
    let _ = sim.load_bin_program(&bytes, MEMORY_BASE_ADDRESS);
    sim.set_reset_vector(MEMORY_BASE_ADDRESS.try_into().unwrap());
    sim
}

// An ECALL with a7 = 93 and a0 = N, once trapped and processed, sets the
// simulator's reported exit code to N.
#[test]
fn test_ecall_exit_code() {
    let mut sim = make_sim(&[0x0000_0073]); // ecall
    let core = sim.get_core_mut();
    let _ = core.write_reg_by_name("a7", 93).unwrap();
    let _ = core.write_reg_by_name("a0", 42).unwrap();

    sim.run(Some(1)).expect("Simulation failed");
    assert_eq!(sim.get_exit_code(), 42);
}

// Exit code 0 is distinguished from "no exit requested yet".
#[test]
fn test_ecall_exit_code_zero() {
    let mut sim = make_sim(&[0x0000_0073]); // ecall
    let core = sim.get_core_mut();
    let _ = core.write_reg_by_name("a7", 93).unwrap();
    let _ = core.write_reg_by_name("a0", 0).unwrap();

    assert_eq!(sim.get_exit_code(), 0);
    sim.run(Some(1)).expect("Simulation failed");
    assert_eq!(sim.get_exit_code(), 0);
    // the flag is set: an unbounded run stops without executing another step
    let count = sim.get_run_instrctions();
    sim.run(None).expect("Simulation failed");
    assert_eq!(sim.get_run_instrctions(), count);
}

// An ECALL with a7 != 93 does not request an exit.
#[test]
fn test_ecall_without_exit_convention() {
    let mut sim = make_sim(&[0x0000_0073]); // ecall
    let core = sim.get_core_mut();
    let _ = core.write_reg_by_name("a7", 1).unwrap();
    let _ = core.write_reg_by_name("a0", 42).unwrap();

    sim.run(Some(1)).expect("Simulation failed");
    assert_eq!(sim.get_exit_code(), 0);
}

// SW then a matching LW at the same computed address round-trips the 32-bit
// value exactly.
#[test]
fn test_store_load_round_trip() {
    let program = [
        0x0062_a423u32, // sw t1, 8(t0)
        0x0082_a383u32, // lw t2, 8(t0)
    ];
    let mut sim = make_sim(&program);
    let core = sim.get_core_mut();
    let data_addr = MEMORY_BASE_ADDRESS as u32 + 0x100;
    let _ = core.write_reg_by_name("t0", data_addr).unwrap();
    let _ = core.write_reg_by_name("t1", 0x1234_abcd).unwrap();

    sim.run(Some(2)).expect("Simulation failed");

    let core = sim.get_core();
    assert_eq!(core.read_reg_by_name("t2"), Ok(0x1234_abcd));
    let bus = sim.get_bus();
    assert_eq!(bus.read_word(data_addr as usize + 8), Ok(0x1234_abcd));
}

// After an ECALL traps into the handler, MRET restores the privilege mode
// saved in mstatus.MPP and sets the PC back to mepc.
#[test]
fn test_mret_round_trip() {
    // csrw mtvec,t0 then ecall; the handler at base + 0x40 holds one MRET
    let mut program = vec![0x3052_9073u32, 0x0000_0073]; // csrw mtvec,t0 ; ecall
    while program.len() < 0x10 {
        program.push(0x0000_0013); // nop
    }
    program.push(0x3020_0073); // mret at base + 0x40
    let mut sim = make_sim(&program);
    let handler = MEMORY_BASE_ADDRESS as u32 + 0x40;
    // mtvec: direct mode, base at the handler
    let core = sim.get_core_mut();
    let _ = core.write_reg_by_name("t0", handler).unwrap();

    sim.run(Some(2)).expect("Simulation failed");
    // the ECALL at base + 4 trapped: mepc holds its address, PC the handler
    let core = sim.get_core();
    let ecall_addr = MEMORY_BASE_ADDRESS as ProgramCounter + 4;
    assert_eq!(core.read_csr(CSR_MEPC), Ok(ecall_addr));
    assert_eq!(core.get_pc(), handler);
    assert_eq!(core.read_csr(CSR_MTVEC), Ok(handler));

    sim.run(Some(1)).expect("Simulation failed");
    // the MRET at the handler returned to the trapped instruction
    let core = sim.get_core();
    assert_eq!(core.get_pc(), ecall_addr);
}

// EBREAK traps with cause 3; mepc holds the faulting address and mtval the
// raw instruction word.
#[test]
fn test_trap_csrs_after_ebreak() {
    let mut sim = make_sim(&[0x0010_0073]); // ebreak
    sim.run(Some(1)).expect("Simulation failed");
    let core = sim.get_core();
    assert_eq!(core.read_csr(rv_iss::csr::CSR_MCAUSE), Ok(3));
    assert_eq!(core.read_csr(CSR_MEPC), Ok(MEMORY_BASE_ADDRESS as u32));
    assert_eq!(core.read_csr(rv_iss::csr::CSR_MTVAL), Ok(0x0010_0073));
    // direct mode with mtvec 0: the handler address is 0
    assert_eq!(core.get_pc(), 0);
}

// The immediate CSR forms use the zero-extended 5-bit field as the write
// operand, not the register that field would index.
#[test]
fn test_csrrwi_uses_immediate_field() {
    // csrrwi x6, mtvec, 5 — the uimm field is 5; register x5 holds 77
    let mut sim = make_sim(&[0x3052_d373]);
    let core = sim.get_core_mut();
    let _ = core.write_register(5, 77).unwrap();

    sim.run(Some(1)).expect("Simulation failed");

    let core = sim.get_core();
    assert_eq!(core.read_csr(CSR_MTVEC), Ok(5));
    // rd received the CSR's pre-write value
    assert_eq!(core.read_register(6), Ok(0));
}

// The immediate set and clear forms apply the 5-bit field as a bit mask.
#[test]
fn test_csrrsi_csrrci_use_immediate_field() {
    // csrrsi x0, mtvec, 0x1c ; csrrci x0, mtvec, 0x08
    let mut sim = make_sim(&[0x305e_6073, 0x3054_7073]);
    let core = sim.get_core_mut();
    let _ = core.write_register(28, 0xffff).unwrap();
    let _ = core.write_register(8, 0xffff).unwrap();

    sim.run(Some(2)).expect("Simulation failed");

    let core = sim.get_core();
    assert_eq!(core.read_csr(CSR_MTVEC), Ok(0x14));
}

// A word no decode-table entry matches halts the run with
// InvalidInstruction.
#[test]
fn test_invalid_instruction_halts() {
    let mut sim = make_sim(&[0x0000_0000]);
    assert_eq!(sim.run(Some(1)), Err(RvCoreError::InvalidInstruction(0)));
}

// A shift amount with bit 5 set is rejected by the shift executor.
#[test]
fn test_invalid_shamt_rejected() {
    let mut core = rv_iss::cpu_core::Core::new();
    let mut bus = Bus::new();
    // an SLLI-shaped word whose shamt field has bit 5 set
    let r = rv_iss::execute::execute_instruction(
        rv_iss::decoder::InstructionKind::Slli,
        0x0207_9793,
        &mut core,
        &mut bus,
        false,
    );
    assert!(matches!(r, Err(RvCoreError::ShamtIsInvalid(0x20))));
}

// FENCE decodes but its semantics are not implemented: it fails loudly.
#[test]
fn test_fence_unimplemented() {
    let mut sim = make_sim(&[0x0000_000f]);
    assert_eq!(
        sim.run(Some(1)),
        Err(RvCoreError::UnimplementedInstruction(0x0000_000f))
    );
}

// A CSR instruction naming an unmapped CSR address fails.
#[test]
fn test_unknown_csr_halts() {
    // csrrw x5, 0x000, x6  (CSR address 0 is unmapped)
    let mut sim = make_sim(&[0x0003_12f3]);
    assert_eq!(
        sim.run(Some(1)),
        Err(RvCoreError::CsrError(CsrError::InvalidAddress))
    );
}

// An mtvec dispatch mode outside direct and vectored is unrecoverable, and
// the error is found before mepc and mcause are written: both keep their
// prior values.
#[test]
fn test_invalid_trap_mode_halts() {
    let mut sim = make_sim(&[0x3052_9073, 0x0000_0073]); // csrw mtvec,t0 ; ecall
    let core = sim.get_core_mut();
    let _ = core.write_reg_by_name("t0", 0x2).unwrap(); // mode bits 2: invalid
    assert_eq!(sim.run(Some(2)), Err(RvCoreError::InvalidTrapMode(2)));
    let core = sim.get_core();
    assert_eq!(core.read_csr(CSR_MEPC), Ok(0));
    assert_eq!(core.read_csr(rv_iss::csr::CSR_MCAUSE), Ok(0));
}

// MRET with the reserved privilege encoding in mstatus.MPP fails.
#[test]
fn test_mret_reserved_privilege_halts() {
    // csrw mstatus, t0 with MPP = 2 (bits 12:11 = 10), then mret
    let mut sim = make_sim(&[0x3002_9073, 0x3020_0073]);
    let core = sim.get_core_mut();
    let _ = core.write_reg_by_name("t0", 0x1000).unwrap();
    assert_eq!(sim.run(Some(2)), Err(RvCoreError::InvalidPrivilegeEncoding(2)));
}

// A fetch from an address no device covers surfaces as a typed error.
#[test]
fn test_fetch_outside_devices_halts() {
    let mut sim = make_sim(&[0x0000_0013]);
    sim.set_reset_vector(0x20);
    let r = sim.run(Some(1));
    assert_eq!(
        r,
        Err(RvCoreError::CpuPeripheralsError(
            rv_iss::peripherals::CpuPeripheralsError::InvalidDeviceAddress(0x20)
        ))
    );
}

// Vectored dispatch: the handler PC is base + 4 * cause.
#[test]
fn test_vectored_trap_dispatch() {
    let mut sim = make_sim(&[0x3052_9073, 0x0000_0073]); // csrw mtvec,t0 ; ecall
    let base = MEMORY_BASE_ADDRESS as u32 + 0x80;
    let core = sim.get_core_mut();
    let _ = core.write_reg_by_name("t0", base | 1).unwrap(); // vectored mode
    sim.run(Some(2)).expect("Simulation failed");
    // machine-mode ecall has cause 11
    assert_eq!(sim.get_core().get_pc(), base + 4 * 11);
}

// The executed-instruction counter counts each successful step.
#[test]
fn test_run_instruction_count() {
    let program = [0x0000_0013u32; 5]; // five nops
    let mut sim = make_sim(&program);
    sim.run(Some(3)).expect("Simulation failed");
    assert_eq!(sim.get_run_instrctions(), 3);
}

// LB sign-extends while LBU zero-extends the loaded byte.
#[test]
fn test_lb_sign_extension() {
    let program = [
        0x0002_8303u32, // lb t1, 0(t0)
        0x0002_c383u32, // lbu t2, 0(t0)
    ];
    let mut sim = make_sim(&program);
    let data_addr = MEMORY_BASE_ADDRESS as u32 + 0x200;
    {
        let bus = sim.get_bus_mut();
        bus.write_byte(data_addr as usize, 0xab).unwrap();
    }
    let core = sim.get_core_mut();
    let _ = core.write_reg_by_name("t0", data_addr).unwrap();
    sim.run(Some(2)).expect("Simulation failed");
    let core = sim.get_core();
    assert_eq!(core.read_reg_by_name("t1"), Ok(0xffff_ffab));
    assert_eq!(core.read_reg_by_name("t2"), Ok(0x0000_00ab));
}

// SH then LH round-trips the halfword; LHU zero-extends.
#[test]
fn test_sh_lh_round_trip() {
    let program = [
        0x0062_9423u32, // sh t1, 8(t0)
        0x0082_9383u32, // lh t2, 8(t0)
        0x0082_de03u32, // lhu t3, 8(t0)
    ];
    let mut sim = make_sim(&program);
    let data_addr = MEMORY_BASE_ADDRESS as u32 + 0x200;
    let core = sim.get_core_mut();
    let _ = core.write_reg_by_name("t0", data_addr).unwrap();
    let _ = core.write_reg_by_name("t1", 0x0001_8000).unwrap();
    sim.run(Some(3)).expect("Simulation failed");
    let core = sim.get_core();
    assert_eq!(core.read_reg_by_name("t2"), Ok(0xffff_8000));
    assert_eq!(core.read_reg_by_name("t3"), Ok(0x0000_8000));
}

// The per-instruction trace collects one line per traced instruction.
#[test]
fn test_instr_trace_lines() {
    let program = [0x0000_0013u32, 0x0000_0013]; // two nops
    let mut sim = make_sim(&program);
    sim.enable_instr_trace();
    sim.run(Some(2)).expect("Simulation failed");
    let lines = sim.take_instr_trace();
    assert_eq!(lines.len(), 2);
    assert_eq!(lines[0], "0x00010000 (0x00000013) ADDI x0, x0, 0");
    assert_eq!(lines[1], "0x00010004 (0x00000013) ADDI x0, x0, 0");
}
