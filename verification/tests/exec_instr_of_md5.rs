// Single-instruction execution tests: one instruction of each kind used by
// an MD5 firmware image, run through the full fetch-decode-execute loop.

use rv_iss::bus::{Bus, DeviceHandler};
use rv_iss::csr::CSR_MTVEC;
use rv_iss::mem::Mem;
use rv_iss::simulator::Simulator;
use rv_iss::{GprSigned, GprUnsigned, ProgramCounter};

const MEMORY_BASE_ADDRESS: usize = 0x1_0000;
const MEMORY_SIZE: usize = 0x100;

fn creat_sim_for_test(instr: u32) -> Simulator {
    // step 1. create a bus
    let mut bus = Bus::new();

    // step 2. create memory and add it to the bus
    let memory = DeviceHandler::Mem(Mem::new(MEMORY_SIZE));
    let _ = bus.add_device(MEMORY_BASE_ADDRESS, MEMORY_SIZE, memory);

    let mut sim = Simulator::new(bus);

    // step 3. load one instruction into memory
    let add_instr = instr.to_le_bytes();
    let _ = sim.load_bin_program(&add_instr, MEMORY_BASE_ADDRESS);

    // step 4. set the reset vector
    sim.set_reset_vector(MEMORY_BASE_ADDRESS.try_into().unwrap());

    sim
}

//     0x00100117,      // auipc	sp,0x100
#[test]
fn test_execution_auipc() {
    let mut sim = creat_sim_for_test(0x00100117);

    let core = sim.get_core_mut();
    assert_eq!(core.get_pc(), MEMORY_BASE_ADDRESS as ProgramCounter);

    sim.run(Some(1)).expect("Simulation failed");

    let core = sim.get_core();
    let exepect_val = MEMORY_BASE_ADDRESS as ProgramCounter + (0x100 << 12);
    assert_eq!(core.read_reg_by_name("sp"), Ok(exepect_val));
    assert_eq!(core.get_pc(), MEMORY_BASE_ADDRESS as ProgramCounter + 4)
}

//     0x00010113,      // mv	sp,sp
#[test]
fn test_execution_mv() {
    let mut sim = creat_sim_for_test(0x00010113);

    let core = sim.get_core_mut();
    assert_eq!(core.get_pc(), MEMORY_BASE_ADDRESS as ProgramCounter);

    let exepect_val = 10;
    let _ = core.write_reg_by_name("sp", exepect_val).unwrap();
    assert_eq!(core.read_reg_by_name("sp"), Ok(exepect_val));

    sim.run(Some(1)).expect("Simulation failed");

    let core = sim.get_core();
    assert_eq!(core.read_reg_by_name("sp"), Ok(exepect_val));
}

//     0x04028293,      // addi	t0,t0,64
#[test]
fn test_execution_addi() {
    let mut sim = creat_sim_for_test(0x04028293);

    let core = sim.get_core_mut();
    let _ = core.write_reg_by_name("t0", 10).unwrap();

    sim.run(Some(1)).expect("Simulation failed");

    let core = sim.get_core();
    assert_eq!(core.read_reg_by_name("t0"), Ok(74));
}

// `csrw csr, rs1` expands to csrrw x0, csr, rs1.
//     0x30529073,      // csrw	mtvec,t0
#[test]
fn test_execution_csrw() {
    let mut sim = creat_sim_for_test(0x30529073);

    let core = sim.get_core_mut();
    let _ = core.write_reg_by_name("t0", 0x5678).unwrap();

    sim.run(Some(1)).expect("Simulation failed");

    let core = sim.get_core();
    assert_eq!(core.read_csr(CSR_MTVEC), Ok(0x5678));
}

//     0x00000393,      // li	t2,0
#[test]
fn test_execution_li() {
    let mut sim = creat_sim_for_test(0x00000393);

    let core = sim.get_core_mut();
    let _ = core.write_reg_by_name("t0", 10).unwrap();

    sim.run(Some(1)).expect("Simulation failed");

    let core = sim.get_core();
    assert_eq!(core.read_reg_by_name("t2"), Ok(0));
}

// Branch if Greater Than or Equal, Unsigned.
//     0x0062f863,      // bgeu	t0,t1,+16
#[test]
fn test_execution_bgeu() {
    let mut sim = creat_sim_for_test(0x0062f863);

    let core = sim.get_core_mut();
    let _ = core.write_reg_by_name("t0", 10).unwrap();
    let _ = core.write_reg_by_name("t1", 10).unwrap();

    sim.run(Some(1)).expect("Simulation failed");

    let core = sim.get_core();
    assert_eq!(core.get_pc(), MEMORY_BASE_ADDRESS as ProgramCounter + 16);

    // t0 > t1
    {
        sim.set_reset_vector(MEMORY_BASE_ADDRESS.try_into().unwrap());
        let core = sim.get_core_mut();
        let _ = core.write_reg_by_name("t1", 9).unwrap();
        sim.run(Some(1)).expect("Simulation failed");
        let core = sim.get_core();
        assert_eq!(core.get_pc(), MEMORY_BASE_ADDRESS as ProgramCounter + 16);
    }

    // t0 < t1
    {
        sim.set_reset_vector(MEMORY_BASE_ADDRESS.try_into().unwrap());
        let core = sim.get_core_mut();
        let _ = core.write_reg_by_name("t1", 11).unwrap();
        sim.run(Some(1)).expect("Simulation failed");
        let core = sim.get_core();
        assert_eq!(core.get_pc(), MEMORY_BASE_ADDRESS as ProgramCounter + 4);
    }
}

//     0x0072a023,      // sw	t2,0(t0)
#[test]
fn test_execution_sw() {
    let mut sim = creat_sim_for_test(0x0072a023);

    let core = sim.get_core_mut();
    let _ = core.write_reg_by_name("t2", 0x1234abcd).unwrap();
    let mem_addr = MEMORY_BASE_ADDRESS as ProgramCounter + 8;
    let _ = core.write_reg_by_name("t0", mem_addr).unwrap();

    sim.run(Some(1)).expect("Simulation failed");

    let bus = sim.get_bus();
    assert_eq!(bus.read_word(mem_addr as usize), Ok(0x1234abcd));
}

// Expands to jal x0, offset.
//     0xff5ff06f,      // j	-12
#[test]
fn test_execution_j() {
    let mut sim = creat_sim_for_test(0xff5ff06f);

    sim.run(Some(1)).expect("Simulation failed");

    let core = sim.get_core();
    let mut pc = MEMORY_BASE_ADDRESS as ProgramCounter;
    pc = pc.wrapping_add(-12i32 as ProgramCounter);

    assert_eq!(core.get_pc(), pc);
}

//     0x0e9000ef,      // jal	+2280
#[test]
fn test_execution_jal() {
    let mut sim = creat_sim_for_test(0x0e9000ef);

    sim.run(Some(1)).expect("Simulation failed");

    let core = sim.get_core();
    let mut pc = MEMORY_BASE_ADDRESS as ProgramCounter;
    pc = pc.wrapping_add(2280 as ProgramCounter);

    assert_eq!(core.get_pc(), pc);
    assert_eq!(
        core.read_reg_by_name("ra"),
        Ok(MEMORY_BASE_ADDRESS as ProgramCounter + 4)
    );
}

//     0xfec42783,      // lw	a5,-20(s0)
#[test]
fn test_execution_lw() {
    let mut sim = creat_sim_for_test(0xfec42783);

    let core = sim.get_core_mut();
    let s0_val = MEMORY_BASE_ADDRESS as ProgramCounter + 40;
    let mem_addr = s0_val - 20;
    let _ = core.write_reg_by_name("s0", s0_val).unwrap();
    let bus = sim.get_bus_mut();
    let _ = bus.write_word(mem_addr.try_into().unwrap(), 0xabcd_1234).unwrap();

    sim.run(Some(1)).expect("Simulation failed");

    let core = sim.get_core();
    assert_eq!(core.read_reg_by_name("a5"), Ok(0xabcd_1234));
}

// Shift Left Logical.
//     0x00e79733,      // sll	a4,a5,a4
#[test]
fn test_execution_sll() {
    let mut sim = creat_sim_for_test(0x00e79733);

    let core = sim.get_core_mut();
    let _ = core.write_reg_by_name("a5", 0x1234).unwrap();
    let _ = core.write_reg_by_name("a4", 16).unwrap();

    sim.run(Some(1)).expect("Simulation failed");

    let core = sim.get_core();
    assert_eq!(core.read_reg_by_name("a4"), Ok(0x1234_0000));
}

//     0x40d006b3,      // neg	a3,a3
#[test]
fn test_execution_neg() {
    let mut sim = creat_sim_for_test(0x40d006b3);

    let core = sim.get_core_mut();
    let val = -10_i32;
    let _ = core.write_reg_by_name("a3", val as GprUnsigned).unwrap();

    sim.run(Some(1)).expect("Simulation failed");

    let core = sim.get_core();
    assert_eq!(core.read_reg_by_name("a3"), Ok((-val) as GprUnsigned));
}

//     0x01f6f693,      // andi	a3,a3,31
#[test]
fn test_execution_andi() {
    let mut sim = creat_sim_for_test(0x01f6f693);

    let core = sim.get_core_mut();
    let _ = core.write_reg_by_name("a3", 0x1f1f).unwrap();

    sim.run(Some(1)).expect("Simulation failed");

    let core = sim.get_core();
    assert_eq!(core.read_reg_by_name("a3"), Ok(0x1f));
}

//     0x00d7d7b3,      // srl	a5,a5,a3
#[test]
fn test_execution_srl() {
    let mut sim = creat_sim_for_test(0x00d7d7b3);

    let core = sim.get_core_mut();
    let _ = core.write_reg_by_name("a5", 0x1234_0000).unwrap();
    let _ = core.write_reg_by_name("a3", 16).unwrap();

    sim.run(Some(1)).expect("Simulation failed");

    let core = sim.get_core();
    assert_eq!(core.read_reg_by_name("a5"), Ok(0x1234));
}

//     0x00e7e7b3,      // or	a5,a5,a4
#[test]
fn test_execution_or() {
    let mut sim = creat_sim_for_test(0x00e7e7b3);

    let core = sim.get_core_mut();
    let _ = core.write_reg_by_name("a5", 0x12345a5a).unwrap();
    let _ = core.write_reg_by_name("a4", 0x1234a5a5).unwrap();

    sim.run(Some(1)).expect("Simulation failed");

    let core = sim.get_core();
    assert_eq!(core.read_reg_by_name("a5"), Ok(0x1234ffff));
}

// Load Upper Immediate.
//     0x67452737,      // lui	a4,0x67452
#[test]
fn test_execution_lui() {
    let mut sim = creat_sim_for_test(0x67452737);

    sim.run(Some(1)).expect("Simulation failed");

    let core = sim.get_core();
    assert_eq!(core.read_reg_by_name("a4"), Ok(0x67452 << 12));
}

//     0x01070633,      // add	a2,a4,a6
#[test]
fn test_execution_add() {
    let mut sim = creat_sim_for_test(0x01070633);

    let core = sim.get_core_mut();
    let _ = core.write_reg_by_name("a4", 4).unwrap();
    let _ = core.write_reg_by_name("a6", 6).unwrap();

    sim.run(Some(1)).expect("Simulation failed");

    let core = sim.get_core();
    assert_eq!(core.read_reg_by_name("a2"), Ok(10));
}

// Set if Less Than, Unsigned.
//     0x00e5b5b3,      // sltu	a1,a1,a4
#[test]
fn test_execution_sltu() {
    let mut sim = creat_sim_for_test(0x00e5b5b3);

    let core = sim.get_core_mut();
    let _ = core.write_reg_by_name("a1", 1).unwrap();
    let _ = core.write_reg_by_name("a4", 4).unwrap();

    sim.run(Some(1)).expect("Simulation failed");

    let core = sim.get_core();
    assert_eq!(core.read_reg_by_name("a1"), Ok(1));

    // a1 == a4
    {
        sim.set_reset_vector(MEMORY_BASE_ADDRESS.try_into().unwrap());
        let core = sim.get_core_mut();
        let _ = core.write_reg_by_name("a1", 4).unwrap();
        sim.run(Some(1)).expect("Simulation failed");
        let core = sim.get_core();
        assert_eq!(core.read_reg_by_name("a1"), Ok(0));
    }

    // a1 > a4
    {
        sim.set_reset_vector(MEMORY_BASE_ADDRESS.try_into().unwrap());
        let core = sim.get_core_mut();
        let _ = core.write_reg_by_name("a1", 5).unwrap();
        sim.run(Some(1)).expect("Simulation failed");
        let core = sim.get_core();
        assert_eq!(core.read_reg_by_name("a1"), Ok(0));
    }
}

// Load Byte, Unsigned.
//     0x00074703,      // lbu	a4,0(a4)
#[test]
fn test_execution_lbu() {
    let mut sim = creat_sim_for_test(0x00074703);

    let core = sim.get_core_mut();
    let mem_addr = MEMORY_BASE_ADDRESS as ProgramCounter + 40;
    let _ = core.write_reg_by_name("a4", mem_addr).unwrap();
    let bus = sim.get_bus_mut();
    let _ = bus.write_byte(mem_addr as usize, 0xab).unwrap();

    sim.run(Some(1)).expect("Simulation failed");

    let bus = sim.get_bus();
    assert_eq!(bus.read_byte(mem_addr as usize).unwrap(), 0xab);
}

//     0x00e78c23,      // sb	a4,24(a5)
#[test]
fn test_execution_sb() {
    let mut sim = creat_sim_for_test(0x00e78c23);

    let core = sim.get_core_mut();
    let a5_val = MEMORY_BASE_ADDRESS as ProgramCounter + 40;
    let mem_addr = a5_val + 24;
    let _ = core.write_reg_by_name("a4", 0x12ab).unwrap();
    let _ = core.write_reg_by_name("a5", a5_val).unwrap();

    sim.run(Some(1)).expect("Simulation failed");

    let bus = sim.get_bus();
    assert_eq!(bus.read_byte(mem_addr as usize).unwrap(), 0xab);
}

// Branch if Not Equal to Zero.  Expands to bne rs1, x0, offset.
//     0x0c079463,      // bnez	a5,+200
#[test]
fn test_execution_bnez() {
    let mut sim = creat_sim_for_test(0x0c079463);

    let core = sim.get_core_mut();
    let _ = core.write_reg_by_name("a5", 10).unwrap();

    sim.run(Some(1)).expect("Simulation failed");

    let core = sim.get_core();
    assert_eq!(core.get_pc(), MEMORY_BASE_ADDRESS as ProgramCounter + 0xc8);

    {
        sim.set_reset_vector(MEMORY_BASE_ADDRESS.try_into().unwrap());
        let core = sim.get_core_mut();
        let _ = core.write_reg_by_name("a5", 0).unwrap();
        sim.run(Some(1)).expect("Simulation failed");
        let core = sim.get_core();
        assert_eq!(core.get_pc(), MEMORY_BASE_ADDRESS as ProgramCounter + 4);
    }
}

// Shift Left Logical Immediate.
//     0x00279793,      // slli	a5,a5,0x2
#[test]
fn test_execution_slli() {
    let mut sim = creat_sim_for_test(0x00279793);

    let core = sim.get_core_mut();
    let _ = core.write_reg_by_name("a5", 10).unwrap();

    sim.run(Some(1)).expect("Simulation failed");

    let core = sim.get_core();
    assert_eq!(core.read_reg_by_name("a5"), Ok(10 << 2));
}

// Branch if Less Than, Unsigned.
//     0xeef76ae3,      // bltu	a4,a5,-268
#[test]
fn test_execution_bltu() {
    let mut sim = creat_sim_for_test(0xeef76ae3);

    let core = sim.get_core_mut();
    let _ = core.write_reg_by_name("a4", 4).unwrap();
    let _ = core.write_reg_by_name("a5", 5).unwrap();

    sim.run(Some(1)).expect("Simulation failed");

    let core = sim.get_core();
    let offset = -268_i32;
    let mut new_pc = MEMORY_BASE_ADDRESS as ProgramCounter;
    new_pc = new_pc.wrapping_add(offset as u32);
    assert_eq!(core.get_pc(), new_pc);
}

//     0x40f707b3,      // sub	a5,a4,a5
#[test]
fn test_execution_sub() {
    let mut sim = creat_sim_for_test(0x40f707b3);

    let core = sim.get_core_mut();
    let _ = core.write_reg_by_name("a4", 4).unwrap();
    let _ = core.write_reg_by_name("a5", 5).unwrap();

    sim.run(Some(1)).expect("Simulation failed");

    let core = sim.get_core();
    assert_eq!(core.read_reg_by_name("a5"), Ok(-1 as GprSigned as GprUnsigned));
}

// Shift Right Logical Immediate.
//     0x01d75693,      // srli	a3,a4,0x1d
#[test]
fn test_execution_srli() {
    let mut sim = creat_sim_for_test(0x01d75693);

    let core = sim.get_core_mut();
    let _ = core.write_reg_by_name("a4", 0x8000_0000).unwrap();

    sim.run(Some(1)).expect("Simulation failed");

    let core = sim.get_core();
    assert_eq!(core.read_reg_by_name("a3"), Ok(0x8000_0000 >> 0x1d));
}

//     0x08e78863,      // beq	a5,a4,+144
#[test]
fn test_execution_beq() {
    let mut sim = creat_sim_for_test(0x08e78863);

    let core = sim.get_core_mut();
    let _ = core.write_reg_by_name("a4", 10).unwrap();
    let _ = core.write_reg_by_name("a5", 10).unwrap();

    sim.run(Some(1)).expect("Simulation failed");

    let core = sim.get_core();
    assert_eq!(core.get_pc(), MEMORY_BASE_ADDRESS as ProgramCounter + 0x90);
}

// Branch if Equal to Zero.
//     0x00078863,      // beqz	a5,+16
#[test]
fn test_execution_beqz() {
    let mut sim = creat_sim_for_test(0x00078863);

    let core = sim.get_core_mut();
    let _ = core.write_reg_by_name("a5", 0).unwrap();

    sim.run(Some(1)).expect("Simulation failed");

    let core = sim.get_core();
    assert_eq!(core.get_pc(), MEMORY_BASE_ADDRESS as ProgramCounter + 16);
}

//     0x00f77733,      // and	a4,a4,a5
#[test]
fn test_execution_and() {
    let mut sim = creat_sim_for_test(0x00f77733);

    let core = sim.get_core_mut();
    let _ = core.write_reg_by_name("a4", 0x1234a5a5).unwrap();
    let _ = core.write_reg_by_name("a5", 0x12345a5a).unwrap();

    sim.run(Some(1)).expect("Simulation failed");

    let core = sim.get_core();
    assert_eq!(core.read_reg_by_name("a4"), Ok(0x1234_0000));
}

// NOT.  Expands to xori rd, rs1, -1.
//     0xfff7c693,      // not	a3,a5
#[test]
fn test_execution_not() {
    let mut sim = creat_sim_for_test(0xfff7c693);

    let core = sim.get_core_mut();
    let _ = core.write_reg_by_name("a5", 0xa5a55a5a).unwrap();

    sim.run(Some(1)).expect("Simulation failed");

    let core = sim.get_core();
    assert_eq!(core.read_reg_by_name("a3"), Ok(0x5a5aa5a5));
}

//     0x00f747b3,      // xor	a5,a4,a5
#[test]
fn test_execution_xor() {
    let mut sim = creat_sim_for_test(0x00f747b3);

    let core = sim.get_core_mut();
    let _ = core.write_reg_by_name("a4", 0xa5a55a5a).unwrap();
    let _ = core.write_reg_by_name("a5", 0x5a5aa5a5).unwrap();

    sim.run(Some(1)).expect("Simulation failed");

    let core = sim.get_core();
    assert_eq!(core.read_reg_by_name("a5"), Ok(0xffff_ffff));
}

//     0x08d7ce63,      // blt	a5,a3,+156
#[test]
fn test_execution_blt() {
    let mut sim = creat_sim_for_test(0x08d7ce63);

    let core = sim.get_core_mut();
    let _ = core.write_reg_by_name("a5", 10).unwrap();
    let _ = core.write_reg_by_name("a3", 13).unwrap();

    sim.run(Some(1)).expect("Simulation failed");

    let core = sim.get_core();
    assert_eq!(core.get_pc(), MEMORY_BASE_ADDRESS as ProgramCounter + 156);
}

//     0xfee898e3,      // bne	a7,a4,-16
#[test]
fn test_execution_bne() {
    let mut sim = creat_sim_for_test(0xfee898e3);

    let core = sim.get_core_mut();
    let _ = core.write_reg_by_name("a7", 7).unwrap();
    let _ = core.write_reg_by_name("a4", 4).unwrap();

    sim.run(Some(1)).expect("Simulation failed");

    let core = sim.get_core();
    let mut new_pc = MEMORY_BASE_ADDRESS as ProgramCounter;
    new_pc = new_pc.wrapping_add(-16_i32 as u32 as ProgramCounter);
    assert_eq!(core.get_pc(), new_pc);
}

// Set if Not Equal to Zero.
//     0x00a03533,      // snez	a0,a0
#[test]
fn test_execution_snez() {
    let mut sim = creat_sim_for_test(0x00a03533);

    let core = sim.get_core_mut();
    let _ = core.write_reg_by_name("a0", 10).unwrap();

    sim.run(Some(1)).expect("Simulation failed");

    let core = sim.get_core();
    assert_eq!(core.read_reg_by_name("a0"), Ok(1));
}

//     0x0000000f,      // fence	unknown,unknown
#[test]
fn test_execution_fence() {
    let mut sim = creat_sim_for_test(0x0000000f);

    let core = sim.get_core_mut();
    let _ = core.write_reg_by_name("t0", 10).unwrap();

    let core = sim.get_core();
    assert_eq!(core.read_reg_by_name("t0"), Ok(10));
}
