// Tests for the decoder table and the instruction format parsers, including
// the sign-extension cases of each format.

use rv_iss::decode::{
    parse_b_type, parse_i_type, parse_j_type, parse_r_type, parse_s_type, parse_u_type, FormatB,
    FormatI, FormatJ, FormatR, FormatS, FormatU,
};
use rv_iss::decoder::{Decoder, InstructionKind};
use rv_iss::RvCoreError;

#[test]
fn test_decode_add() {
    let decoder = Decoder::new();
    let inst: u32 = 0b0000000_00010_00001_000_00011_0110011;
    let decoded = decoder.decode(inst).unwrap();
    assert_eq!(decoded.name, "ADD");
    assert_eq!(decoded.kind, InstructionKind::Add);
}

#[test]
fn test_decode_unmatched_word_fails() {
    let decoder = Decoder::new();
    assert_eq!(decoder.decode(0), Err(RvCoreError::InvalidInstruction(0)));
    assert_eq!(
        decoder.decode(0xffff_ffff),
        Err(RvCoreError::InvalidInstruction(0xffff_ffff))
    );
}

#[test]
fn test_decode_system_instructions() {
    let decoder = Decoder::new();
    assert_eq!(decoder.decode(0x0000_0073).unwrap().kind, InstructionKind::Ecall);
    assert_eq!(decoder.decode(0x0010_0073).unwrap().kind, InstructionKind::Ebreak);
    assert_eq!(decoder.decode(0x3020_0073).unwrap().kind, InstructionKind::Mret);
    assert_eq!(decoder.decode(0x1050_0073).unwrap().kind, InstructionKind::Wfi);
}

// add x12, x13, x14 # add rd, rs1, rs2
#[test]
fn test_parse_r_type() {
    let inst = 0b0000000_01110_01101_000_01100_0110011;
    let expected = FormatR { rd: 12, rs1: 13, rs2: 14 };
    assert_eq!(parse_r_type(inst), expected);
}

// addi x15, x16, -2 # addi rd, rs1, imm
#[test]
fn test_parse_i_type() {
    let inst = 0b111111111110_10000_000_01111_0010011;
    let expected = FormatI {
        rd: 15,
        rs1: 16,
        imm: 0b111111111111111111111_11111111110u32 as i32,
    };

    assert_eq!(expected.imm, -2);
    assert_eq!(parse_i_type(inst), expected);
}

// sb x5, -3(x6) # sb rs2, offset(rs1)
#[test]
fn test_parse_s_type() {
    let inst = 0b1111111_00101_00110_000_11101_0100011;
    let expected = FormatS {
        rs1: 6,
        rs2: 5,
        imm: 0b111111111111111111111_111111_1110_1u32 as i32,
    };
    assert_eq!(expected.imm, -3);
    assert_eq!(parse_s_type(inst), expected);
}

// beq x18, x19, -8 # beq rs1, rs2, offset
#[test]
fn test_parse_b_type() {
    let inst = 0b1111111_10011_10010_000_11001_1100011;
    let expected = FormatB {
        rs1: 18,
        rs2: 19,
        imm: 0b11111111111111111111_1_111111_1100_0u32 as i32,
    };
    assert_eq!(expected.imm, -8);
    assert_eq!(parse_b_type(inst), expected);
}

// auipc x20, 0x1234 # auipc rd, imm
#[test]
fn test_parse_u_type() {
    let inst = 0b00000001001000110100_10100_0010111;
    let expected = FormatU {
        rd: 20,
        imm: 0b00000001001000110100_000000000000 as i32,
    };
    assert_eq!(expected.imm, 0x1234 << 12);
    assert_eq!(parse_u_type(inst), expected);
}

// jal x1, -8       # jal rd, offset
#[test]
fn test_parse_j_type() {
    let inst = 0b11111111100111111111_00001_1101111;
    let expected = FormatJ {
        rd: 1,
        imm: 0b111111111111_11111111_1_1111111100_0u32 as i32,
    };

    assert_eq!(expected.imm, -8);
    assert_eq!(parse_j_type(inst), expected);
}
