//! The decoder: an ordered, static table of mask/match entries mapping raw
//! instruction bits to a named instruction.  `decode` returns the first
//! entry whose masked bits equal its match value; a word no entry matches is
//! an `InvalidInstruction` error.

use vstd::prelude::*;

use crate::{MachineInstruction, RvCoreError};

verus! {

/// The instruction an entry of the decode table names; execution dispatches
/// on this discriminant.
#[derive(Debug, Clone, Copy, PartialEq, Eq, Structural)]
pub enum InstructionKind {
    Add,
    Addi,
    And,
    Andi,
    Auipc,
    Beq,
    Bge,
    Bgeu,
    Blt,
    Bltu,
    Bne,
    Ebreak,
    Ecall,
    Fence,
    Jal,
    Jalr,
    Lb,
    Lbu,
    Lh,
    Lhu,
    Lui,
    Lw,
    Or,
    Ori,
    Sb,
    Sh,
    Sll,
    Slt,
    Slti,
    Sltiu,
    Sltu,
    Sra,
    Srl,
    Sub,
    Sw,
    Xor,
    Xori,
    Slli,
    Srai,
    Srli,
    Csrrc,
    Csrrci,
    Csrrs,
    Csrrsi,
    Csrrw,
    Csrrwi,
    Mret,
    Wfi,
}

pub const MATCH_ADD: u32 = 0x33;
pub const MASK_ADD: u32 = 0xfe00707f;
pub const MATCH_ADDI: u32 = 0x13;
pub const MASK_ADDI: u32 = 0x707f;
pub const MATCH_AND: u32 = 0x7033;
pub const MASK_AND: u32 = 0xfe00707f;
pub const MATCH_ANDI: u32 = 0x7013;
pub const MASK_ANDI: u32 = 0x707f;
pub const MATCH_AUIPC: u32 = 0x17;
pub const MASK_AUIPC: u32 = 0x7f;
pub const MATCH_BEQ: u32 = 0x63;
pub const MASK_BEQ: u32 = 0x707f;
pub const MATCH_BGE: u32 = 0x5063;
pub const MASK_BGE: u32 = 0x707f;
pub const MATCH_BGEU: u32 = 0x7063;
pub const MASK_BGEU: u32 = 0x707f;
pub const MATCH_BLT: u32 = 0x4063;
pub const MASK_BLT: u32 = 0x707f;
pub const MATCH_BLTU: u32 = 0x6063;
pub const MASK_BLTU: u32 = 0x707f;
pub const MATCH_BNE: u32 = 0x1063;
pub const MASK_BNE: u32 = 0x707f;
pub const MATCH_EBREAK: u32 = 0x100073;
pub const MASK_EBREAK: u32 = 0xffffffff;
pub const MATCH_ECALL: u32 = 0x73;
pub const MASK_ECALL: u32 = 0xffffffff;
pub const MATCH_FENCE: u32 = 0xf;
pub const MASK_FENCE: u32 = 0x707f;
pub const MATCH_JAL: u32 = 0x6f;
pub const MASK_JAL: u32 = 0x7f;
pub const MATCH_JALR: u32 = 0x67;
pub const MASK_JALR: u32 = 0x707f;
pub const MATCH_LB: u32 = 0x3;
pub const MASK_LB: u32 = 0x707f;
pub const MATCH_LBU: u32 = 0x4003;
pub const MASK_LBU: u32 = 0x707f;
pub const MATCH_LH: u32 = 0x1003;
pub const MASK_LH: u32 = 0x707f;
pub const MATCH_LHU: u32 = 0x5003;
pub const MASK_LHU: u32 = 0x707f;
pub const MATCH_LUI: u32 = 0x37;
pub const MASK_LUI: u32 = 0x7f;
pub const MATCH_LW: u32 = 0x2003;
pub const MASK_LW: u32 = 0x707f;
pub const MATCH_OR: u32 = 0x6033;
pub const MASK_OR: u32 = 0xfe00707f;
pub const MATCH_ORI: u32 = 0x6013;
pub const MASK_ORI: u32 = 0x707f;
pub const MATCH_SB: u32 = 0x23;
pub const MASK_SB: u32 = 0x707f;
pub const MATCH_SH: u32 = 0x1023;
pub const MASK_SH: u32 = 0x707f;
pub const MATCH_SLL: u32 = 0x1033;
pub const MASK_SLL: u32 = 0xfe00707f;
pub const MATCH_SLT: u32 = 0x2033;
pub const MASK_SLT: u32 = 0xfe00707f;
pub const MATCH_SLTI: u32 = 0x2013;
pub const MASK_SLTI: u32 = 0x707f;
pub const MATCH_SLTIU: u32 = 0x3013;
pub const MASK_SLTIU: u32 = 0x707f;
pub const MATCH_SLTU: u32 = 0x3033;
pub const MASK_SLTU: u32 = 0xfe00707f;
pub const MATCH_SRA: u32 = 0x40005033;
pub const MASK_SRA: u32 = 0xfe00707f;
pub const MATCH_SRL: u32 = 0x5033;
pub const MASK_SRL: u32 = 0xfe00707f;
pub const MATCH_SUB: u32 = 0x40000033;
pub const MASK_SUB: u32 = 0xfe00707f;
pub const MATCH_SW: u32 = 0x2023;
pub const MASK_SW: u32 = 0x707f;
pub const MATCH_XOR: u32 = 0x4033;
pub const MASK_XOR: u32 = 0xfe00707f;
pub const MATCH_XORI: u32 = 0x4013;
pub const MASK_XORI: u32 = 0x707f;
pub const MATCH_SLLI: u32 = 0x1013;
pub const MASK_SLLI: u32 = 0xfe00707f;
pub const MATCH_SRAI: u32 = 0x40005013;
pub const MASK_SRAI: u32 = 0xfe00707f;
pub const MATCH_SRLI: u32 = 0x5013;
pub const MASK_SRLI: u32 = 0xfe00707f;
pub const MATCH_CSRRC: u32 = 0x3073;
pub const MASK_CSRRC: u32 = 0x707f;
pub const MATCH_CSRRCI: u32 = 0x7073;
pub const MASK_CSRRCI: u32 = 0x707f;
pub const MATCH_CSRRS: u32 = 0x2073;
pub const MASK_CSRRS: u32 = 0x707f;
pub const MATCH_CSRRSI: u32 = 0x6073;
pub const MASK_CSRRSI: u32 = 0x707f;
pub const MATCH_CSRRW: u32 = 0x1073;
pub const MASK_CSRRW: u32 = 0x707f;
pub const MATCH_CSRRWI: u32 = 0x5073;
pub const MASK_CSRRWI: u32 = 0x707f;
pub const MATCH_MRET: u32 = 0x30200073;
pub const MASK_MRET: u32 = 0xffffffff;
pub const MATCH_WFI: u32 = 0x10500073;
pub const MASK_WFI: u32 = 0xffffffff;

/// An entry of the decode table: a mnemonic, the bits the mask selects, the
/// value they must equal, and the instruction they identify.
pub struct InstructionsEntry {
    pub name: &'static str,
    pub mask: MachineInstruction,
    pub match_val: MachineInstruction,
    pub kind: InstructionKind,
}

/// A decoded instruction: the mnemonic and the instruction to execute.
#[derive(Debug, PartialEq, Eq)]
pub struct DecodedInstruction {
    pub name: &'static str,
    pub kind: InstructionKind,
}

/// Whether an instruction word selects a table entry.
pub open spec fn entry_matches(e: InstructionsEntry, inst: MachineInstruction) -> bool {
    (inst & e.mask) == e.match_val
}

/// The index of the first table entry the word selects; table order decides
/// when masks overlap (first match wins).
pub open spec fn spec_decode_index(entries: Seq<InstructionsEntry>, inst: MachineInstruction) -> Option<int>
    decreases entries.len(),
{
    if entries.len() == 0 {
        None
    } else if entry_matches(entries[0], inst) {
        Some(0)
    } else {
        match spec_decode_index(entries.skip(1), inst) {
            Some(i) => Some(i + 1),
            None => None,
        }
    }
}

/// If `i` is the first matching index, the scan finds exactly `i`.
pub proof fn lemma_decode_index_at(entries: Seq<InstructionsEntry>, inst: MachineInstruction, i: int)
    requires
        0 <= i < entries.len(),
        entry_matches(entries[i], inst),
        forall|j: int| 0 <= j < i ==> !entry_matches(entries[j], inst),
    ensures
        spec_decode_index(entries, inst) == Some(i),
    decreases i,
{
    if i == 0 {
    } else {
        assert(forall|j: int|
            0 <= j < i - 1 ==> entries.skip(1)[j] == entries[j + 1] && !entry_matches(
                entries.skip(1)[j],
                inst,
            ));
        lemma_decode_index_at(entries.skip(1), inst, i - 1);
    }
}

/// Law: a word that no table entry matches decodes to nothing.
pub proof fn lemma_decode_index_none(entries: Seq<InstructionsEntry>, inst: MachineInstruction)
    requires
        forall|j: int| 0 <= j < entries.len() ==> !entry_matches(entries[j], inst),
    ensures
        spec_decode_index(entries, inst) is None,
    decreases entries.len(),
{
    if entries.len() > 0 {
        assert(forall|j: int|
            0 <= j < entries.len() - 1 ==> entries.skip(1)[j] == entries[j + 1] && !entry_matches(
                entries.skip(1)[j],
                inst,
            ));
        lemma_decode_index_none(entries.skip(1), inst);
    }
}

/// The decode table: the base integer set, the Zicsr extension and the
/// machine-mode system instructions, in a fixed order.
pub open spec fn spec_table() -> Seq<InstructionsEntry> {
    seq![
        InstructionsEntry { name: "ADD", mask: MASK_ADD, match_val: MATCH_ADD, kind: InstructionKind::Add },
        InstructionsEntry { name: "ADDI", mask: MASK_ADDI, match_val: MATCH_ADDI, kind: InstructionKind::Addi },
        InstructionsEntry { name: "AND", mask: MASK_AND, match_val: MATCH_AND, kind: InstructionKind::And },
        InstructionsEntry { name: "ANDI", mask: MASK_ANDI, match_val: MATCH_ANDI, kind: InstructionKind::Andi },
        InstructionsEntry { name: "AUIPC", mask: MASK_AUIPC, match_val: MATCH_AUIPC, kind: InstructionKind::Auipc },
        InstructionsEntry { name: "BEQ", mask: MASK_BEQ, match_val: MATCH_BEQ, kind: InstructionKind::Beq },
        InstructionsEntry { name: "BGE", mask: MASK_BGE, match_val: MATCH_BGE, kind: InstructionKind::Bge },
        InstructionsEntry { name: "BGEU", mask: MASK_BGEU, match_val: MATCH_BGEU, kind: InstructionKind::Bgeu },
        InstructionsEntry { name: "BLT", mask: MASK_BLT, match_val: MATCH_BLT, kind: InstructionKind::Blt },
        InstructionsEntry { name: "BLTU", mask: MASK_BLTU, match_val: MATCH_BLTU, kind: InstructionKind::Bltu },
        InstructionsEntry { name: "BNE", mask: MASK_BNE, match_val: MATCH_BNE, kind: InstructionKind::Bne },
        InstructionsEntry { name: "EBREAK", mask: MASK_EBREAK, match_val: MATCH_EBREAK, kind: InstructionKind::Ebreak },
        InstructionsEntry { name: "ECALL", mask: MASK_ECALL, match_val: MATCH_ECALL, kind: InstructionKind::Ecall },
        InstructionsEntry { name: "FENCE", mask: MASK_FENCE, match_val: MATCH_FENCE, kind: InstructionKind::Fence },
        InstructionsEntry { name: "JAL", mask: MASK_JAL, match_val: MATCH_JAL, kind: InstructionKind::Jal },
        InstructionsEntry { name: "JALR", mask: MASK_JALR, match_val: MATCH_JALR, kind: InstructionKind::Jalr },
        InstructionsEntry { name: "LB", mask: MASK_LB, match_val: MATCH_LB, kind: InstructionKind::Lb },
        InstructionsEntry { name: "LBU", mask: MASK_LBU, match_val: MATCH_LBU, kind: InstructionKind::Lbu },
        InstructionsEntry { name: "LH", mask: MASK_LH, match_val: MATCH_LH, kind: InstructionKind::Lh },
        InstructionsEntry { name: "LHU", mask: MASK_LHU, match_val: MATCH_LHU, kind: InstructionKind::Lhu },
        InstructionsEntry { name: "LUI", mask: MASK_LUI, match_val: MATCH_LUI, kind: InstructionKind::Lui },
        InstructionsEntry { name: "LW", mask: MASK_LW, match_val: MATCH_LW, kind: InstructionKind::Lw },
        InstructionsEntry { name: "OR", mask: MASK_OR, match_val: MATCH_OR, kind: InstructionKind::Or },
        InstructionsEntry { name: "ORI", mask: MASK_ORI, match_val: MATCH_ORI, kind: InstructionKind::Ori },
        InstructionsEntry { name: "SB", mask: MASK_SB, match_val: MATCH_SB, kind: InstructionKind::Sb },
        InstructionsEntry { name: "SH", mask: MASK_SH, match_val: MATCH_SH, kind: InstructionKind::Sh },
        InstructionsEntry { name: "SLL", mask: MASK_SLL, match_val: MATCH_SLL, kind: InstructionKind::Sll },
        InstructionsEntry { name: "SLT", mask: MASK_SLT, match_val: MATCH_SLT, kind: InstructionKind::Slt },
        InstructionsEntry { name: "SLTI", mask: MASK_SLTI, match_val: MATCH_SLTI, kind: InstructionKind::Slti },
        InstructionsEntry { name: "SLTIU", mask: MASK_SLTIU, match_val: MATCH_SLTIU, kind: InstructionKind::Sltiu },
        InstructionsEntry { name: "SLTU", mask: MASK_SLTU, match_val: MATCH_SLTU, kind: InstructionKind::Sltu },
        InstructionsEntry { name: "SRA", mask: MASK_SRA, match_val: MATCH_SRA, kind: InstructionKind::Sra },
        InstructionsEntry { name: "SRL", mask: MASK_SRL, match_val: MATCH_SRL, kind: InstructionKind::Srl },
        InstructionsEntry { name: "SUB", mask: MASK_SUB, match_val: MATCH_SUB, kind: InstructionKind::Sub },
        InstructionsEntry { name: "SW", mask: MASK_SW, match_val: MATCH_SW, kind: InstructionKind::Sw },
        InstructionsEntry { name: "XOR", mask: MASK_XOR, match_val: MATCH_XOR, kind: InstructionKind::Xor },
        InstructionsEntry { name: "XORI", mask: MASK_XORI, match_val: MATCH_XORI, kind: InstructionKind::Xori },
        InstructionsEntry { name: "SLLI", mask: MASK_SLLI, match_val: MATCH_SLLI, kind: InstructionKind::Slli },
        InstructionsEntry { name: "SRAI", mask: MASK_SRAI, match_val: MATCH_SRAI, kind: InstructionKind::Srai },
        InstructionsEntry { name: "SRLI", mask: MASK_SRLI, match_val: MATCH_SRLI, kind: InstructionKind::Srli },
        InstructionsEntry { name: "CSRRC", mask: MASK_CSRRC, match_val: MATCH_CSRRC, kind: InstructionKind::Csrrc },
        InstructionsEntry { name: "CSRRCI", mask: MASK_CSRRCI, match_val: MATCH_CSRRCI, kind: InstructionKind::Csrrci },
        InstructionsEntry { name: "CSRRS", mask: MASK_CSRRS, match_val: MATCH_CSRRS, kind: InstructionKind::Csrrs },
        InstructionsEntry { name: "CSRRSI", mask: MASK_CSRRSI, match_val: MATCH_CSRRSI, kind: InstructionKind::Csrrsi },
        InstructionsEntry { name: "CSRRW", mask: MASK_CSRRW, match_val: MATCH_CSRRW, kind: InstructionKind::Csrrw },
        InstructionsEntry { name: "CSRRWI", mask: MASK_CSRRWI, match_val: MATCH_CSRRWI, kind: InstructionKind::Csrrwi },
        InstructionsEntry { name: "MRET", mask: MASK_MRET, match_val: MATCH_MRET, kind: InstructionKind::Mret },
        InstructionsEntry { name: "WFI", mask: MASK_WFI, match_val: MATCH_WFI, kind: InstructionKind::Wfi },
    ]
}

/// The decoder holding the table.
pub struct Decoder {
    table: Vec<InstructionsEntry>,
}

impl Decoder {
    /// The decoder's table is exactly the declared decode table.
    pub closed spec fn wf(self) -> bool {
        self.table@ == spec_table()
    }

    /// Creates a decoder over the full table.
    #[verifier::rlimit(100)]
    pub fn new() -> (r: Self)
        ensures
            r.wf(),
    {
        let mut table: Vec<InstructionsEntry> = Vec::new();
        table.push(InstructionsEntry { name: "ADD", mask: MASK_ADD, match_val: MATCH_ADD, kind: InstructionKind::Add });
        table.push(InstructionsEntry { name: "ADDI", mask: MASK_ADDI, match_val: MATCH_ADDI, kind: InstructionKind::Addi });
        table.push(InstructionsEntry { name: "AND", mask: MASK_AND, match_val: MATCH_AND, kind: InstructionKind::And });
        table.push(InstructionsEntry { name: "ANDI", mask: MASK_ANDI, match_val: MATCH_ANDI, kind: InstructionKind::Andi });
        table.push(InstructionsEntry { name: "AUIPC", mask: MASK_AUIPC, match_val: MATCH_AUIPC, kind: InstructionKind::Auipc });
        table.push(InstructionsEntry { name: "BEQ", mask: MASK_BEQ, match_val: MATCH_BEQ, kind: InstructionKind::Beq });
        table.push(InstructionsEntry { name: "BGE", mask: MASK_BGE, match_val: MATCH_BGE, kind: InstructionKind::Bge });
        table.push(InstructionsEntry { name: "BGEU", mask: MASK_BGEU, match_val: MATCH_BGEU, kind: InstructionKind::Bgeu });
        table.push(InstructionsEntry { name: "BLT", mask: MASK_BLT, match_val: MATCH_BLT, kind: InstructionKind::Blt });
        table.push(InstructionsEntry { name: "BLTU", mask: MASK_BLTU, match_val: MATCH_BLTU, kind: InstructionKind::Bltu });
        table.push(InstructionsEntry { name: "BNE", mask: MASK_BNE, match_val: MATCH_BNE, kind: InstructionKind::Bne });
        table.push(InstructionsEntry { name: "EBREAK", mask: MASK_EBREAK, match_val: MATCH_EBREAK, kind: InstructionKind::Ebreak });
        table.push(InstructionsEntry { name: "ECALL", mask: MASK_ECALL, match_val: MATCH_ECALL, kind: InstructionKind::Ecall });
        table.push(InstructionsEntry { name: "FENCE", mask: MASK_FENCE, match_val: MATCH_FENCE, kind: InstructionKind::Fence });
        table.push(InstructionsEntry { name: "JAL", mask: MASK_JAL, match_val: MATCH_JAL, kind: InstructionKind::Jal });
        table.push(InstructionsEntry { name: "JALR", mask: MASK_JALR, match_val: MATCH_JALR, kind: InstructionKind::Jalr });
        table.push(InstructionsEntry { name: "LB", mask: MASK_LB, match_val: MATCH_LB, kind: InstructionKind::Lb });
        table.push(InstructionsEntry { name: "LBU", mask: MASK_LBU, match_val: MATCH_LBU, kind: InstructionKind::Lbu });
        table.push(InstructionsEntry { name: "LH", mask: MASK_LH, match_val: MATCH_LH, kind: InstructionKind::Lh });
        table.push(InstructionsEntry { name: "LHU", mask: MASK_LHU, match_val: MATCH_LHU, kind: InstructionKind::Lhu });
        table.push(InstructionsEntry { name: "LUI", mask: MASK_LUI, match_val: MATCH_LUI, kind: InstructionKind::Lui });
        table.push(InstructionsEntry { name: "LW", mask: MASK_LW, match_val: MATCH_LW, kind: InstructionKind::Lw });
        table.push(InstructionsEntry { name: "OR", mask: MASK_OR, match_val: MATCH_OR, kind: InstructionKind::Or });
        table.push(InstructionsEntry { name: "ORI", mask: MASK_ORI, match_val: MATCH_ORI, kind: InstructionKind::Ori });
        table.push(InstructionsEntry { name: "SB", mask: MASK_SB, match_val: MATCH_SB, kind: InstructionKind::Sb });
        table.push(InstructionsEntry { name: "SH", mask: MASK_SH, match_val: MATCH_SH, kind: InstructionKind::Sh });
        table.push(InstructionsEntry { name: "SLL", mask: MASK_SLL, match_val: MATCH_SLL, kind: InstructionKind::Sll });
        table.push(InstructionsEntry { name: "SLT", mask: MASK_SLT, match_val: MATCH_SLT, kind: InstructionKind::Slt });
        table.push(InstructionsEntry { name: "SLTI", mask: MASK_SLTI, match_val: MATCH_SLTI, kind: InstructionKind::Slti });
        table.push(InstructionsEntry { name: "SLTIU", mask: MASK_SLTIU, match_val: MATCH_SLTIU, kind: InstructionKind::Sltiu });
        table.push(InstructionsEntry { name: "SLTU", mask: MASK_SLTU, match_val: MATCH_SLTU, kind: InstructionKind::Sltu });
        table.push(InstructionsEntry { name: "SRA", mask: MASK_SRA, match_val: MATCH_SRA, kind: InstructionKind::Sra });
        table.push(InstructionsEntry { name: "SRL", mask: MASK_SRL, match_val: MATCH_SRL, kind: InstructionKind::Srl });
        table.push(InstructionsEntry { name: "SUB", mask: MASK_SUB, match_val: MATCH_SUB, kind: InstructionKind::Sub });
        table.push(InstructionsEntry { name: "SW", mask: MASK_SW, match_val: MATCH_SW, kind: InstructionKind::Sw });
        table.push(InstructionsEntry { name: "XOR", mask: MASK_XOR, match_val: MATCH_XOR, kind: InstructionKind::Xor });
        table.push(InstructionsEntry { name: "XORI", mask: MASK_XORI, match_val: MATCH_XORI, kind: InstructionKind::Xori });
        table.push(InstructionsEntry { name: "SLLI", mask: MASK_SLLI, match_val: MATCH_SLLI, kind: InstructionKind::Slli });
        table.push(InstructionsEntry { name: "SRAI", mask: MASK_SRAI, match_val: MATCH_SRAI, kind: InstructionKind::Srai });
        table.push(InstructionsEntry { name: "SRLI", mask: MASK_SRLI, match_val: MATCH_SRLI, kind: InstructionKind::Srli });
        table.push(InstructionsEntry { name: "CSRRC", mask: MASK_CSRRC, match_val: MATCH_CSRRC, kind: InstructionKind::Csrrc });
        table.push(InstructionsEntry { name: "CSRRCI", mask: MASK_CSRRCI, match_val: MATCH_CSRRCI, kind: InstructionKind::Csrrci });
        table.push(InstructionsEntry { name: "CSRRS", mask: MASK_CSRRS, match_val: MATCH_CSRRS, kind: InstructionKind::Csrrs });
        table.push(InstructionsEntry { name: "CSRRSI", mask: MASK_CSRRSI, match_val: MATCH_CSRRSI, kind: InstructionKind::Csrrsi });
        table.push(InstructionsEntry { name: "CSRRW", mask: MASK_CSRRW, match_val: MATCH_CSRRW, kind: InstructionKind::Csrrw });
        table.push(InstructionsEntry { name: "CSRRWI", mask: MASK_CSRRWI, match_val: MATCH_CSRRWI, kind: InstructionKind::Csrrwi });
        table.push(InstructionsEntry { name: "MRET", mask: MASK_MRET, match_val: MATCH_MRET, kind: InstructionKind::Mret });
        table.push(InstructionsEntry { name: "WFI", mask: MASK_WFI, match_val: MATCH_WFI, kind: InstructionKind::Wfi });
        proof {
            assert(table@ =~= spec_table());
        }
        Self { table }
    }

    /// Decodes an instruction word: the first table entry whose
    /// `(mask, match)` pair selects the word names the instruction; a word
    /// that no entry matches fails with `InvalidInstruction`.
    pub fn decode(&self, inst: MachineInstruction) -> (r: Result<DecodedInstruction, RvCoreError>)
        requires
            self.wf(),
        ensures
            match spec_decode_index(spec_table(), inst) {
                Some(i) => r matches Ok(d) && d.kind == spec_table()[i].kind && d.name
                    == spec_table()[i].name,
                None => r == Err::<DecodedInstruction, RvCoreError>(
                    RvCoreError::InvalidInstruction(inst),
                ),
            },
    {
        let n = self.table.len();
        let mut i: usize = 0;
        while i < n
            invariant
                i <= n,
                self.wf(),
                n == spec_table().len(),
                forall|j: int| 0 <= j < i ==> !entry_matches(spec_table()[j], inst),
            decreases n - i,
        {
            let entry = &self.table[i];
            if (inst & entry.mask) == entry.match_val {
                proof {
                    lemma_decode_index_at(spec_table(), inst, i as int);
                }
                return Ok(DecodedInstruction { name: entry.name, kind: entry.kind });
            }
            i += 1;
        }
        proof {
            lemma_decode_index_none(spec_table(), inst);
        }
        Err(RvCoreError::InvalidInstruction(inst))
    }
}

} // verus!
