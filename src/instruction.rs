use vstd::arithmetic::power2::{lemma2_to64, pow2};
use vstd::bits::lemma_u64_shl_is_mul;
use vstd::prelude::*;

verus! {

/// A decoded RV32I instruction; each format carries only its own fields.
#[derive(Clone, Copy, Debug, PartialEq, Eq, Structural)]
pub enum RV5Instruction {
    R(RV5Rtype),
    I(RV5Itype),
    S(RV5Stype),
    SB(RV5SBtype),
    J(RV5Jtype),
    U(RVUtype),
    ECALL,
    EBREAK,
    /// The all-zero word, as found in memory that was never written.
    NOP,
    /// A word that no format accepts.
    Illegal,
}

/// | funct7 | rs2 | rs1 | funct3 | rd | opcode |
#[derive(Clone, Copy, Debug, PartialEq, Eq, Structural)]
pub struct RV5Rtype {
    pub funct7: u32,
    pub rs2: u32,
    pub rs1: u32,
    pub funct3: u32,
    pub rd: u32,
    pub opcode: u32,
}

/// | imm[11:0] | rs1 | funct3 | rd | opcode |
#[derive(Clone, Copy, Debug, PartialEq, Eq, Structural)]
pub struct RV5Itype {
    pub imm: u32,
    pub rs1: u32,
    pub funct3: u32,
    pub rd: u32,
    pub opcode: u32,
}

/// | imm[11:5] | rs2 | rs1 | funct3 | imm[4:0] | opcode |
#[derive(Clone, Copy, Debug, PartialEq, Eq, Structural)]
pub struct RV5Stype {
    pub imm: u32,
    pub rs2: u32,
    pub rs1: u32,
    pub funct3: u32,
    pub opcode: u32,
}

/// | imm[12,10:5] | rs2 | rs1 | funct3 | imm[4:1,11] | opcode |; `imm` keeps
/// bit 0 clear.
#[derive(Clone, Copy, Debug, PartialEq, Eq, Structural)]
pub struct RV5SBtype {
    pub imm: u32,
    pub rs2: u32,
    pub rs1: u32,
    pub funct3: u32,
    pub opcode: u32,
}

/// | imm[20] | imm[10:1] | imm[11] | imm[19:12] | rd | opcode |; `imm` keeps
/// bit 0 clear.
#[derive(Clone, Copy, Debug, PartialEq, Eq, Structural)]
pub struct RV5Jtype {
    pub imm: u32,
    pub rd: u32,
    pub opcode: u32,
}

/// | imm[31:12] | rd | opcode |; `imm20` is the unshifted upper immediate.
#[derive(Clone, Copy, Debug, PartialEq, Eq, Structural)]
pub struct RVUtype {
    pub imm20: u32,
    pub rd: u32,
    pub opcode: u32,
}

pub const OP_REG: u32 = 0x33;
pub const OP_LOAD: u32 = 0x03;
pub const OP_IMM: u32 = 0x13;
pub const OP_JALR: u32 = 0x67;
pub const OP_STORE: u32 = 0x23;
pub const OP_BRANCH: u32 = 0x63;
pub const OP_LUI: u32 = 0x37;
pub const OP_AUIPC: u32 = 0x17;
pub const OP_JAL: u32 = 0x6f;
pub const WORD_ECALL: u32 = 0x73;
pub const WORD_EBREAK: u32 = 0x0010_0073;

/// What a 32-bit word decodes to.
pub open spec fn decode(w: u32) -> RV5Instruction {
    let opcode = w & 0x7f;
    if w == WORD_ECALL {
        RV5Instruction::ECALL
    } else if w == WORD_EBREAK {
        RV5Instruction::EBREAK
    } else if w == 0 {
        RV5Instruction::NOP
    } else if opcode == OP_REG {
        RV5Instruction::R(
            RV5Rtype {
                funct7: (w >> 25u32) & 0x7f,
                rs2: (w >> 20u32) & 0x1f,
                rs1: (w >> 15u32) & 0x1f,
                funct3: (w >> 12u32) & 0x7,
                rd: (w >> 7u32) & 0x1f,
                opcode,
            },
        )
    } else if opcode == OP_LOAD || opcode == OP_IMM || opcode == OP_JALR {
        RV5Instruction::I(
            RV5Itype {
                imm: (w >> 20u32) & 0xfff,
                rs1: (w >> 15u32) & 0x1f,
                funct3: (w >> 12u32) & 0x7,
                rd: (w >> 7u32) & 0x1f,
                opcode,
            },
        )
    } else if opcode == OP_STORE {
        RV5Instruction::S(
            RV5Stype {
                imm: ((w >> 25u32) & 0x7f) << 5u32 | (w >> 7u32) & 0x1f,
                rs2: (w >> 20u32) & 0x1f,
                rs1: (w >> 15u32) & 0x1f,
                funct3: (w >> 12u32) & 0x7,
                opcode,
            },
        )
    } else if opcode == OP_BRANCH {
        RV5Instruction::SB(
            RV5SBtype {
                imm: ((w >> 31u32) & 0x1) << 12u32 | ((w >> 7u32) & 0x1) << 11u32 | ((w >> 25u32)
                    & 0x3f) << 5u32 | ((w >> 8u32) & 0xf) << 1u32,
                rs2: (w >> 20u32) & 0x1f,
                rs1: (w >> 15u32) & 0x1f,
                funct3: (w >> 12u32) & 0x7,
                opcode,
            },
        )
    } else if opcode == OP_LUI || opcode == OP_AUIPC {
        RV5Instruction::U(RVUtype { imm20: (w >> 12u32) & 0xfffff, rd: (w >> 7u32) & 0x1f, opcode })
    } else if opcode == OP_JAL {
        RV5Instruction::J(
            RV5Jtype {
                imm: ((w >> 31u32) & 0x1) << 20u32 | ((w >> 12u32) & 0xff) << 12u32 | ((w >> 20u32)
                    & 0x1) << 11u32 | ((w >> 21u32) & 0x3ff) << 1u32,
                rd: (w >> 7u32) & 0x1f,
                opcode,
            },
        )
    } else {
        RV5Instruction::Illegal
    }
}

impl RV5Instruction {
    /// Every register index names one of the 32 registers.
    pub open spec fn regs_in_range(self) -> bool {
        match self {
            RV5Instruction::R(r) => r.rs1 < 32 && r.rs2 < 32 && r.rd < 32,
            RV5Instruction::I(i) => i.rs1 < 32 && i.rd < 32,
            RV5Instruction::S(s) => s.rs1 < 32 && s.rs2 < 32,
            RV5Instruction::SB(b) => b.rs1 < 32 && b.rs2 < 32,
            RV5Instruction::J(j) => j.rd < 32,
            RV5Instruction::U(u) => u.rd < 32,
            _ => true,
        }
    }

    /// The fields of a well-formed instruction: register indices of five bits,
    /// function codes and immediates of their format's width, an opcode of
    /// the format, and immediates of branches and jumps even.
    pub open spec fn encodable(self) -> bool {
        match self {
            RV5Instruction::R(r) => r.opcode == OP_REG && r.funct7 < 128 && r.rs2 < 32 && r.rs1
                < 32 && r.funct3 < 8 && r.rd < 32,
            RV5Instruction::I(i) => (i.opcode == OP_LOAD || i.opcode == OP_IMM || i.opcode
                == OP_JALR) && i.imm < 4096 && i.rs1 < 32 && i.funct3 < 8 && i.rd < 32,
            RV5Instruction::S(s) => s.opcode == OP_STORE && s.imm < 4096 && s.rs2 < 32 && s.rs1
                < 32 && s.funct3 < 8,
            RV5Instruction::SB(b) => b.opcode == OP_BRANCH && b.imm < 8192 && b.imm % 2 == 0
                && b.rs2 < 32 && b.rs1 < 32 && b.funct3 < 8,
            RV5Instruction::J(j) => j.opcode == OP_JAL && j.imm < 0x20_0000 && j.imm % 2 == 0
                && j.rd < 32,
            RV5Instruction::U(u) => (u.opcode == OP_LUI || u.opcode == OP_AUIPC) && u.imm20
                < 0x10_0000 && u.rd < 32,
            RV5Instruction::ECALL | RV5Instruction::EBREAK | RV5Instruction::NOP => true,
            RV5Instruction::Illegal => false,
        }
    }

    /// The machine word that holds an instruction's fields.
    pub open spec fn encode(self) -> u32 {
        match self {
            RV5Instruction::R(r) => r.funct7 << 25u32 | r.rs2 << 20u32 | r.rs1 << 15u32 | r.funct3
                << 12u32 | r.rd << 7u32 | r.opcode,
            RV5Instruction::I(i) => i.imm << 20u32 | i.rs1 << 15u32 | i.funct3 << 12u32 | i.rd
                << 7u32 | i.opcode,
            RV5Instruction::S(s) => ((s.imm >> 5u32) & 0x7f) << 25u32 | s.rs2 << 20u32 | s.rs1
                << 15u32 | s.funct3 << 12u32 | (s.imm & 0x1f) << 7u32 | s.opcode,
            RV5Instruction::SB(b) => ((b.imm >> 12u32) & 1) << 31u32 | ((b.imm >> 5u32) & 0x3f)
                << 25u32 | b.rs2 << 20u32 | b.rs1 << 15u32 | b.funct3 << 12u32 | ((b.imm >> 1u32)
                & 0xf) << 8u32 | ((b.imm >> 11u32) & 1) << 7u32 | b.opcode,
            RV5Instruction::J(j) => ((j.imm >> 20u32) & 1) << 31u32 | ((j.imm >> 1u32) & 0x3ff)
                << 21u32 | ((j.imm >> 11u32) & 1) << 20u32 | ((j.imm >> 12u32) & 0xff) << 12u32
                | j.rd << 7u32 | j.opcode,
            RV5Instruction::U(u) => u.imm20 << 12u32 | u.rd << 7u32 | u.opcode,
            RV5Instruction::ECALL => WORD_ECALL,
            RV5Instruction::EBREAK => WORD_EBREAK,
            RV5Instruction::NOP => 0,
            RV5Instruction::Illegal => 0xffff_ffff,
        }
    }

    /// Decodes a machine word. Total: a word that no format accepts yields
    /// `Illegal`.
    pub fn new(instruction: u32) -> (r: Self)
        ensures
            r == decode(instruction),
            r.regs_in_range(),
    {
        let w = instruction;
        proof {
            lemma_decoded_regs_in_range(w);
        }
        if w == WORD_ECALL {
            return RV5Instruction::ECALL;
        } else if w == WORD_EBREAK {
            return RV5Instruction::EBREAK;
        } else if w == 0 {
            return RV5Instruction::NOP;
        }
        let opcode = w & 0x7f;
        if opcode == OP_REG {
            RV5Instruction::R(
                RV5Rtype {
                    funct7: (w >> 25u32) & 0x7f,
                    rs2: (w >> 20u32) & 0x1f,
                    rs1: (w >> 15u32) & 0x1f,
                    funct3: (w >> 12u32) & 0x7,
                    rd: (w >> 7u32) & 0x1f,
                    opcode,
                },
            )
        } else if opcode == OP_LOAD || opcode == OP_IMM || opcode == OP_JALR {
            RV5Instruction::I(
                RV5Itype {
                    imm: (w >> 20u32) & 0xfff,
                    rs1: (w >> 15u32) & 0x1f,
                    funct3: (w >> 12u32) & 0x7,
                    rd: (w >> 7u32) & 0x1f,
                    opcode,
                },
            )
        } else if opcode == OP_STORE {
            let imm_11_5 = (w >> 25u32) & 0x7f;
            let imm_4_0 = (w >> 7u32) & 0x1f;
            RV5Instruction::S(
                RV5Stype {
                    imm: imm_11_5 << 5u32 | imm_4_0,
                    rs2: (w >> 20u32) & 0x1f,
                    rs1: (w >> 15u32) & 0x1f,
                    funct3: (w >> 12u32) & 0x7,
                    opcode,
                },
            )
        } else if opcode == OP_BRANCH {
            let imm_12 = (w >> 31u32) & 0x1;
            let imm_11 = (w >> 7u32) & 0x1;
            let imm_10_5 = (w >> 25u32) & 0x3f;
            let imm_4_1 = (w >> 8u32) & 0xf;
            RV5Instruction::SB(
                RV5SBtype {
                    imm: imm_12 << 12u32 | imm_11 << 11u32 | imm_10_5 << 5u32 | imm_4_1 << 1u32,
                    rs2: (w >> 20u32) & 0x1f,
                    rs1: (w >> 15u32) & 0x1f,
                    funct3: (w >> 12u32) & 0x7,
                    opcode,
                },
            )
        } else if opcode == OP_LUI || opcode == OP_AUIPC {
            RV5Instruction::U(
                RVUtype { imm20: (w >> 12u32) & 0xfffff, rd: (w >> 7u32) & 0x1f, opcode },
            )
        } else if opcode == OP_JAL {
            let imm_20 = (w >> 31u32) & 0x1;
            let imm_19_12 = (w >> 12u32) & 0xff;
            let imm_11 = (w >> 20u32) & 0x1;
            let imm_10_1 = (w >> 21u32) & 0x3ff;
            RV5Instruction::J(
                RV5Jtype {
                    imm: imm_20 << 20u32 | imm_19_12 << 12u32 | imm_11 << 11u32 | imm_10_1 << 1u32,
                    rd: (w >> 7u32) & 0x1f,
                    opcode,
                },
            )
        } else {
            RV5Instruction::Illegal
        }
    }
}

/// Register fields extracted from any word stay below 32.
pub proof fn lemma_decoded_regs_in_range(w: u32)
    ensures
        decode(w).regs_in_range(),
{
    assert((w >> 20u32) & 0x1f < 32) by (bit_vector);
    assert((w >> 15u32) & 0x1f < 32) by (bit_vector);
    assert((w >> 7u32) & 0x1f < 32) by (bit_vector);
}

/// Decoding the encoding of a well-formed instruction gives back exactly its
/// fields.
pub proof fn decode_round_trip(ins: RV5Instruction)
    requires
        ins.encodable(),
    ensures
        decode(ins.encode()) == ins,
{
    let w = ins.encode();
    match ins {
        RV5Instruction::R(r) => {
            let (f7, rs2, rs1, f3, rd, op) = (r.funct7, r.rs2, r.rs1, r.funct3, r.rd, r.opcode);
            assert(w == f7 << 25u32 | rs2 << 20u32 | rs1 << 15u32 | f3 << 12u32 | rd << 7u32 | op);
            assert(w & 0x7f == op && w != WORD_ECALL && w != WORD_EBREAK && w != 0 && (w >> 25u32)
                & 0x7f == f7 && (w >> 20u32) & 0x1f == rs2 && (w >> 15u32) & 0x1f == rs1 && (w
                >> 12u32) & 0x7 == f3 && (w >> 7u32) & 0x1f == rd) by (bit_vector)
                requires
                    w == f7 << 25u32 | rs2 << 20u32 | rs1 << 15u32 | f3 << 12u32 | rd << 7u32 | op,
                    op == 0x33,
                    f7 < 128,
                    rs2 < 32,
                    rs1 < 32,
                    f3 < 8,
                    rd < 32,
            ;
        },
        RV5Instruction::I(i) => {
            let (imm, rs1, f3, rd, op) = (i.imm, i.rs1, i.funct3, i.rd, i.opcode);
            assert(w == imm << 20u32 | rs1 << 15u32 | f3 << 12u32 | rd << 7u32 | op);
            assert(w & 0x7f == op && w != WORD_ECALL && w != WORD_EBREAK && w != 0 && (w >> 20u32)
                & 0xfff == imm && (w >> 15u32) & 0x1f == rs1 && (w >> 12u32) & 0x7 == f3 && (w
                >> 7u32) & 0x1f == rd) by (bit_vector)
                requires
                    w == imm << 20u32 | rs1 << 15u32 | f3 << 12u32 | rd << 7u32 | op,
                    op == 0x03 || op == 0x13 || op == 0x67,
                    imm < 4096,
                    rs1 < 32,
                    f3 < 8,
                    rd < 32,
            ;
        },
        RV5Instruction::S(s) => {
            let (imm, rs2, rs1, f3, op) = (s.imm, s.rs2, s.rs1, s.funct3, s.opcode);
            assert(w == ((imm >> 5u32) & 0x7f) << 25u32 | rs2 << 20u32 | rs1 << 15u32 | f3 << 12u32
                | (imm & 0x1f) << 7u32 | op);
            assert(w & 0x7f == op && w != WORD_ECALL && w != WORD_EBREAK && w != 0 && (((w
                >> 25u32) & 0x7f) << 5u32 | (w >> 7u32) & 0x1f) == imm && (w >> 20u32) & 0x1f
                == rs2 && (w >> 15u32) & 0x1f == rs1 && (w >> 12u32) & 0x7 == f3) by (bit_vector)
                requires
                    w == ((imm >> 5u32) & 0x7f) << 25u32 | rs2 << 20u32 | rs1 << 15u32 | f3
                        << 12u32 | (imm & 0x1f) << 7u32 | op,
                    op == 0x23,
                    imm < 4096,
                    rs2 < 32,
                    rs1 < 32,
                    f3 < 8,
            ;
        },
        RV5Instruction::SB(b) => {
            let (imm, rs2, rs1, f3, op) = (b.imm, b.rs2, b.rs1, b.funct3, b.opcode);
            assert(w == ((imm >> 12u32) & 1) << 31u32 | ((imm >> 5u32) & 0x3f) << 25u32 | rs2
                << 20u32 | rs1 << 15u32 | f3 << 12u32 | ((imm >> 1u32) & 0xf) << 8u32 | ((imm
                >> 11u32) & 1) << 7u32 | op);
            assert(w & 0x7f == op && w != WORD_ECALL && w != WORD_EBREAK && w != 0 && (((w
                >> 31u32) & 0x1) << 12u32 | ((w >> 7u32) & 0x1) << 11u32 | ((w >> 25u32) & 0x3f)
                << 5u32 | ((w >> 8u32) & 0xf) << 1u32) == imm && (w >> 20u32) & 0x1f == rs2 && (w
                >> 15u32) & 0x1f == rs1 && (w >> 12u32) & 0x7 == f3) by (bit_vector)
                requires
                    w == ((imm >> 12u32) & 1) << 31u32 | ((imm >> 5u32) & 0x3f) << 25u32 | rs2
                        << 20u32 | rs1 << 15u32 | f3 << 12u32 | ((imm >> 1u32) & 0xf) << 8u32 | ((
                    imm >> 11u32) & 1) << 7u32 | op,
                    op == 0x63,
                    imm < 8192,
                    imm % 2 == 0,
                    rs2 < 32,
                    rs1 < 32,
                    f3 < 8,
            ;
        },
        RV5Instruction::J(j) => {
            let (imm, rd, op) = (j.imm, j.rd, j.opcode);
            assert(w == ((imm >> 20u32) & 1) << 31u32 | ((imm >> 1u32) & 0x3ff) << 21u32 | ((imm
                >> 11u32) & 1) << 20u32 | ((imm >> 12u32) & 0xff) << 12u32 | rd << 7u32 | op);
            assert(w & 0x7f == op && w != WORD_ECALL && w != WORD_EBREAK && w != 0 && (((w
                >> 31u32) & 0x1) << 20u32 | ((w >> 12u32) & 0xff) << 12u32 | ((w >> 20u32) & 0x1)
                << 11u32 | ((w >> 21u32) & 0x3ff) << 1u32) == imm && (w >> 7u32) & 0x1f == rd)
                by (bit_vector)
                requires
                    w == ((imm >> 20u32) & 1) << 31u32 | ((imm >> 1u32) & 0x3ff) << 21u32 | ((imm
                        >> 11u32) & 1) << 20u32 | ((imm >> 12u32) & 0xff) << 12u32 | rd << 7u32
                        | op,
                    op == 0x6f,
                    imm < 0x20_0000,
                    imm % 2 == 0,
                    rd < 32,
            ;
        },
        RV5Instruction::U(u) => {
            let (imm20, rd, op) = (u.imm20, u.rd, u.opcode);
            assert(w == imm20 << 12u32 | rd << 7u32 | op);
            assert(w & 0x7f == op && w != WORD_ECALL && w != WORD_EBREAK && w != 0 && (w >> 12u32)
                & 0xfffff == imm20 && (w >> 7u32) & 0x1f == rd) by (bit_vector)
                requires
                    w == imm20 << 12u32 | rd << 7u32 | op,
                    op == 0x37 || op == 0x17,
                    imm20 < 0x10_0000,
                    rd < 32,
            ;
        },
        _ => {},
    }
}

/// The two's-complement value of the low `bits` bits of `value`.
pub open spec fn sign_extended(value: u32, bits: nat) -> int {
    let low = value as int % pow2(bits) as int;
    if low >= pow2((bits - 1) as nat) {
        low - pow2(bits)
    } else {
        low
    }
}

/// Reads the low `bits` bits of `value` as a signed number.
pub fn sign_extend(value: u32, bits: u32) -> (r: i32)
    requires
        1 <= bits <= 32,
    ensures
        r as int == sign_extended(value, bits as nat),
{
    proof {
        lemma2_to64();
        lemma_u64_shl_is_mul(1, bits as u64);
        lemma_u64_shl_is_mul(1, (bits - 1) as u64);
    }
    let modulus: u64 = 1u64 << bits as u64;
    let half: u64 = 1u64 << (bits - 1) as u64;
    let low: u64 = value as u64 % modulus;
    if low >= half {
        (low as i64 - modulus as i64) as i32
    } else {
        low as i32
    }
}

} // verus!
