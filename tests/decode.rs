use rv32i_lib::instruction::{sign_extend, RV5Instruction, RV5Jtype, RVUtype};

#[test]
fn test_rv5_instruction_r() {
    let instruction = 0x15A04B3; // add x9, x20, x21
    let rv5_instruction = RV5Instruction::new(instruction);

    match rv5_instruction {
        RV5Instruction::R(rv5_r_type) => {
            assert_eq!(rv5_r_type.funct7, 0b0000000);
            assert_eq!(rv5_r_type.rs2, 0b10101);
            assert_eq!(rv5_r_type.rs1, 0b10100);
            assert_eq!(rv5_r_type.funct3, 0b000);
            assert_eq!(rv5_r_type.rd, 0b01001);
            assert_eq!(rv5_r_type.opcode, 0b0110011);
        }
        _ => panic!("Expected RV5Rtype"),
    }
}

#[test]
fn test_rv5_instruction_i() {
    let instruction = 0x3E813083; // ld x1, 1000(x2)
    let rv5_instruction = RV5Instruction::new(instruction);
    match rv5_instruction {
        RV5Instruction::I(rv5_i_type) => {
            assert_eq!(rv5_i_type.imm, 0b001111101000);
            assert_eq!(rv5_i_type.rs1, 0b00010);
            assert_eq!(rv5_i_type.funct3, 0b011);
            assert_eq!(rv5_i_type.rd, 0b00001);
            assert_eq!(rv5_i_type.opcode, 0b0000011);
        }
        _ => panic!("Expected RV5Itype"),
    }
}

#[test]
fn test_rv5_instruction_s() {
    let instruction = 0x3E113423; // sd x1, 1000(x2)
    let rv5_instruction = RV5Instruction::new(instruction);
    match rv5_instruction {
        RV5Instruction::S(rv5_s_type) => {
            assert_eq!(rv5_s_type.imm, 0b001111101000);
            assert_eq!(rv5_s_type.rs2, 0b00001);
            assert_eq!(rv5_s_type.rs1, 0b00010);
            assert_eq!(rv5_s_type.funct3, 0b011);
            assert_eq!(rv5_s_type.opcode, 0b0100011);
        }
        _ => panic!("Expected RV5Stype"),
    }
}

#[test]
fn test_rv5_instruction_sb() {
    let instruction = 0x7CB51863; // bne x10, x11, 2000
    let rv5_instruction = RV5Instruction::new(instruction);
    match rv5_instruction {
        RV5Instruction::SB(rv5_sb_type) => {
            assert_eq!(rv5_sb_type.imm, 0b0011111010000);
            assert_eq!(rv5_sb_type.rs2, 0b01011);
            assert_eq!(rv5_sb_type.rs1, 0b01010);
            assert_eq!(rv5_sb_type.funct3, 0b001);
            assert_eq!(rv5_sb_type.opcode, 0b1100011);
        }
        _ => panic!("Expected RV5SBtype"),
    }
}

#[test]
fn decodes_upper_immediate_with_all_twenty_bits() {
    // lui x5, 0xfedcb
    let ins = RV5Instruction::new(0xFEDC_B2B7);
    assert_eq!(
        ins,
        RV5Instruction::U(RVUtype { imm20: 0xFEDCB, rd: 5, opcode: 0x37 })
    );
    // auipc x1, 0x1
    assert_eq!(
        RV5Instruction::new(0x0000_1097),
        RV5Instruction::U(RVUtype { imm20: 1, rd: 1, opcode: 0x17 })
    );
}

#[test]
fn decodes_jump_immediate() {
    // jal x1, +8
    assert_eq!(
        RV5Instruction::new(0x0080_00EF),
        RV5Instruction::J(RV5Jtype { imm: 8, rd: 1, opcode: 0x6F })
    );
    // jal x0, -4: every immediate bit above bit 1 set
    assert_eq!(
        RV5Instruction::new(0xFFDF_F06F),
        RV5Instruction::J(RV5Jtype { imm: 0x1F_FFFC, rd: 0, opcode: 0x6F })
    );
}

#[test]
fn decodes_control_words_and_illegal() {
    assert_eq!(RV5Instruction::new(0x0000_0073), RV5Instruction::ECALL);
    assert_eq!(RV5Instruction::new(0x0010_0073), RV5Instruction::EBREAK);
    assert_eq!(RV5Instruction::new(0), RV5Instruction::NOP);
    assert_eq!(RV5Instruction::new(0xFFFF_FFFF), RV5Instruction::Illegal);
    assert_eq!(RV5Instruction::new(0x0000_000F), RV5Instruction::Illegal);
}

fn encode_branch(imm: u32, rs2: u32, rs1: u32, funct3: u32) -> u32 {
    ((imm >> 12) & 1) << 31
        | ((imm >> 5) & 0x3F) << 25
        | rs2 << 20
        | rs1 << 15
        | funct3 << 12
        | ((imm >> 1) & 0xF) << 8
        | ((imm >> 11) & 1) << 7
        | 0x63
}

#[test]
fn branch_fields_survive_encode_then_decode() {
    for &imm in &[0u32, 2, 0x7FE, 0x800, 0xFFE, 0x1000, 0x1FFE] {
        match RV5Instruction::new(encode_branch(imm, 31, 17, 5)) {
            RV5Instruction::SB(b) => {
                assert_eq!(b.imm, imm);
                assert_eq!(b.rs2, 31);
                assert_eq!(b.rs1, 17);
                assert_eq!(b.funct3, 5);
                assert_eq!(b.opcode, 0x63);
            }
            _ => panic!("Expected RV5SBtype"),
        }
    }
}

#[test]
fn sign_extension_of_twelve_bit_immediates() {
    assert_eq!(sign_extend(0xFFF, 12), -1);
    assert_eq!(sign_extend(0x800, 12), -2048);
    assert_eq!(sign_extend(0x7FF, 12), 2047);
    assert_eq!(sign_extend(0x1000, 13), -4096);
    assert_eq!(sign_extend(0x10_0000, 21), -1_048_576);
    assert_eq!(sign_extend(0xFFFF_FFFF, 32), -1);
    assert_eq!(sign_extend(0xABC_0005, 12), 5);
}
