use riscv_core::cpu::decoder::decode;
use riscv_core::cpu::defs::{DecodedInstr, FORMAT, MNEMONIC, OPCODE, REG};

/// The word of an I-format instruction.
fn word_i(imm: i32, rs1: u32, funct3: u32, rd: u32, opcode: OPCODE) -> u32 {
    ((imm as u32) & 0xfff) << 20 | rs1 << 15 | funct3 << 12 | rd << 7 | opcode.to_u32()
}

/// The word of an S-format instruction.
fn word_s(imm: i32, rs2: u32, rs1: u32, funct3: u32) -> u32 {
    let imm = imm as u32;
    ((imm >> 5) & 0x7f) << 25
        | rs2 << 20
        | rs1 << 15
        | funct3 << 12
        | (imm & 0x1f) << 7
        | OPCODE::STORE.to_u32()
}

/// The word of a B-format instruction.
fn word_b(imm: i32, rs2: u32, rs1: u32, funct3: u32) -> u32 {
    let imm = imm as u32;
    ((imm >> 12) & 1) << 31
        | ((imm >> 5) & 0x3f) << 25
        | rs2 << 20
        | rs1 << 15
        | funct3 << 12
        | ((imm >> 1) & 0xf) << 8
        | ((imm >> 11) & 1) << 7
        | OPCODE::BRANCH.to_u32()
}

/// The word of a U-format instruction.
fn word_u(imm: i64, rd: u32, opcode: OPCODE) -> u32 {
    ((imm as u32) & 0xffff_f000) | rd << 7 | opcode.to_u32()
}

/// The word of a J-format instruction.
fn word_j(imm: i32, rd: u32) -> u32 {
    let imm = imm as u32;
    ((imm >> 20) & 1) << 31
        | ((imm >> 1) & 0x3ff) << 21
        | ((imm >> 11) & 1) << 20
        | ((imm >> 12) & 0xff) << 12
        | rd << 7
        | OPCODE::JAL.to_u32()
}

#[test]
fn lui_example() {
    let word = 0x12345 << 12 | 5 << 7 | OPCODE::LUI.to_u32();
    assert_eq!(
        decode(word),
        Some(DecodedInstr {
            format: FORMAT::U,
            mnemonic: MNEMONIC::LUI,
            opcode: OPCODE::LUI,
            funct3: None,
            funct7: None,
            rd: Some(REG::x5),
            rs1: None,
            rs2: None,
            imm: Some(0x1234_5000),
        })
    );
}

#[test]
fn jalr_with_funct3_two_is_no_instruction() {
    for rest in [0u32, 0xffff_ffff, 0x1234_5678, 0x8000_0000, 0x000f_8f80] {
        let word = (rest & !0x707f) | 0b010 << 12 | OPCODE::JALR.to_u32();
        assert_eq!(decode(word), None);
    }
}

#[test]
fn jalr_decodes_only_with_funct3_zero() {
    for funct3 in 0..8u32 {
        let word = word_i(-4, 1, funct3, 0, OPCODE::JALR);
        let decoded = decode(word);
        if funct3 == 0 {
            assert_eq!(
                decoded,
                Some(DecodedInstr {
                    format: FORMAT::I,
                    mnemonic: MNEMONIC::JALR,
                    opcode: OPCODE::JALR,
                    funct3: Some(0),
                    funct7: None,
                    rd: Some(REG::x0),
                    rs1: Some(REG::x1),
                    rs2: None,
                    imm: Some(-4i64 as u64),
                })
            );
        } else {
            assert_eq!(decoded, None);
        }
    }
}

#[test]
fn unknown_opcodes_are_no_instruction() {
    assert_eq!(decode(0), None);
    assert_eq!(decode(u32::MAX), None);
    // add x1, x2, x3: the register-register operations are not known
    assert_eq!(decode(0x0031_00b3), None);
    // ecall
    assert_eq!(decode(0x0000_0073), None);
    // a 16-bit encoding in the low half
    assert_eq!(decode(0x0000_4501), None);
    for word in 0..0x80u32 {
        assert_eq!(decode(word).is_some(), OPCODE::from_u32(word).is_some());
    }
}

#[test]
fn i_immediate_is_sign_extended() {
    // addi x1, x2, -1
    let decoded = decode(0xfff1_0093).unwrap();
    assert_eq!(decoded.mnemonic, MNEMONIC::ADDI);
    assert_eq!(decoded.rd, Some(REG::x1));
    assert_eq!(decoded.rs1, Some(REG::x2));
    assert_eq!(decoded.imm, Some(0xffff_ffff_ffff_ffff));

    // addi x1, x2, 2047 and addi x1, x2, -2048
    assert_eq!(decode(0x7ff1_0093).unwrap().imm, Some(2047));
    assert_eq!(decode(0x8001_0093).unwrap().imm, Some(0xffff_ffff_ffff_f800));
    assert_eq!(decode(0x0001_0093).unwrap().imm, Some(0));

    // lw x10, -8(x2)
    let decoded = decode(0xff81_2503).unwrap();
    assert_eq!(decoded.mnemonic, MNEMONIC::LW);
    assert_eq!(decoded.rd, Some(REG::x10));
    assert_eq!(decoded.rs1, Some(REG::x2));
    assert_eq!(decoded.imm, Some(-8i64 as u64));
}

#[test]
fn s_immediate_is_sign_extended() {
    // sw x10, -8(x2)
    let decoded = decode(0xfea1_2c23).unwrap();
    assert_eq!(
        decoded,
        DecodedInstr {
            format: FORMAT::S,
            mnemonic: MNEMONIC::SW,
            opcode: OPCODE::STORE,
            funct3: Some(0b010),
            funct7: None,
            rd: None,
            rs1: Some(REG::x2),
            rs2: Some(REG::x10),
            imm: Some(-8i64 as u64),
        }
    );
    // sb x1, 2047(x0)
    assert_eq!(decode(word_s(2047, 1, 0, 0)).unwrap().imm, Some(2047));
    assert_eq!(decode(word_s(-2048, 1, 0, 0)).unwrap().imm, Some(-2048i64 as u64));
    assert_eq!(decode(word_s(0x555, 1, 0, 1)).unwrap().imm, Some(0x555));
}

#[test]
fn b_immediate_is_reassembled_and_sign_extended() {
    // beq x1, x2, -4
    let decoded = decode(0xfe20_8ee3).unwrap();
    assert_eq!(
        decoded,
        DecodedInstr {
            format: FORMAT::B,
            mnemonic: MNEMONIC::BEQ,
            opcode: OPCODE::BRANCH,
            funct3: Some(0b000),
            funct7: None,
            rd: None,
            rs1: Some(REG::x1),
            rs2: Some(REG::x2),
            imm: Some(-4i64 as u64),
        }
    );
    // bne x1, x2, 8
    assert_eq!(decode(0x0020_9463).unwrap().imm, Some(8));
    // each bit of the immediate alone
    for bit in 1..12 {
        assert_eq!(decode(word_b(1 << bit, 3, 4, 0b100)).unwrap().imm, Some(1 << bit));
    }
    assert_eq!(decode(word_b(-4096, 3, 4, 0b100)).unwrap().imm, Some(-4096i64 as u64));
    assert_eq!(decode(word_b(4094, 3, 4, 0b100)).unwrap().imm, Some(4094));
}

#[test]
fn u_immediate_is_sign_extended_from_32_bits() {
    // lui x5, 0x80000
    let decoded = decode(0x8000_02b7).unwrap();
    assert_eq!(decoded.mnemonic, MNEMONIC::LUI);
    assert_eq!(decoded.rd, Some(REG::x5));
    assert_eq!(decoded.imm, Some(0xffff_ffff_8000_0000));
    // auipc x1, 0xfffff
    let decoded = decode(0xffff_f097).unwrap();
    assert_eq!(decoded.mnemonic, MNEMONIC::AUIPC);
    assert_eq!(decoded.rd, Some(REG::x1));
    assert_eq!(decoded.imm, Some(0xffff_ffff_ffff_f000));
    // lui x5, 0x7ffff
    assert_eq!(decode(0x7fff_f2b7).unwrap().imm, Some(0x7fff_f000));
    assert_eq!(decode(word_u(-0x8000_0000, 31, OPCODE::LUI)).unwrap().imm, Some(-0x8000_0000i64 as u64));
    assert_eq!(decode(word_u(0x1000, 31, OPCODE::AUIPC)).unwrap().imm, Some(0x1000));
}

#[test]
fn j_immediate_is_reassembled_and_sign_extended() {
    // jal x1, -4
    let decoded = decode(0xffdf_f0ef).unwrap();
    assert_eq!(
        decoded,
        DecodedInstr {
            format: FORMAT::J,
            mnemonic: MNEMONIC::JAL,
            opcode: OPCODE::JAL,
            funct3: None,
            funct7: None,
            rd: Some(REG::x1),
            rs1: None,
            rs2: None,
            imm: Some(-4i64 as u64),
        }
    );
    // jal x0, 2048
    assert_eq!(decode(0x0010_006f).unwrap().imm, Some(2048));
    // each bit of the immediate alone
    for bit in 1..20 {
        assert_eq!(decode(word_j(1 << bit, 7)).unwrap().imm, Some(1 << bit));
    }
    assert_eq!(decode(word_j(-(1 << 20), 7)).unwrap().imm, Some((-(1i64 << 20)) as u64));
    assert_eq!(decode(word_j((1 << 20) - 2, 7)).unwrap().imm, Some((1 << 20) - 2));
}

#[test]
fn round_trip_of_every_mnemonic() {
    let by_funct3: [(OPCODE, u32, MNEMONIC); 21] = [
        (OPCODE::JALR, 0b000, MNEMONIC::JALR),
        (OPCODE::LOAD, 0b000, MNEMONIC::LB),
        (OPCODE::LOAD, 0b001, MNEMONIC::LH),
        (OPCODE::LOAD, 0b010, MNEMONIC::LW),
        (OPCODE::LOAD, 0b100, MNEMONIC::LBU),
        (OPCODE::LOAD, 0b101, MNEMONIC::LHU),
        (OPCODE::OP_IMM, 0b000, MNEMONIC::ADDI),
        (OPCODE::OP_IMM, 0b010, MNEMONIC::SLTI),
        (OPCODE::OP_IMM, 0b011, MNEMONIC::SLTIU),
        (OPCODE::OP_IMM, 0b100, MNEMONIC::XORI),
        (OPCODE::OP_IMM, 0b110, MNEMONIC::ORI),
        (OPCODE::OP_IMM, 0b111, MNEMONIC::ANDI),
        (OPCODE::BRANCH, 0b000, MNEMONIC::BEQ),
        (OPCODE::BRANCH, 0b001, MNEMONIC::BNE),
        (OPCODE::BRANCH, 0b100, MNEMONIC::BLT),
        (OPCODE::BRANCH, 0b101, MNEMONIC::BGE),
        (OPCODE::BRANCH, 0b110, MNEMONIC::BLTU),
        (OPCODE::BRANCH, 0b111, MNEMONIC::BGEU),
        (OPCODE::STORE, 0b000, MNEMONIC::SB),
        (OPCODE::STORE, 0b001, MNEMONIC::SH),
        (OPCODE::STORE, 0b010, MNEMONIC::SW),
    ];
    let imms: [i32; 9] = [0, 2, -2, 1364, -1366, 2046, -2048, 682, -684];
    for (opcode, funct3, mnemonic) in by_funct3.iter() {
        for (k, imm) in imms.iter().enumerate() {
            let a = (3 * k as u32 + 1) % 32;
            let b = (7 * k as u32 + 30) % 32;
            let (word, format, rd, rs1, rs2) = match opcode {
                OPCODE::BRANCH => (word_b(*imm, b, a, *funct3), FORMAT::B, None, Some(a), Some(b)),
                OPCODE::STORE => (word_s(*imm, b, a, *funct3), FORMAT::S, None, Some(a), Some(b)),
                _ => (word_i(*imm, a, *funct3, b, *opcode), FORMAT::I, Some(b), Some(a), None),
            };
            assert_eq!(
                decode(word),
                Some(DecodedInstr {
                    format,
                    mnemonic: *mnemonic,
                    opcode: *opcode,
                    funct3: Some(*funct3),
                    funct7: None,
                    rd: rd.and_then(REG::from_u32),
                    rs1: rs1.and_then(REG::from_u32),
                    rs2: rs2.and_then(REG::from_u32),
                    imm: Some(*imm as i64 as u64),
                })
            );
        }
    }
    for imm in [0i64, 0x1000, -0x1000, 0x7fff_f000, -0x8000_0000, 0x1234_5000] {
        for (opcode, mnemonic) in [(OPCODE::LUI, MNEMONIC::LUI), (OPCODE::AUIPC, MNEMONIC::AUIPC)] {
            let decoded = decode(word_u(imm, 9, opcode)).unwrap();
            assert_eq!(decoded.format, FORMAT::U);
            assert_eq!(decoded.mnemonic, mnemonic);
            assert_eq!(decoded.opcode, opcode);
            assert_eq!(decoded.rd, Some(REG::x9));
            assert_eq!(decoded.imm, Some(imm as u64));
        }
    }
    for imm in [0i32, 2, -2, 0xf_fffe, -0x10_0000, 0x5_5554, -0x5_5556] {
        let decoded = decode(word_j(imm, 9)).unwrap();
        assert_eq!(decoded.format, FORMAT::J);
        assert_eq!(decoded.mnemonic, MNEMONIC::JAL);
        assert_eq!(decoded.opcode, OPCODE::JAL);
        assert_eq!(decoded.rd, Some(REG::x9));
        assert_eq!(decoded.imm, Some(imm as i64 as u64));
    }
}

#[test]
fn funct3_gaps_under_each_opcode() {
    for funct3 in 0..8u32 {
        let branch = decode(word_b(16, 1, 2, funct3));
        assert_eq!(branch.is_none(), funct3 == 0b010 || funct3 == 0b011);
        if let Some(d) = branch {
            assert!(matches!(
                d.mnemonic,
                MNEMONIC::BEQ | MNEMONIC::BNE | MNEMONIC::BLT | MNEMONIC::BGE | MNEMONIC::BLTU | MNEMONIC::BGEU
            ));
        }
        let load = decode(word_i(16, 1, funct3, 2, OPCODE::LOAD));
        assert_eq!(load.is_none(), funct3 == 0b011 || funct3 == 0b110 || funct3 == 0b111);
        let store = decode(word_s(16, 1, 2, funct3));
        assert_eq!(store.is_none(), funct3 > 0b010);
        let op_imm = decode(word_i(16, 1, funct3, 2, OPCODE::OP_IMM));
        assert_eq!(op_imm.is_none(), funct3 == 0b001 || funct3 == 0b101);
        let jalr = decode(word_i(16, 1, funct3, 2, OPCODE::JALR));
        assert_eq!(jalr.is_none(), funct3 != 0);
        // bits 12 to 14 belong to the immediate of these three
        for opcode in [OPCODE::LUI, OPCODE::AUIPC, OPCODE::JAL] {
            assert!(decode(funct3 << 12 | 3 << 7 | opcode.to_u32()).is_some());
        }
    }
}

#[test]
fn fields_present_go_by_the_format() {
    let mut seen = [0u32; 5];
    let mut word: u32 = 0x9e37_79b9;
    for _ in 0..200_000 {
        word = word.wrapping_mul(1_664_525).wrapping_add(1_013_904_223);
        if let Some(d) = decode(word) {
            assert_eq!(d.funct7, None);
            assert!(d.imm.is_some());
            match d.format {
                FORMAT::U | FORMAT::J => {
                    assert!(d.rd.is_some());
                    assert_eq!(d.rs1, None);
                    assert_eq!(d.rs2, None);
                    assert_eq!(d.funct3, None);
                    seen[if d.format == FORMAT::U { 0 } else { 1 }] += 1;
                }
                FORMAT::I => {
                    assert!(d.rd.is_some() && d.rs1.is_some() && d.funct3.is_some());
                    assert_eq!(d.rs2, None);
                    seen[2] += 1;
                }
                FORMAT::B | FORMAT::S => {
                    assert_eq!(d.rd, None);
                    assert!(d.rs1.is_some() && d.rs2.is_some() && d.funct3.is_some());
                    seen[if d.format == FORMAT::B { 3 } else { 4 }] += 1;
                }
                FORMAT::R => panic!("no instruction of this format is known"),
            }
        }
    }
    assert!(seen.iter().all(|n| *n > 0));
}

#[test]
fn decode_is_a_function_of_the_word() {
    for word in [0x0000_0013u32, 0xfe20_8ee3, 0xffdf_f0ef, 0x8000_02b7, 0x0000_2067] {
        assert_eq!(decode(word), decode(word));
    }
}
