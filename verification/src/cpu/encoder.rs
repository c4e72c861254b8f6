//! Instruction words built from their fields, and the proof that decoding
//! such a word gives the fields back.

use vstd::prelude::*;
use vstd::arithmetic::power2::lemma2_to64;
use crate::cpu::decoder::{decode_spec, lemma_decode_wf};
use crate::cpu::defs::{DecodedInstr, FORMAT, MNEMONIC, OPCODE, REG};
use crate::cpu::fields::{
    bits, funct3_field, imm_b, imm_i, imm_j, imm_s, imm_u, immediate, lemma_sign_extend,
    opcode_field, rd_field, rs1_field, rs2_field, signed,
};

verus! {

/// The low 32 bits of `n` in two's complement.
pub open spec fn pattern(n: int) -> u32 {
    (n % 0x1_0000_0000) as u32
}

/// The word of an instruction: the code of the opcode of `mnemonic` in
/// bits 0 to 6, its `funct3` and the numbers of the registers in the
/// fields that its format has, and the bits of `imm` in the places where
/// the format keeps its immediate. A register that the format has no field
/// for is left out.
pub open spec fn encode(mnemonic: MNEMONIC, rd: REG, rs1: REG, rs2: REG, imm: int) -> u32 {
    let code = mnemonic.opcode().code();
    let funct3 = match mnemonic.funct3() {
        Some(f) => f,
        None => 0,
    };
    let rd = rd.index() as u32;
    let rs1 = rs1.index() as u32;
    let rs2 = rs2.index() as u32;
    let p = pattern(imm);
    match mnemonic.format() {
        // no known mnemonic has this format
        FORMAT::R => code,
        FORMAT::I => bits(p, 11, 0) << 20 | rs1 << 15 | funct3 << 12 | rd << 7 | code,
        FORMAT::S => bits(p, 11, 5) << 25 | rs2 << 20 | rs1 << 15 | funct3 << 12 | bits(p, 4, 0)
            << 7 | code,
        FORMAT::B => bits(p, 12, 12) << 31 | bits(p, 10, 5) << 25 | rs2 << 20 | rs1 << 15 | funct3
            << 12 | bits(p, 4, 1) << 8 | bits(p, 11, 11) << 7 | code,
        FORMAT::U => bits(p, 31, 12) << 12 | rd << 7 | code,
        FORMAT::J => bits(p, 20, 20) << 31 | bits(p, 10, 1) << 21 | bits(p, 11, 11) << 20 | bits(
            p,
            19,
            12,
        ) << 12 | rd << 7 | code,
    }
}

/// The 64 bits of `n` in two's complement.
pub open spec fn wide_pattern(n: int) -> u64 {
    (n % 0x1_0000_0000_0000_0000) as u64
}

/// The instruction `mnemonic` with these operands, as [`decode_spec`]
/// presents it: with the registers that its format names and no others,
/// and with `imm` as a pattern of 64 bits.
pub open spec fn instruction(
    mnemonic: MNEMONIC,
    rd: REG,
    rs1: REG,
    rs2: REG,
    imm: int,
) -> DecodedInstr {
    let format = mnemonic.format();
    DecodedInstr {
        format,
        mnemonic,
        opcode: mnemonic.opcode(),
        funct3: mnemonic.funct3(),
        funct7: None,
        rd: if format.has_rd() {
            Some(rd)
        } else {
            None
        },
        rs1: if format.has_rs1() {
            Some(rs1)
        } else {
            None
        },
        rs2: if format.has_rs2() {
            Some(rs2)
        } else {
            None
        },
        imm: Some(wide_pattern(imm)),
    }
}

/// Whether the bits that `word` holds in the places of the immediate of
/// `format` are the low bits of `imm`.
spec fn carries(format: FORMAT, word: u32, imm: int) -> bool {
    let p = pattern(imm);
    match format {
        FORMAT::R => true,
        FORMAT::I => imm_i(word) == p % 0x1000,
        FORMAT::S => imm_s(word) == p % 0x1000,
        FORMAT::B => imm_b(word) == p % 0x2000,
        FORMAT::U => imm_u(word) == p,
        FORMAT::J => imm_j(word) == p % 0x20_0000,
    }
}

/// Whether the fields that `format` has hold in `word` what [`encode`]
/// puts there.
spec fn carries_fields(mnemonic: MNEMONIC, rd: REG, rs1: REG, rs2: REG, word: u32) -> bool {
    let format = mnemonic.format();
    &&& opcode_field(word) == mnemonic.opcode().code()
    &&& mnemonic.funct3() matches Some(f) ==> funct3_field(word) == f
    &&& format.has_rd() ==> rd_field(word) == rd.index()
    &&& format.has_rs1() ==> rs1_field(word) == rs1.index()
    &&& format.has_rs2() ==> rs2_field(word) == rs2.index()
}

/// The word of an instruction holds each field in its place.
proof fn lemma_encode_fields(mnemonic: MNEMONIC, rd: REG, rs1: REG, rs2: REG, imm: int)
    requires
        mnemonic.format().holds_imm(imm),
    ensures
        carries_fields(mnemonic, rd, rs1, rs2, encode(mnemonic, rd, rs1, rs2, imm)),
        carries(mnemonic.format(), encode(mnemonic, rd, rs1, rs2, imm), imm),
{
    let code = mnemonic.opcode().code();
    let funct3 = match mnemonic.funct3() {
        Some(f) => f,
        None => 0,
    };
    let rdn = rd.index() as u32;
    let rs1n = rs1.index() as u32;
    let rs2n = rs2.index() as u32;
    let p = pattern(imm);
    let word = encode(mnemonic, rd, rs1, rs2, imm);
    match mnemonic.format() {
        FORMAT::R => {},
        FORMAT::I => {
            assert(opcode_field(word) == code && funct3_field(word) == funct3 && rd_field(word)
                == rdn && rs1_field(word) == rs1n && imm_i(word) == p % 0x1000) by (bit_vector)
                requires
                    code < 0x80,
                    funct3 < 8,
                    rdn < 32,
                    rs1n < 32,
                    word == bits(p, 11, 0) << 20 | rs1n << 15 | funct3 << 12 | rdn << 7 | code,
            ;
        },
        FORMAT::S => {
            assert(opcode_field(word) == code && funct3_field(word) == funct3 && rs1_field(word)
                == rs1n && rs2_field(word) == rs2n && imm_s(word) == p % 0x1000) by (bit_vector)
                requires
                    code < 0x80,
                    funct3 < 8,
                    rs1n < 32,
                    rs2n < 32,
                    word == bits(p, 11, 5) << 25 | rs2n << 20 | rs1n << 15 | funct3 << 12 | bits(
                        p,
                        4,
                        0,
                    ) << 7 | code,
            ;
        },
        FORMAT::B => {
            assert(opcode_field(word) == code && funct3_field(word) == funct3 && rs1_field(word)
                == rs1n && rs2_field(word) == rs2n && imm_b(word) == p % 0x2000) by (bit_vector)
                requires
                    code < 0x80,
                    funct3 < 8,
                    rs1n < 32,
                    rs2n < 32,
                    p % 2 == 0,
                    word == bits(p, 12, 12) << 31 | bits(p, 10, 5) << 25 | rs2n << 20 | rs1n << 15
                        | funct3 << 12 | bits(p, 4, 1) << 8 | bits(p, 11, 11) << 7 | code,
            ;
        },
        FORMAT::U => {
            assert(opcode_field(word) == code && rd_field(word) == rdn && imm_u(word) == p)
                by (bit_vector)
                requires
                    code < 0x80,
                    rdn < 32,
                    p % 0x1000 == 0,
                    word == bits(p, 31, 12) << 12 | rdn << 7 | code,
            ;
        },
        FORMAT::J => {
            assert(opcode_field(word) == code && rd_field(word) == rdn && imm_j(word) == p
                % 0x20_0000) by (bit_vector)
                requires
                    code < 0x80,
                    rdn < 32,
                    p % 2 == 0,
                    word == bits(p, 20, 20) << 31 | bits(p, 10, 1) << 21 | bits(p, 11, 11) << 20
                        | bits(p, 19, 12) << 12 | rdn << 7 | code,
            ;
        },
    }
}

/// A word that holds the low bits of `imm` in the places of the immediate
/// has `imm` as its immediate.
proof fn lemma_immediate_carried(format: FORMAT, word: u32, imm: int)
    requires
        format.holds_imm(imm),
        carries(format, word, imm),
    ensures
        immediate(format, word) == Some(wide_pattern(imm)),
        signed(wide_pattern(imm)) == imm,
{
    lemma2_to64();
    match format {
        FORMAT::R => {},
        FORMAT::I => lemma_sign_extend(imm_i(word), 12),
        FORMAT::S => lemma_sign_extend(imm_s(word), 12),
        FORMAT::B => lemma_sign_extend(imm_b(word), 13),
        FORMAT::U => lemma_sign_extend(imm_u(word), 32),
        FORMAT::J => lemma_sign_extend(imm_j(word), 21),
    }
}

/// Decoding the word of an instruction gives the instruction back: its
/// format, mnemonic and opcode, its `funct3`, the registers that its
/// format names, and an immediate that stands for the number that was
/// encoded.
pub proof fn lemma_decode_encode(mnemonic: MNEMONIC, rd: REG, rs1: REG, rs2: REG, imm: int)
    requires
        mnemonic.format().holds_imm(imm),
    ensures
        decode_spec(encode(mnemonic, rd, rs1, rs2, imm)) == Some(
            instruction(mnemonic, rd, rs1, rs2, imm),
        ),
        instruction(mnemonic, rd, rs1, rs2, imm).imm_value() == Some(imm),
        instruction(mnemonic, rd, rs1, rs2, imm).wf(),
{
    let word = encode(mnemonic, rd, rs1, rs2, imm);
    lemma_encode_fields(mnemonic, rd, rs1, rs2, imm);
    lemma_immediate_carried(mnemonic.format(), word, imm);
    OPCODE::lemma_code_round_trip(mnemonic.opcode());
    MNEMONIC::lemma_select(mnemonic, mnemonic.opcode(), funct3_field(word));
    MNEMONIC::lemma_funct3(mnemonic);
    REG::lemma_index_round_trip(rd);
    REG::lemma_index_round_trip(rs1);
    REG::lemma_index_round_trip(rs2);
    lemma_decode_wf(word);
}

} // verus!
