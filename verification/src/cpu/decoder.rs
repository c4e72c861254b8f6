//! Decoding of 32-bit instruction words.

use vstd::prelude::*;
use crate::cpu::defs::{DecodedInstr, FORMAT, MNEMONIC, OPCODE, REG};
use crate::cpu::fields::{
    funct3_field, funct7_field, imm_b, imm_i, imm_j, imm_s, imm_u, immediate,
    lemma_field_bounds, lemma_immediate_holds, opcode_field, rd_field, rs1_field, rs2_field,
    sign_extend,
};

verus! {

/// What `word` says as an instruction named `mnemonic` under `opcode`: the
/// fields that the format of the opcode has, each read from its place in
/// the word, and no others.
pub open spec fn read_fields(opcode: OPCODE, mnemonic: MNEMONIC, word: u32) -> DecodedInstr {
    let format = opcode.format();
    DecodedInstr {
        format,
        mnemonic,
        opcode,
        funct3: if format.has_funct3() {
            Some(funct3_field(word))
        } else {
            None
        },
        funct7: if format.has_funct7() {
            Some(funct7_field(word))
        } else {
            None
        },
        rd: if format.has_rd() {
            REG::from_index(rd_field(word) as int)
        } else {
            None
        },
        rs1: if format.has_rs1() {
            REG::from_index(rs1_field(word) as int)
        } else {
            None
        },
        rs2: if format.has_rs2() {
            REG::from_index(rs2_field(word) as int)
        } else {
            None
        },
        imm: immediate(format, word),
    }
}

/// The instruction that `word` stands for. There is none where bits 0 to 6
/// are the code of no known opcode, or where the opcode and bits 12 to 14
/// select no instruction.
pub open spec fn decode_spec(word: u32) -> Option<DecodedInstr> {
    match OPCODE::from_code(opcode_field(word)) {
        None => None,
        Some(opcode) => match MNEMONIC::select(opcode, funct3_field(word)) {
            None => None,
            Some(mnemonic) => Some(read_fields(opcode, mnemonic, word)),
        },
    }
}

/// The shifts and masks of [`decode`] read the fields of the word.
proof fn lemma_field_masks(instr: u32)
    by (bit_vector)
    ensures
        instr & 0b111_1111 == opcode_field(instr),
        (instr >> 7) & 0b1_1111 == rd_field(instr),
        (instr >> 12) & 0b111 == funct3_field(instr),
        (instr >> 15) & 0b1_1111 == rs1_field(instr),
        (instr >> 20) & 0b1_1111 == rs2_field(instr),
{
}

/// Widens the low `width` bits of `value` to 64 bits, keeping the sign.
fn extend(value: u32, width: u32) -> (wide: u64)
    requires
        0 < width <= 32,
    ensures
        wide == sign_extend(value, width),
{
    if (value >> (width - 1)) & 1 == 1 {
        (value as u64) | (0xffff_ffff_ffff_ffffu64 << width)
    } else {
        value as u64
    }
}

/// The immediate of an I-format word.
fn immediate_i(instr: u32) -> (imm: u64)
    ensures
        Some(imm) == immediate(FORMAT::I, instr),
{
    let raw: u32 = instr >> 20;
    assert(instr >> 20 == imm_i(instr)) by (bit_vector);
    extend(raw, 12)
}

/// The immediate of an S-format word.
fn immediate_s(instr: u32) -> (imm: u64)
    ensures
        Some(imm) == immediate(FORMAT::S, instr),
{
    let raw: u32 = ((instr >> 7) & 0b1_1111)  // imm[4:0]
     | ((instr >> 20) & 0b1111_1110_0000);  // imm[11:5]
    assert(((instr >> 7) & 0b1_1111) | ((instr >> 20) & 0b1111_1110_0000) == imm_s(instr))
        by (bit_vector);
    extend(raw, 12)
}

/// The immediate of a B-format word.
fn immediate_b(instr: u32) -> (imm: u64)
    ensures
        Some(imm) == immediate(FORMAT::B, instr),
{
    let raw: u32 = ((instr >> 7) & 0b1_1110)  // imm[4:1]
     | ((instr >> 20) & 0b111_1110_0000)  // imm[10:5]
     | ((instr << 4) & 0b1000_0000_0000)  // imm[11]
     | ((instr >> 19) & 0b1_0000_0000_0000);  // imm[12]
    assert(((instr >> 7) & 0b1_1110) | ((instr >> 20) & 0b111_1110_0000) | ((instr << 4)
        & 0b1000_0000_0000) | ((instr >> 19) & 0b1_0000_0000_0000) == imm_b(instr))
        by (bit_vector);
    extend(raw, 13)
}

/// The immediate of a U-format word.
fn immediate_u(instr: u32) -> (imm: u64)
    ensures
        Some(imm) == immediate(FORMAT::U, instr),
{
    let raw: u32 = (instr >> 12) << 12;
    assert((instr >> 12) << 12 == imm_u(instr)) by (bit_vector);
    extend(raw, 32)
}

/// The immediate of a J-format word.
fn immediate_j(instr: u32) -> (imm: u64)
    ensures
        Some(imm) == immediate(FORMAT::J, instr),
{
    let raw: u32 = ((instr >> 20) & 0b111_1111_1110)  // imm[10:1]
     | ((instr >> 9) & 0b1000_0000_0000)  // imm[11]
     | (instr & 0b1111_1111_0000_0000_0000)  // imm[19:12]
     | ((instr >> 11) & 0b1_0000_0000_0000_0000_0000);  // imm[20]
    assert(((instr >> 20) & 0b111_1111_1110) | ((instr >> 9) & 0b1000_0000_0000) | (instr
        & 0b1111_1111_0000_0000_0000) | ((instr >> 11) & 0b1_0000_0000_0000_0000_0000) == imm_j(
        instr,
    )) by (bit_vector);
    extend(raw, 21)
}

/// The instruction that `opcode` and the three bits `funct3` select.
fn select(opcode: OPCODE, funct3: u32) -> (found: Option<MNEMONIC>)
    ensures
        found == MNEMONIC::select(opcode, funct3),
{
    let found = match opcode {
        OPCODE::LUI => Some(MNEMONIC::LUI),
        OPCODE::AUIPC => Some(MNEMONIC::AUIPC),
        OPCODE::JAL => Some(MNEMONIC::JAL),
        OPCODE::JALR => match funct3 {
            0b000 => Some(MNEMONIC::JALR),
            _ => None,
        },
        OPCODE::BRANCH => match funct3 {
            0b000 => Some(MNEMONIC::BEQ),
            0b001 => Some(MNEMONIC::BNE),
            0b100 => Some(MNEMONIC::BLT),
            0b101 => Some(MNEMONIC::BGE),
            0b110 => Some(MNEMONIC::BLTU),
            0b111 => Some(MNEMONIC::BGEU),
            _ => None,
        },
        OPCODE::LOAD => match funct3 {
            0b000 => Some(MNEMONIC::LB),
            0b001 => Some(MNEMONIC::LH),
            0b010 => Some(MNEMONIC::LW),
            0b100 => Some(MNEMONIC::LBU),
            0b101 => Some(MNEMONIC::LHU),
            _ => None,
        },
        OPCODE::STORE => match funct3 {
            0b000 => Some(MNEMONIC::SB),
            0b001 => Some(MNEMONIC::SH),
            0b010 => Some(MNEMONIC::SW),
            _ => None,
        },
        OPCODE::OP_IMM => match funct3 {
            0b000 => Some(MNEMONIC::ADDI),
            0b010 => Some(MNEMONIC::SLTI),
            0b011 => Some(MNEMONIC::SLTIU),
            0b100 => Some(MNEMONIC::XORI),
            0b110 => Some(MNEMONIC::ORI),
            0b111 => Some(MNEMONIC::ANDI),
            _ => None,
        },
    };
    proof {
        if let Some(m) = found {
            MNEMONIC::lemma_select(m, opcode, funct3);
        }
    }
    found
}

/// Decodes an instruction word. The result is absent where the word has an
/// opcode that is not known, or a `funct3` that names no instruction under
/// its opcode.
pub fn decode(instr: u32) -> (decoded: Option<DecodedInstr>)
    ensures
        decoded == decode_spec(instr),
        decoded is None <==> match OPCODE::from_code(opcode_field(instr)) {
            Some(opcode) => opcode.leaves_out(funct3_field(instr)),
            None => true,
        },
        decoded matches Some(d) ==> d.wf(),
{
    proof {
        lemma_field_masks(instr);
        lemma_decode_wf(instr);
        lemma_decode_none(instr);
    }
    let opcode = match OPCODE::from_u32(instr & 0b111_1111) {
        Some(opcode) => opcode,
        None => {
            return None;
        },
    };
    let funct3: u32 = (instr >> 12) & 0b111;
    let mnemonic = match select(opcode, funct3) {
        Some(mnemonic) => mnemonic,
        None => {
            return None;
        },
    };
    let rd = REG::from_u32((instr >> 7) & 0b1_1111);
    let rs1 = REG::from_u32((instr >> 15) & 0b1_1111);
    let rs2 = REG::from_u32((instr >> 20) & 0b1_1111);
    Some(
        match opcode {
            OPCODE::LUI | OPCODE::AUIPC => DecodedInstr {
                format: FORMAT::U,
                mnemonic,
                opcode,
                funct3: None,
                funct7: None,
                rd,
                rs1: None,
                rs2: None,
                imm: Some(immediate_u(instr)),
            },
            OPCODE::JAL => DecodedInstr {
                format: FORMAT::J,
                mnemonic,
                opcode,
                funct3: None,
                funct7: None,
                rd,
                rs1: None,
                rs2: None,
                imm: Some(immediate_j(instr)),
            },
            OPCODE::JALR | OPCODE::LOAD | OPCODE::OP_IMM => DecodedInstr {
                format: FORMAT::I,
                mnemonic,
                opcode,
                funct3: Some(funct3),
                funct7: None,
                rd,
                rs1,
                rs2: None,
                imm: Some(immediate_i(instr)),
            },
            OPCODE::BRANCH => DecodedInstr {
                format: FORMAT::B,
                mnemonic,
                opcode,
                funct3: Some(funct3),
                funct7: None,
                rd: None,
                rs1,
                rs2,
                imm: Some(immediate_b(instr)),
            },
            OPCODE::STORE => DecodedInstr {
                format: FORMAT::S,
                mnemonic,
                opcode,
                funct3: Some(funct3),
                funct7: None,
                rd: None,
                rs1,
                rs2,
                imm: Some(immediate_s(instr)),
            },
        },
    )
}

/// A word is an instruction exactly where some mnemonic is listed under
/// its opcode with its `funct3`, and it then decodes to that mnemonic.
pub proof fn lemma_decode_listed(word: u32)
    ensures
        decode_spec(word) is Some <==> exists|m: MNEMONIC|
            m.opcode().code() == opcode_field(word) && #[trigger] m.is_selected_by(
                m.opcode(),
                funct3_field(word),
            ),
        decode_spec(word) matches Some(d) ==> {
            &&& d.opcode.code() == opcode_field(word)
            &&& d.mnemonic.is_selected_by(d.opcode, funct3_field(word))
        },
{
    assert forall|m: MNEMONIC|
        m.opcode().code() == opcode_field(word) && #[trigger] m.is_selected_by(
            m.opcode(),
            funct3_field(word),
        ) implies decode_spec(word) is Some by {
        OPCODE::lemma_code_round_trip(m.opcode());
        MNEMONIC::lemma_select(m, m.opcode(), funct3_field(word));
    }
}

/// Every decoded instruction is well formed.
pub proof fn lemma_decode_wf(word: u32)
    ensures
        decode_spec(word) matches Some(d) ==> d.wf(),
{
    if let Some(d) = decode_spec(word) {
        lemma_field_bounds(word);
        lemma_immediate_holds(d.format, word);
        REG::lemma_from_index(rd_field(word) as int);
        REG::lemma_from_index(rs1_field(word) as int);
        REG::lemma_from_index(rs2_field(word) as int);
    }
}

/// A word is no instruction exactly where its opcode is not known, or
/// leaves out the value in bits 12 to 14.
pub proof fn lemma_decode_none(word: u32)
    ensures
        decode_spec(word) is None <==> match OPCODE::from_code(opcode_field(word)) {
            Some(opcode) => opcode.leaves_out(funct3_field(word)),
            None => true,
        },
{
    lemma_field_bounds(word);
    if let Some(opcode) = OPCODE::from_code(opcode_field(word)) {
        MNEMONIC::lemma_select_gaps(opcode, funct3_field(word));
    }
}

/// Of a U-format or J-format instruction only the destination register and
/// the immediate are present; a B-format or S-format instruction has no
/// destination register.
pub proof fn lemma_decode_absent_fields(word: u32)
    ensures
        decode_spec(word) matches Some(d) ==> {
            &&& d.format is U || d.format is J ==> d.rs1 is None && d.rs2 is None && d.funct3
                is None && d.funct7 is None
            &&& d.format is B || d.format is S ==> d.rd is None
        },
{
}

/// The opcodes LUI, AUIPC and JAL have one instruction each, whatever lies
/// in bits 12 to 14.
pub proof fn lemma_decode_upper_and_jump(word: u32)
    requires
        opcode_field(word) == OPCODE::LUI.code() || opcode_field(word) == OPCODE::AUIPC.code()
            || opcode_field(word) == OPCODE::JAL.code(),
    ensures
        decode_spec(word) matches Some(d) && d.mnemonic.funct3() is None,
{
    if opcode_field(word) == OPCODE::LUI.code() {
        OPCODE::lemma_code_round_trip(OPCODE::LUI);
    } else if opcode_field(word) == OPCODE::AUIPC.code() {
        OPCODE::lemma_code_round_trip(OPCODE::AUIPC);
    } else {
        OPCODE::lemma_code_round_trip(OPCODE::JAL);
    }
    lemma_decode_none(word);
    lemma_decode_listed(word);
}

/// Under the opcode JALR a word is an instruction only where `funct3` is
/// zero, whatever its other fields hold.
pub proof fn lemma_decode_jalr(word: u32)
    requires
        opcode_field(word) == OPCODE::JALR.code(),
    ensures
        decode_spec(word) is None <==> funct3_field(word) != 0b000,
        decode_spec(word) matches Some(d) ==> d.mnemonic == MNEMONIC::JALR,
{
    OPCODE::lemma_code_round_trip(OPCODE::JALR);
    lemma_decode_none(word);
    lemma_decode_listed(word);
}

/// Under the opcode BRANCH the values 2 and 3 of `funct3` name no
/// instruction, and each other value names one of the six branches.
pub proof fn lemma_decode_branch(word: u32)
    requires
        opcode_field(word) == OPCODE::BRANCH.code(),
    ensures
        decode_spec(word) is None <==> funct3_field(word) == 0b010 || funct3_field(word) == 0b011,
        decode_spec(word) matches Some(d) ==> d.mnemonic.funct3() == Some(funct3_field(word)) && (
        d.mnemonic == MNEMONIC::BEQ || d.mnemonic == MNEMONIC::BNE || d.mnemonic == MNEMONIC::BLT
            || d.mnemonic == MNEMONIC::BGE || d.mnemonic == MNEMONIC::BLTU || d.mnemonic
            == MNEMONIC::BGEU),
{
    OPCODE::lemma_code_round_trip(OPCODE::BRANCH);
    lemma_decode_none(word);
    lemma_decode_listed(word);
}

/// Under the opcode LOAD the values 3, 6 and 7 of `funct3` name no
/// instruction, and each other value names one of the five loads.
pub proof fn lemma_decode_load(word: u32)
    requires
        opcode_field(word) == OPCODE::LOAD.code(),
    ensures
        decode_spec(word) is None <==> funct3_field(word) == 0b011 || funct3_field(word) == 0b110
            || funct3_field(word) == 0b111,
        decode_spec(word) matches Some(d) ==> d.mnemonic.funct3() == Some(funct3_field(word)) && (
        d.mnemonic == MNEMONIC::LB || d.mnemonic == MNEMONIC::LH || d.mnemonic == MNEMONIC::LW
            || d.mnemonic == MNEMONIC::LBU || d.mnemonic == MNEMONIC::LHU),
{
    OPCODE::lemma_code_round_trip(OPCODE::LOAD);
    lemma_decode_none(word);
    lemma_decode_listed(word);
}

/// Under the opcode STORE only the values 0, 1 and 2 of `funct3` name an
/// instruction, one of the three stores.
pub proof fn lemma_decode_store(word: u32)
    requires
        opcode_field(word) == OPCODE::STORE.code(),
    ensures
        decode_spec(word) is None <==> funct3_field(word) > 0b010,
        decode_spec(word) matches Some(d) ==> d.mnemonic.funct3() == Some(funct3_field(word)) && (
        d.mnemonic == MNEMONIC::SB || d.mnemonic == MNEMONIC::SH || d.mnemonic == MNEMONIC::SW),
{
    OPCODE::lemma_code_round_trip(OPCODE::STORE);
    lemma_decode_none(word);
    lemma_decode_listed(word);
}

/// Under the opcode OP_IMM the values 1 and 5 of `funct3`, the shifts, name
/// no instruction, and each other value names one of the six operations
/// on a register and an immediate.
pub proof fn lemma_decode_op_imm(word: u32)
    requires
        opcode_field(word) == OPCODE::OP_IMM.code(),
    ensures
        decode_spec(word) is None <==> funct3_field(word) == 0b001 || funct3_field(word) == 0b101,
        decode_spec(word) matches Some(d) ==> d.mnemonic.funct3() == Some(funct3_field(word)) && (
        d.mnemonic == MNEMONIC::ADDI || d.mnemonic == MNEMONIC::SLTI || d.mnemonic
            == MNEMONIC::SLTIU || d.mnemonic == MNEMONIC::XORI || d.mnemonic == MNEMONIC::ORI
            || d.mnemonic == MNEMONIC::ANDI),
{
    OPCODE::lemma_code_round_trip(OPCODE::OP_IMM);
    lemma_decode_none(word);
    lemma_decode_listed(word);
}

} // verus!
