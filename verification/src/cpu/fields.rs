//! The bit fields of a 32-bit instruction word, and the immediate that each
//! instruction format assembles from them.

use vstd::prelude::*;
use vstd::arithmetic::power2::{lemma2_to64, lemma_pow2_strictly_increases, pow2};
use vstd::bits::lemma_u64_shl_is_mul;
use crate::cpu::defs::FORMAT;

verus! {

/// Bits `lo` to `hi` of `word`, both included, moved down to bit 0.
pub open spec fn bits(word: u32, hi: u32, lo: u32) -> u32
    recommends
        lo <= hi < 32,
{
    (word >> lo) & (0xffff_ffffu32 >> ((31 - (hi - lo)) as u32))
}

/// The major opcode: bits 0 to 6.
pub open spec fn opcode_field(word: u32) -> u32 {
    bits(word, 6, 0)
}

/// The number of the destination register: bits 7 to 11.
pub open spec fn rd_field(word: u32) -> u32 {
    bits(word, 11, 7)
}

/// The minor opcode: bits 12 to 14.
pub open spec fn funct3_field(word: u32) -> u32 {
    bits(word, 14, 12)
}

/// The number of the first source register: bits 15 to 19.
pub open spec fn rs1_field(word: u32) -> u32 {
    bits(word, 19, 15)
}

/// The number of the second source register: bits 20 to 24.
pub open spec fn rs2_field(word: u32) -> u32 {
    bits(word, 24, 20)
}

/// The second minor opcode: bits 25 to 31.
pub open spec fn funct7_field(word: u32) -> u32 {
    bits(word, 31, 25)
}

/// The 12 bits of an I-format immediate: bits 20 to 31 of the word.
pub open spec fn imm_i(word: u32) -> u32 {
    bits(word, 31, 20)
}

/// The 12 bits of an S-format immediate: bits 25 to 31 of the word above
/// bits 7 to 11.
pub open spec fn imm_s(word: u32) -> u32 {
    bits(word, 31, 25) << 5 | bits(word, 11, 7)
}

/// The 13 bits of a B-format immediate: from the top, bit 31 of the word,
/// bit 7, bits 25 to 30, bits 8 to 11, and a zero.
pub open spec fn imm_b(word: u32) -> u32 {
    bits(word, 31, 31) << 12 | bits(word, 7, 7) << 11 | bits(word, 30, 25) << 5 | bits(word, 11, 8)
        << 1
}

/// The 32 bits of a U-format immediate: bits 12 to 31 of the word in
/// place, above twelve zeros.
pub open spec fn imm_u(word: u32) -> u32 {
    bits(word, 31, 12) << 12
}

/// The 21 bits of a J-format immediate: from the top, bit 31 of the word,
/// bits 12 to 19, bit 20, bits 21 to 30, and a zero.
pub open spec fn imm_j(word: u32) -> u32 {
    bits(word, 31, 31) << 20 | bits(word, 19, 12) << 12 | bits(word, 20, 20) << 11 | bits(
        word,
        30,
        21,
    ) << 1
}

/// The low `width` bits of `value` read as a number in two's complement and
/// widened to 64 bits: bit `width - 1`, the sign, fills every bit above it.
pub open spec fn sign_extend(value: u32, width: u32) -> u64
    recommends
        0 < width <= 32,
        value < pow2(width as nat),
{
    if (value >> ((width - 1) as u32)) & 1 == 1 {
        (value as u64) | (0xffff_ffff_ffff_ffffu64 << width)
    } else {
        value as u64
    }
}

/// The number that a 64-bit pattern stands for in two's complement.
pub open spec fn signed(pattern: u64) -> int {
    if pattern < 0x8000_0000_0000_0000 {
        pattern as int
    } else {
        pattern - 0x1_0000_0000_0000_0000
    }
}

/// The immediate of a word that is read in `format`, sign-extended to 64
/// bits; none for the format that has no immediate.
pub open spec fn immediate(format: FORMAT, word: u32) -> Option<u64> {
    match format {
        FORMAT::R => None,
        FORMAT::I => Some(sign_extend(imm_i(word), 12)),
        FORMAT::S => Some(sign_extend(imm_s(word), 12)),
        FORMAT::B => Some(sign_extend(imm_b(word), 13)),
        FORMAT::U => Some(sign_extend(imm_u(word), 32)),
        FORMAT::J => Some(sign_extend(imm_j(word), 21)),
    }
}

/// Sign extension keeps the number: a value of `width` bits below
/// `2^(width - 1)` stands for itself, a larger one for itself less
/// `2^width`.
pub proof fn lemma_sign_extend(value: u32, width: u32)
    requires
        0 < width <= 32,
        value < pow2(width as nat),
    ensures
        signed(sign_extend(value, width)) == if value < pow2((width - 1) as nat) {
            value as int
        } else {
            value - pow2(width as nat)
        },
{
    let half: u64 = 1u64 << ((width - 1) as u64);
    let full: u64 = 1u64 << (width as u64);
    lemma2_to64();
    lemma_pow2_strictly_increases((width - 1) as nat, 32);
    if width < 32 {
        lemma_pow2_strictly_increases(width as nat, 32);
    }
    lemma_u64_shl_is_mul(1, (width - 1) as u64);
    lemma_u64_shl_is_mul(1, width as u64);
    assert(half == pow2((width - 1) as nat));
    assert(full == pow2(width as nat));
    let wide = sign_extend(value, width);
    assert(wide == if (value as u64) < half {
        value as u64
    } else {
        (value as u64 + (0xffff_ffff_ffff_ffffu64 - (full - 1))) as u64
    } && (value as u64) + (0xffff_ffff_ffff_ffffu64 - (full - 1)) <= 0xffff_ffff_ffff_ffffu64 && (
    (value as u64) >= half ==> (value as u64) + (0xffff_ffff_ffff_ffffu64 - (full - 1))
        >= 0x8000_0000_0000_0000u64)) by (bit_vector)
        requires
            0 < width <= 32,
            (value as u64) < full,
            half == 1u64 << ((width - 1) as u64),
            full == 1u64 << (width as u64),
            wide == sign_extend(value, width),
    ;
}

/// The fields of a word fit their widths.
pub proof fn lemma_field_bounds(word: u32)
    by (bit_vector)
    ensures
        opcode_field(word) < 0x80,
        rd_field(word) < 32,
        funct3_field(word) < 8,
        rs1_field(word) < 32,
        rs2_field(word) < 32,
        funct7_field(word) < 0x80,
{
}

/// The bits that a format assembles fit the width of its immediate, with
/// zeros in the low places that the format does not encode.
pub proof fn lemma_immediate_bits(word: u32)
    by (bit_vector)
    ensures
        imm_i(word) < 0x1000,
        imm_s(word) < 0x1000,
        imm_b(word) < 0x2000,
        imm_b(word) % 2 == 0,
        imm_u(word) % 0x1000 == 0,
        imm_j(word) < 0x20_0000,
        imm_j(word) % 2 == 0,
{
}

/// The immediate of a word is a value that its format can hold.
pub proof fn lemma_immediate_holds(format: FORMAT, word: u32)
    ensures
        immediate(format, word) matches Some(pattern) ==> format.holds_imm(signed(pattern)),
        immediate(format, word) is Some <==> format.has_imm(),
{
    lemma2_to64();
    lemma_immediate_bits(word);
    match format {
        FORMAT::R => {},
        FORMAT::I => lemma_sign_extend(imm_i(word), 12),
        FORMAT::S => lemma_sign_extend(imm_s(word), 12),
        FORMAT::B => lemma_sign_extend(imm_b(word), 13),
        FORMAT::U => lemma_sign_extend(imm_u(word), 32),
        FORMAT::J => lemma_sign_extend(imm_j(word), 21),
    }
}

} // verus!
