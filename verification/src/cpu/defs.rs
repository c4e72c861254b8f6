//! The closed sets of names that an instruction is made of: registers and
//! their ABI aliases, formats, opcodes and mnemonics, and the value that
//! decoding produces.

use vstd::prelude::*;
use crate::cpu::fields::signed;

verus! {

/// The general registers, by their architectural names.
#[derive(Debug, Clone, Copy, PartialEq, Eq, Structural)]
#[allow(non_camel_case_types)]
pub enum REG {
    x0,
    x1,
    x2,
    x3,
    x4,
    x5,
    x6,
    x7,
    x8,
    x9,
    x10,
    x11,
    x12,
    x13,
    x14,
    x15,
    x16,
    x17,
    x18,
    x19,
    x20,
    x21,
    x22,
    x23,
    x24,
    x25,
    x26,
    x27,
    x28,
    x29,
    x30,
    x31,
}

impl REG {
    /// The number of the register that the register stands for, from 0 for
    /// `x0` to 31 for `x31`.
    pub open spec fn index(self) -> int {
        match self {
            REG::x0 => 0,
            REG::x1 => 1,
            REG::x2 => 2,
            REG::x3 => 3,
            REG::x4 => 4,
            REG::x5 => 5,
            REG::x6 => 6,
            REG::x7 => 7,
            REG::x8 => 8,
            REG::x9 => 9,
            REG::x10 => 10,
            REG::x11 => 11,
            REG::x12 => 12,
            REG::x13 => 13,
            REG::x14 => 14,
            REG::x15 => 15,
            REG::x16 => 16,
            REG::x17 => 17,
            REG::x18 => 18,
            REG::x19 => 19,
            REG::x20 => 20,
            REG::x21 => 21,
            REG::x22 => 22,
            REG::x23 => 23,
            REG::x24 => 24,
            REG::x25 => 25,
            REG::x26 => 26,
            REG::x27 => 27,
            REG::x28 => 28,
            REG::x29 => 29,
            REG::x30 => 30,
            REG::x31 => 31,
        }
    }

    /// The register whose number is `n`, if there is one.
    pub open spec fn from_index(n: int) -> Option<REG> {
        if exists|r: REG| r.index() == n {
            Some(choose|r: REG| r.index() == n)
        } else {
            None
        }
    }

    /// Two registers with the same number are the same register.
    pub proof fn lemma_index_injective(a: REG, b: REG)
        requires
            a.index() == b.index(),
        ensures
            a == b,
    {
    }

    /// Exactly the numbers 0 to 31 name a register, and the register that a
    /// number names has that number.
    pub proof fn lemma_from_index(n: int)
        ensures
            REG::from_index(n) is Some <==> 0 <= n < 32,
            REG::from_index(n) matches Some(r) ==> r.index() == n,
    {
        if 0 <= n < 32 {
            assert(REG::numbered(n).index() == n);
        }
    }

    /// Going from a register to its number and back gives the register again.
    pub proof fn lemma_index_round_trip(r: REG)
        ensures
            REG::from_index(r.index()) == Some(r),
    {
        let found = choose|other: REG| other.index() == r.index();
        REG::lemma_index_injective(found, r);
    }

    /// A register with the number `n`, for `n` from 0 to 31.
    spec fn numbered(n: int) -> REG {
        if n == 0 {
            REG::x0
        } else if n == 1 {
            REG::x1
        } else if n == 2 {
            REG::x2
        } else if n == 3 {
            REG::x3
        } else if n == 4 {
            REG::x4
        } else if n == 5 {
            REG::x5
        } else if n == 6 {
            REG::x6
        } else if n == 7 {
            REG::x7
        } else if n == 8 {
            REG::x8
        } else if n == 9 {
            REG::x9
        } else if n == 10 {
            REG::x10
        } else if n == 11 {
            REG::x11
        } else if n == 12 {
            REG::x12
        } else if n == 13 {
            REG::x13
        } else if n == 14 {
            REG::x14
        } else if n == 15 {
            REG::x15
        } else if n == 16 {
            REG::x16
        } else if n == 17 {
            REG::x17
        } else if n == 18 {
            REG::x18
        } else if n == 19 {
            REG::x19
        } else if n == 20 {
            REG::x20
        } else if n == 21 {
            REG::x21
        } else if n == 22 {
            REG::x22
        } else if n == 23 {
            REG::x23
        } else if n == 24 {
            REG::x24
        } else if n == 25 {
            REG::x25
        } else if n == 26 {
            REG::x26
        } else if n == 27 {
            REG::x27
        } else if n == 28 {
            REG::x28
        } else if n == 29 {
            REG::x29
        } else if n == 30 {
            REG::x30
        } else {
            REG::x31
        }
    }

    /// The number of the register.
    pub fn to_usize(&self) -> (n: usize)
        ensures
            n == self.index(),
            n < 32,
            REG::from_index(n as int) == Some(*self),
    {
        proof {
            REG::lemma_index_round_trip(*self);
        }
        match self {
            REG::x0 => 0,
            REG::x1 => 1,
            REG::x2 => 2,
            REG::x3 => 3,
            REG::x4 => 4,
            REG::x5 => 5,
            REG::x6 => 6,
            REG::x7 => 7,
            REG::x8 => 8,
            REG::x9 => 9,
            REG::x10 => 10,
            REG::x11 => 11,
            REG::x12 => 12,
            REG::x13 => 13,
            REG::x14 => 14,
            REG::x15 => 15,
            REG::x16 => 16,
            REG::x17 => 17,
            REG::x18 => 18,
            REG::x19 => 19,
            REG::x20 => 20,
            REG::x21 => 21,
            REG::x22 => 22,
            REG::x23 => 23,
            REG::x24 => 24,
            REG::x25 => 25,
            REG::x26 => 26,
            REG::x27 => 27,
            REG::x28 => 28,
            REG::x29 => 29,
            REG::x30 => 30,
            REG::x31 => 31,
        }
    }

    /// The register numbered `n`; none for a number above 31.
    pub fn from_u32(n: u32) -> (found: Option<REG>)
        ensures
            found == REG::from_index(n as int),
            found is Some <==> n < 32,
            found matches Some(r) ==> r.index() == n,
    {
        let found = match n {
            0 => Some(REG::x0),
            1 => Some(REG::x1),
            2 => Some(REG::x2),
            3 => Some(REG::x3),
            4 => Some(REG::x4),
            5 => Some(REG::x5),
            6 => Some(REG::x6),
            7 => Some(REG::x7),
            8 => Some(REG::x8),
            9 => Some(REG::x9),
            10 => Some(REG::x10),
            11 => Some(REG::x11),
            12 => Some(REG::x12),
            13 => Some(REG::x13),
            14 => Some(REG::x14),
            15 => Some(REG::x15),
            16 => Some(REG::x16),
            17 => Some(REG::x17),
            18 => Some(REG::x18),
            19 => Some(REG::x19),
            20 => Some(REG::x20),
            21 => Some(REG::x21),
            22 => Some(REG::x22),
            23 => Some(REG::x23),
            24 => Some(REG::x24),
            25 => Some(REG::x25),
            26 => Some(REG::x26),
            27 => Some(REG::x27),
            28 => Some(REG::x28),
            29 => Some(REG::x29),
            30 => Some(REG::x30),
            31 => Some(REG::x31),
            _ => None,
        };
        proof {
            REG::lemma_from_index(n as int);
            if let Some(r) = found {
                REG::lemma_index_round_trip(r);
            }
        }
        found
    }

    /// The register numbered `n`; none for a number above 31.
    pub fn from_u64(n: u64) -> (found: Option<REG>)
        ensures
            found == REG::from_index(n as int),
            found is Some <==> n < 32,
            found matches Some(r) ==> r.index() == n,
    {
        let found = match n {
            0 => Some(REG::x0),
            1 => Some(REG::x1),
            2 => Some(REG::x2),
            3 => Some(REG::x3),
            4 => Some(REG::x4),
            5 => Some(REG::x5),
            6 => Some(REG::x6),
            7 => Some(REG::x7),
            8 => Some(REG::x8),
            9 => Some(REG::x9),
            10 => Some(REG::x10),
            11 => Some(REG::x11),
            12 => Some(REG::x12),
            13 => Some(REG::x13),
            14 => Some(REG::x14),
            15 => Some(REG::x15),
            16 => Some(REG::x16),
            17 => Some(REG::x17),
            18 => Some(REG::x18),
            19 => Some(REG::x19),
            20 => Some(REG::x20),
            21 => Some(REG::x21),
            22 => Some(REG::x22),
            23 => Some(REG::x23),
            24 => Some(REG::x24),
            25 => Some(REG::x25),
            26 => Some(REG::x26),
            27 => Some(REG::x27),
            28 => Some(REG::x28),
            29 => Some(REG::x29),
            30 => Some(REG::x30),
            31 => Some(REG::x31),
            _ => None,
        };
        proof {
            REG::lemma_from_index(n as int);
            if let Some(r) = found {
                REG::lemma_index_round_trip(r);
            }
        }
        found
    }
}

/// The names that the calling convention gives to the general registers.
#[derive(Debug, Clone, Copy, PartialEq, Eq, Structural)]
#[allow(non_camel_case_types)]
pub enum ABI {
    zero,
    ra,
    sp,
    gp,
    tp,
    t0,
    t1,
    t2,
    s0,
    s1,
    a0,
    a1,
    a2,
    a3,
    a4,
    a5,
    a6,
    a7,
    s2,
    s3,
    s4,
    s5,
    s6,
    s7,
    s8,
    s9,
    s10,
    s11,
    t3,
    t4,
    t5,
    t6,
}

impl ABI {
    /// The number of the register that the alias stands for, from 0 for
    /// `zero` to 31 for `t6`.
    pub open spec fn index(self) -> int {
        match self {
            ABI::zero => 0,
            ABI::ra => 1,
            ABI::sp => 2,
            ABI::gp => 3,
            ABI::tp => 4,
            ABI::t0 => 5,
            ABI::t1 => 6,
            ABI::t2 => 7,
            ABI::s0 => 8,
            ABI::s1 => 9,
            ABI::a0 => 10,
            ABI::a1 => 11,
            ABI::a2 => 12,
            ABI::a3 => 13,
            ABI::a4 => 14,
            ABI::a5 => 15,
            ABI::a6 => 16,
            ABI::a7 => 17,
            ABI::s2 => 18,
            ABI::s3 => 19,
            ABI::s4 => 20,
            ABI::s5 => 21,
            ABI::s6 => 22,
            ABI::s7 => 23,
            ABI::s8 => 24,
            ABI::s9 => 25,
            ABI::s10 => 26,
            ABI::s11 => 27,
            ABI::t3 => 28,
            ABI::t4 => 29,
            ABI::t5 => 30,
            ABI::t6 => 31,
        }
    }

    /// The alias whose number is `n`, if there is one.
    pub open spec fn from_index(n: int) -> Option<ABI> {
        if exists|r: ABI| r.index() == n {
            Some(choose|r: ABI| r.index() == n)
        } else {
            None
        }
    }

    /// Two aliases with the same number are the same alias.
    pub proof fn lemma_index_injective(a: ABI, b: ABI)
        requires
            a.index() == b.index(),
        ensures
            a == b,
    {
    }

    /// Exactly the numbers 0 to 31 name a alias, and the alias that a
    /// number names has that number.
    pub proof fn lemma_from_index(n: int)
        ensures
            ABI::from_index(n) is Some <==> 0 <= n < 32,
            ABI::from_index(n) matches Some(r) ==> r.index() == n,
    {
        if 0 <= n < 32 {
            assert(ABI::numbered(n).index() == n);
        }
    }

    /// Going from a alias to its number and back gives the alias again.
    pub proof fn lemma_index_round_trip(r: ABI)
        ensures
            ABI::from_index(r.index()) == Some(r),
    {
        let found = choose|other: ABI| other.index() == r.index();
        ABI::lemma_index_injective(found, r);
    }

    /// A alias with the number `n`, for `n` from 0 to 31.
    spec fn numbered(n: int) -> ABI {
        if n == 0 {
            ABI::zero
        } else if n == 1 {
            ABI::ra
        } else if n == 2 {
            ABI::sp
        } else if n == 3 {
            ABI::gp
        } else if n == 4 {
            ABI::tp
        } else if n == 5 {
            ABI::t0
        } else if n == 6 {
            ABI::t1
        } else if n == 7 {
            ABI::t2
        } else if n == 8 {
            ABI::s0
        } else if n == 9 {
            ABI::s1
        } else if n == 10 {
            ABI::a0
        } else if n == 11 {
            ABI::a1
        } else if n == 12 {
            ABI::a2
        } else if n == 13 {
            ABI::a3
        } else if n == 14 {
            ABI::a4
        } else if n == 15 {
            ABI::a5
        } else if n == 16 {
            ABI::a6
        } else if n == 17 {
            ABI::a7
        } else if n == 18 {
            ABI::s2
        } else if n == 19 {
            ABI::s3
        } else if n == 20 {
            ABI::s4
        } else if n == 21 {
            ABI::s5
        } else if n == 22 {
            ABI::s6
        } else if n == 23 {
            ABI::s7
        } else if n == 24 {
            ABI::s8
        } else if n == 25 {
            ABI::s9
        } else if n == 26 {
            ABI::s10
        } else if n == 27 {
            ABI::s11
        } else if n == 28 {
            ABI::t3
        } else if n == 29 {
            ABI::t4
        } else if n == 30 {
            ABI::t5
        } else {
            ABI::t6
        }
    }

    /// The number of the alias.
    pub fn to_usize(&self) -> (n: usize)
        ensures
            n == self.index(),
            n < 32,
            ABI::from_index(n as int) == Some(*self),
    {
        proof {
            ABI::lemma_index_round_trip(*self);
        }
        match self {
            ABI::zero => 0,
            ABI::ra => 1,
            ABI::sp => 2,
            ABI::gp => 3,
            ABI::tp => 4,
            ABI::t0 => 5,
            ABI::t1 => 6,
            ABI::t2 => 7,
            ABI::s0 => 8,
            ABI::s1 => 9,
            ABI::a0 => 10,
            ABI::a1 => 11,
            ABI::a2 => 12,
            ABI::a3 => 13,
            ABI::a4 => 14,
            ABI::a5 => 15,
            ABI::a6 => 16,
            ABI::a7 => 17,
            ABI::s2 => 18,
            ABI::s3 => 19,
            ABI::s4 => 20,
            ABI::s5 => 21,
            ABI::s6 => 22,
            ABI::s7 => 23,
            ABI::s8 => 24,
            ABI::s9 => 25,
            ABI::s10 => 26,
            ABI::s11 => 27,
            ABI::t3 => 28,
            ABI::t4 => 29,
            ABI::t5 => 30,
            ABI::t6 => 31,
        }
    }

    /// The alias numbered `n`; none for a number above 31.
    pub fn from_u64(n: u64) -> (found: Option<ABI>)
        ensures
            found == ABI::from_index(n as int),
            found is Some <==> n < 32,
            found matches Some(r) ==> r.index() == n,
    {
        let found = match n {
            0 => Some(ABI::zero),
            1 => Some(ABI::ra),
            2 => Some(ABI::sp),
            3 => Some(ABI::gp),
            4 => Some(ABI::tp),
            5 => Some(ABI::t0),
            6 => Some(ABI::t1),
            7 => Some(ABI::t2),
            8 => Some(ABI::s0),
            9 => Some(ABI::s1),
            10 => Some(ABI::a0),
            11 => Some(ABI::a1),
            12 => Some(ABI::a2),
            13 => Some(ABI::a3),
            14 => Some(ABI::a4),
            15 => Some(ABI::a5),
            16 => Some(ABI::a6),
            17 => Some(ABI::a7),
            18 => Some(ABI::s2),
            19 => Some(ABI::s3),
            20 => Some(ABI::s4),
            21 => Some(ABI::s5),
            22 => Some(ABI::s6),
            23 => Some(ABI::s7),
            24 => Some(ABI::s8),
            25 => Some(ABI::s9),
            26 => Some(ABI::s10),
            27 => Some(ABI::s11),
            28 => Some(ABI::t3),
            29 => Some(ABI::t4),
            30 => Some(ABI::t5),
            31 => Some(ABI::t6),
            _ => None,
        };
        proof {
            ABI::lemma_from_index(n as int);
            if let Some(r) = found {
                ABI::lemma_index_round_trip(r);
            }
        }
        found
    }
}

/// The layouts of an instruction word. The format says which fields a
/// word has and where the bits of its immediate lie.
#[derive(Debug, Clone, Copy, PartialEq, Eq, Structural)]
#[allow(non_camel_case_types)]
pub enum FORMAT {
    R,
    I,
    S,
    B,
    U,
    J,
}

impl FORMAT {
    /// Whether a word of this format names a destination register.
    pub open spec fn has_rd(self) -> bool {
        self is R || self is I || self is U || self is J
    }

    /// Whether a word of this format names a first source register.
    pub open spec fn has_rs1(self) -> bool {
        self is R || self is I || self is S || self is B
    }

    /// Whether a word of this format names a second source register.
    pub open spec fn has_rs2(self) -> bool {
        self is R || self is S || self is B
    }

    /// Whether a word of this format has a `funct3` field.
    pub open spec fn has_funct3(self) -> bool {
        self is R || self is I || self is S || self is B
    }

    /// Whether a word of this format has a `funct7` field.
    pub open spec fn has_funct7(self) -> bool {
        self is R
    }

    /// Whether a word of this format carries an immediate.
    pub open spec fn has_imm(self) -> bool {
        !(self is R)
    }

    /// Whether `n` is a value that the immediate of this format can take:
    /// 12 bits for `I` and `S`, 13 bits with bit 0 clear for `B`, 32 bits
    /// with the low 12 clear for `U`, 21 bits with bit 0 clear for `J`, all
    /// in two's complement.
    pub open spec fn holds_imm(self, n: int) -> bool {
        match self {
            FORMAT::R => false,
            FORMAT::I | FORMAT::S => -0x800 <= n < 0x800,
            FORMAT::B => -0x1000 <= n < 0x1000 && n % 2 == 0,
            FORMAT::U => -0x8000_0000 <= n < 0x8000_0000 && n % 0x1000 == 0,
            FORMAT::J => -0x10_0000 <= n < 0x10_0000 && n % 2 == 0,
        }
    }
}

/// The major opcodes that the decoder knows.
#[derive(Debug, Clone, Copy, PartialEq, Eq, Structural)]
#[allow(non_camel_case_types)]
pub enum OPCODE {
    LUI,
    AUIPC,
    JAL,
    JALR,
    BRANCH,
    LOAD,
    STORE,
    OP_IMM,
}

impl OPCODE {
    /// The seven bits that stand for the opcode in an instruction word.
    pub open spec fn code(self) -> u32 {
        match self {
            OPCODE::LUI => 0b011_0111,
            OPCODE::AUIPC => 0b001_0111,
            OPCODE::JAL => 0b110_1111,
            OPCODE::JALR => 0b110_0111,
            OPCODE::BRANCH => 0b110_0011,
            OPCODE::LOAD => 0b000_0011,
            OPCODE::STORE => 0b010_0011,
            OPCODE::OP_IMM => 0b001_0011,
        }
    }

    /// The opcode that `n` stands for, if it stands for one.
    pub open spec fn from_code(n: u32) -> Option<OPCODE> {
        if exists|op: OPCODE| op.code() == n {
            Some(choose|op: OPCODE| op.code() == n)
        } else {
            None
        }
    }

    /// The format of the instructions under this opcode.
    pub open spec fn format(self) -> FORMAT {
        match self {
            OPCODE::LUI | OPCODE::AUIPC => FORMAT::U,
            OPCODE::JAL => FORMAT::J,
            OPCODE::JALR | OPCODE::LOAD | OPCODE::OP_IMM => FORMAT::I,
            OPCODE::BRANCH => FORMAT::B,
            OPCODE::STORE => FORMAT::S,
        }
    }

    /// Whether the value `funct3` of bits 12 to 14 names no instruction
    /// under this opcode. The shifts under OP_IMM are left out: telling
    /// them apart takes `funct7`.
    pub open spec fn leaves_out(self, funct3: u32) -> bool {
        match self {
            OPCODE::LUI | OPCODE::AUIPC | OPCODE::JAL => false,
            OPCODE::JALR => funct3 != 0b000,
            OPCODE::BRANCH => funct3 == 0b010 || funct3 == 0b011,
            OPCODE::LOAD => funct3 == 0b011 || funct3 == 0b110 || funct3 == 0b111,
            OPCODE::STORE => funct3 > 0b010,
            OPCODE::OP_IMM => funct3 == 0b001 || funct3 == 0b101,
        }
    }

    /// No two opcodes share a code, and every code fits in seven bits.
    pub proof fn lemma_code_injective(a: OPCODE, b: OPCODE)
        ensures
            a.code() == b.code() ==> a == b,
            a.code() < 0x80,
    {
    }

    /// Going from an opcode to its code and back gives the opcode again.
    pub proof fn lemma_code_round_trip(op: OPCODE)
        ensures
            OPCODE::from_code(op.code()) == Some(op),
    {
        let found = choose|other: OPCODE| other.code() == op.code();
        OPCODE::lemma_code_injective(found, op);
    }

    /// The seven bits that stand for the opcode in an instruction word.
    pub fn to_u32(&self) -> (n: u32)
        ensures
            n == self.code(),
            n < 0x80,
            OPCODE::from_code(n) == Some(*self),
    {
        proof {
            OPCODE::lemma_code_round_trip(*self);
        }
        match self {
            OPCODE::LUI => 0b011_0111,
            OPCODE::AUIPC => 0b001_0111,
            OPCODE::JAL => 0b110_1111,
            OPCODE::JALR => 0b110_0111,
            OPCODE::BRANCH => 0b110_0011,
            OPCODE::LOAD => 0b000_0011,
            OPCODE::STORE => 0b010_0011,
            OPCODE::OP_IMM => 0b001_0011,
        }
    }

    /// The opcode that `n` stands for; none where `n` is the code of no
    /// opcode that the decoder knows.
    pub fn from_u32(n: u32) -> (found: Option<OPCODE>)
        ensures
            found == OPCODE::from_code(n),
            found matches Some(op) ==> op.code() == n,
            found is None ==> forall|op: OPCODE| op.code() != n,
    {
        let found = match n {
            0b011_0111 => Some(OPCODE::LUI),
            0b001_0111 => Some(OPCODE::AUIPC),
            0b110_1111 => Some(OPCODE::JAL),
            0b110_0111 => Some(OPCODE::JALR),
            0b110_0011 => Some(OPCODE::BRANCH),
            0b000_0011 => Some(OPCODE::LOAD),
            0b010_0011 => Some(OPCODE::STORE),
            0b001_0011 => Some(OPCODE::OP_IMM),
            _ => None,
        };
        proof {
            if let Some(op) = found {
                OPCODE::lemma_code_round_trip(op);
            }
        }
        found
    }
}

/// The instructions that the decoder knows, by their assembler names.
#[derive(Debug, Clone, Copy, PartialEq, Eq, Structural)]
#[allow(non_camel_case_types)]
pub enum MNEMONIC {
    LUI,
    AUIPC,
    JAL,
    JALR,
    BEQ,
    BNE,
    BLT,
    BGE,
    BLTU,
    BGEU,
    LB,
    LH,
    LW,
    LBU,
    LHU,
    SB,
    SH,
    SW,
    ADDI,
    SLTI,
    SLTIU,
    XORI,
    ORI,
    ANDI,
}

impl MNEMONIC {
    /// The opcode under which the instruction is encoded.
    pub open spec fn opcode(self) -> OPCODE {
        match self {
            MNEMONIC::LUI => OPCODE::LUI,
            MNEMONIC::AUIPC => OPCODE::AUIPC,
            MNEMONIC::JAL => OPCODE::JAL,
            MNEMONIC::JALR => OPCODE::JALR,
            MNEMONIC::BEQ | MNEMONIC::BNE | MNEMONIC::BLT | MNEMONIC::BGE | MNEMONIC::BLTU
            | MNEMONIC::BGEU => OPCODE::BRANCH,
            MNEMONIC::LB | MNEMONIC::LH | MNEMONIC::LW | MNEMONIC::LBU | MNEMONIC::LHU => OPCODE::LOAD,
            MNEMONIC::SB | MNEMONIC::SH | MNEMONIC::SW => OPCODE::STORE,
            MNEMONIC::ADDI | MNEMONIC::SLTI | MNEMONIC::SLTIU | MNEMONIC::XORI | MNEMONIC::ORI
            | MNEMONIC::ANDI => OPCODE::OP_IMM,
        }
    }

    /// The value of `funct3` that tells the instruction from the others
    /// under its opcode; none where the opcode has one instruction and its
    /// format no `funct3` field.
    pub open spec fn funct3(self) -> Option<u32> {
        match self {
            MNEMONIC::LUI | MNEMONIC::AUIPC | MNEMONIC::JAL => None,
            MNEMONIC::JALR => Some(0b000),
            MNEMONIC::BEQ => Some(0b000),
            MNEMONIC::BNE => Some(0b001),
            MNEMONIC::BLT => Some(0b100),
            MNEMONIC::BGE => Some(0b101),
            MNEMONIC::BLTU => Some(0b110),
            MNEMONIC::BGEU => Some(0b111),
            MNEMONIC::LB => Some(0b000),
            MNEMONIC::LH => Some(0b001),
            MNEMONIC::LW => Some(0b010),
            MNEMONIC::LBU => Some(0b100),
            MNEMONIC::LHU => Some(0b101),
            MNEMONIC::SB => Some(0b000),
            MNEMONIC::SH => Some(0b001),
            MNEMONIC::SW => Some(0b010),
            MNEMONIC::ADDI => Some(0b000),
            MNEMONIC::SLTI => Some(0b010),
            MNEMONIC::SLTIU => Some(0b011),
            MNEMONIC::XORI => Some(0b100),
            MNEMONIC::ORI => Some(0b110),
            MNEMONIC::ANDI => Some(0b111),
        }
    }

    /// The format of the instruction.
    pub open spec fn format(self) -> FORMAT {
        self.opcode().format()
    }

    /// Whether a word with this opcode and this value in bits 12 to 14 is
    /// an encoding of the instruction.
    pub open spec fn is_selected_by(self, opcode: OPCODE, funct3: u32) -> bool {
        self.opcode() == opcode && (self.funct3() matches Some(f) ==> f == funct3)
    }

    /// The instruction that an opcode and the value in bits 12 to 14
    /// select, if they select one.
    pub open spec fn select(opcode: OPCODE, funct3: u32) -> Option<MNEMONIC> {
        if exists|m: MNEMONIC| m.is_selected_by(opcode, funct3) {
            Some(choose|m: MNEMONIC| m.is_selected_by(opcode, funct3))
        } else {
            None
        }
    }

    /// An opcode and a value of `funct3` select at most one instruction.
    pub proof fn lemma_selected_unique(a: MNEMONIC, b: MNEMONIC, opcode: OPCODE, funct3: u32)
        requires
            a.is_selected_by(opcode, funct3),
            b.is_selected_by(opcode, funct3),
        ensures
            a == b,
    {
    }

    /// The instruction that encodes itself under `opcode` and `funct3` is
    /// the one that they select.
    pub proof fn lemma_select(m: MNEMONIC, opcode: OPCODE, funct3: u32)
        requires
            m.is_selected_by(opcode, funct3),
        ensures
            MNEMONIC::select(opcode, funct3) == Some(m),
    {
        let found = choose|other: MNEMONIC| other.is_selected_by(opcode, funct3);
        MNEMONIC::lemma_selected_unique(found, m, opcode, funct3);
    }

    /// An opcode and three bits select an instruction except where the
    /// opcode leaves the value of the bits out.
    pub proof fn lemma_select_gaps(opcode: OPCODE, funct3: u32)
        requires
            funct3 < 8,
        ensures
            MNEMONIC::select(opcode, funct3) is None <==> opcode.leaves_out(funct3),
            MNEMONIC::select(opcode, funct3) matches Some(m) ==> m.is_selected_by(opcode, funct3),
    {
        if !opcode.leaves_out(funct3) {
            let m = MNEMONIC::listed(opcode, funct3);
            MNEMONIC::lemma_select(m, opcode, funct3);
        }
    }

    /// The instruction listed under `opcode` with `funct3`, where the
    /// opcode does not leave the value out.
    spec fn listed(opcode: OPCODE, funct3: u32) -> MNEMONIC {
        match opcode {
            OPCODE::LUI => MNEMONIC::LUI,
            OPCODE::AUIPC => MNEMONIC::AUIPC,
            OPCODE::JAL => MNEMONIC::JAL,
            OPCODE::JALR => MNEMONIC::JALR,
            OPCODE::BRANCH => if funct3 == 0b000 {
                MNEMONIC::BEQ
            } else if funct3 == 0b001 {
                MNEMONIC::BNE
            } else if funct3 == 0b100 {
                MNEMONIC::BLT
            } else if funct3 == 0b101 {
                MNEMONIC::BGE
            } else if funct3 == 0b110 {
                MNEMONIC::BLTU
            } else {
                MNEMONIC::BGEU
            },
            OPCODE::LOAD => if funct3 == 0b000 {
                MNEMONIC::LB
            } else if funct3 == 0b001 {
                MNEMONIC::LH
            } else if funct3 == 0b010 {
                MNEMONIC::LW
            } else if funct3 == 0b100 {
                MNEMONIC::LBU
            } else {
                MNEMONIC::LHU
            },
            OPCODE::STORE => if funct3 == 0b000 {
                MNEMONIC::SB
            } else if funct3 == 0b001 {
                MNEMONIC::SH
            } else {
                MNEMONIC::SW
            },
            OPCODE::OP_IMM => if funct3 == 0b000 {
                MNEMONIC::ADDI
            } else if funct3 == 0b010 {
                MNEMONIC::SLTI
            } else if funct3 == 0b011 {
                MNEMONIC::SLTIU
            } else if funct3 == 0b100 {
                MNEMONIC::XORI
            } else if funct3 == 0b110 {
                MNEMONIC::ORI
            } else {
                MNEMONIC::ANDI
            },
        }
    }

    /// An instruction has a `funct3` of its own exactly where its format
    /// has the field, and the value fits in three bits.
    pub proof fn lemma_funct3(m: MNEMONIC)
        ensures
            m.funct3() is Some <==> m.format().has_funct3(),
            m.funct3() matches Some(f) ==> f < 8,
    {
    }
}

/// A decoded instruction. Which of the optional fields are present depends
/// on the format alone; see [`DecodedInstr::wf`].
#[derive(Debug, Clone, Copy, PartialEq, Eq, Structural)]
pub struct DecodedInstr {
    pub format: FORMAT,
    pub mnemonic: MNEMONIC,
    pub opcode: OPCODE,
    /// Bits 12 to 14 of the word.
    pub funct3: Option<u32>,
    /// Bits 25 to 31 of the word.
    pub funct7: Option<u32>,
    /// The destination register.
    pub rd: Option<REG>,
    /// The first source register.
    pub rs1: Option<REG>,
    /// The second source register.
    pub rs2: Option<REG>,
    /// The immediate, sign-extended to 64 bits.
    pub imm: Option<u64>,
}

impl DecodedInstr {
    /// The immediate as the number that it stands for in two's complement.
    pub open spec fn imm_value(self) -> Option<int> {
        match self.imm {
            Some(pattern) => Some(signed(pattern)),
            None => None,
        }
    }

    /// Whether the value is one that an instruction word can stand for:
    /// mnemonic, opcode and format agree, the fields that the format has
    /// are present and no others, `funct3` is the one that selects the
    /// mnemonic, and the immediate is one that the format can hold.
    pub open spec fn wf(self) -> bool {
        &&& self.mnemonic.opcode() == self.opcode
        &&& self.format == self.opcode.format()
        &&& self.funct3 is Some <==> self.format.has_funct3()
        &&& self.funct7 is Some <==> self.format.has_funct7()
        &&& self.rd is Some <==> self.format.has_rd()
        &&& self.rs1 is Some <==> self.format.has_rs1()
        &&& self.rs2 is Some <==> self.format.has_rs2()
        &&& self.imm is Some <==> self.format.has_imm()
        &&& self.funct3 matches Some(f) ==> self.mnemonic.is_selected_by(self.opcode, f)
        &&& self.funct7 matches Some(f) ==> f < 0x80
        &&& self.imm_value() matches Some(n) ==> self.format.holds_imm(n)
    }
}

} // verus!
