//! The instruction set of the virtual machine.
//!
//! An instruction is one code word holding an opcode, followed for the first
//! eight opcodes (`LEA` to `ADJ`) by one operand word.

use vstd::prelude::*;

verus! {

/// The instructions, in the order of their code words: control and
/// memory (`LEA` to `PSH`), binary operations (`OR` to `MOD`) and system
/// calls (`OPEN` to `EXIT`).
#[derive(Clone, Copy, Debug, PartialEq, Eq, Structural)]
pub enum OpCode {
    LEA,
    IMM,
    JMP,
    JSR,
    BZ,
    BNZ,
    ENT,
    ADJ,
    LEV,
    LI,
    LC,
    SI,
    SC,
    PSH,
    OR,
    XOR,
    AND,
    EQ,
    NE,
    LT,
    GT,
    LE,
    GE,
    SHL,
    SHR,
    ADD,
    SUB,
    MUL,
    DIV,
    MOD,
    OPEN,
    READ,
    CLOS,
    PRTF,
    MALC,
    FREE,
    MSET,
    MCMP,
    EXIT,
}

impl OpCode {
    /// The code word of an opcode: its position in the declaration, from 0.
    pub open spec fn spec_code(self) -> i64 {
        match self {
            OpCode::LEA => 0,
            OpCode::IMM => 1,
            OpCode::JMP => 2,
            OpCode::JSR => 3,
            OpCode::BZ => 4,
            OpCode::BNZ => 5,
            OpCode::ENT => 6,
            OpCode::ADJ => 7,
            OpCode::LEV => 8,
            OpCode::LI => 9,
            OpCode::LC => 10,
            OpCode::SI => 11,
            OpCode::SC => 12,
            OpCode::PSH => 13,
            OpCode::OR => 14,
            OpCode::XOR => 15,
            OpCode::AND => 16,
            OpCode::EQ => 17,
            OpCode::NE => 18,
            OpCode::LT => 19,
            OpCode::GT => 20,
            OpCode::LE => 21,
            OpCode::GE => 22,
            OpCode::SHL => 23,
            OpCode::SHR => 24,
            OpCode::ADD => 25,
            OpCode::SUB => 26,
            OpCode::MUL => 27,
            OpCode::DIV => 28,
            OpCode::MOD => 29,
            OpCode::OPEN => 30,
            OpCode::READ => 31,
            OpCode::CLOS => 32,
            OpCode::PRTF => 33,
            OpCode::MALC => 34,
            OpCode::FREE => 35,
            OpCode::MSET => 36,
            OpCode::MCMP => 37,
            OpCode::EXIT => 38,
        }
    }

    /// The code word of an opcode.
    #[verifier::when_used_as_spec(spec_code)]
    pub fn code(self) -> (c: i64)
        ensures
            c == self.spec_code(),
            0 <= c <= 38,
    {
        match self {
            OpCode::LEA => 0,
            OpCode::IMM => 1,
            OpCode::JMP => 2,
            OpCode::JSR => 3,
            OpCode::BZ => 4,
            OpCode::BNZ => 5,
            OpCode::ENT => 6,
            OpCode::ADJ => 7,
            OpCode::LEV => 8,
            OpCode::LI => 9,
            OpCode::LC => 10,
            OpCode::SI => 11,
            OpCode::SC => 12,
            OpCode::PSH => 13,
            OpCode::OR => 14,
            OpCode::XOR => 15,
            OpCode::AND => 16,
            OpCode::EQ => 17,
            OpCode::NE => 18,
            OpCode::LT => 19,
            OpCode::GT => 20,
            OpCode::LE => 21,
            OpCode::GE => 22,
            OpCode::SHL => 23,
            OpCode::SHR => 24,
            OpCode::ADD => 25,
            OpCode::SUB => 26,
            OpCode::MUL => 27,
            OpCode::DIV => 28,
            OpCode::MOD => 29,
            OpCode::OPEN => 30,
            OpCode::READ => 31,
            OpCode::CLOS => 32,
            OpCode::PRTF => 33,
            OpCode::MALC => 34,
            OpCode::FREE => 35,
            OpCode::MSET => 36,
            OpCode::MCMP => 37,
            OpCode::EXIT => 38,
        }
    }

    /// The opcode that a code word stands for, if any.
    pub open spec fn spec_from_code(word: i64) -> Option<OpCode> {
        if word == 0 {
            Some(OpCode::LEA)
        } else if word == 1 {
            Some(OpCode::IMM)
        } else if word == 2 {
            Some(OpCode::JMP)
        } else if word == 3 {
            Some(OpCode::JSR)
        } else if word == 4 {
            Some(OpCode::BZ)
        } else if word == 5 {
            Some(OpCode::BNZ)
        } else if word == 6 {
            Some(OpCode::ENT)
        } else if word == 7 {
            Some(OpCode::ADJ)
        } else if word == 8 {
            Some(OpCode::LEV)
        } else if word == 9 {
            Some(OpCode::LI)
        } else if word == 10 {
            Some(OpCode::LC)
        } else if word == 11 {
            Some(OpCode::SI)
        } else if word == 12 {
            Some(OpCode::SC)
        } else if word == 13 {
            Some(OpCode::PSH)
        } else if word == 14 {
            Some(OpCode::OR)
        } else if word == 15 {
            Some(OpCode::XOR)
        } else if word == 16 {
            Some(OpCode::AND)
        } else if word == 17 {
            Some(OpCode::EQ)
        } else if word == 18 {
            Some(OpCode::NE)
        } else if word == 19 {
            Some(OpCode::LT)
        } else if word == 20 {
            Some(OpCode::GT)
        } else if word == 21 {
            Some(OpCode::LE)
        } else if word == 22 {
            Some(OpCode::GE)
        } else if word == 23 {
            Some(OpCode::SHL)
        } else if word == 24 {
            Some(OpCode::SHR)
        } else if word == 25 {
            Some(OpCode::ADD)
        } else if word == 26 {
            Some(OpCode::SUB)
        } else if word == 27 {
            Some(OpCode::MUL)
        } else if word == 28 {
            Some(OpCode::DIV)
        } else if word == 29 {
            Some(OpCode::MOD)
        } else if word == 30 {
            Some(OpCode::OPEN)
        } else if word == 31 {
            Some(OpCode::READ)
        } else if word == 32 {
            Some(OpCode::CLOS)
        } else if word == 33 {
            Some(OpCode::PRTF)
        } else if word == 34 {
            Some(OpCode::MALC)
        } else if word == 35 {
            Some(OpCode::FREE)
        } else if word == 36 {
            Some(OpCode::MSET)
        } else if word == 37 {
            Some(OpCode::MCMP)
        } else if word == 38 {
            Some(OpCode::EXIT)
        } else {
            None
        }
    }

    /// The opcode that a code word stands for, `None` for a word that is
    /// none.
    #[verifier::when_used_as_spec(spec_from_code)]
    pub fn from_code(word: i64) -> (op: Option<OpCode>)
        ensures
            op == OpCode::spec_from_code(word),
            op matches Some(o) ==> o.spec_code() == word,
            op is None <==> !(0 <= word <= 38),
    {
        if word == 0 {
            Some(OpCode::LEA)
        } else if word == 1 {
            Some(OpCode::IMM)
        } else if word == 2 {
            Some(OpCode::JMP)
        } else if word == 3 {
            Some(OpCode::JSR)
        } else if word == 4 {
            Some(OpCode::BZ)
        } else if word == 5 {
            Some(OpCode::BNZ)
        } else if word == 6 {
            Some(OpCode::ENT)
        } else if word == 7 {
            Some(OpCode::ADJ)
        } else if word == 8 {
            Some(OpCode::LEV)
        } else if word == 9 {
            Some(OpCode::LI)
        } else if word == 10 {
            Some(OpCode::LC)
        } else if word == 11 {
            Some(OpCode::SI)
        } else if word == 12 {
            Some(OpCode::SC)
        } else if word == 13 {
            Some(OpCode::PSH)
        } else if word == 14 {
            Some(OpCode::OR)
        } else if word == 15 {
            Some(OpCode::XOR)
        } else if word == 16 {
            Some(OpCode::AND)
        } else if word == 17 {
            Some(OpCode::EQ)
        } else if word == 18 {
            Some(OpCode::NE)
        } else if word == 19 {
            Some(OpCode::LT)
        } else if word == 20 {
            Some(OpCode::GT)
        } else if word == 21 {
            Some(OpCode::LE)
        } else if word == 22 {
            Some(OpCode::GE)
        } else if word == 23 {
            Some(OpCode::SHL)
        } else if word == 24 {
            Some(OpCode::SHR)
        } else if word == 25 {
            Some(OpCode::ADD)
        } else if word == 26 {
            Some(OpCode::SUB)
        } else if word == 27 {
            Some(OpCode::MUL)
        } else if word == 28 {
            Some(OpCode::DIV)
        } else if word == 29 {
            Some(OpCode::MOD)
        } else if word == 30 {
            Some(OpCode::OPEN)
        } else if word == 31 {
            Some(OpCode::READ)
        } else if word == 32 {
            Some(OpCode::CLOS)
        } else if word == 33 {
            Some(OpCode::PRTF)
        } else if word == 34 {
            Some(OpCode::MALC)
        } else if word == 35 {
            Some(OpCode::FREE)
        } else if word == 36 {
            Some(OpCode::MSET)
        } else if word == 37 {
            Some(OpCode::MCMP)
        } else if word == 38 {
            Some(OpCode::EXIT)
        } else {
            None
        }
    }

    /// Whether an operand word follows the opcode in the code.
    pub open spec fn spec_has_operand(self) -> bool {
        self.spec_code() <= 7
    }

    /// Whether an operand word follows the opcode in the code.
    #[verifier::when_used_as_spec(spec_has_operand)]
    pub fn has_operand(self) -> (b: bool)
        ensures
            b == self.spec_has_operand(),
    {
        self.code() <= 7
    }
}

/// Decoding inverts encoding.
pub proof fn law_decoding_inverts_encoding(op: OpCode)
    ensures
        OpCode::spec_from_code(op.spec_code()) == Some(op),
{
}

} // verus!
