//! Token codes and the integer type lattice.
//!
//! A token is a plain `i32`. Codes below 128 are the ASCII code of a single
//! punctuation character; codes from 128 upward are the named kinds below.
//! The numbering of the operator kinds doubles as their precedence rank
//! (a larger code binds tighter), so the order of the constants matters.

use vstd::prelude::*;

verus! {

/// End of input.
pub const TK_EOF: i32 = 0;

/// A number; as a storage class, an enum constant.
pub const TK_NUM: i32 = 128;

/// Storage class of a function.
pub const TK_FUN: i32 = 129;

/// Storage class of a system call.
pub const TK_SYS: i32 = 130;

/// Storage class of a global variable.
pub const TK_GLO: i32 = 131;

/// Storage class of a local variable or parameter.
pub const TK_LOC: i32 = 132;

/// An identifier.
pub const TK_ID: i32 = 133;

// The keywords.

pub const TK_CHAR: i32 = 134;

pub const TK_ELSE: i32 = 135;

pub const TK_ENUM: i32 = 136;

pub const TK_IF: i32 = 137;

pub const TK_INT: i32 = 138;

pub const TK_RETURN: i32 = 139;

pub const TK_SIZEOF: i32 = 140;

pub const TK_WHILE: i32 = 141;

// The operators, from the loosest to the tightest.

pub const TK_ASSIGN: i32 = 142;

pub const TK_COND: i32 = 143;

pub const TK_LOR: i32 = 144;

pub const TK_LAN: i32 = 145;

pub const TK_OR: i32 = 146;

pub const TK_XOR: i32 = 147;

pub const TK_AND: i32 = 148;

pub const TK_EQ: i32 = 149;

pub const TK_NE: i32 = 150;

pub const TK_LT: i32 = 151;

pub const TK_GT: i32 = 152;

pub const TK_LE: i32 = 153;

pub const TK_GE: i32 = 154;

pub const TK_SHL: i32 = 155;

pub const TK_SHR: i32 = 156;

pub const TK_ADD: i32 = 157;

pub const TK_SUB: i32 = 158;

pub const TK_MUL: i32 = 159;

pub const TK_DIV: i32 = 160;

pub const TK_MOD: i32 = 161;

pub const TK_INC: i32 = 162;

pub const TK_DEC: i32 = 163;

pub const TK_BRAK: i32 = 164;

/// Token code of `!`.
pub const TK_NOT: i32 = 33;

/// Token code of a string literal: the code of the double quote.
pub const TK_STRING: i32 = 34;

/// Token code of `(`.
pub const TK_LPAREN: i32 = 40;

/// Token code of `)`.
pub const TK_RPAREN: i32 = 41;

/// Token code of `,`.
pub const TK_COMMA: i32 = 44;

/// Token code of `;`.
pub const TK_SEMI: i32 = 59;

/// Token code of `{`.
pub const TK_LBRACE: i32 = 123;

/// Token code of `}`.
pub const TK_RBRACE: i32 = 125;

/// Token code of `~`.
pub const TK_TILDE: i32 = 126;

/// Type code of `char`.
pub const TY_CHAR: i32 = 0;

/// Type code of `int`.
pub const TY_INT: i32 = 1;

/// Added to a type code once per level of pointer indirection.
pub const TY_PTR: i32 = 2;

/// Size in bytes of one machine word of the virtual machine.
pub const WORD_SIZE: i64 = 8;

// The bytes that the lexer tells apart, by their ASCII codes.

pub const CH_TAB: u8 = 9;

pub const CH_NEWLINE: u8 = 10;

pub const CH_VTAB: u8 = 11;

pub const CH_FORMFEED: u8 = 12;

pub const CH_RETURN: u8 = 13;

pub const CH_SPACE: u8 = 32;

pub const CH_BANG: u8 = 33;

pub const CH_DQUOTE: u8 = 34;

pub const CH_HASH: u8 = 35;

pub const CH_PERCENT: u8 = 37;

pub const CH_AMP: u8 = 38;

pub const CH_SQUOTE: u8 = 39;

pub const CH_STAR: u8 = 42;

pub const CH_PLUS: u8 = 43;

pub const CH_MINUS: u8 = 45;

pub const CH_SLASH: u8 = 47;

pub const CH_0: u8 = 48;

pub const CH_9: u8 = 57;

pub const CH_LESS: u8 = 60;

pub const CH_EQUAL: u8 = 61;

pub const CH_GREATER: u8 = 62;

pub const CH_QUESTION: u8 = 63;

pub const CH_UPPER_A: u8 = 65;

pub const CH_UPPER_F: u8 = 70;

pub const CH_UPPER_X: u8 = 88;

pub const CH_UPPER_Z: u8 = 90;

pub const CH_LBRACKET: u8 = 91;

pub const CH_BACKSLASH: u8 = 92;

pub const CH_CARET: u8 = 94;

pub const CH_UNDERSCORE: u8 = 95;

pub const CH_LOWER_A: u8 = 97;

pub const CH_LOWER_C: u8 = 99;

pub const CH_LOWER_D: u8 = 100;

pub const CH_LOWER_F: u8 = 102;

pub const CH_LOWER_N: u8 = 110;

pub const CH_LOWER_S: u8 = 115;

pub const CH_LOWER_X: u8 = 120;

pub const CH_LOWER_Z: u8 = 122;

pub const CH_PIPE: u8 = 124;

/// The named token kinds, which are also the storage classes of symbols.
#[derive(Clone, Copy, Debug, PartialEq, Eq, Structural)]
pub enum TokenType {
    Num,
    Fun,
    Sys,
    Glo,
    Loc,
    Id,
    Char,
    Else,
    Enum,
    If,
    Int,
    Return,
    Sizeof,
    While,
    Assign,
    Cond,
    Lor,
    Lan,
    Or,
    Xor,
    And,
    Eq,
    Ne,
    Lt,
    Gt,
    Le,
    Ge,
    Shl,
    Shr,
    Add,
    Sub,
    Mul,
    Div,
    Mod,
    Inc,
    Dec,
    Brak,
}

impl TokenType {
    /// The token code of a kind: 128 for `Num`, then one more per kind in
    /// declaration order.
    pub open spec fn spec_code(self) -> i32 {
        match self {
            TokenType::Num => TK_NUM,
            TokenType::Fun => TK_FUN,
            TokenType::Sys => TK_SYS,
            TokenType::Glo => TK_GLO,
            TokenType::Loc => TK_LOC,
            TokenType::Id => TK_ID,
            TokenType::Char => TK_CHAR,
            TokenType::Else => TK_ELSE,
            TokenType::Enum => TK_ENUM,
            TokenType::If => TK_IF,
            TokenType::Int => TK_INT,
            TokenType::Return => TK_RETURN,
            TokenType::Sizeof => TK_SIZEOF,
            TokenType::While => TK_WHILE,
            TokenType::Assign => TK_ASSIGN,
            TokenType::Cond => TK_COND,
            TokenType::Lor => TK_LOR,
            TokenType::Lan => TK_LAN,
            TokenType::Or => TK_OR,
            TokenType::Xor => TK_XOR,
            TokenType::And => TK_AND,
            TokenType::Eq => TK_EQ,
            TokenType::Ne => TK_NE,
            TokenType::Lt => TK_LT,
            TokenType::Gt => TK_GT,
            TokenType::Le => TK_LE,
            TokenType::Ge => TK_GE,
            TokenType::Shl => TK_SHL,
            TokenType::Shr => TK_SHR,
            TokenType::Add => TK_ADD,
            TokenType::Sub => TK_SUB,
            TokenType::Mul => TK_MUL,
            TokenType::Div => TK_DIV,
            TokenType::Mod => TK_MOD,
            TokenType::Inc => TK_INC,
            TokenType::Dec => TK_DEC,
            TokenType::Brak => TK_BRAK,
        }
    }

    /// The token code of a kind.
    #[verifier::when_used_as_spec(spec_code)]
    pub fn code(self) -> (c: i32)
        ensures
            c == self.spec_code(),
            128 <= c <= 164,
    {
        match self {
            TokenType::Num => TK_NUM,
            TokenType::Fun => TK_FUN,
            TokenType::Sys => TK_SYS,
            TokenType::Glo => TK_GLO,
            TokenType::Loc => TK_LOC,
            TokenType::Id => TK_ID,
            TokenType::Char => TK_CHAR,
            TokenType::Else => TK_ELSE,
            TokenType::Enum => TK_ENUM,
            TokenType::If => TK_IF,
            TokenType::Int => TK_INT,
            TokenType::Return => TK_RETURN,
            TokenType::Sizeof => TK_SIZEOF,
            TokenType::While => TK_WHILE,
            TokenType::Assign => TK_ASSIGN,
            TokenType::Cond => TK_COND,
            TokenType::Lor => TK_LOR,
            TokenType::Lan => TK_LAN,
            TokenType::Or => TK_OR,
            TokenType::Xor => TK_XOR,
            TokenType::And => TK_AND,
            TokenType::Eq => TK_EQ,
            TokenType::Ne => TK_NE,
            TokenType::Lt => TK_LT,
            TokenType::Gt => TK_GT,
            TokenType::Le => TK_LE,
            TokenType::Ge => TK_GE,
            TokenType::Shl => TK_SHL,
            TokenType::Shr => TK_SHR,
            TokenType::Add => TK_ADD,
            TokenType::Sub => TK_SUB,
            TokenType::Mul => TK_MUL,
            TokenType::Div => TK_DIV,
            TokenType::Mod => TK_MOD,
            TokenType::Inc => TK_INC,
            TokenType::Dec => TK_DEC,
            TokenType::Brak => TK_BRAK,
        }
    }
}

/// The three base points of the type lattice: `CHAR` < `INT` < `PTR`, where
/// `PTR` is both "pointer to char" and the step added per indirection level.
#[allow(non_camel_case_types)]
#[derive(Clone, Copy, Debug, PartialEq, Eq, Structural)]
pub enum Type {
    CHAR,
    INT,
    PTR,
}

impl Type {
    /// The type code: 0, 1 and 2.
    pub open spec fn spec_code(self) -> i32 {
        match self {
            Type::CHAR => TY_CHAR,
            Type::INT => TY_INT,
            Type::PTR => TY_PTR,
        }
    }

    /// The type code.
    #[verifier::when_used_as_spec(spec_code)]
    pub fn code(self) -> (c: i32)
        ensures
            c == self.spec_code(),
    {
        match self {
            Type::CHAR => TY_CHAR,
            Type::INT => TY_INT,
            Type::PTR => TY_PTR,
        }
    }
}

/// Size in bytes of an object of type `ty`: one byte for `char`, one
/// machine word for everything else.
pub open spec fn spec_size_of(ty: i32) -> i64 {
    if ty == TY_CHAR {
        1
    } else {
        WORD_SIZE
    }
}

/// Size in bytes of an object of type `ty`.
#[verifier::when_used_as_spec(spec_size_of)]
pub fn size_of(ty: i32) -> (n: i64)
    ensures
        n == spec_size_of(ty),
{
    if ty == TY_CHAR {
        1
    } else {
        WORD_SIZE
    }
}

} // verus!
