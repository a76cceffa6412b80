//! The state of a compilation as a mathematical value, and the elementary
//! steps on it: emitting code words and appending data bytes.

use crate::opcode::OpCode;
use crate::symbol::SymbolView;
use crate::token::{TK_EOF, TK_ID};
use vstd::prelude::*;

verus! {

/// Longest source text that the compiler accepts, in bytes.
pub const MAX_SOURCE_LEN: usize = 0x100_0000;

/// Capacity of the code segment, in words. Word 0 is never an instruction.
pub const CODE_LIMIT: usize = 0x4_0000;

/// Capacity of the data segment, in bytes.
pub const DATA_LIMIT: usize = 0x4_0000;

/// Everything the compiler holds between two steps.
pub struct State {
    /// The source text.
    pub src: Seq<u8>,
    /// Position of the first byte that the lexer has not consumed.
    pub p: int,
    /// Line of `p`, counted from 1.
    pub line: int,
    /// The current token.
    pub token: i32,
    /// Value of a number token, data offset of a string token.
    pub token_val: i64,
    /// Index of the symbol of the last identifier or keyword token.
    pub id: int,
    /// Type of the expression compiled last.
    pub ty: i32,
    /// Frame index that local offsets are taken from.
    pub loc: i64,
    /// The code emitted so far; word 0 is a filler.
    pub code: Seq<i64>,
    /// The data segment filled so far.
    pub data: Seq<u8>,
    /// Whether a word or a byte was dropped because its segment was full.
    pub overflow: bool,
    pub symbols: Seq<SymbolView>,
}

/// Number of zero bytes that bring a length of `n` to a multiple of 8.
pub open spec fn pad_len(n: nat) -> nat {
    ((8 - n % 8) % 8) as nat
}

/// Whether a code word is one of the two loads, `LC` and `LI`.
pub open spec fn is_load(w: i64) -> bool {
    w == OpCode::LC.spec_code() || w == OpCode::LI.spec_code()
}

impl State {
    /// Whether the parts fit together: the cursor within the source, the
    /// line count within the cursor, the segments within their limits, the
    /// filler in place, and the symbol of an identifier token within the
    /// table.
    pub open spec fn wf(self) -> bool {
        &&& 0 <= self.p <= self.src.len() <= MAX_SOURCE_LEN
        &&& 1 <= self.line <= self.p + 1
        &&& 1 <= self.code.len() <= CODE_LIMIT
        &&& self.code[0] == 0
        &&& self.data.len() <= DATA_LIMIT
        &&& 0 <= self.id
        &&& self.token == TK_ID ==> self.id < self.symbols.len()
    }

    /// The byte at the cursor, 0 at the end of the source.
    pub open spec fn cur(self) -> u8 {
        if 0 <= self.p < self.src.len() {
            self.src[self.p]
        } else {
            0
        }
    }

    /// The byte `k` places after the cursor, 0 beyond the end of the source.
    pub open spec fn peek(self, k: int) -> u8 {
        if 0 <= self.p + k < self.src.len() {
            self.src[self.p + k]
        } else {
            0
        }
    }

    /// A measure that every consumed token lowers: twice the bytes left,
    /// plus one while the current token is not the end of input.
    pub open spec fn weight(self) -> int {
        2 * (self.src.len() - self.p) + if self.token != TK_EOF {
            1int
        } else {
            0int
        }
    }

    /// `self` is well formed and lighter than `old`: a token was consumed
    /// on the way from `old` to `self`.
    pub open spec fn advanced_from(self, old: State) -> bool {
        self.wf() && self.weight() < old.weight()
    }

    /// The state with another current token.
    pub open spec fn with_token(self, token: i32) -> State {
        State { token, ..self }
    }

    /// The state with another tracked type.
    pub open spec fn with_ty(self, ty: i32) -> State {
        State { ty, ..self }
    }

    /// The cursor moved forward by `k` bytes.
    pub open spec fn skip(self, k: int) -> State {
        State { p: self.p + k, ..self }
    }

    /// One word appended to the code, or the overflow flag raised where the
    /// code segment is full.
    pub open spec fn push_word(self, w: i64) -> State {
        if self.code.len() < CODE_LIMIT {
            State { code: self.code.push(w), ..self }
        } else {
            State { overflow: true, ..self }
        }
    }

    /// An instruction without operand appended to the code.
    pub open spec fn emit(self, op: OpCode) -> State {
        self.push_word(op.spec_code())
    }

    /// An instruction and its operand appended to the code.
    pub open spec fn emit_with_operand(self, op: OpCode, operand: i64) -> State {
        self.push_word(op.spec_code()).push_word(operand)
    }

    /// The word emitted last.
    pub open spec fn last_word(self) -> i64 {
        self.code.last()
    }

    /// Whether the word emitted last is a load, `LC` or `LI`.
    pub open spec fn ends_in_load(self) -> bool {
        is_load(self.last_word())
    }

    /// The word emitted last replaced by `w`.
    pub open spec fn set_last_word(self, w: i64) -> State {
        State { code: self.code.update(self.code.len() - 1, w), ..self }
    }

    /// The word emitted last taken back.
    pub open spec fn drop_last_word(self) -> State {
        State { code: self.code.drop_last(), ..self }
    }

    /// The operand slot at `at` filled with `target`.
    pub open spec fn patch(self, at: int, target: i64) -> State {
        if 0 <= at < self.code.len() {
            State { code: self.code.update(at, target), ..self }
        } else {
            self
        }
    }

    /// The address of the next word to be emitted.
    pub open spec fn here(self) -> i64 {
        self.code.len() as i64
    }

    /// One byte appended to the data, or the overflow flag raised where the
    /// data segment is full.
    pub open spec fn push_data(self, b: u8) -> State {
        if self.data.len() < DATA_LIMIT {
            State { data: self.data.push(b), ..self }
        } else {
            State { overflow: true, ..self }
        }
    }

    /// The bytes appended to the data one by one.
    pub open spec fn push_bytes(self, bytes: Seq<u8>) -> State
        decreases bytes.len(),
    {
        if bytes.len() == 0 {
            self
        } else {
            self.push_bytes(bytes.drop_last()).push_data(bytes.last())
        }
    }

    /// The data filled with zero bytes up to the next multiple of 8.
    pub open spec fn pad_data(self) -> State {
        State { data: self.data + Seq::new(pad_len(self.data.len()), |i: int| 0u8), ..self }
    }

    /// One zeroed word appended to the data, or the overflow flag raised
    /// where fewer than 8 bytes are left.
    pub open spec fn alloc_word(self) -> State {
        if self.data.len() + 8 <= DATA_LIMIT {
            State { data: self.data + Seq::new(8, |i: int| 0u8), ..self }
        } else {
            State { overflow: true, ..self }
        }
    }

    /// Symbol `i` replaced by `sym`.
    pub open spec fn set_symbol(self, i: int, sym: SymbolView) -> State {
        State { symbols: self.symbols.update(i, sym), ..self }
    }

    /// The symbol table and the data segment have only been extended since
    /// `old`: every symbol of `old` still has its index, its name, its hash
    /// and its token, and every byte of the data its offset.
    pub open spec fn retains(self, old: State) -> bool {
        &&& old.symbols.len() <= self.symbols.len()
        &&& forall|i: int|
            0 <= i < old.symbols.len() ==> {
                &&& (#[trigger] self.symbols[i]).name == old.symbols[i].name
                &&& self.symbols[i].hash == old.symbols[i].hash
                &&& self.symbols[i].token == old.symbols[i].token
            }
        &&& old.data.len() <= self.data.len()
        &&& forall|i: int| 0 <= i < old.data.len() ==> #[trigger] self.data[i] == old.data[i]
    }

    /// Unless a segment has overflowed, all the code of `old` is still in
    /// place.
    pub open spec fn keeps(self, old: State) -> bool {
        !self.overflow ==> {
            &&& !old.overflow
            &&& old.code.len() <= self.code.len()
            &&& forall|i: int| 0 <= i < old.code.len() ==> #[trigger] self.code[i] == old.code[i]
        }
    }

    /// Unless a segment has overflowed, all the code of `old` is still in
    /// place, and the first word that has come behind it, if any, is no
    /// load.
    pub open spec fn extends(self, old: State) -> bool {
        !self.overflow ==> {
            &&& self.keeps(old)
            &&& old.code.len() < self.code.len() ==> !is_load(self.code[old.code.len() as int])
        }
    }

    /// Unless a segment has overflowed, all the code of `old` is still in
    /// place and more has come behind it, whose first word is no load.
    pub open spec fn grows(self, old: State) -> bool {
        !self.overflow ==> {
            &&& self.extends(old)
            &&& old.code.len() < self.code.len()
        }
    }

    /// `self` is `old` after some tokens were consumed: same source, the
    /// cursor not behind, the table only extended.
    pub open spec fn follows(self, old: State) -> bool {
        &&& self.src == old.src
        &&& old.p <= self.p
        &&& old.symbols.len() <= self.symbols.len()
    }
}

} // verus!
