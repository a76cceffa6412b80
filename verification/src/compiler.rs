//! The compiler's working state and its elementary operations: the cursor
//! in the source, the symbol table and the code buffer.

use crate::opcode::OpCode;
use crate::state::{CODE_LIMIT, DATA_LIMIT, State, pad_len};
use crate::symbol::{
    Symbol, SymbolView, copy_bytes, find, find_in, lemma_find_from, lemma_find_from_push,
    name_hash, symbol_hash, symbols_view,
};
use crate::token::{
    TK_CHAR, TK_ELSE, TK_ENUM, TK_EOF, TK_ID, TK_IF, TK_INT, TK_RETURN, TK_SIZEOF, TK_SYS,
    TK_WHILE, TY_CHAR, TY_INT,
};
use vstd::prelude::*;
use vstd::string::*;

verus! {

/// A compilation in progress: lexer, symbol table and code generator share
/// this one value.
pub struct C4 {
    /// Position of the first byte of `source` not consumed yet.
    pub p: usize,
    pub source: Vec<u8>,
    /// The code emitted so far. Word 0 is a filler, so that no instruction
    /// has address 0.
    pub e: Vec<i64>,
    pub symbols: Vec<Symbol>,
    /// The current token.
    pub token: i32,
    /// Value of a number token, data offset of a string token.
    pub token_val: i64,
    /// Type of the expression compiled last.
    pub type_: i32,
    /// Frame index that local offsets are taken from.
    pub loc: i64,
    /// Line of `p`, from 1.
    pub line: i32,
    /// The data segment filled so far.
    pub data: Vec<u8>,
    /// Index of the symbol of the last identifier or keyword token.
    pub id: usize,
    /// Set once a word or a byte had to be dropped because its segment was
    /// full; the program is then refused.
    pub overflow: bool,
}

impl View for C4 {
    type V = State;

    open spec fn view(&self) -> State {
        State {
            src: self.source@,
            p: self.p as int,
            line: self.line as int,
            token: self.token,
            token_val: self.token_val,
            id: self.id as int,
            ty: self.type_,
            loc: self.loc,
            code: self.e@,
            data: self.data@,
            overflow: self.overflow,
            symbols: symbols_view(self.symbols@),
        }
    }
}

impl State {
    /// The state of a compiler that has read and emitted nothing.
    pub open spec fn initial() -> State {
        State {
            src: Seq::empty(),
            p: 0,
            line: 1,
            token: TK_EOF,
            token_val: 0,
            id: 0,
            ty: TY_CHAR,
            loc: 0,
            code: seq![0i64],
            data: Seq::empty(),
            overflow: false,
            symbols: Seq::empty(),
        }
    }

    /// A symbol appended to the table.
    pub open spec fn add_symbol(self, sym: SymbolView) -> State {
        State { symbols: self.symbols.push(sym), ..self }
    }

    /// A keyword appended to the table: the lexer returns `token` for it.
    pub open spec fn add_keyword(self, name: Seq<u8>, token: i32) -> State {
        self.add_symbol(SymbolView::unbound(token, name))
    }

    /// A system call appended to the table: an identifier of class `Sys`
    /// and type `int`, whose value is the call's opcode.
    pub open spec fn add_syscall(self, name: Seq<u8>, code: i32) -> State {
        self.add_symbol(SymbolView::unbound(TK_ID, name).bind(TK_SYS, TY_INT, code as i64))
    }

    /// The keywords, then the system calls, then `void`, appended to the
    /// table in this order.
    pub open spec fn init_symbols(self) -> State {
        self.add_keyword("char".spec_bytes(), TK_CHAR).add_keyword(
            "else".spec_bytes(),
            TK_ELSE,
        ).add_keyword("enum".spec_bytes(), TK_ENUM).add_keyword(
            "if".spec_bytes(),
            TK_IF,
        ).add_keyword("int".spec_bytes(), TK_INT).add_keyword(
            "return".spec_bytes(),
            TK_RETURN,
        ).add_keyword("sizeof".spec_bytes(), TK_SIZEOF).add_keyword(
            "while".spec_bytes(),
            TK_WHILE,
        ).add_syscall("open".spec_bytes(), syscall_code(OpCode::OPEN)).add_syscall(
            "read".spec_bytes(),
            syscall_code(OpCode::READ),
        ).add_syscall("close".spec_bytes(), syscall_code(OpCode::CLOS)).add_syscall(
            "printf".spec_bytes(),
            syscall_code(OpCode::PRTF),
        ).add_syscall("malloc".spec_bytes(), syscall_code(OpCode::MALC)).add_syscall(
            "free".spec_bytes(),
            syscall_code(OpCode::FREE),
        ).add_syscall("memset".spec_bytes(), syscall_code(OpCode::MSET)).add_syscall(
            "memcmp".spec_bytes(),
            syscall_code(OpCode::MCMP),
        ).add_syscall("exit".spec_bytes(), syscall_code(OpCode::EXIT)).add_keyword(
            "void".spec_bytes(),
            TK_CHAR,
        )
    }
}

/// The code of a system call's instruction, as the symbol table holds it.
pub open spec fn syscall_code(op: OpCode) -> i32 {
    op.spec_code() as i32
}

/// The code of a system call's instruction.
fn code_of_syscall(op: OpCode) -> (c: i32)
    ensures
        c == syscall_code(op),
{
    op.code() as i32
}

/// The view of a table after a push.
pub proof fn lemma_symbols_view_push(table: Seq<Symbol>, sym: Symbol)
    ensures
        symbols_view(table.push(sym)) == symbols_view(table).push(sym@),
{
    assert(symbols_view(table.push(sym)) =~= symbols_view(table).push(sym@));
}

/// The view of a table after one entry was replaced.
pub proof fn lemma_symbols_view_update(table: Seq<Symbol>, i: int, sym: Symbol)
    requires
        0 <= i < table.len(),
    ensures
        symbols_view(table.update(i, sym)) == symbols_view(table).update(i, sym@),
{
    assert(symbols_view(table.update(i, sym)) =~= symbols_view(table).update(i, sym@));
}

impl C4 {
    /// Whether the fields fit together: the cursor within the source, the
    /// line count within the cursor, the segments within their limits, and
    /// the symbol of an identifier token within the table.
    pub open spec fn wf(&self) -> bool {
        self@.wf()
    }

    /// A compiler with no source, an empty symbol table and no code.
    pub fn new() -> (c: C4)
        ensures
            c@ == State::initial(),
            c.wf(),
    {
        let c = C4 {
            p: 0,
            source: Vec::new(),
            e: vec![0i64],
            symbols: Vec::new(),
            token: TK_EOF,
            token_val: 0,
            type_: TY_CHAR,
            loc: 0,
            line: 1,
            data: Vec::new(),
            id: 0,
            overflow: false,
        };
        assert(c@.src =~= Seq::<u8>::empty());
        assert(c@.data =~= Seq::<u8>::empty());
        assert(c@.symbols =~= Seq::<SymbolView>::empty());
        assert(c@.code =~= seq![0i64]);
        c
    }

    /// The character at the cursor, `'\0'` at the end of the source.
    pub fn current_char(&self) -> (c: char)
        ensures
            c == self@.cur() as char,
    {
        self.peek_char(0) as char
    }

    /// The byte `k` places after the cursor, 0 beyond the end of the source.
    pub fn peek_char(&self, k: usize) -> (c: u8)
        ensures
            c == self@.peek(k as int),
    {
        if self.p < self.source.len() && k < self.source.len() - self.p {
            self.source[self.p + k]
        } else {
            0
        }
    }

    /// Moves the cursor one byte forward, unless it is at the end of the
    /// source, and returns the character then at the cursor.
    pub fn next_char(&mut self) -> (c: char)
        ensures
            final(self)@ == (if old(self).p < old(self).source.len() {
                old(self)@.skip(1)
            } else {
                old(self)@
            }),
            c == final(self)@.cur() as char,
    {
        if self.p < self.source.len() {
            self.p += 1;
        }
        self.current_char()
    }

    /// Appends a symbol to the table.
    fn push_symbol(&mut self, sym: Symbol)
        ensures
            final(self)@ == old(self)@.add_symbol(sym@),
            old(self).wf() ==> final(self).wf(),
    {
        proof {
            lemma_symbols_view_push(self.symbols@, sym);
        }
        self.symbols.push(sym);
    }

    /// Appends the keyword `name` to the symbol table; the lexer returns
    /// `token` for it.
    pub fn add_keyword(&mut self, name: &str, token: i32)
        ensures
            final(self)@ == old(self)@.add_keyword(name.spec_bytes(), token),
            old(self).wf() ==> final(self).wf(),
    {
        let bytes = name.as_bytes();
        let sym = Symbol {
            token,
            hash: name_hash(bytes),
            name: copy_bytes(bytes),
            class: 0,
            type_: 0,
            value: 0,
            h_class: 0,
            h_type: 0,
            h_val: 0,
        };
        self.push_symbol(sym);
    }

    /// Appends the system call `name` to the symbol table, with the opcode
    /// `code` as its value.
    pub fn add_syscall(&mut self, name: &str, code: i32)
        ensures
            final(self)@ == old(self)@.add_syscall(name.spec_bytes(), code),
            old(self).wf() ==> final(self).wf(),
    {
        let bytes = name.as_bytes();
        let sym = Symbol {
            token: TK_ID,
            hash: name_hash(bytes),
            name: copy_bytes(bytes),
            class: TK_SYS,
            type_: TY_INT,
            value: code as i64,
            h_class: 0,
            h_type: 0,
            h_val: 0,
        };
        self.push_symbol(sym);
    }

    /// Fills the symbol table with the keywords and the system calls.
    pub fn init_symbol_table(&mut self)
        ensures
            final(self)@ == old(self)@.init_symbols(),
            old(self).wf() ==> final(self).wf(),
    {
        self.add_keyword("char", TK_CHAR);
        self.add_keyword("else", TK_ELSE);
        self.add_keyword("enum", TK_ENUM);
        self.add_keyword("if", TK_IF);
        self.add_keyword("int", TK_INT);
        self.add_keyword("return", TK_RETURN);
        self.add_keyword("sizeof", TK_SIZEOF);
        self.add_keyword("while", TK_WHILE);
        self.add_syscall("open", code_of_syscall(OpCode::OPEN));
        self.add_syscall("read", code_of_syscall(OpCode::READ));
        self.add_syscall("close", code_of_syscall(OpCode::CLOS));
        self.add_syscall("printf", code_of_syscall(OpCode::PRTF));
        self.add_syscall("malloc", code_of_syscall(OpCode::MALC));
        self.add_syscall("free", code_of_syscall(OpCode::FREE));
        self.add_syscall("memset", code_of_syscall(OpCode::MSET));
        self.add_syscall("memcmp", code_of_syscall(OpCode::MCMP));
        self.add_syscall("exit", code_of_syscall(OpCode::EXIT));
        self.add_keyword("void", TK_CHAR);
    }

    /// Index of the first symbol with this hash and this name.
    pub fn find_symbol(&self, hash: i32, name: &str) -> (r: Option<usize>)
        ensures
            match r {
                Some(i) => i < self.symbols.len() && find(
                    self@.symbols,
                    hash,
                    name.spec_bytes(),
                ) == Some(i as int),
                None => find(self@.symbols, hash, name.spec_bytes()) is None,
            },
    {
        find_in(&self.symbols, hash, name.as_bytes())
    }

    /// Index of the symbol named `name`, which is appended to the table as
    /// an unbound identifier where there is none yet.
    pub fn intern(&mut self, name: &[u8]) -> (i: usize)
        ensures
            i < final(self).symbols.len(),
            final(self)@.symbols[i as int].name == name@,
            match find(old(self)@.symbols, symbol_hash(name@), name@) {
                Some(k) => i == k && final(self)@ == old(self)@,
                None => i == old(self)@.symbols.len() && final(self)@ == old(self)@.add_symbol(
                    SymbolView::unbound(TK_ID, name@),
                ),
            },
            find(final(self)@.symbols, symbol_hash(name@), name@) == Some(i as int),
            old(self).wf() ==> final(self).wf(),
    {
        let hash = name_hash(name);
        proof {
            lemma_find_from(self@.symbols, hash, name@, 0);
        }
        match find_in(&self.symbols, hash, name) {
            Some(i) => i,
            None => {
                let i = self.symbols.len();
                let sym = Symbol {
                    token: TK_ID,
                    hash,
                    name: copy_bytes(name),
                    class: 0,
                    type_: 0,
                    value: 0,
                    h_class: 0,
                    h_type: 0,
                    h_val: 0,
                };
                proof {
                    lemma_find_from_push(self@.symbols, sym@, hash, name@, 0);
                }
                self.push_symbol(sym);
                i
            },
        }
    }

    /// Saves class, type and value of symbol `i` in its shadow fields.
    pub fn shadow(&mut self, i: usize)
        requires
            i < old(self)@.symbols.len(),
        ensures
            final(self)@ == old(self)@.set_symbol(i as int, old(self)@.symbols[i as int].shadow()),
            old(self).wf() ==> final(self).wf(),
    {
        let ghost before = self.symbols@;
        self.symbols[i].h_class = self.symbols[i].class;
        self.symbols[i].h_type = self.symbols[i].type_;
        self.symbols[i].h_val = self.symbols[i].value;
        proof {
            assert(self.symbols@ =~= before.update(i as int, self.symbols@[i as int]));
            lemma_symbols_view_update(before, i as int, self.symbols@[i as int]);
        }
    }

    /// Restores class, type and value of symbol `i` from its shadow fields.
    pub fn unshadow(&mut self, i: usize)
        requires
            i < old(self)@.symbols.len(),
        ensures
            final(self)@ == old(self)@.set_symbol(
                i as int,
                old(self)@.symbols[i as int].unshadow(),
            ),
            old(self).wf() ==> final(self).wf(),
    {
        let ghost before = self.symbols@;
        self.symbols[i].class = self.symbols[i].h_class;
        self.symbols[i].type_ = self.symbols[i].h_type;
        self.symbols[i].value = self.symbols[i].h_val;
        proof {
            assert(self.symbols@ =~= before.update(i as int, self.symbols@[i as int]));
            lemma_symbols_view_update(before, i as int, self.symbols@[i as int]);
        }
    }

    /// Gives symbol `i` a class, a type and a value.
    pub fn bind(&mut self, i: usize, class: i32, type_: i32, value: i64)
        requires
            i < old(self)@.symbols.len(),
        ensures
            final(self)@ == old(self)@.set_symbol(
                i as int,
                old(self)@.symbols[i as int].bind(class, type_, value),
            ),
            old(self).wf() ==> final(self).wf(),
    {
        let ghost before = self.symbols@;
        self.symbols[i].class = class;
        self.symbols[i].type_ = type_;
        self.symbols[i].value = value;
        proof {
            assert(self.symbols@ =~= before.update(i as int, self.symbols@[i as int]));
            lemma_symbols_view_update(before, i as int, self.symbols@[i as int]);
        }
    }

    /// Appends one word to the code, or raises `overflow` where the code
    /// segment is full.
    pub fn emit_word(&mut self, w: i64)
        ensures
            final(self)@ == old(self)@.push_word(w),
            old(self).wf() ==> final(self).wf(),
    {
        if self.e.len() < CODE_LIMIT {
            self.e.push(w);
        } else {
            self.overflow = true;
        }
    }

    /// Emits an instruction without operand.
    pub fn emit(&mut self, op: OpCode)
        ensures
            final(self)@ == old(self)@.emit(op),
            old(self).wf() ==> final(self).wf(),
    {
        self.emit_word(op.code());
    }

    /// Emits an instruction and its operand.
    pub fn emit_with_operand(&mut self, op: OpCode, operand: i64)
        ensures
            final(self)@ == old(self)@.emit_with_operand(op, operand),
            old(self).wf() ==> final(self).wf(),
    {
        self.emit_word(op.code());
        self.emit_word(operand);
    }

    /// Whether the word emitted last is a load, `LC` or `LI`.
    pub fn ends_in_load(&self) -> (b: bool)
        requires
            self.wf(),
        ensures
            b == self@.ends_in_load(),
            b ==> self.e.len() >= 2,
    {
        let w = self.e[self.e.len() - 1];
        w == OpCode::LC.code() || w == OpCode::LI.code()
    }

    /// Replaces the word emitted last.
    pub fn set_last_word(&mut self, w: i64)
        requires
            old(self).wf(),
            old(self).e.len() >= 2,
        ensures
            final(self)@ == old(self)@.set_last_word(w),
            final(self).wf(),
    {
        let n = self.e.len();
        self.e[n - 1] = w;
    }

    /// Takes back the word emitted last.
    pub fn drop_last_word(&mut self)
        requires
            old(self).wf(),
            old(self).e.len() >= 2,
        ensures
            final(self)@ == old(self)@.drop_last_word(),
            final(self).wf(),
    {
        self.e.pop();
    }

    /// The address of the next word to be emitted.
    pub fn here(&self) -> (a: i64)
        requires
            self.wf(),
        ensures
            a == self@.here(),
            a == self.e.len(),
    {
        self.e.len() as i64
    }

    /// Writes `target` into the operand slot at `at`.
    pub fn patch(&mut self, at: usize, target: i64)
        requires
            old(self).wf(),
            at >= 1,
        ensures
            final(self)@ == old(self)@.patch(at as int, target),
            final(self).wf(),
    {
        if at < self.e.len() {
            self.e[at] = target;
        }
    }

    /// Appends one byte to the data, or raises `overflow` where the data
    /// segment is full.
    pub fn push_data(&mut self, b: u8)
        ensures
            final(self)@ == old(self)@.push_data(b),
            old(self).wf() ==> final(self).wf(),
    {
        if self.data.len() < DATA_LIMIT {
            self.data.push(b);
        } else {
            self.overflow = true;
        }
    }

    /// Fills the data with zero bytes up to the next multiple of 8.
    pub fn pad_data(&mut self)
        requires
            old(self).wf(),
        ensures
            final(self)@ == old(self)@.pad_data(),
            final(self).wf(),
    {
        let ghost before = self@;
        let ghost mut k: nat = 0;
        while self.data.len() % 8 != 0
            invariant
                self.wf(),
                self@ == (State { data: self@.data, ..before }),
                self@.data =~= before.data + Seq::new(k, |i: int| 0u8),
                k + pad_len(self@.data.len()) == pad_len(before.data.len()),
            decreases pad_len(self@.data.len()),
        {
            self.data.push(0);
            proof {
                k = k + 1;
            }
        }
        assert(self@.data =~= before.pad_data().data);
    }

    /// Appends one zeroed word to the data, or raises `overflow` where fewer
    /// than 8 bytes are left.
    pub fn alloc_word(&mut self)
        requires
            old(self).wf(),
        ensures
            final(self)@ == old(self)@.alloc_word(),
            final(self).wf(),
    {
        if self.data.len() + 8 <= DATA_LIMIT {
            let ghost before = self@;
            let mut k: usize = 0;
            while k < 8
                invariant
                    k <= 8,
                    before.wf(),
                    before.data.len() + 8 <= DATA_LIMIT,
                    self@ == (State { data: self@.data, ..before }),
                    self@.data =~= before.data + Seq::new(k as nat, |i: int| 0u8),
                decreases 8 - k,
            {
                self.data.push(0);
                k += 1;
            }
        } else {
            self.overflow = true;
        }
    }
}

} // verus!
