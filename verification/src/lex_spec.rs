//! What the lexer does, as functions on the compilation state.

use crate::state::{DATA_LIMIT, State};
use crate::symbol::{SymbolView, find, lemma_find_from, symbol_hash};
use crate::token::{
    CH_0, CH_9, CH_AMP, CH_BACKSLASH, CH_BANG, CH_CARET, CH_DQUOTE, CH_EQUAL, CH_FORMFEED,
    CH_GREATER, CH_HASH, CH_LBRACKET, CH_LESS, CH_LOWER_A, CH_LOWER_F, CH_LOWER_N, CH_LOWER_X,
    CH_LOWER_Z, CH_MINUS, CH_NEWLINE, CH_PERCENT, CH_PIPE, CH_PLUS, CH_QUESTION, CH_RETURN,
    CH_SLASH, CH_SPACE, CH_SQUOTE, CH_STAR, CH_TAB, CH_UNDERSCORE, CH_UPPER_A, CH_UPPER_F,
    CH_UPPER_X, CH_UPPER_Z, CH_VTAB, TK_ADD, TK_AND, TK_ASSIGN, TK_BRAK, TK_COND, TK_DEC,
    TK_DIV, TK_EOF, TK_EQ, TK_GE, TK_GT, TK_ID, TK_INC, TK_LAN, TK_LE, TK_LOR, TK_LT, TK_MOD,
    TK_MUL, TK_NE, TK_NOT, TK_NUM, TK_OR, TK_SHL, TK_SHR, TK_STRING, TK_SUB, TK_XOR,
};
use vstd::prelude::*;

verus! {

/// Blank other than the newline: space, tab, vertical tab, form feed and
/// carriage return.
pub open spec fn is_space(c: u8) -> bool {
    c == CH_SPACE || c == CH_TAB || c == CH_VTAB || c == CH_FORMFEED || c == CH_RETURN
}

/// A letter or the underscore.
pub open spec fn is_ident_char(c: u8) -> bool {
    (CH_LOWER_A <= c <= CH_LOWER_Z) || (CH_UPPER_A <= c <= CH_UPPER_Z) || c == CH_UNDERSCORE
}

/// A decimal digit.
pub open spec fn is_digit(c: u8) -> bool {
    CH_0 <= c <= CH_9
}

/// The value of `c` as a digit in base 8, 10 or 16.
pub open spec fn digit_of(c: u8, radix: i64) -> Option<i64> {
    if CH_0 <= c <= CH_9 && c - CH_0 < radix {
        Some((c - CH_0) as i64)
    } else if radix == 16 && CH_LOWER_A <= c <= CH_LOWER_F {
        Some((c - CH_LOWER_A + 10) as i64)
    } else if radix == 16 && CH_UPPER_A <= c <= CH_UPPER_F {
        Some((c - CH_UPPER_A + 10) as i64)
    } else {
        None
    }
}

/// End of the run of identifier bytes that starts at `q`.
pub open spec fn ident_end(src: Seq<u8>, q: int) -> int
    decreases src.len() - q,
{
    if 0 <= q < src.len() && is_ident_char(src[q]) {
        ident_end(src, q + 1)
    } else {
        q
    }
}

/// The digits from `q` on folded into `acc` in wrapping arithmetic, and
/// where they end.
pub open spec fn scan_digits(src: Seq<u8>, q: int, radix: i64, acc: i64) -> (i64, int)
    decreases src.len() - q,
{
    if 0 <= q < src.len() {
        match digit_of(src[q], radix) {
            Some(d) => scan_digits(src, q + 1, radix, acc.wrapping_mul(radix).wrapping_add(d)),
            None => (acc, q),
        }
    } else {
        (acc, q)
    }
}

/// The byte that `\` followed by `e` denotes: the newline for `n`, else `e`.
pub open spec fn escaped(e: u8) -> u8 {
    if e == CH_LOWER_N {
        CH_NEWLINE
    } else {
        e
    }
}

/// The bytes that a quoted literal denotes, appended to `acc`, and the
/// position of the closing quote (or the end of the source).
pub open spec fn scan_quoted(src: Seq<u8>, q: int, quote: u8, acc: Seq<u8>) -> (Seq<u8>, int)
    decreases src.len() - q,
{
    if 0 <= q < src.len() && src[q] != quote {
        if src[q] == CH_BACKSLASH && q + 1 < src.len() {
            scan_quoted(src, q + 2, quote, acc.push(escaped(src[q + 1])))
        } else {
            scan_quoted(src, q + 1, quote, acc.push(src[q]))
        }
    } else {
        (acc, q)
    }
}

/// The token code and the length of the operator or punctuation that
/// starts with `c`, given the byte `d` that follows it. Any other ASCII byte
/// is a token of its own code; a byte outside ASCII is the token 256 plus the
/// byte, which is none of the named kinds.
pub open spec fn operator_token(c: u8, d: u8) -> (i32, int) {
    if c == CH_SLASH {
        (TK_DIV, 1)
    } else if c == CH_EQUAL {
        if d == CH_EQUAL {
            (TK_EQ, 2)
        } else {
            (TK_ASSIGN, 1)
        }
    } else if c == CH_PLUS {
        if d == CH_PLUS {
            (TK_INC, 2)
        } else {
            (TK_ADD, 1)
        }
    } else if c == CH_MINUS {
        if d == CH_MINUS {
            (TK_DEC, 2)
        } else {
            (TK_SUB, 1)
        }
    } else if c == CH_BANG {
        if d == CH_EQUAL {
            (TK_NE, 2)
        } else {
            (TK_NOT, 1)
        }
    } else if c == CH_LESS {
        if d == CH_EQUAL {
            (TK_LE, 2)
        } else if d == CH_LESS {
            (TK_SHL, 2)
        } else {
            (TK_LT, 1)
        }
    } else if c == CH_GREATER {
        if d == CH_EQUAL {
            (TK_GE, 2)
        } else if d == CH_GREATER {
            (TK_SHR, 2)
        } else {
            (TK_GT, 1)
        }
    } else if c == CH_PIPE {
        if d == CH_PIPE {
            (TK_LOR, 2)
        } else {
            (TK_OR, 1)
        }
    } else if c == CH_AMP {
        if d == CH_AMP {
            (TK_LAN, 2)
        } else {
            (TK_AND, 1)
        }
    } else if c == CH_CARET {
        (TK_XOR, 1)
    } else if c == CH_PERCENT {
        (TK_MOD, 1)
    } else if c == CH_STAR {
        (TK_MUL, 1)
    } else if c == CH_LBRACKET {
        (TK_BRAK, 1)
    } else if c == CH_QUESTION {
        (TK_COND, 1)
    } else if c < 128 {
        (c as i32, 1)
    } else {
        ((c + 256) as i32, 1)
    }
}

impl State {
    /// An identifier or keyword starts at the cursor: the symbol of its name
    /// is looked up, and appended to the table as an unbound identifier
    /// where there is none.
    pub open spec fn scan_ident(self) -> State {
        let end = ident_end(self.src, self.p + 1);
        let name = self.src.subrange(self.p, end);
        match find(self.symbols, symbol_hash(name), name) {
            Some(i) => State { p: end, token: self.symbols[i].token, id: i, ..self },
            None => State {
                p: end,
                token: TK_ID,
                id: self.symbols.len() as int,
                symbols: self.symbols.push(SymbolView::unbound(TK_ID, name)),
                ..self
            },
        }
    }

    /// A number starts at the cursor: `0x` or `0X` and hexadecimal digits, or
    /// `0` and octal digits, or decimal digits.
    pub open spec fn scan_number(self) -> State {
        let c = self.cur();
        let q = self.p + 1;
        let (v, end) = if c == CH_0 {
            if self.peek(1) == CH_LOWER_X || self.peek(1) == CH_UPPER_X {
                scan_digits(self.src, q + 1, 16, 0)
            } else {
                scan_digits(self.src, q, 8, 0)
            }
        } else {
            scan_digits(self.src, q, 10, (c - CH_0) as i64)
        };
        State { p: end, token: TK_NUM, token_val: v, ..self }
    }

    /// Where the cursor stands after a quoted literal whose closing quote is
    /// at `close`: behind the quote, or at the end of the source where the
    /// quote is missing.
    pub open spec fn after_quote(self, close: int) -> int {
        if close < self.src.len() {
            close + 1
        } else {
            close
        }
    }

    /// A string literal starts at the cursor: its bytes go to the data
    /// segment, which is then padded to a multiple of 8, and the token
    /// carries the offset at which they start.
    pub open spec fn scan_string(self) -> State {
        let (bytes, close) = scan_quoted(self.src, self.p + 1, CH_DQUOTE, Seq::empty());
        State {
            p: self.after_quote(close),
            token: TK_STRING,
            token_val: self.data.len() as i64,
            ..self
        }.push_bytes(bytes).pad_data()
    }

    /// A character literal starts at the cursor: a number token whose value
    /// is the last byte between the quotes, 0 where there is none.
    pub open spec fn scan_char(self) -> State {
        let (bytes, close) = scan_quoted(self.src, self.p + 1, CH_SQUOTE, Seq::empty());
        State {
            p: self.after_quote(close),
            token: TK_NUM,
            token_val: if bytes.len() == 0 {
                0
            } else {
                bytes.last() as i64
            },
            ..self
        }
    }

    /// An operator or a punctuation character starts at the cursor; the
    /// longest operator wins.
    pub open spec fn scan_operator(self) -> State {
        let (token, n) = operator_token(self.cur(), self.peek(1));
        State { p: self.p + n, token, ..self }
    }

    /// A token starts at the cursor.
    pub open spec fn scan(self) -> State {
        let c = self.cur();
        if is_ident_char(c) {
            self.scan_ident()
        } else if is_digit(c) {
            self.scan_number()
        } else if c == CH_DQUOTE {
            self.scan_string()
        } else if c == CH_SQUOTE {
            self.scan_char()
        } else {
            self.scan_operator()
        }
    }

    /// The rest of a comment line is passed over, then the next token read.
    pub open spec fn skip_line(self) -> State
        decreases self.src.len() - self.p, 1int,
    {
        if 0 <= self.p < self.src.len() && self.cur() != CH_NEWLINE {
            self.skip(1).skip_line()
        } else {
            self.next()
        }
    }

    /// The state after the next token was read: blanks, `#` lines and `//`
    /// comments are passed over and each newline counted; at the end of the
    /// source the token is `TK_EOF`.
    pub open spec fn next(self) -> State
        decreases self.src.len() - self.p, 0int,
    {
        if !(0 <= self.p < self.src.len()) {
            self.with_token(TK_EOF)
        } else if self.cur() == CH_NEWLINE {
            State { p: self.p + 1, line: self.line + 1, ..self }.next()
        } else if is_space(self.cur()) {
            self.skip(1).next()
        } else if self.cur() == CH_HASH {
            self.skip(1).skip_line()
        } else if self.cur() == CH_SLASH && self.peek(1) == CH_SLASH {
            self.skip(2).skip_line()
        } else {
            self.scan()
        }
    }

    /// `self` is `old` after some tokens were read and nothing else done:
    /// the lexer leaves alone what the code generator writes, but for the
    /// data segment, which a string literal extends.
    pub open spec fn after(self, old: State) -> bool {
        &&& self.follows(old)
        &&& self.ty == old.ty
        &&& self.loc == old.loc
        &&& self.code == old.code
        &&& old.data.len() <= self.data.len()
        &&& forall|i: int| 0 <= i < old.data.len() ==> #[trigger] self.data[i] == old.data[i]
        &&& old.overflow ==> self.overflow
        &&& forall|i: int| 0 <= i < old.symbols.len() ==> self.symbols[i] == old.symbols[i]
        &&& old.line <= self.line
        &&& self.weight() <= old.weight()
    }

    /// `self` is `old` after one token was read: the weight has dropped
    /// unless the input had ended before, and a token that is not the end
    /// of input has moved the cursor.
    pub open spec fn lexed_from(self, old: State) -> bool {
        &&& self.after(old)
        &&& old.token != TK_EOF ==> self.weight() < old.weight()
        &&& self.token != TK_EOF ==> old.p < self.p
    }
}

/// An identifier ends within the source, not before its start.
pub proof fn lemma_ident_end(src: Seq<u8>, q: int)
    requires
        0 <= q <= src.len(),
    ensures
        q <= ident_end(src, q) <= src.len(),
    decreases src.len() - q,
{
    if q < src.len() && is_ident_char(src[q]) {
        lemma_ident_end(src, q + 1);
    }
}

/// A number ends within the source, not before its start.
pub proof fn lemma_scan_digits(src: Seq<u8>, q: int, radix: i64, acc: i64)
    requires
        0 <= q <= src.len(),
    ensures
        q <= scan_digits(src, q, radix, acc).1 <= src.len(),
    decreases src.len() - q,
{
    if q < src.len() {
        match digit_of(src[q], radix) {
            Some(d) => {
                lemma_scan_digits(src, q + 1, radix, acc.wrapping_mul(radix).wrapping_add(d));
            },
            None => {},
        }
    }
}

/// A quoted literal ends within the source, not before its start.
pub proof fn lemma_scan_quoted(src: Seq<u8>, q: int, quote: u8, acc: Seq<u8>)
    requires
        0 <= q <= src.len(),
    ensures
        q <= scan_quoted(src, q, quote, acc).1 <= src.len(),
    decreases src.len() - q,
{
    if q < src.len() && src[q] != quote {
        if src[q] == CH_BACKSLASH && q + 1 < src.len() {
            lemma_scan_quoted(src, q + 2, quote, acc.push(escaped(src[q + 1])));
        } else {
            lemma_scan_quoted(src, q + 1, quote, acc.push(src[q]));
        }
    }
}

/// Appending bytes keeps the data within its limit and touches nothing else.
pub proof fn lemma_push_bytes(s: State, bytes: Seq<u8>)
    requires
        s.data.len() <= DATA_LIMIT,
    ensures
        s.push_bytes(bytes).data.len() <= DATA_LIMIT,
        s.data.len() <= s.push_bytes(bytes).data.len(),
        forall|i: int| 0 <= i < s.data.len() ==> #[trigger] s.push_bytes(bytes).data[i] == s.data[i],
        s.overflow ==> s.push_bytes(bytes).overflow,
        s.push_bytes(bytes) == (State {
            data: s.push_bytes(bytes).data,
            overflow: s.push_bytes(bytes).overflow,
            ..s
        }),
    decreases bytes.len(),
{
    if bytes.len() > 0 {
        lemma_push_bytes(s, bytes.drop_last());
    }
}

/// Padding keeps the data within its limit.
pub proof fn lemma_pad_data(s: State)
    requires
        s.data.len() <= DATA_LIMIT,
    ensures
        s.pad_data().data.len() <= DATA_LIMIT,
        s.pad_data().data.len() % 8 == 0,
        s.data.len() <= s.pad_data().data.len(),
{
}

/// Reading the token at the cursor keeps the state well formed and moves the
/// cursor forward.
pub proof fn lemma_scan(s: State)
    requires
        s.wf(),
        s.p < s.src.len(),
    ensures
        s.scan().wf(),
        s.scan().lexed_from(s),
        s.p < s.scan().p,
{
    let c = s.cur();
    if is_ident_char(c) {
        lemma_ident_end(s.src, s.p + 1);
        let end = ident_end(s.src, s.p + 1);
        let name = s.src.subrange(s.p, end);
        lemma_find_from(s.symbols, symbol_hash(name), name, 0);
    } else if is_digit(c) {
        let q = s.p + 1;
        if c == CH_0 {
            if s.peek(1) == CH_LOWER_X || s.peek(1) == CH_UPPER_X {
                lemma_scan_digits(s.src, q + 1, 16, 0);
            } else {
                lemma_scan_digits(s.src, q, 8, 0);
            }
        } else {
            lemma_scan_digits(s.src, q, 10, (c - CH_0) as i64);
        }
    } else if c == CH_DQUOTE {
        lemma_scan_quoted(s.src, s.p + 1, CH_DQUOTE, Seq::empty());
        let (bytes, close) = scan_quoted(s.src, s.p + 1, CH_DQUOTE, Seq::empty());
        let s1 = State {
            p: s.after_quote(close),
            token: TK_STRING,
            token_val: s.data.len() as i64,
            ..s
        };
        lemma_push_bytes(s1, bytes);
        lemma_pad_data(s1.push_bytes(bytes));
    } else if c == CH_SQUOTE {
        lemma_scan_quoted(s.src, s.p + 1, CH_SQUOTE, Seq::empty());
    } else {
    }
}

/// Reading a token keeps the state well formed, lowers its weight unless
/// the input had ended before, and leaves the emitted code alone.
pub proof fn lemma_next(s: State)
    requires
        s.wf(),
    ensures
        s.next().wf(),
        s.next().lexed_from(s),
    decreases s.src.len() - s.p, 0int,
{
    if !(0 <= s.p < s.src.len()) {
    } else if s.cur() == CH_NEWLINE {
        let s1 = State { p: s.p + 1, line: s.line + 1, ..s };
        lemma_next(s1);
    } else if is_space(s.cur()) {
        lemma_next(s.skip(1));
    } else if s.cur() == CH_HASH {
        lemma_skip_line(s.skip(1));
    } else if s.cur() == CH_SLASH && s.peek(1) == CH_SLASH {
        lemma_skip_line(s.skip(2));
    } else {
        lemma_scan(s);
    }
}

/// As `lemma_next`, from within a comment.
pub proof fn lemma_skip_line(s: State)
    requires
        s.wf(),
    ensures
        s.skip_line().wf(),
        s.skip_line().lexed_from(s),
    decreases s.src.len() - s.p, 1int,
{
    if 0 <= s.p < s.src.len() && s.cur() != CH_NEWLINE {
        lemma_skip_line(s.skip(1));
    } else {
        lemma_next(s);
    }
}

} // verus!
