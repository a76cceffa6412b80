//! The lexer: one call of `next` reads one token from the source.

use crate::compiler::{C4, lemma_symbols_view_push};
use crate::lex_spec::{
    digit_of, escaped, ident_end, is_digit, is_ident_char, is_space, lemma_next,
    operator_token, scan_digits, scan_quoted,
};
use crate::state::{DATA_LIMIT, State};
use crate::symbol::{Symbol, copy_bytes, find_in, name_hash};
use crate::token::{
    CH_0, CH_9, CH_AMP, CH_BACKSLASH, CH_BANG, CH_CARET, CH_DQUOTE, CH_EQUAL, CH_FORMFEED,
    CH_GREATER, CH_HASH, CH_LBRACKET, CH_LESS, CH_LOWER_A, CH_LOWER_F, CH_LOWER_N, CH_LOWER_X,
    CH_LOWER_Z, CH_MINUS, CH_NEWLINE, CH_PERCENT, CH_PIPE, CH_PLUS, CH_QUESTION, CH_RETURN,
    CH_SLASH, CH_SPACE, CH_SQUOTE, CH_STAR, CH_TAB, CH_UNDERSCORE, CH_UPPER_A, CH_UPPER_F,
    CH_UPPER_X, CH_UPPER_Z, CH_VTAB, TK_ADD, TK_AND, TK_ASSIGN, TK_BRAK, TK_COND, TK_DEC,
    TK_DIV, TK_EOF, TK_EQ, TK_GE, TK_GT, TK_ID, TK_INC, TK_LAN, TK_LE, TK_LOR, TK_LT, TK_MOD,
    TK_MUL, TK_NE, TK_NOT, TK_NUM, TK_OR, TK_SHL, TK_SHR, TK_STRING, TK_SUB, TK_XOR,
};
use vstd::prelude::*;
use vstd::slice::*;

verus! {

/// Whether `c` is a blank other than the newline.
fn is_space_byte(c: u8) -> (b: bool)
    ensures
        b == is_space(c),
{
    c == CH_SPACE || c == CH_TAB || c == CH_VTAB || c == CH_FORMFEED || c == CH_RETURN
}

/// Whether `c` is a letter or the underscore.
fn is_ident_byte(c: u8) -> (b: bool)
    ensures
        b == is_ident_char(c),
{
    (CH_LOWER_A <= c && c <= CH_LOWER_Z) || (CH_UPPER_A <= c && c <= CH_UPPER_Z) || c
        == CH_UNDERSCORE
}

/// Whether `c` is a decimal digit.
fn is_digit_byte(c: u8) -> (b: bool)
    ensures
        b == is_digit(c),
{
    CH_0 <= c && c <= CH_9
}

/// The value of `c` as a digit in base `radix`.
fn digit_value(c: u8, radix: i64) -> (d: Option<i64>)
    ensures
        d == digit_of(c, radix),
{
    if CH_0 <= c && c <= CH_9 && ((c - CH_0) as i64) < radix {
        Some((c - CH_0) as i64)
    } else if radix == 16 && CH_LOWER_A <= c && c <= CH_LOWER_F {
        Some((c - CH_LOWER_A + 10) as i64)
    } else if radix == 16 && CH_UPPER_A <= c && c <= CH_UPPER_F {
        Some((c - CH_UPPER_A + 10) as i64)
    } else {
        None
    }
}

/// The byte that a backslash followed by `e` denotes.
fn unescape(e: u8) -> (b: u8)
    ensures
        b == escaped(e),
{
    if e == CH_LOWER_N {
        CH_NEWLINE
    } else {
        e
    }
}

/// Token code and length of the operator that starts with `c`, where `d`
/// is the byte behind it.
fn operator_kind(c: u8, d: u8) -> (r: (i32, usize))
    ensures
        r.0 == operator_token(c, d).0,
        r.1 == operator_token(c, d).1,
        1 <= r.1 <= 2,
        r.1 == 2 ==> d != 0,
        r.0 != TK_ID,
{
    if c == CH_SLASH {
        (TK_DIV, 1)
    } else if c == CH_EQUAL {
        if d == CH_EQUAL {
            (TK_EQ, 2)
        } else {
            (TK_ASSIGN, 1)
        }
    } else if c == CH_PLUS {
        if d == CH_PLUS {
            (TK_INC, 2)
        } else {
            (TK_ADD, 1)
        }
    } else if c == CH_MINUS {
        if d == CH_MINUS {
            (TK_DEC, 2)
        } else {
            (TK_SUB, 1)
        }
    } else if c == CH_BANG {
        if d == CH_EQUAL {
            (TK_NE, 2)
        } else {
            (TK_NOT, 1)
        }
    } else if c == CH_LESS {
        if d == CH_EQUAL {
            (TK_LE, 2)
        } else if d == CH_LESS {
            (TK_SHL, 2)
        } else {
            (TK_LT, 1)
        }
    } else if c == CH_GREATER {
        if d == CH_EQUAL {
            (TK_GE, 2)
        } else if d == CH_GREATER {
            (TK_SHR, 2)
        } else {
            (TK_GT, 1)
        }
    } else if c == CH_PIPE {
        if d == CH_PIPE {
            (TK_LOR, 2)
        } else {
            (TK_OR, 1)
        }
    } else if c == CH_AMP {
        if d == CH_AMP {
            (TK_LAN, 2)
        } else {
            (TK_AND, 1)
        }
    } else if c == CH_CARET {
        (TK_XOR, 1)
    } else if c == CH_PERCENT {
        (TK_MOD, 1)
    } else if c == CH_STAR {
        (TK_MUL, 1)
    } else if c == CH_LBRACKET {
        (TK_BRAK, 1)
    } else if c == CH_QUESTION {
        (TK_COND, 1)
    } else if c < 128 {
        (c as i32, 1)
    } else {
        (c as i32 + 256, 1)
    }
}

/// The data and the overflow flag after `push_bytes` depend on nothing but
/// the data and the flag before.
pub proof fn lemma_push_bytes_frame(s: State, t: State, bytes: Seq<u8>)
    requires
        s.data == t.data,
        s.overflow == t.overflow,
    ensures
        s.push_bytes(bytes).data == t.push_bytes(bytes).data,
        s.push_bytes(bytes).overflow == t.push_bytes(bytes).overflow,
        s.push_bytes(bytes) == (State {
            data: s.push_bytes(bytes).data,
            overflow: s.push_bytes(bytes).overflow,
            ..s
        }),
    decreases bytes.len(),
{
    if bytes.len() > 0 {
        lemma_push_bytes_frame(s, t, bytes.drop_last());
    }
}

/// Appending one more byte.
pub proof fn lemma_push_bytes_push(s: State, bytes: Seq<u8>, b: u8)
    ensures
        s.push_bytes(bytes.push(b)) == s.push_bytes(bytes).push_data(b),
{
    assert(bytes.push(b).drop_last() =~= bytes);
}

impl C4 {
    /// Moves the cursor to the end of the line.
    fn skip_line(&mut self)
        requires
            old(self).wf(),
        ensures
            final(self).wf(),
            final(self)@.next() == old(self)@.skip_line(),
            final(self)@ == (State { p: final(self)@.p, ..old(self)@ }),
            old(self).p <= final(self).p,
    {
        while self.p < self.source.len() && self.source[self.p] != CH_NEWLINE
            invariant
                self.wf(),
                self@.skip_line() == old(self)@.skip_line(),
                self@ == (State { p: self@.p, ..old(self)@ }),
                old(self).p <= self.p,
            decreases self.source.len() - self.p,
        {
            self.p += 1;
        }
    }

    /// Moves the cursor over blanks and comments to the start of the next
    /// token, counting the lines; tells whether there is a token.
    fn skip_blanks(&mut self) -> (found: bool)
        requires
            old(self).wf(),
        ensures
            final(self).wf(),
            final(self)@.next() == old(self)@.next(),
            final(self)@ == (State { p: final(self)@.p, line: final(self)@.line, ..old(self)@ }),
            found ==> final(self).p < final(self).source.len(),
            found ==> final(self)@.next() == final(self)@.scan(),
            !found ==> final(self).p >= final(self).source.len(),
    {
        let mut found = false;
        while !found && self.p < self.source.len()
            invariant
                self.wf(),
                self@.next() == old(self)@.next(),
                self@ == (State { p: self@.p, line: self@.line, ..old(self)@ }),
                found ==> self.p < self.source.len() && self@.next() == self@.scan(),
            decreases self.source.len() - self.p, if found { 0int } else { 1int },
        {
            let c = self.source[self.p];
            if c == CH_NEWLINE {
                self.line += 1;
                self.p += 1;
            } else if is_space_byte(c) {
                self.p += 1;
            } else if c == CH_HASH {
                self.p += 1;
                self.skip_line();
            } else if c == CH_SLASH && self.peek_char(1) == CH_SLASH {
                self.p += 2;
                self.skip_line();
            } else {
                found = true;
            }
        }
        found
    }

    /// Reads the identifier or keyword at the cursor.
    fn lex_ident(&mut self)
        requires
            old(self).wf(),
            old(self).p < old(self).source.len(),
            is_ident_char(old(self)@.cur()),
        ensures
            final(self)@ == old(self)@.scan_ident(),
    {
        let start = self.p;
        let mut q = start + 1;
        while q < self.source.len() && is_ident_byte(self.source[q])
            invariant
                start < q <= self.source.len(),
                self@ == old(self)@,
                ident_end(self@.src, q as int) == ident_end(self@.src, start + 1),
            decreases self.source.len() - q,
        {
            q += 1;
        }
        let name = slice_subrange(self.source.as_slice(), start, q);
        let hash = name_hash(name);
        match find_in(&self.symbols, hash, name) {
            Some(i) => {
                self.token = self.symbols[i].token;
                self.id = i;
            },
            None => {
                let sym = Symbol {
                    token: TK_ID,
                    hash,
                    name: copy_bytes(name),
                    class: 0,
                    type_: 0,
                    value: 0,
                    h_class: 0,
                    h_type: 0,
                    h_val: 0,
                };
                proof {
                    lemma_symbols_view_push(self.symbols@, sym);
                }
                self.id = self.symbols.len();
                self.symbols.push(sym);
                self.token = TK_ID;
            },
        }
        self.p = q;
    }

    /// Reads the number at the cursor.
    fn lex_number(&mut self)
        requires
            old(self).wf(),
            old(self).p < old(self).source.len(),
            is_digit(old(self)@.cur()),
        ensures
            final(self)@ == old(self)@.scan_number(),
    {
        let c = self.source[self.p];
        let mut q = self.p + 1;
        let mut v: i64 = 0;
        let mut radix: i64 = 10;
        if c == CH_0 {
            let d = self.peek_char(1);
            if d == CH_LOWER_X || d == CH_UPPER_X {
                q = q + 1;
                radix = 16;
            } else {
                radix = 8;
            }
        } else {
            v = (c - CH_0) as i64;
        }
        let ghost target = scan_digits(self@.src, q as int, radix, v);
        let mut more = true;
        while more
            invariant
                q <= self.source.len(),
                self@ == old(self)@,
                scan_digits(self@.src, q as int, radix, v) == target,
                !more ==> target == (v, q as int),
            decreases self.source.len() - q, if more { 1int } else { 0int },
        {
            if q < self.source.len() {
                match digit_value(self.source[q], radix) {
                    Some(d) => {
                        v = v.wrapping_mul(radix).wrapping_add(d);
                        q += 1;
                    },
                    None => {
                        more = false;
                    },
                }
            } else {
                more = false;
            }
        }
        self.p = q;
        self.token = TK_NUM;
        self.token_val = v;
    }

    /// Reads the string literal at the cursor.
    fn lex_string(&mut self)
        requires
            old(self).wf(),
            old(self).p < old(self).source.len(),
            old(self)@.cur() == CH_DQUOTE,
        ensures
            final(self)@ == old(self)@.scan_string(),
    {
        let ghost before = self@;
        let ghost target = scan_quoted(before.src, before.p + 1, CH_DQUOTE, Seq::empty());
        let ghost mut acc: Seq<u8> = Seq::empty();
        let start = self.data.len();
        let mut q = self.p + 1;
        while q < self.source.len() && self.source[q] != CH_DQUOTE
            invariant
                before.wf(),
                start == before.data.len(),
                before.p < q <= self.source.len(),
                self@ == (State { data: self@.data, overflow: self@.overflow, ..before }),
                self@.data == before.push_bytes(acc).data,
                self@.overflow == before.push_bytes(acc).overflow,
                self@.data.len() <= DATA_LIMIT,
                scan_quoted(before.src, q as int, CH_DQUOTE, acc) == target,
            decreases self.source.len() - q,
        {
            let c = self.source[q];
            let b = if c == CH_BACKSLASH && q + 1 < self.source.len() {
                q += 2;
                unescape(self.source[q - 1])
            } else {
                q += 1;
                c
            };
            proof {
                lemma_push_bytes_push(before, acc, b);
                acc = acc.push(b);
            }
            self.push_data(b);
        }
        let ghost close = q as int;
        if q < self.source.len() {
            q += 1;
        }
        self.p = q;
        self.token = TK_STRING;
        self.token_val = start as i64;
        proof {
            let s1 = State {
                p: before.after_quote(close),
                token: TK_STRING,
                token_val: before.data.len() as i64,
                ..before
            };
            lemma_push_bytes_frame(s1, before, target.0);
            assert(self@ == s1.push_bytes(target.0));
        }
        self.pad_data();
    }

    /// Reads the character literal at the cursor.
    fn lex_char(&mut self)
        requires
            old(self).wf(),
            old(self).p < old(self).source.len(),
            old(self)@.cur() == CH_SQUOTE,
        ensures
            final(self)@ == old(self)@.scan_char(),
    {
        let ghost target = scan_quoted(self@.src, self@.p + 1, CH_SQUOTE, Seq::empty());
        let ghost mut acc: Seq<u8> = Seq::empty();
        let mut last: u8 = 0;
        let mut q = self.p + 1;
        while q < self.source.len() && self.source[q] != CH_SQUOTE
            invariant
                old(self).p < q <= self.source.len(),
                self@ == old(self)@,
                scan_quoted(self@.src, q as int, CH_SQUOTE, acc) == target,
                acc.len() == 0 ==> last == 0,
                acc.len() > 0 ==> last == acc.last(),
            decreases self.source.len() - q,
        {
            let c = self.source[q];
            let b = if c == CH_BACKSLASH && q + 1 < self.source.len() {
                q += 2;
                unescape(self.source[q - 1])
            } else {
                q += 1;
                c
            };
            proof {
                acc = acc.push(b);
            }
            last = b;
        }
        if q < self.source.len() {
            q += 1;
        }
        self.p = q;
        self.token = TK_NUM;
        self.token_val = last as i64;
    }

    /// Reads the operator or punctuation at the cursor.
    fn lex_operator(&mut self)
        requires
            old(self).wf(),
            old(self).p < old(self).source.len(),
        ensures
            final(self)@ == old(self)@.scan_operator(),
    {
        let (token, n) = operator_kind(self.peek_char(0), self.peek_char(1));
        self.token = token;
        self.p += n;
    }

    /// Reads the next token: `token` is its code, 0 at the end of the
    /// source; `token_val` the value of a number or the data offset of a
    /// string; `id` the symbol of an identifier or keyword.
    pub fn next(&mut self)
        requires
            old(self).wf(),
        ensures
            final(self)@ == old(self)@.next(),
            final(self).wf(),
            final(self)@.lexed_from(old(self)@),
            final(self)@.retains(old(self)@),
    {
        proof {
            lemma_next(self@);
        }
        if !self.skip_blanks() {
            self.token = TK_EOF;
            return ;
        }
        let c = self.source[self.p];
        if is_ident_byte(c) {
            self.lex_ident();
        } else if is_digit_byte(c) {
            self.lex_number();
        } else if c == CH_DQUOTE {
            self.lex_string();
        } else if c == CH_SQUOTE {
            self.lex_char();
        } else {
            self.lex_operator();
        }
    }
}

} // verus!
