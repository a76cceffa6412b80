//! Laws of the compiler and of the machine, proved from the definitions of
//! what they do.

use crate::error::{CompileError, CompileErrorKind, RuntimeError};
use crate::expr_spec::{TYPE_LIMIT, done, lemma_push_word};
use crate::lex_spec::{
    digit_of, ident_end, is_digit, is_ident_char, is_space, lemma_next, scan_digits,
};
use crate::opcode::OpCode;
use crate::program::{ProgramView, compile_spec};
use crate::state::{CODE_LIMIT, State};
use crate::symbol::{SymbolView, find, lemma_find_from, lemma_find_from_push, symbol_hash};
use crate::token::{
    CH_0, CH_HASH, CH_NEWLINE, CH_SLASH, TK_AND, TK_EOF, TK_GLO, TK_ID, TK_INC, TK_LOC,
    TK_LPAREN, TK_NUM, TY_CHAR, TY_INT, TY_PTR, WORD_SIZE, spec_size_of,
};
use crate::vm_spec::{HostCall, Machine, execute_spec};
use vstd::prelude::*;

verus! {

/// Every byte is a decimal digit.
pub open spec fn all_digits(text: Seq<u8>) -> bool {
    forall|i: int| 0 <= i < text.len() ==> is_digit(#[trigger] text[i])
}

/// Every byte is a letter or the underscore.
pub open spec fn all_ident_chars(text: Seq<u8>) -> bool {
    forall|i: int| 0 <= i < text.len() ==> is_ident_char(#[trigger] text[i])
}

/// The number that a string of decimal digits denotes.
pub open spec fn decimal_value(digits: Seq<u8>) -> int
    decreases digits.len(),
{
    if digits.len() == 0 {
        0
    } else {
        decimal_value(digits.drop_last()) * 10 + (digits.last() - CH_0)
    }
}

/// The value of a prefix of a digit string is at least 0 and at most the
/// value of the string.
pub proof fn lemma_decimal_prefix(digits: Seq<u8>, k: int)
    requires
        all_digits(digits),
        0 <= k <= digits.len(),
    ensures
        0 <= decimal_value(digits.subrange(0, k)) <= decimal_value(digits),
    decreases digits.len() - k,
{
    lemma_decimal_nonnegative(digits.subrange(0, k));
    if k < digits.len() {
        lemma_decimal_prefix(digits, k + 1);
        assert(digits.subrange(0, k + 1).drop_last() =~= digits.subrange(0, k));
    } else {
        assert(digits.subrange(0, k) =~= digits);
    }
}

/// The value of a digit string is not negative.
pub proof fn lemma_decimal_nonnegative(digits: Seq<u8>)
    requires
        all_digits(digits),
    ensures
        0 <= decimal_value(digits),
    decreases digits.len(),
{
    if digits.len() > 0 {
        lemma_decimal_nonnegative(digits.drop_last());
    }
}

/// Scanning decimal digits to the end of a source that holds nothing else
/// gives the value of the source, as long as that value fits a word.
pub proof fn lemma_scan_decimal(src: Seq<u8>, q: int, acc: i64)
    requires
        all_digits(src),
        1 <= q <= src.len(),
        acc == decimal_value(src.subrange(0, q)),
        decimal_value(src) <= i64::MAX,
    ensures
        scan_digits(src, q, 10, acc) == (decimal_value(src) as i64, src.len() as int),
    decreases src.len() - q,
{
    if q < src.len() {
        let d = (src[q] - CH_0) as i64;
        assert(is_digit(src[q]));
        assert(digit_of(src[q], 10) == Some(d));
        lemma_decimal_prefix(src, q + 1);
        lemma_decimal_prefix(src, q);
        assert(src.subrange(0, q + 1).drop_last() =~= src.subrange(0, q));
        assert(decimal_value(src.subrange(0, q + 1)) == acc * 10 + d);
        assert(acc.wrapping_mul(10) == acc * 10);
        assert(acc.wrapping_mul(10).wrapping_add(d) == acc * 10 + d);
        lemma_scan_decimal(src, q + 1, acc.wrapping_mul(10).wrapping_add(d));
    } else {
        assert(src.subrange(0, q) =~= src);
    }
}

/// A decimal literal compiles to `IMM n`. Where the source is nothing but
/// the decimal digits of a number `n` that fits a word, without a leading
/// zero, reading the first token and compiling an expression appends
/// exactly `IMM n` to the code, leaves the type `int`, and ends at the end
/// of the input.
pub proof fn law_decimal_literal(s: State, level: i32)
    requires
        s.wf(),
        s.p == 0,
        s.src.len() > 0,
        all_digits(s.src),
        s.src[0] != CH_0 || s.src.len() == 1,
        decimal_value(s.src) <= i64::MAX,
        s.code.len() + 2 <= CODE_LIMIT,
        level > TK_EOF,
    ensures
        s.next().expr(level).1 is Ok,
        s.next().expr(level).0.code == s.code + seq![
            OpCode::IMM.spec_code(),
            decimal_value(s.src) as i64,
        ],
        s.next().expr(level).0.ty == TY_INT,
        s.next().expr(level).0.token == TK_EOF,
{
    let c = s.src[0];
    assert(is_digit(c));
    assert(s.cur() == c);
    assert(s.next() == s.scan_number());
    let v = decimal_value(s.src) as i64;
    assert(s.src.subrange(0, 1).drop_last() =~= Seq::<u8>::empty());
    assert(decimal_value(Seq::<u8>::empty()) == 0);
    assert(s.src.subrange(0, 1).last() == c);
    assert(decimal_value(s.src.subrange(0, 1)) == c - CH_0);
    if c == CH_0 {
        assert(s.src.subrange(0, 1) =~= s.src);
        assert(s.peek(1) == 0);
        assert(scan_digits(s.src, 1, 8, 0) == (0i64, 1int));
    } else {
        lemma_scan_decimal(s.src, 1, (c - CH_0) as i64);
    }
    let s1 = s.next();
    assert(s1 == State { p: s.src.len() as int, token: TK_NUM, token_val: v, ..s });
    lemma_next(s);
    lemma_next(s1);
    assert(s1.next() == s1.with_token(TK_EOF));
    let s2 = s1.next().emit_with_operand(OpCode::IMM, v);
    lemma_push_word(s1.next(), OpCode::IMM.spec_code());
    lemma_push_word(s1.next().push_word(OpCode::IMM.spec_code()), v);
    let s3 = s2.with_ty(TY_INT);
    assert(s1.primary() == done(s3));
    assert(s3.advanced_from(s1));
    assert(s3.binary(level) == done(s3));
    assert(s3.code =~= s.code + seq![OpCode::IMM.spec_code(), v]);
}

/// The end of a run of identifier bytes that reaches the end of the text.
pub proof fn lemma_ident_end_all(name: Seq<u8>, q: int)
    requires
        all_ident_chars(name),
        0 <= q <= name.len(),
    ensures
        ident_end(name, q) == name.len(),
    decreases name.len() - q,
{
    if q < name.len() {
        assert(is_ident_char(name[q]));
        lemma_ident_end_all(name, q + 1);
    }
}

/// Interning is idempotent. Where the source is nothing but an identifier
/// that the table does not hold as a keyword, reading it gives an
/// identifier token whose symbol bears the name; and reading the same text
/// again gives the same symbol and leaves the table as it is.
pub proof fn law_identifier_interning(s: State)
    requires
        s.wf(),
        s.p == 0,
        s.src.len() > 0,
        all_ident_chars(s.src),
        forall|i: int|
            0 <= i < s.symbols.len() && #[trigger] s.symbols[i].name == s.src ==> s.symbols[i].token
                == TK_ID,
    ensures
        s.next().token == TK_ID,
        0 <= s.next().id < s.next().symbols.len(),
        s.next().symbols[s.next().id].name == s.src,
        (State { p: 0, ..s.next() }).next().token == TK_ID,
        (State { p: 0, ..s.next() }).next().id == s.next().id,
        (State { p: 0, ..s.next() }).next().symbols == s.next().symbols,
{
    let name = s.src;
    let h = symbol_hash(name);
    assert(is_ident_char(name[0]));
    assert(s.cur() == name[0]);
    assert(s.next() == s.scan_ident());
    lemma_ident_end_all(name, 1);
    assert(name.subrange(0, name.len() as int) =~= name);
    lemma_find_from(s.symbols, h, name, 0);
    lemma_find_from_push(s.symbols, SymbolView::unbound(TK_ID, name), h, name, 0);
    let t = s.next();
    assert(find(t.symbols, h, name) == Some(t.id));
    let again = State { p: 0, ..t };
    assert(again.cur() == name[0]);
    assert(again.next() == again.scan_ident());
    lemma_find_from(t.symbols, h, name, 0);
}

/// `&x` of a variable takes back the load. Where `&` is followed by the
/// name of a local or global variable and then by a token that continues no
/// expression at the precedence of a unary operand, the code gains the
/// instruction that loads the variable's address and nothing else, and the
/// type is that of the variable with one more level of indirection.
pub proof fn law_address_of_variable(s: State)
    requires
        s.wf(),
        s.token == TK_AND,
        s.next().token == TK_ID,
        s.next().next().token < TK_INC,
        s.next().next().token != TK_LPAREN,
        s.next().symbols[s.next().id].class == TK_LOC || s.next().symbols[s.next().id].class
            == TK_GLO,
        0 <= s.next().symbols[s.next().id].ty <= TYPE_LIMIT,
        s.code.len() + 3 <= CODE_LIMIT,
    ensures
        s.unary_address().1 is Ok,
        s.unary_address().0.code == s.code + seq![
            if s.next().symbols[s.next().id].class == TK_LOC {
                OpCode::LEA.spec_code()
            } else {
                OpCode::IMM.spec_code()
            },
            if s.next().symbols[s.next().id].class == TK_LOC {
                s.loc.wrapping_sub(s.next().symbols[s.next().id].value)
            } else {
                s.next().symbols[s.next().id].value
            },
        ],
        s.unary_address().0.ty == s.next().symbols[s.next().id].ty + TY_PTR,
{
    let s1 = s.next();
    lemma_next(s);
    let i = s1.id;
    let sym = s1.symbols[i];
    let s2 = s1.next();
    lemma_next(s1);
    assert(s2.symbols[i] == sym);
    let (s3, r3) = s2.load_symbol(i);
    let op = if sym.class == TK_LOC {
        OpCode::LEA
    } else {
        OpCode::IMM
    };
    let x = if sym.class == TK_LOC {
        s.loc.wrapping_sub(sym.value)
    } else {
        sym.value
    };
    let s2a = s2.emit_with_operand(op, x).with_ty(sym.ty);
    assert(s3 == s2a.emit_load());
    assert(r3 is Ok);
    assert(s1.primary_ident() == (s3, r3));
    assert(s1.primary() == (s3, r3));
    assert(s3.wf());
    assert(s3.advanced_from(s1));
    assert(s3.binary(TK_INC) == done(s3));
    assert(s1.expr(TK_INC) == done(s3));
    assert(s.operand() == done(s3));
    assert(s3.ends_in_load());
    assert(s3.drop_last_word().code =~= s.code + seq![op.spec_code(), x]);
}

/// `&` of a number is refused. Where `&` is followed by a number other
/// than the codes of the two loads and then by a token that continues no
/// expression, compiling fails with "bad address-of".
pub proof fn law_address_of_number(s: State)
    requires
        s.wf(),
        s.token == TK_AND,
        s.next().token == TK_NUM,
        s.next().token_val != OpCode::LC.spec_code(),
        s.next().token_val != OpCode::LI.spec_code(),
        s.next().next().token < TK_INC,
        s.code.len() + 2 <= CODE_LIMIT,
    ensures
        s.unary_address().1 is Err,
        s.unary_address().1->Err_0.kind == CompileErrorKind::BadAddressOf,
{
    let s1 = s.next();
    lemma_next(s);
    lemma_next(s1);
    let s2 = s1.next().emit_with_operand(OpCode::IMM, s1.token_val);
    lemma_push_word(s1.next(), OpCode::IMM.spec_code());
    lemma_push_word(s1.next().push_word(OpCode::IMM.spec_code()), s1.token_val);
    let s3 = s2.with_ty(TY_INT);
    assert(s1.primary() == done(s3));
    assert(s3.advanced_from(s1));
    assert(s3.binary(TK_INC) == done(s3));
    assert(s.operand() == done(s3));
    assert(s3.last_word() == s1.token_val);
}

/// A pointer has the size of a word, whatever it points at: one more
/// level of indirection on any type gives a type of size 8.
pub proof fn law_pointer_size(ty: i32)
    requires
        0 <= ty <= TYPE_LIMIT,
    ensures
        spec_size_of((ty + TY_PTR) as i32) == WORD_SIZE,
        spec_size_of(TY_CHAR) == 1,
        spec_size_of(TY_INT) == WORD_SIZE,
{
}

/// Compiling and running are functions of their inputs. Two compilations
/// of one source give the same program, and two runs of it with the same
/// arguments and the same budget give the same result.
pub proof fn law_same_source_same_outcome(
    source: Seq<u8>,
    args: Seq<Seq<u8>>,
    budget: nat,
    first: Result<ProgramView, CompileError>,
    second: Result<ProgramView, CompileError>,
    first_run: Result<i32, RuntimeError>,
    second_run: Result<i32, RuntimeError>,
)
    requires
        first == compile_spec(source),
        second == compile_spec(source),
        first is Ok,
        first_run == execute_spec(first->Ok_0, args, budget),
        second_run == execute_spec(second->Ok_0, args, budget),
    ensures
        first == second,
        first_run == second_run,
{
}

/// A run that is served the same results makes the same calls. Two
/// machines in the same state, run with the same budget and a host that
/// gives the same results, stop in the same state for the same reason,
/// after the same calls in the same order.
pub proof fn law_same_results_same_calls(a: Machine, b: Machine, budget: nat, results: Seq<i64>)
    requires
        a == b,
    ensures
        a.run(budget) == b.run(budget),
        a.replay(budget, results) == b.replay(budget, results),
{
}

/// The code is read-only: no instruction changes it.
pub proof fn law_step_keeps_code(m: Machine)
    ensures
        m.step().0.code == m.code,
{
}

/// The code is read-only: however long the machine runs, and whatever the
/// host answers, it holds the code it was loaded with.
pub proof fn law_run_keeps_code(m: Machine, budget: nat, results: Seq<i64>)
    ensures
        m.run(budget).0.code == m.code,
        m.replay(budget, results).0.code == m.code,
    decreases budget,
{
    if budget > 0 {
        law_step_keeps_code(m);
        let n = m.step().0;
        law_run_keeps_code(n, (budget - 1) as nat, results);
        if results.len() > 0 {
            law_run_keeps_code(n.resume(results[0]), (budget - 1) as nat, results.drop_first());
        }
    }
}

/// A run without host calls is a replay without results: where the machine
/// exits or faults before it needs the host, `replay` ends as `run` does
/// and has made no call.
pub proof fn law_replay_without_calls(m: Machine, budget: nat, results: Seq<i64>)
    requires
        !(m.run(budget).1 is Host),
    ensures
        m.replay(budget, results) == (m.run(budget).0, m.run(budget).1, Seq::<HostCall>::empty()),
    decreases budget,
{
    if budget > 0 {
        match m.step() {
            (n, None) => {
                law_replay_without_calls(n, (budget - 1) as nat, results);
            },
            _ => {},
        }
    }
}

} // verus!
