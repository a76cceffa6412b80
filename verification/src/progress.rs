//! Every construct that compiles consumes input and leaves a well-formed
//! state. The definitions of what the compiler does guard their recursion
//! by testing just that (`advanced_from`), so that they are well founded; the
//! lemmas here show that the tests never fail.

use crate::decl_spec::leave_scope;
use crate::error::CompileError;
use crate::expr_spec::{binary_opcode, done, lemma_skip_strings, lemma_stars};
use crate::lex_spec::lemma_next;
use crate::opcode::OpCode;
use crate::state::State;
use crate::token::{
    TK_ADD, TK_AND, TK_ASSIGN, TK_CHAR, TK_COMMA, TK_DEC, TK_ELSE, TK_ENUM, TK_EOF, TK_FUN,
    TK_ID, TK_IF, TK_INC, TK_INT, TK_LBRACE, TK_LOC, TK_LPAREN, TK_MUL, TK_NOT, TK_NUM,
    TK_RBRACE, TK_RETURN, TK_RPAREN, TK_SEMI, TK_SIZEOF, TK_STRING, TK_SUB, TK_TILDE, TK_WHILE,
    TY_CHAR, TY_INT,
};
use vstd::prelude::*;

verus! {

/// A step from `old` that succeeds leaves a well-formed state that is no
/// heavier.
pub open spec fn sound<T>(old: State, step: (State, Result<T, CompileError>)) -> bool {
    step.1 is Ok ==> step.0.wf() && step.0.weight() <= old.weight()
}

/// A step from `old` that succeeds leaves a well-formed state that is
/// lighter: it has consumed a token.
pub open spec fn consuming<T>(old: State, step: (State, Result<T, CompileError>)) -> bool {
    step.1 is Ok ==> step.0.advanced_from(old)
}

proof fn lemma_primary_number(s: State)
    requires
        s.wf(),
        s.token == TK_NUM,
    ensures
        consuming(s, s.primary_number()),
{
    lemma_next(s);
}

proof fn lemma_primary_string(s: State)
    requires
        s.wf(),
        s.token == TK_STRING,
    ensures
        consuming(s, s.primary_string()),
{
    lemma_next(s);
    lemma_skip_strings(s.next());
}

proof fn lemma_primary_sizeof(s: State)
    requires
        s.wf(),
        s.token == TK_SIZEOF,
    ensures
        consuming(s, s.primary_sizeof()),
{
    let s1 = s.next();
    lemma_next(s);
    let s2 = s1.next();
    lemma_next(s1);
    lemma_next(s2);
    let (s3, base) = if s2.token == TK_INT {
        (s2.next(), TY_INT)
    } else if s2.token == TK_CHAR {
        (s2.next(), TY_CHAR)
    } else {
        (s2, TY_INT)
    };
    lemma_stars(s3, base);
    lemma_next(s3.stars(base).0);
}

proof fn lemma_load_symbol(s: State, i: int)
    requires
        s.wf(),
    ensures
        s.load_symbol(i).1 is Ok ==> s.load_symbol(i).0.wf() && s.load_symbol(i).0.weight()
            == s.weight(),
{
}

proof fn lemma_finish_call(s: State, i: int, n: i64)
    requires
        s.wf(),
    ensures
        s.finish_call(i, n).1 is Ok ==> s.finish_call(i, n).0.wf() && s.finish_call(i, n).0.weight()
            == s.weight(),
{
}

proof fn lemma_args(s: State, n: i64)
    requires
        s.wf(),
    ensures
        sound(s, s.args(n)),
    decreases s.weight(), 4int,
{
    if s.token != TK_RPAREN {
        lemma_expr(s, TK_ASSIGN);
        let (s1, r) = s.expr(TK_ASSIGN);
        if r is Ok && s1.advanced_from(s) {
            let s2 = s1.emit(OpCode::PSH);
            lemma_next(s2);
            let s3 = if s2.token == TK_COMMA {
                s2.next()
            } else {
                s2
            };
            lemma_args(s3, (n + 1) as i64);
        }
    }
}

proof fn lemma_primary_ident(s: State)
    requires
        s.wf(),
        s.token != TK_EOF,
    ensures
        consuming(s, s.primary_ident()),
    decreases s.weight(), 1int,
{
    let s1 = s.next();
    lemma_next(s);
    if s1.token == TK_LPAREN {
        lemma_next(s1);
        lemma_args(s1.next(), 0);
        let (s2, r) = s1.next().args(0);
        if r is Ok {
            lemma_next(s2);
            lemma_finish_call(s2.next(), s.id, r->Ok_0);
        }
    } else {
        lemma_load_symbol(s1, s.id);
    }
}

proof fn lemma_primary_paren(s: State)
    requires
        s.wf(),
        s.token != TK_EOF,
    ensures
        consuming(s, s.primary_paren()),
    decreases s.weight(), 1int,
{
    let s1 = s.next();
    lemma_next(s);
    if s1.token == TK_INT || s1.token == TK_CHAR {
        let base = if s1.token == TK_INT {
            TY_INT
        } else {
            TY_CHAR
        };
        lemma_next(s1);
        lemma_stars(s1.next(), base);
        let (s2, t) = s1.next().stars(base);
        if t is Some && s2.token == TK_RPAREN {
            lemma_next(s2);
            lemma_expr(s2.next(), TK_INC);
        }
    } else {
        lemma_expr(s1, TK_ASSIGN);
        let (s2, r) = s1.expr(TK_ASSIGN);
        if r is Ok {
            lemma_next(s2);
        }
    }
}

proof fn lemma_operand(s: State)
    requires
        s.wf(),
        s.token != TK_EOF,
    ensures
        consuming(s, s.operand()),
    decreases s.weight(), 0int,
{
    lemma_next(s);
    lemma_expr(s.next(), TK_INC);
}

proof fn lemma_unary_deref(s: State)
    requires
        s.wf(),
        s.token != TK_EOF,
    ensures
        consuming(s, s.unary_deref()),
    decreases s.weight(), 1int,
{
    lemma_operand(s);
}

proof fn lemma_unary_address(s: State)
    requires
        s.wf(),
        s.token != TK_EOF,
    ensures
        consuming(s, s.unary_address()),
    decreases s.weight(), 1int,
{
    lemma_operand(s);
}

proof fn lemma_unary_not(s: State)
    requires
        s.wf(),
        s.token != TK_EOF,
    ensures
        consuming(s, s.unary_not()),
    decreases s.weight(), 1int,
{
    lemma_operand(s);
}

proof fn lemma_unary_complement(s: State)
    requires
        s.wf(),
        s.token != TK_EOF,
    ensures
        consuming(s, s.unary_complement()),
    decreases s.weight(), 1int,
{
    lemma_operand(s);
}

proof fn lemma_unary_plus(s: State)
    requires
        s.wf(),
        s.token != TK_EOF,
    ensures
        consuming(s, s.unary_plus()),
    decreases s.weight(), 1int,
{
    lemma_operand(s);
}

proof fn lemma_unary_minus(s: State)
    requires
        s.wf(),
        s.token != TK_EOF,
    ensures
        consuming(s, s.unary_minus()),
    decreases s.weight(), 1int,
{
    let s1 = s.next();
    lemma_next(s);
    if s1.token == TK_NUM {
        lemma_next(s1);
    } else {
        lemma_expr(s1.emit_with_operand(OpCode::IMM, -1i64).emit(OpCode::PSH), TK_INC);
    }
}

proof fn lemma_prefix_step(s: State)
    requires
        s.wf(),
        s.token != TK_EOF,
    ensures
        consuming(s, s.prefix_step()),
    decreases s.weight(), 1int,
{
    lemma_operand(s);
}

proof fn lemma_primary(s: State)
    requires
        s.wf(),
    ensures
        consuming(s, s.primary()),
    decreases s.weight(), 2int,
{
    if s.token == TK_EOF {
    } else if s.token == TK_NUM {
        lemma_primary_number(s);
    } else if s.token == TK_STRING {
        lemma_primary_string(s);
    } else if s.token == TK_SIZEOF {
        lemma_primary_sizeof(s);
    } else if s.token == TK_ID {
        lemma_primary_ident(s);
    } else if s.token == TK_LPAREN {
        lemma_primary_paren(s);
    } else if s.token == TK_MUL {
        lemma_unary_deref(s);
    } else if s.token == TK_AND {
        lemma_unary_address(s);
    } else if s.token == TK_NOT {
        lemma_unary_not(s);
    } else if s.token == TK_TILDE {
        lemma_unary_complement(s);
    } else if s.token == TK_ADD {
        lemma_unary_plus(s);
    } else if s.token == TK_SUB {
        lemma_unary_minus(s);
    } else if s.token == TK_INC || s.token == TK_DEC {
        lemma_prefix_step(s);
    } else {
    }
}

proof fn lemma_binary(s: State, level: i32)
    requires
        s.wf(),
    ensures
        sound(s, s.binary(level)),
    decreases s.weight(), 1int,
{
    if s.token < level {
    } else if s.token == TK_ASSIGN {
        let s1 = s.next();
        lemma_next(s);
        if s1.ends_in_load() {
            let s1b = s1.set_last_word(OpCode::PSH.spec_code());
            lemma_expr(s1b, TK_ASSIGN);
            let (s2, r) = s1b.expr(TK_ASSIGN);
            if r is Ok && s2.advanced_from(s) {
                lemma_binary(s2.with_ty(s1.ty).emit_store(), level);
            }
        }
    } else {
        match binary_opcode(s.token) {
            None => {},
            Some(op) => {
                lemma_next(s);
                lemma_expr(s.next(), (s.token - 1) as i32);
                let (s2, r) = s.next().expr((s.token - 1) as i32);
                if r is Ok && s2.advanced_from(s) {
                    lemma_binary(s2.emit(op).with_ty(s.ty), level);
                }
            },
        }
    }
}

proof fn lemma_expr(s: State, level: i32)
    requires
        s.wf(),
    ensures
        consuming(s, s.expr(level)),
    decreases s.weight(), 3int,
{
    lemma_primary(s);
    let (s1, r) = s.primary();
    if r is Ok && s1.advanced_from(s) {
        lemma_binary(s1, level);
    }
}

proof fn lemma_condition(s: State)
    requires
        s.wf(),
        s.token != TK_EOF,
    ensures
        consuming(s, s.condition()),
{
    let s1 = s.next();
    lemma_next(s);
    if s1.token == TK_LPAREN {
        lemma_next(s1);
        lemma_expr(s1.next(), TK_ASSIGN);
        let (s2, r) = s1.next().expr(TK_ASSIGN);
        if r is Ok {
            lemma_next(s2);
        }
    }
}

proof fn lemma_expression_statement(s: State)
    requires
        s.wf(),
    ensures
        consuming(s, s.expression_statement()),
{
    lemma_expr(s, TK_ASSIGN);
    let (s1, r) = s.expr(TK_ASSIGN);
    if r is Ok {
        lemma_next(s1);
    }
}

proof fn lemma_return_statement(s: State)
    requires
        s.wf(),
        s.token != TK_EOF,
    ensures
        consuming(s, s.return_statement()),
{
    let s1 = s.next();
    lemma_next(s);
    if s1.token != TK_SEMI {
        lemma_expr(s1, TK_ASSIGN);
        let (s2, r) = s1.expr(TK_ASSIGN);
        if r is Ok {
            lemma_next(s2.emit(OpCode::LEV));
        }
    } else {
        lemma_next(s1.emit(OpCode::LEV));
    }
}

proof fn lemma_if_statement(s: State)
    requires
        s.wf(),
        s.token != TK_EOF,
    ensures
        consuming(s, s.if_statement()),
    decreases s.weight(), 0int,
{
    lemma_condition(s);
    let (s1, r1) = s.condition();
    if r1 is Ok {
        let s2 = s1.emit_with_operand(OpCode::BZ, 0);
        lemma_statement(s2);
        let (s3, r3) = s2.statement();
        if r3 is Ok && s3.token == TK_ELSE {
            let s4 = s3.emit_with_operand(OpCode::JMP, 0);
            let s5 = s4.patch(s2.last_slot(), s4.here()).next();
            lemma_next(s4.patch(s2.last_slot(), s4.here()));
            lemma_statement(s5);
        }
    }
}

proof fn lemma_while_statement(s: State)
    requires
        s.wf(),
        s.token != TK_EOF,
    ensures
        consuming(s, s.while_statement()),
    decreases s.weight(), 0int,
{
    lemma_condition(s);
    let (s1, r1) = s.condition();
    if r1 is Ok {
        lemma_statement(s1.emit_with_operand(OpCode::BZ, 0));
    }
}

proof fn lemma_statements(s: State)
    requires
        s.wf(),
    ensures
        sound(s, s.statements()),
        s.statements().1 is Ok ==> s.statements().0.token == TK_RBRACE,
    decreases s.weight(), 2int,
{
    if s.token != TK_RBRACE {
        lemma_statement(s);
        let (s1, r) = s.statement();
        if r is Ok && s1.advanced_from(s) {
            lemma_statements(s1);
        }
    }
}

proof fn lemma_block(s: State)
    requires
        s.wf(),
        s.token != TK_EOF,
    ensures
        consuming(s, s.block()),
    decreases s.weight(), 0int,
{
    lemma_next(s);
    lemma_statements(s.next());
    let (s1, r) = s.next().statements();
    if r is Ok {
        lemma_next(s1);
    }
}

proof fn lemma_statement(s: State)
    requires
        s.wf(),
    ensures
        consuming(s, s.statement()),
    decreases s.weight(), 1int,
{
    if s.token == TK_IF {
        lemma_if_statement(s);
    } else if s.token == TK_WHILE {
        lemma_while_statement(s);
    } else if s.token == TK_RETURN {
        lemma_return_statement(s);
    } else if s.token == TK_LBRACE {
        lemma_block(s);
    } else {
        lemma_expression_statement(s);
    }
}

proof fn lemma_base_type(s: State)
    requires
        s.wf(),
    ensures
        s.base_type().0.wf(),
        s.base_type().0.after(s),
        s.token == TK_INT || s.token == TK_CHAR ==> s.base_type().0.weight() < s.weight(),
{
    lemma_next(s);
}

proof fn lemma_skip_comma(s: State)
    requires
        s.wf(),
    ensures
        s.skip_comma().wf(),
        s.skip_comma().after(s),
{
    lemma_next(s);
}

proof fn lemma_enumerators(s: State, value: i64)
    requires
        s.wf(),
    ensures
        sound(s, s.enumerators(value)),
    decreases s.weight(),
{
    if s.token == TK_RBRACE {
    } else if s.token != TK_ID {
    } else {
        let i = s.id;
        let s1 = s.next();
        lemma_next(s);
        lemma_next(s1);
        lemma_next(s1.next());
        if !(s1.token == TK_ASSIGN && s1.next().token != TK_NUM) {
            let (s2, v) = if s1.token == TK_ASSIGN {
                (s1.next().next(), s1.next().token_val)
            } else {
                (s1, value)
            };
            let s3 = s2.set_symbol(i, s2.symbols[i].bind(TK_NUM, TY_INT, v));
            lemma_skip_comma(s3);
            lemma_enumerators(s3.skip_comma(), v.wrapping_add(1));
        }
    }
}

proof fn lemma_enum_declaration(s: State)
    requires
        s.wf(),
        s.token != TK_EOF,
    ensures
        consuming(s, s.enum_declaration()),
{
    let s1 = s.next();
    lemma_next(s);
    lemma_next(s1);
    let s2 = if s1.token != TK_LBRACE {
        s1.next()
    } else {
        s1
    };
    if s2.token == TK_LBRACE {
        lemma_next(s2);
        lemma_enumerators(s2.next(), 0);
        let (s3, r) = s2.next().enumerators(0);
        if r is Ok {
            lemma_next(s3);
        }
    }
}

proof fn lemma_params(s: State, n: i64)
    requires
        s.wf(),
    ensures
        sound(s, s.params(n)),
    decreases s.weight(),
{
    if s.token != TK_RPAREN {
        let (s1, base) = s.base_type();
        lemma_base_type(s);
        lemma_stars(s1, base);
        let (s2, t) = s1.stars(base);
        if t is Some && s2.token == TK_ID && s2.symbols[s2.id].class != TK_LOC {
            let s3 = s2.declare_local(s2.id, t->Some_0, n);
            lemma_next(s3);
            lemma_skip_comma(s3.next());
            lemma_params(s3.next().skip_comma(), (n + 1) as i64);
        }
    }
}

proof fn lemma_local_declarators(s: State, base: i32, m: i64)
    requires
        s.wf(),
    ensures
        sound(s, s.local_declarators(base, m)),
    decreases s.weight(), 0int,
{
    if s.token == TK_SEMI {
        lemma_next(s);
        lemma_locals(s.next(), m);
    } else {
        lemma_stars(s, base);
        let (s1, t) = s.stars(base);
        if t is Some && s1.token == TK_ID && s1.symbols[s1.id].class != TK_LOC {
            let s2 = s1.declare_local(s1.id, t->Some_0, (m + 1) as i64);
            lemma_next(s2);
            lemma_skip_comma(s2.next());
            lemma_local_declarators(s2.next().skip_comma(), base, (m + 1) as i64);
        }
    }
}

proof fn lemma_locals(s: State, m: i64)
    requires
        s.wf(),
    ensures
        sound(s, s.locals(m)),
    decreases s.weight(), 1int,
{
    if s.token == TK_INT || s.token == TK_CHAR {
        lemma_next(s);
        lemma_local_declarators(
            s.next(),
            if s.token == TK_INT {
                TY_INT
            } else {
                TY_CHAR
            },
            m,
        );
    }
}

proof fn lemma_function_body(s: State, n: i64)
    requires
        s.wf(),
    ensures
        sound(s, s.function_body(n)),
{
    let frame = (n + 1) as i64;
    let s0 = State { loc: frame, ..s };
    lemma_locals(s0, frame);
    let (s1, r1) = s0.locals(frame);
    if r1 is Ok {
        let s1b = s1.emit_with_operand(OpCode::ENT, (r1->Ok_0 - frame) as i64);
        lemma_statements(s1b);
        let (s2, r2) = s1b.statements();
        if r2 is Ok {
            let s3 = s2.emit_leave();
            lemma_next(State { symbols: leave_scope(s3.symbols), ..s3 });
        }
    }
}

proof fn lemma_function_definition(s: State, i: int, ty: i32)
    requires
        s.wf(),
        s.token != TK_EOF,
        0 <= i < s.symbols.len(),
    ensures
        consuming(s, s.function_definition(i, ty)),
{
    let s0 = s.set_symbol(i, s.symbols[i].bind(TK_FUN, ty, s.here()));
    let s1 = s0.next();
    lemma_next(s0);
    lemma_params(s1, 0);
    let (s2, r) = s1.params(0);
    if r is Ok {
        let s3 = s2.next();
        lemma_next(s2);
        if s3.token == TK_LBRACE {
            lemma_next(s3);
            lemma_function_body(s3.next(), r->Ok_0);
        }
    }
}

proof fn lemma_declarators(s: State, base: i32)
    requires
        s.wf(),
    ensures
        consuming(s, s.declarators(base)),
    decreases s.weight(),
{
    if s.token == TK_SEMI {
        lemma_next(s);
    } else {
        lemma_stars(s, base);
        let (s1, t) = s.stars(base);
        if t is Some && s1.token == TK_ID && s1.symbols[s1.id].class == 0 {
            let i = s1.id;
            let s2 = s1.next();
            lemma_next(s1);
            if s2.token == TK_LPAREN {
                lemma_function_definition(s2, i, t->Some_0);
            } else {
                let s3 = s2.declare_global(i, t->Some_0);
                lemma_skip_comma(s3);
                lemma_declarators(s3.skip_comma(), base);
            }
        }
    }
}

proof fn lemma_declaration(s: State)
    requires
        s.wf(),
        s.token != TK_EOF,
    ensures
        consuming(s, s.declaration()),
{
    if s.token == TK_ENUM {
        lemma_enum_declaration(s);
        let (s1, r) = s.enum_declaration();
        if r is Ok {
            lemma_declarators(s1, TY_INT);
        }
    } else {
        lemma_base_type(s);
        lemma_declarators(s.base_type().0, s.base_type().1);
    }
}

proof fn lemma_declarations(s: State)
    requires
        s.wf(),
    ensures
        sound(s, s.declarations()),
        s.declarations().1 is Ok ==> s.declarations().0.token == TK_EOF,
    decreases s.weight(),
{
    if s.token != TK_EOF {
        lemma_declaration(s);
        let (s1, r) = s.declaration();
        if r is Ok && s1.advanced_from(s) {
            lemma_declarations(s1);
        }
    }
}

/// An expression is a primary followed by its binary operators.
pub proof fn law_expr_unfolds(s: State, level: i32)
    requires
        s.wf(),
    ensures
        s.expr(level) == match s.primary() {
            (s1, Err(e)) => (s1, Err(e)),
            (s1, Ok(_)) => s1.binary(level),
        },
{
    lemma_primary(s);
}

/// The arguments of a call are compiled and pushed one after the other.
pub proof fn law_args_unfold(s: State, n: i64)
    requires
        s.wf(),
        s.token != TK_RPAREN,
    ensures
        s.args(n) == match s.expr(TK_ASSIGN) {
            (s1, Err(e)) => (s1, Err(e)),
            (s1, Ok(_)) => s1.emit(OpCode::PSH).skip_comma().args((n + 1) as i64),
        },
{
    lemma_expr(s, TK_ASSIGN);
    let (s1, r) = s.expr(TK_ASSIGN);
    match r {
        Ok(_) => {
            let s2 = s1.emit(OpCode::PSH);
            let s3 = if s2.token == TK_COMMA {
                s2.next()
            } else {
                s2
            };
            lemma_next(s2);
            assert(s2.skip_comma() == s3);
        },
        Err(e) => {},
    }
}

/// An assignment behind a compiled left operand: the right side is
/// compiled behind the `PSH` that has taken the place of the load, then the
/// store is emitted with the type of the left operand, and the operators
/// that follow are taken up.
pub proof fn law_assignment_unfolds(s: State, level: i32)
    requires
        s.wf(),
        s.token == TK_ASSIGN,
        level <= TK_ASSIGN,
        s.next().ends_in_load(),
    ensures
        s.binary(level) == match s.next().set_last_word(OpCode::PSH.spec_code()).expr(TK_ASSIGN) {
            (s2, Err(e)) => (s2, Err(e)),
            (s2, Ok(_)) => s2.with_ty(s.next().ty).emit_store().binary(level),
        },
{
    lemma_next(s);
    lemma_expr(s.next().set_last_word(OpCode::PSH.spec_code()), TK_ASSIGN);
}

/// A binary operator behind a compiled left operand: the right operand is
/// compiled at the operator's code less one, then the operator's
/// instruction is emitted, the type stays that of the left operand, and the
/// operators that follow are taken up.
pub proof fn law_operator_unfolds(s: State, level: i32, op: OpCode)
    requires
        s.wf(),
        level <= s.token,
        s.token != TK_ASSIGN,
        binary_opcode(s.token) == Some(op),
    ensures
        s.binary(level) == match s.next().expr((s.token - 1) as i32) {
            (s2, Err(e)) => (s2, Err(e)),
            (s2, Ok(_)) => s2.emit(op).with_ty(s.ty).binary(level),
        },
{
    lemma_next(s);
    lemma_expr(s.next(), (s.token - 1) as i32);
}

/// The statements of a block are compiled one after the other.
pub proof fn law_statements_unfold(s: State)
    requires
        s.wf(),
        s.token != TK_RBRACE,
    ensures
        s.statements() == match s.statement() {
            (s1, Err(e)) => (s1, Err(e)),
            (s1, Ok(_)) => s1.statements(),
        },
{
    lemma_statement(s);
}

/// A `while` statement is its condition, `BZ`, its body, and `JMP` back
/// to the condition, with the `BZ` going behind the `JMP`.
pub proof fn law_while_unfolds(s: State)
    requires
        s.wf(),
        s.token == TK_WHILE,
    ensures
        s.while_statement() == match s.condition() {
            (s1, Err(e)) => (s1, Err(e)),
            (s1, Ok(_)) => match s1.emit_with_operand(OpCode::BZ, 0).statement() {
                (s3, Err(e)) => (s3, Err(e)),
                (s3, Ok(_)) => done(
                    s3.emit_with_operand(OpCode::JMP, s.here()).patch(
                        s1.emit_with_operand(OpCode::BZ, 0).last_slot(),
                        s3.emit_with_operand(OpCode::JMP, s.here()).here(),
                    ),
                ),
            },
        },
{
    lemma_condition(s);
}

/// An `if` statement is its condition, `BZ` and its first branch; with an
/// `else`, a `JMP` over the second branch follows, and the `BZ` goes behind
/// that `JMP`.
pub proof fn law_if_unfolds(s: State)
    requires
        s.wf(),
        s.token == TK_IF,
    ensures
        s.if_statement() == match s.condition() {
            (s1, Err(e)) => (s1, Err(e)),
            (s1, Ok(_)) => {
                let s2 = s1.emit_with_operand(OpCode::BZ, 0);
                match s2.statement() {
                    (s3, Err(e)) => (s3, Err(e)),
                    (s3, Ok(_)) => if s3.token != TK_ELSE {
                        done(s3.patch(s2.last_slot(), s3.here()))
                    } else {
                        let s4 = s3.emit_with_operand(OpCode::JMP, 0);
                        match s4.patch(s2.last_slot(), s4.here()).next().statement() {
                            (s6, Err(e)) => (s6, Err(e)),
                            (s6, Ok(_)) => done(s6.patch(s4.last_slot(), s6.here())),
                        }
                    },
                }
            },
        },
{
    lemma_condition(s);
    let (s1, r1) = s.condition();
    if r1 is Ok {
        let s2 = s1.emit_with_operand(OpCode::BZ, 0);
        lemma_statement(s2);
        let (s3, r3) = s2.statement();
        if r3 is Ok && s3.token == TK_ELSE {
            let s4 = s3.emit_with_operand(OpCode::JMP, 0);
            lemma_next(s4.patch(s2.last_slot(), s4.here()));
        }
    }
}

/// The declarations of a program are compiled one after the other.
pub proof fn law_declarations_unfold(s: State)
    requires
        s.wf(),
        s.token != TK_EOF,
    ensures
        s.declarations() == match s.declaration() {
            (s1, Err(e)) => (s1, Err(e)),
            (s1, Ok(_)) => s1.declarations(),
        },
{
    lemma_declaration(s);
}

/// An expression that compiles has consumed at least one token and left a
/// well-formed state.
pub proof fn law_expression_consumes(s: State, level: i32)
    requires
        s.wf(),
    ensures
        consuming(s, s.expr(level)),
{
    lemma_expr(s, level);
}

/// A statement that compiles has consumed at least one token and left a
/// well-formed state.
pub proof fn law_statement_consumes(s: State)
    requires
        s.wf(),
    ensures
        consuming(s, s.statement()),
{
    lemma_statement(s);
}

/// A declaration that compiles has consumed at least one token and left a
/// well-formed state.
pub proof fn law_declaration_consumes(s: State)
    requires
        s.wf(),
        s.token != TK_EOF,
    ensures
        consuming(s, s.declaration()),
{
    lemma_declaration(s);
}

/// A program that compiles was read to the end of its source, and the
/// state that holds it is well formed and has not overflowed.
pub proof fn law_compiled_program(s: State)
    requires
        s.wf(),
    ensures
        s.program().1 is Ok ==> s.program().0.wf() && s.program().0.token == TK_EOF
            && !s.program().0.overflow,
{
    lemma_next(s);
    lemma_declarations(s.next());
}

} // verus!
