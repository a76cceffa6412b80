//! The expression compiler: a precedence-climbing parser that emits code
//! while it reads.

use crate::compiler::C4;
use crate::error::{CompileError, CompileErrorKind};
use crate::expr_spec::{TYPE_LIMIT, binary_opcode, fail, lemma_stars};
use crate::opcode::OpCode;
use crate::state::{MAX_SOURCE_LEN, State};
use crate::token::{
    TK_ADD, TK_AND, TK_ASSIGN, TK_CHAR, TK_COMMA, TK_DEC, TK_DIV, TK_EOF, TK_EQ, TK_FUN, TK_GE,
    TK_GLO, TK_GT, TK_ID, TK_INC, TK_INT, TK_LE, TK_LOC, TK_LPAREN, TK_LT, TK_MOD, TK_MUL,
    TK_NE, TK_NOT, TK_NUM, TK_OR, TK_RPAREN, TK_SHL, TK_SHR, TK_SIZEOF, TK_STRING, TK_SUB,
    TK_SYS, TK_TILDE, TK_XOR, TY_CHAR, TY_INT, TY_PTR, WORD_SIZE, size_of,
};
use vstd::prelude::*;

verus! {

/// Whether a step of the compiler did what is defined for it: it returned
/// the defined result and, where that is `Ok`, left the defined state.
pub open spec fn agrees<T>(
    r: Result<T, CompileError>,
    now: State,
    defined: (State, Result<T, CompileError>),
) -> bool {
    &&& r == defined.1
    &&& r is Ok ==> now == defined.0
}

/// The instruction that a binary operator token compiles to.
fn opcode_of_operator(token: i32) -> (op: Option<OpCode>)
    ensures
        op == binary_opcode(token),
        op is Some ==> token >= TK_OR,
{
    if token == TK_OR {
        Some(OpCode::OR)
    } else if token == TK_XOR {
        Some(OpCode::XOR)
    } else if token == TK_AND {
        Some(OpCode::AND)
    } else if token == TK_EQ {
        Some(OpCode::EQ)
    } else if token == TK_NE {
        Some(OpCode::NE)
    } else if token == TK_LT {
        Some(OpCode::LT)
    } else if token == TK_GT {
        Some(OpCode::GT)
    } else if token == TK_LE {
        Some(OpCode::LE)
    } else if token == TK_GE {
        Some(OpCode::GE)
    } else if token == TK_SHL {
        Some(OpCode::SHL)
    } else if token == TK_SHR {
        Some(OpCode::SHR)
    } else if token == TK_ADD {
        Some(OpCode::ADD)
    } else if token == TK_SUB {
        Some(OpCode::SUB)
    } else if token == TK_MUL {
        Some(OpCode::MUL)
    } else if token == TK_DIV {
        Some(OpCode::DIV)
    } else if token == TK_MOD {
        Some(OpCode::MOD)
    } else {
        None
    }
}

impl C4 {
    /// The error of kind `kind` at the current line.
    pub fn error<T>(&self, kind: CompileErrorKind) -> (r: Result<T, CompileError>)
        requires
            self.wf(),
        ensures
            r == fail::<T>(self@, kind).1,
            r is Err,
    {
        Err(CompileError { line: self.line, kind })
    }

    /// Emits the load that fits the tracked type.
    pub fn emit_load(&mut self)
        ensures
            final(self)@ == old(self)@.emit_load(),
            old(self).wf() ==> final(self).wf(),
    {
        if self.type_ == TY_CHAR {
            self.emit(OpCode::LC);
        } else {
            self.emit(OpCode::LI);
        }
    }

    /// Emits the store that fits the tracked type.
    pub fn emit_store(&mut self)
        ensures
            final(self)@ == old(self)@.emit_store(),
            old(self).wf() ==> final(self).wf(),
    {
        if self.type_ == TY_CHAR {
            self.emit(OpCode::SC);
        } else {
            self.emit(OpCode::SI);
        }
    }

    /// Consumes the `*` tokens behind a base type and gives the type they
    /// make of `ty`, `None` where that type has no code.
    pub fn stars(&mut self, ty: i32) -> (r: Option<i32>)
        requires
            old(self).wf(),
        ensures
            final(self).wf(),
            final(self)@.retains(old(self)@),
            final(self)@ == old(self)@.stars(ty).0,
            r == old(self)@.stars(ty).1,
            final(self)@.after(old(self)@),
            final(self)@.keeps(old(self)@),
    {
        proof {
            lemma_stars(self@, ty);
        }
        let mut t = ty;
        while self.token == TK_MUL
            invariant
                self.wf(),
                self@.stars(t) == old(self)@.stars(ty),
                old(self)@.stars(ty).0.after(old(self)@),
                self@.retains(old(self)@),
            decreases self@.weight(),
        {
            if t > TYPE_LIMIT || t < 0 {
                return None;
            }
            self.next();
            t = t + TY_PTR;
        }
        Some(t)
    }

    /// Compiles a number.
    fn primary_number(&mut self) -> (r: Result<(), CompileError>)
        requires
            old(self).wf(),
            old(self).token == TK_NUM,
        ensures
            final(self).wf(),
            final(self)@.retains(old(self)@),
            agrees(r, final(self)@, old(self)@.primary_number()),
            r is Ok ==> final(self)@.grows(old(self)@),
            r is Ok ==> final(self)@.weight() < old(self)@.weight(),
    {
        let value = self.token_val;
        self.next();
        self.emit_with_operand(OpCode::IMM, value);
        self.type_ = TY_INT;
        Ok(())
    }

    /// Compiles a string literal and passes over the literals that follow it.
    fn primary_string(&mut self) -> (r: Result<(), CompileError>)
        requires
            old(self).wf(),
            old(self).token == TK_STRING,
        ensures
            final(self).wf(),
            final(self)@.retains(old(self)@),
            agrees(r, final(self)@, old(self)@.primary_string()),
            r is Ok ==> final(self)@.grows(old(self)@),
            r is Ok ==> final(self)@.weight() < old(self)@.weight(),
    {
        let offset = self.token_val;
        self.next();
        let ghost s1 = self@;
        while self.token == TK_STRING
            invariant
                self.wf(),
                self@.skip_strings() == s1.skip_strings(),
                self@.weight() <= s1.weight(),
                self@.keeps(old(self)@),
                self@.code == old(self)@.code,
                self@.retains(old(self)@),
            decreases self@.weight(),
        {
            self.next();
        }
        self.emit_with_operand(OpCode::IMM, offset);
        self.type_ = TY_PTR;
        Ok(())
    }

    /// Compiles `sizeof ( type )`.
    fn primary_sizeof(&mut self) -> (r: Result<(), CompileError>)
        requires
            old(self).wf(),
            old(self).token == TK_SIZEOF,
        ensures
            final(self).wf(),
            final(self)@.retains(old(self)@),
            agrees(r, final(self)@, old(self)@.primary_sizeof()),
            r is Ok ==> final(self)@.grows(old(self)@),
            r is Ok ==> final(self)@.weight() < old(self)@.weight(),
    {
        self.next();
        if self.token != TK_LPAREN {
            return self.error(CompileErrorKind::SizeofOpenParenExpected);
        }
        self.next();
        let mut base = TY_INT;
        if self.token == TK_INT {
            self.next();
        } else if self.token == TK_CHAR {
            self.next();
            base = TY_CHAR;
        }
        let ty = match self.stars(base) {
            Some(ty) => ty,
            None => {
                return self.error(CompileErrorKind::TypeTooDeep);
            },
        };
        if self.token != TK_RPAREN {
            return self.error(CompileErrorKind::SizeofCloseParenExpected);
        }
        self.next();
        self.emit_with_operand(OpCode::IMM, size_of(ty));
        self.type_ = TY_INT;
        Ok(())
    }

    /// Compiles the use of symbol `i` as a constant or a variable.
    fn load_symbol(&mut self, i: usize) -> (r: Result<(), CompileError>)
        requires
            old(self).wf(),
            i < old(self)@.symbols.len(),
        ensures
            final(self).wf(),
            final(self)@.retains(old(self)@),
            agrees(r, final(self)@, old(self)@.load_symbol(i as int)),
            r is Ok ==> final(self)@.grows(old(self)@),
            final(self)@.weight() == old(self)@.weight(),
    {
        let class = self.symbols[i].class;
        let value = self.symbols[i].value;
        let ty = self.symbols[i].type_;
        if class == TK_NUM {
            self.emit_with_operand(OpCode::IMM, value);
            self.type_ = TY_INT;
        } else if class == TK_LOC {
            self.emit_with_operand(OpCode::LEA, self.loc.wrapping_sub(value));
            self.type_ = ty;
            self.emit_load();
        } else if class == TK_GLO {
            self.emit_with_operand(OpCode::IMM, value);
            self.type_ = ty;
            self.emit_load();
        } else {
            return self.error(CompileErrorKind::UndefinedVariable);
        }
        Ok(())
    }

    /// Compiles the end of a call of symbol `i` with `n` arguments.
    fn finish_call(&mut self, i: usize, n: i64) -> (r: Result<(), CompileError>)
        requires
            old(self).wf(),
            i < old(self)@.symbols.len(),
        ensures
            final(self).wf(),
            final(self)@.retains(old(self)@),
            agrees(r, final(self)@, old(self)@.finish_call(i as int, n)),
            r is Ok ==> final(self)@.grows(old(self)@),
            final(self)@.weight() == old(self)@.weight(),
    {
        let class = self.symbols[i].class;
        let value = self.symbols[i].value;
        let ty = self.symbols[i].type_;
        if class == TK_SYS {
            self.emit_with_operand(OpCode::IMM, value);
        } else if class == TK_FUN {
            self.emit_with_operand(OpCode::JSR, value);
        } else {
            return self.error(CompileErrorKind::BadFunctionCall);
        }
        if n > 0 {
            self.emit_with_operand(OpCode::ADJ, n);
        }
        self.type_ = ty;
        Ok(())
    }

    /// Compiles the arguments of a call up to the `)` and gives their
    /// number.
    fn args(&mut self) -> (r: Result<i64, CompileError>)
        requires
            old(self).wf(),
        ensures
            final(self).wf(),
            final(self)@.retains(old(self)@),
            agrees(r, final(self)@, old(self)@.args(0)),
            r is Ok ==> final(self)@.extends(old(self)@),
            r is Ok ==> final(self)@.weight() <= old(self)@.weight(),
        decreases old(self)@.weight(), 4int,
    {
        let mut n: i64 = 0;
        while self.token != TK_RPAREN
            invariant
                self.wf(),
                self@.args(n) == old(self)@.args(0),
                self@.weight() <= old(self)@.weight(),
                self@.extends(old(self)@),
                0 <= n,
                n + self@.weight() <= old(self)@.weight(),
                old(self)@.weight() <= 2 * MAX_SOURCE_LEN + 1,
                self@.retains(old(self)@),
            decreases self@.weight(),
        {
            match self.expr(TK_ASSIGN) {
                Err(e) => {
                    return Err(e);
                },
                Ok(_) => {},
            }
            self.emit(OpCode::PSH);
            if self.token == TK_COMMA {
                self.next();
            }
            n = n + 1;
        }
        Ok(n)
    }

    /// Compiles an identifier: a call, a constant or a variable.
    fn primary_ident(&mut self) -> (r: Result<(), CompileError>)
        requires
            old(self).wf(),
            old(self).token == TK_ID,
        ensures
            final(self).wf(),
            final(self)@.retains(old(self)@),
            agrees(r, final(self)@, old(self)@.primary_ident()),
            r is Ok ==> final(self)@.grows(old(self)@),
            r is Ok ==> final(self)@.weight() < old(self)@.weight(),
        decreases old(self)@.weight(), 1int,
    {
        let i = self.id;
        self.next();
        if self.token == TK_LPAREN {
            self.next();
            let n = match self.args() {
                Ok(n) => n,
                Err(e) => {
                    return Err(e);
                },
            };
            self.next();
            self.finish_call(i, n)
        } else {
            self.load_symbol(i)
        }
    }

    /// Compiles a cast or an expression in parentheses.
    fn primary_paren(&mut self) -> (r: Result<(), CompileError>)
        requires
            old(self).wf(),
            old(self).token == TK_LPAREN,
        ensures
            final(self).wf(),
            final(self)@.retains(old(self)@),
            agrees(r, final(self)@, old(self)@.primary_paren()),
            r is Ok ==> final(self)@.grows(old(self)@),
            r is Ok ==> final(self)@.weight() < old(self)@.weight(),
        decreases old(self)@.weight(), 1int,
    {
        self.next();
        if self.token == TK_INT || self.token == TK_CHAR {
            let base = if self.token == TK_INT {
                TY_INT
            } else {
                TY_CHAR
            };
            self.next();
            let ty = match self.stars(base) {
                Some(ty) => ty,
                None => {
                    return self.error(CompileErrorKind::TypeTooDeep);
                },
            };
            if self.token != TK_RPAREN {
                return self.error(CompileErrorKind::BadCast);
            }
            self.next();
            match self.expr(TK_INC) {
                Err(e) => {
                    return Err(e);
                },
                Ok(_) => {},
            }
            self.type_ = ty;
            Ok(())
        } else {
            match self.expr(TK_ASSIGN) {
                Err(e) => {
                    return Err(e);
                },
                Ok(_) => {},
            }
            if self.token != TK_RPAREN {
                return self.error(CompileErrorKind::CloseParenExpected);
            }
            self.next();
            Ok(())
        }
    }

    /// Passes over a unary operator and compiles its operand.
    fn operand(&mut self) -> (r: Result<(), CompileError>)
        requires
            old(self).wf(),
            old(self).token != TK_EOF,
        ensures
            final(self).wf(),
            final(self)@.retains(old(self)@),
            agrees(r, final(self)@, old(self)@.operand()),
            r is Ok ==> final(self)@.grows(old(self)@),
            r is Ok ==> final(self)@.weight() < old(self)@.weight(),
        decreases old(self)@.weight(), 0int,
    {
        self.next();
        self.expr(TK_INC)
    }

    /// Compiles `*x`.
    fn unary_deref(&mut self) -> (r: Result<(), CompileError>)
        requires
            old(self).wf(),
            old(self).token != TK_EOF,
        ensures
            final(self).wf(),
            final(self)@.retains(old(self)@),
            agrees(r, final(self)@, old(self)@.unary_deref()),
            r is Ok ==> final(self)@.grows(old(self)@),
            r is Ok ==> final(self)@.weight() < old(self)@.weight(),
        decreases old(self)@.weight(), 1int,
    {
        match self.operand() {
            Err(e) => {
                return Err(e);
            },
            Ok(_) => {},
        }
        if self.type_ >= TY_PTR {
            self.type_ = self.type_ - TY_PTR;
        } else {
            return self.error(CompileErrorKind::BadDereference);
        }
        self.emit_load();
        Ok(())
    }

    /// Compiles `&x`.
    fn unary_address(&mut self) -> (r: Result<(), CompileError>)
        requires
            old(self).wf(),
            old(self).token != TK_EOF,
        ensures
            final(self).wf(),
            final(self)@.retains(old(self)@),
            agrees(r, final(self)@, old(self)@.unary_address()),
            r is Ok ==> final(self)@.grows(old(self)@),
            r is Ok ==> final(self)@.weight() < old(self)@.weight(),
        decreases old(self)@.weight(), 1int,
    {
        match self.operand() {
            Err(e) => {
                return Err(e);
            },
            Ok(_) => {},
        }
        if !self.ends_in_load() {
            return self.error(CompileErrorKind::BadAddressOf);
        }
        if self.type_ > TYPE_LIMIT || self.type_ < 0 {
            return self.error(CompileErrorKind::TypeTooDeep);
        }
        self.drop_last_word();
        self.type_ = self.type_ + TY_PTR;
        Ok(())
    }

    /// Compiles `!x`.
    fn unary_not(&mut self) -> (r: Result<(), CompileError>)
        requires
            old(self).wf(),
            old(self).token != TK_EOF,
        ensures
            final(self).wf(),
            final(self)@.retains(old(self)@),
            agrees(r, final(self)@, old(self)@.unary_not()),
            r is Ok ==> final(self)@.grows(old(self)@),
            r is Ok ==> final(self)@.weight() < old(self)@.weight(),
        decreases old(self)@.weight(), 1int,
    {
        match self.operand() {
            Err(e) => {
                return Err(e);
            },
            Ok(_) => {},
        }
        self.emit(OpCode::PSH);
        self.emit_with_operand(OpCode::IMM, 0);
        self.emit(OpCode::EQ);
        self.type_ = TY_INT;
        Ok(())
    }

    /// Compiles `~x`.
    fn unary_complement(&mut self) -> (r: Result<(), CompileError>)
        requires
            old(self).wf(),
            old(self).token != TK_EOF,
        ensures
            final(self).wf(),
            final(self)@.retains(old(self)@),
            agrees(r, final(self)@, old(self)@.unary_complement()),
            r is Ok ==> final(self)@.grows(old(self)@),
            r is Ok ==> final(self)@.weight() < old(self)@.weight(),
        decreases old(self)@.weight(), 1int,
    {
        match self.operand() {
            Err(e) => {
                return Err(e);
            },
            Ok(_) => {},
        }
        self.emit(OpCode::PSH);
        self.emit_with_operand(OpCode::IMM, -1);
        self.emit(OpCode::XOR);
        self.type_ = TY_INT;
        Ok(())
    }

    /// Compiles `+x`.
    fn unary_plus(&mut self) -> (r: Result<(), CompileError>)
        requires
            old(self).wf(),
            old(self).token != TK_EOF,
        ensures
            final(self).wf(),
            final(self)@.retains(old(self)@),
            agrees(r, final(self)@, old(self)@.unary_plus()),
            r is Ok ==> final(self)@.grows(old(self)@),
            r is Ok ==> final(self)@.weight() < old(self)@.weight(),
        decreases old(self)@.weight(), 1int,
    {
        match self.operand() {
            Err(e) => {
                return Err(e);
            },
            Ok(_) => {},
        }
        self.type_ = TY_INT;
        Ok(())
    }

    /// Compiles `-x`.
    fn unary_minus(&mut self) -> (r: Result<(), CompileError>)
        requires
            old(self).wf(),
            old(self).token != TK_EOF,
        ensures
            final(self).wf(),
            final(self)@.retains(old(self)@),
            agrees(r, final(self)@, old(self)@.unary_minus()),
            r is Ok ==> final(self)@.grows(old(self)@),
            r is Ok ==> final(self)@.weight() < old(self)@.weight(),
        decreases old(self)@.weight(), 1int,
    {
        self.next();
        if self.token == TK_NUM {
            let value = 0i64.wrapping_sub(self.token_val);
            self.next();
            self.emit_with_operand(OpCode::IMM, value);
        } else {
            self.emit_with_operand(OpCode::IMM, -1);
            self.emit(OpCode::PSH);
            match self.expr(TK_INC) {
                Err(e) => {
                    return Err(e);
                },
                Ok(_) => {},
            }
            self.emit(OpCode::MUL);
        }
        self.type_ = TY_INT;
        Ok(())
    }

    /// Compiles `++x` and `--x`.
    fn prefix_step(&mut self) -> (r: Result<(), CompileError>)
        requires
            old(self).wf(),
            old(self).token != TK_EOF,
        ensures
            final(self).wf(),
            final(self)@.retains(old(self)@),
            agrees(r, final(self)@, old(self)@.prefix_step()),
            r is Ok ==> final(self)@.grows(old(self)@),
            r is Ok ==> final(self)@.weight() < old(self)@.weight(),
        decreases old(self)@.weight(), 1int,
    {
        let up = self.token == TK_INC;
        match self.operand() {
            Err(e) => {
                return Err(e);
            },
            Ok(_) => {},
        }
        if !self.ends_in_load() {
            return self.error(CompileErrorKind::BadLvalueInPreIncrement);
        }
        let load = self.e[self.e.len() - 1];
        self.set_last_word(OpCode::PSH.code());
        self.emit_word(load);
        self.emit(OpCode::PSH);
        self.emit_with_operand(
            OpCode::IMM,
            if self.type_ > TY_PTR {
                WORD_SIZE
            } else {
                1
            },
        );
        if up {
            self.emit(OpCode::ADD);
        } else {
            self.emit(OpCode::SUB);
        }
        self.emit_store();
        Ok(())
    }

    /// Compiles a primary expression with its unary operators.
    fn primary(&mut self) -> (r: Result<(), CompileError>)
        requires
            old(self).wf(),
        ensures
            final(self).wf(),
            final(self)@.retains(old(self)@),
            agrees(r, final(self)@, old(self)@.primary()),
            r is Ok ==> final(self)@.grows(old(self)@),
            r is Ok ==> final(self)@.weight() < old(self)@.weight(),
        decreases old(self)@.weight(), 2int,
    {
        if self.token == TK_EOF {
            self.error(CompileErrorKind::UnexpectedEof)
        } else if self.token == TK_NUM {
            self.primary_number()
        } else if self.token == TK_STRING {
            self.primary_string()
        } else if self.token == TK_SIZEOF {
            self.primary_sizeof()
        } else if self.token == TK_ID {
            self.primary_ident()
        } else if self.token == TK_LPAREN {
            self.primary_paren()
        } else if self.token == TK_MUL {
            self.unary_deref()
        } else if self.token == TK_AND {
            self.unary_address()
        } else if self.token == TK_NOT {
            self.unary_not()
        } else if self.token == TK_TILDE {
            self.unary_complement()
        } else if self.token == TK_ADD {
            self.unary_plus()
        } else if self.token == TK_SUB {
            self.unary_minus()
        } else if self.token == TK_INC || self.token == TK_DEC {
            self.prefix_step()
        } else {
            self.error(CompileErrorKind::BadExpression)
        }
    }

    /// Compiles an expression whose binary operators have a token code of
    /// at least `level`: the code that computes its value into the
    /// accumulator is appended to `e`, and `type_` is its type.
    pub fn expr(&mut self, level: i32) -> (r: Result<(), CompileError>)
        requires
            old(self).wf(),
        ensures
            final(self).wf(),
            final(self)@.retains(old(self)@),
            agrees(r, final(self)@, old(self)@.expr(level)),
            r is Ok ==> final(self)@.grows(old(self)@),
            r is Ok ==> final(self)@.weight() < old(self)@.weight(),
        decreases old(self)@.weight(), 3int,
    {
        match self.primary() {
            Err(e) => {
                return Err(e);
            },
            Ok(_) => {},
        }
        while self.token >= level
            invariant
                self.wf(),
                self@.binary(level) == old(self)@.expr(level),
                self@.weight() < old(self)@.weight(),
                self@.grows(old(self)@),
                self@.retains(old(self)@),
            decreases self@.weight(),
        {
            if self.token == TK_ASSIGN {
                self.next();
                if !self.ends_in_load() {
                    return self.error(CompileErrorKind::BadLvalueInAssignment);
                }
                let ty = self.type_;
                self.set_last_word(OpCode::PSH.code());
                match self.expr(TK_ASSIGN) {
                    Err(e) => {
                        return Err(e);
                    },
                    Ok(_) => {},
                }
                self.type_ = ty;
                self.emit_store();
            } else {
                let op = match opcode_of_operator(self.token) {
                    Some(op) => op,
                    None => {
                        return self.error(CompileErrorKind::BadOperator);
                    },
                };
                let ty = self.type_;
                let right = self.token - 1;
                self.next();
                match self.expr(right) {
                    Err(e) => {
                        return Err(e);
                    },
                    Ok(_) => {},
                }
                self.emit(op);
                self.type_ = ty;
            }
        }
        Ok(())
    }
}

} // verus!
