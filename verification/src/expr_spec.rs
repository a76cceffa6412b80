//! What the expression compiler does, as functions on the compilation
//! state. Each function takes the state in which the first token of its
//! construct is the current token, and gives the state after the construct
//! was compiled, or the error that stopped it.
//!
//! Where a definition goes on after a part that is defined with it in one
//! recursion, it first asks that the part has consumed input
//! (`advanced_from`), which makes the recursion well founded. The part
//! always has: the module `progress` proves it.

use crate::error::{CompileError, CompileErrorKind};
use crate::lex_spec::lemma_next;
use crate::opcode::OpCode;
use crate::state::State;
use crate::token::{
    TK_ADD, TK_AND, TK_ASSIGN, TK_CHAR, TK_COMMA, TK_DEC, TK_DIV, TK_EOF, TK_EQ, TK_FUN, TK_GE,
    TK_GLO, TK_GT, TK_ID, TK_INC, TK_INT, TK_LE, TK_LOC, TK_LPAREN, TK_LT, TK_MOD, TK_MUL,
    TK_NE, TK_NOT, TK_NUM, TK_OR, TK_RPAREN, TK_SHL, TK_SHR, TK_SIZEOF, TK_STRING, TK_SUB,
    TK_SYS, TK_TILDE, TK_XOR, TY_CHAR, TY_INT, TY_PTR, WORD_SIZE, spec_size_of,
};
use vstd::prelude::*;

verus! {

/// Largest type code to which one more level of indirection can be added.
pub const TYPE_LIMIT: i32 = 0x7fff_fffd;

/// A step that succeeded, with the state it leaves.
pub open spec fn done(s: State) -> (State, Result<(), CompileError>) {
    (s, Ok(()))
}

/// A step that failed in state `s`; the error carries the line of `s`.
pub open spec fn fail<T>(s: State, kind: CompileErrorKind) -> (State, Result<T, CompileError>) {
    (s, Err(CompileError { line: s.line as i32, kind }))
}

/// The instruction that a binary operator token compiles to.
pub open spec fn binary_opcode(token: i32) -> Option<OpCode> {
    if token == TK_OR {
        Some(OpCode::OR)
    } else if token == TK_XOR {
        Some(OpCode::XOR)
    } else if token == TK_AND {
        Some(OpCode::AND)
    } else if token == TK_EQ {
        Some(OpCode::EQ)
    } else if token == TK_NE {
        Some(OpCode::NE)
    } else if token == TK_LT {
        Some(OpCode::LT)
    } else if token == TK_GT {
        Some(OpCode::GT)
    } else if token == TK_LE {
        Some(OpCode::LE)
    } else if token == TK_GE {
        Some(OpCode::GE)
    } else if token == TK_SHL {
        Some(OpCode::SHL)
    } else if token == TK_SHR {
        Some(OpCode::SHR)
    } else if token == TK_ADD {
        Some(OpCode::ADD)
    } else if token == TK_SUB {
        Some(OpCode::SUB)
    } else if token == TK_MUL {
        Some(OpCode::MUL)
    } else if token == TK_DIV {
        Some(OpCode::DIV)
    } else if token == TK_MOD {
        Some(OpCode::MOD)
    } else {
        None
    }
}

impl State {
    /// The load that fits the tracked type: `LC` for `char`, else `LI`.
    pub open spec fn emit_load(self) -> State {
        self.emit(
            if self.ty == TY_CHAR {
                OpCode::LC
            } else {
                OpCode::LI
            },
        )
    }

    /// The store that fits the tracked type: `SC` for `char`, else `SI`.
    pub open spec fn emit_store(self) -> State {
        self.emit(
            if self.ty == TY_CHAR {
                OpCode::SC
            } else {
                OpCode::SI
            },
        )
    }

    /// `ADJ n` after a call with `n > 0` arguments, nothing after one
    /// without.
    pub open spec fn emit_adjust(self, n: i64) -> State {
        if n > 0 {
            self.emit_with_operand(OpCode::ADJ, n)
        } else {
            self
        }
    }

    /// The `*` tokens that follow a base type are consumed, each adding one
    /// level of indirection to `ty`; `None` where the type code would
    /// overflow.
    pub open spec fn stars(self, ty: i32) -> (State, Option<i32>)
        decreases self.weight(),
        when self.wf()
    {
        if self.token == TK_MUL {
            if ty > TYPE_LIMIT || ty < 0 {
                (self, None)
            } else {
                proof {
                    lemma_next(self);
                }
                self.next().stars((ty + TY_PTR) as i32)
            }
        } else {
            (self, Some(ty))
        }
    }

    /// The string literals that follow one another are passed over.
    pub open spec fn skip_strings(self) -> State
        decreases self.weight(),
        when self.wf()
    {
        if self.token == TK_STRING {
            proof {
                lemma_next(self);
            }
            self.next().skip_strings()
        } else {
            self
        }
    }

    /// A number: `IMM value`, of type `int`.
    pub open spec fn primary_number(self) -> (State, Result<(), CompileError>) {
        done(self.next().emit_with_operand(OpCode::IMM, self.token_val).with_ty(TY_INT))
    }

    /// A string literal: `IMM offset` of the first literal; the literals
    /// that follow it directly are passed over. Of type pointer to `char`.
    pub open spec fn primary_string(self) -> (State, Result<(), CompileError>) {
        done(
            self.next().skip_strings().emit_with_operand(OpCode::IMM, self.token_val).with_ty(
                TY_PTR,
            ),
        )
    }

    /// `sizeof ( type )`: `IMM 1` for `char`, `IMM 8` for every other type.
    /// Of type `int`.
    pub open spec fn primary_sizeof(self) -> (State, Result<(), CompileError>) {
        let s1 = self.next();
        if s1.token != TK_LPAREN {
            fail(s1, CompileErrorKind::SizeofOpenParenExpected)
        } else {
            let s2 = s1.next();
            let (s3, base) = if s2.token == TK_INT {
                (s2.next(), TY_INT)
            } else if s2.token == TK_CHAR {
                (s2.next(), TY_CHAR)
            } else {
                (s2, TY_INT)
            };
            match s3.stars(base) {
                (s4, None) => fail(s4, CompileErrorKind::TypeTooDeep),
                (s4, Some(ty)) => if s4.token != TK_RPAREN {
                    fail(s4, CompileErrorKind::SizeofCloseParenExpected)
                } else {
                    done(
                        s4.next().emit_with_operand(OpCode::IMM, spec_size_of(ty)).with_ty(TY_INT),
                    )
                },
            }
        }
    }

    /// An identifier that no `(` follows, where `i` is its symbol: the value
    /// of an enum constant, or address and load of a variable.
    pub open spec fn load_symbol(self, i: int) -> (State, Result<(), CompileError>) {
        let sym = self.symbols[i];
        if sym.class == TK_NUM {
            done(self.emit_with_operand(OpCode::IMM, sym.value).with_ty(TY_INT))
        } else if sym.class == TK_LOC {
            done(
                self.emit_with_operand(OpCode::LEA, self.loc.wrapping_sub(sym.value)).with_ty(
                    sym.ty,
                ).emit_load(),
            )
        } else if sym.class == TK_GLO {
            done(self.emit_with_operand(OpCode::IMM, sym.value).with_ty(sym.ty).emit_load())
        } else {
            fail(self, CompileErrorKind::UndefinedVariable)
        }
    }

    /// The end of a call of symbol `i` with `n` arguments, at the token
    /// behind the `)`: the system call's opcode is loaded, or the function
    /// called, and the arguments are taken off the stack.
    pub open spec fn finish_call(self, i: int, n: i64) -> (State, Result<(), CompileError>) {
        let sym = self.symbols[i];
        if sym.class == TK_SYS {
            done(self.emit_with_operand(OpCode::IMM, sym.value).emit_adjust(n).with_ty(sym.ty))
        } else if sym.class == TK_FUN {
            done(self.emit_with_operand(OpCode::JSR, sym.value).emit_adjust(n).with_ty(sym.ty))
        } else {
            fail(self, CompileErrorKind::BadFunctionCall)
        }
    }

    /// The arguments of a call up to the `)`, each compiled and pushed;
    /// gives their number, counted from `n`.
    pub open spec fn args(self, n: i64) -> (State, Result<i64, CompileError>)
        decreases self.weight(), 4int,
        when self.wf()
    {
        if self.token == TK_RPAREN {
            (self, Ok(n))
        } else {
            let (s1, r) = self.expr(TK_ASSIGN);
            match r {
                Err(e) => (s1, Err(e)),
                Ok(_) => if !s1.advanced_from(self) {
                    (s1, Ok(n))
                } else {
                    let s2 = s1.emit(OpCode::PSH);
                    let s3 = if s2.token == TK_COMMA {
                        s2.next()
                    } else {
                        s2
                    };
                    proof {
                        lemma_push_word(s1, OpCode::PSH.spec_code());
                        lemma_next(s2);
                    }
                    s3.args((n + 1) as i64)
                },
            }
        }
    }

    /// An identifier: a call where `(` follows it, else a constant or a
    /// variable.
    pub open spec fn primary_ident(self) -> (State, Result<(), CompileError>)
        decreases self.weight(), 1int,
        when self.wf() && self.token != TK_EOF
    {
        let i = self.id;
        let s1 = self.next();
        if s1.token == TK_LPAREN {
            proof {
                lemma_next(self);
                lemma_next(s1);
            }
            let (s2, r) = s1.next().args(0);
            match r {
                Err(e) => (s2, Err(e)),
                Ok(n) => s2.next().finish_call(i, n),
            }
        } else {
            s1.load_symbol(i)
        }
    }

    /// `(`: a cast where a type follows it, else an expression in
    /// parentheses.
    pub open spec fn primary_paren(self) -> (State, Result<(), CompileError>)
        decreases self.weight(), 1int,
        when self.wf() && self.token != TK_EOF
    {
        let s1 = self.next();
        if s1.token == TK_INT || s1.token == TK_CHAR {
            let base = if s1.token == TK_INT {
                TY_INT
            } else {
                TY_CHAR
            };
            match s1.next().stars(base) {
                (s2, None) => fail(s2, CompileErrorKind::TypeTooDeep),
                (s2, Some(ty)) => if s2.token != TK_RPAREN {
                    fail(s2, CompileErrorKind::BadCast)
                } else {
                    proof {
                        lemma_next(self);
                        lemma_next(s1);
                        lemma_stars(s1.next(), base);
                        lemma_next(s2);
                    }
                    let (s3, r) = s2.next().expr(TK_INC);
                    match r {
                        Err(e) => (s3, Err(e)),
                        Ok(_) => done(s3.with_ty(ty)),
                    }
                },
            }
        } else {
            proof {
                lemma_next(self);
            }
            let (s2, r) = s1.expr(TK_ASSIGN);
            match r {
                Err(e) => (s2, Err(e)),
                Ok(_) => if s2.token != TK_RPAREN {
                    fail(s2, CompileErrorKind::CloseParenExpected)
                } else {
                    done(s2.next())
                },
            }
        }
    }

    /// The operand of a unary operator: the operator is passed over and an
    /// expression of the highest precedence compiled.
    pub open spec fn operand(self) -> (State, Result<(), CompileError>)
        decreases self.weight(), 0int,
        when self.wf() && self.token != TK_EOF
    {
        proof {
            lemma_next(self);
        }
        self.next().expr(TK_INC)
    }

    /// `*x`: the operand must be a pointer; its target is loaded.
    pub open spec fn unary_deref(self) -> (State, Result<(), CompileError>)
        decreases self.weight(), 1int,
        when self.wf() && self.token != TK_EOF
    {
        let (s1, r) = self.operand();
        match r {
            Err(e) => (s1, Err(e)),
            Ok(_) => if s1.ty >= TY_PTR {
                done(s1.with_ty((s1.ty - TY_PTR) as i32).emit_load())
            } else {
                fail(s1, CompileErrorKind::BadDereference)
            },
        }
    }

    /// `&x`: the code of the operand must end in a load, which is taken
    /// back; the type gains one level of indirection.
    pub open spec fn unary_address(self) -> (State, Result<(), CompileError>)
        decreases self.weight(), 1int,
        when self.wf() && self.token != TK_EOF
    {
        let (s1, r) = self.operand();
        match r {
            Err(e) => (s1, Err(e)),
            Ok(_) => if !s1.ends_in_load() {
                fail(s1, CompileErrorKind::BadAddressOf)
            } else if s1.ty > TYPE_LIMIT || s1.ty < 0 {
                fail(s1, CompileErrorKind::TypeTooDeep)
            } else {
                done(s1.drop_last_word().with_ty((s1.ty + TY_PTR) as i32))
            },
        }
    }

    /// `!x`: `x`, `PSH`, `IMM 0`, `EQ`. Of type `int`.
    pub open spec fn unary_not(self) -> (State, Result<(), CompileError>)
        decreases self.weight(), 1int,
        when self.wf() && self.token != TK_EOF
    {
        let (s1, r) = self.operand();
        match r {
            Err(e) => (s1, Err(e)),
            Ok(_) => done(
                s1.emit(OpCode::PSH).emit_with_operand(OpCode::IMM, 0).emit(OpCode::EQ).with_ty(
                    TY_INT,
                ),
            ),
        }
    }

    /// `~x`: `x`, `PSH`, `IMM -1`, `XOR`. Of type `int`.
    pub open spec fn unary_complement(self) -> (State, Result<(), CompileError>)
        decreases self.weight(), 1int,
        when self.wf() && self.token != TK_EOF
    {
        let (s1, r) = self.operand();
        match r {
            Err(e) => (s1, Err(e)),
            Ok(_) => done(
                s1.emit(OpCode::PSH).emit_with_operand(OpCode::IMM, -1i64).emit(OpCode::XOR).with_ty(
                    TY_INT,
                ),
            ),
        }
    }

    /// `+x`: `x`, taken as an `int`.
    pub open spec fn unary_plus(self) -> (State, Result<(), CompileError>)
        decreases self.weight(), 1int,
        when self.wf() && self.token != TK_EOF
    {
        let (s1, r) = self.operand();
        match r {
            Err(e) => (s1, Err(e)),
            Ok(_) => done(s1.with_ty(TY_INT)),
        }
    }

    /// `-x`: a number is negated at once, `IMM -value`; anything else is
    /// multiplied by -1: `IMM -1`, `PSH`, `x`, `MUL`. Of type `int`.
    pub open spec fn unary_minus(self) -> (State, Result<(), CompileError>)
        decreases self.weight(), 1int,
        when self.wf() && self.token != TK_EOF
    {
        let s1 = self.next();
        if s1.token == TK_NUM {
            done(
                s1.next().emit_with_operand(OpCode::IMM, 0i64.wrapping_sub(s1.token_val)).with_ty(
                    TY_INT,
                ),
            )
        } else {
            proof {
                lemma_next(self);
            }
            let (s2, r) = s1.emit_with_operand(OpCode::IMM, -1i64).emit(OpCode::PSH).expr(TK_INC);
            match r {
                Err(e) => (s2, Err(e)),
                Ok(_) => done(s2.emit(OpCode::MUL).with_ty(TY_INT)),
            }
        }
    }

    /// `++x` and `--x`: the load that ends the operand's code becomes `PSH`
    /// and is emitted again; then `PSH`, `IMM step`, `ADD` or `SUB`, and the
    /// store. The step is 8 for a pointer to anything but `char`, else 1.
    pub open spec fn prefix_step(self) -> (State, Result<(), CompileError>)
        decreases self.weight(), 1int,
        when self.wf() && self.token != TK_EOF
    {
        let (s1, r) = self.operand();
        match r {
            Err(e) => (s1, Err(e)),
            Ok(_) => if !s1.ends_in_load() {
                fail(s1, CompileErrorKind::BadLvalueInPreIncrement)
            } else {
                done(
                    s1.set_last_word(OpCode::PSH.spec_code()).push_word(s1.last_word()).emit(
                        OpCode::PSH,
                    ).emit_with_operand(
                        OpCode::IMM,
                        if s1.ty > TY_PTR {
                            WORD_SIZE
                        } else {
                            1
                        },
                    ).emit(
                        if self.token == TK_INC {
                            OpCode::ADD
                        } else {
                            OpCode::SUB
                        },
                    ).emit_store(),
                )
            },
        }
    }

    /// A primary expression with its unary operators.
    pub open spec fn primary(self) -> (State, Result<(), CompileError>)
        decreases self.weight(), 2int,
        when self.wf()
    {
        if self.token == TK_EOF {
            fail(self, CompileErrorKind::UnexpectedEof)
        } else if self.token == TK_NUM {
            self.primary_number()
        } else if self.token == TK_STRING {
            self.primary_string()
        } else if self.token == TK_SIZEOF {
            self.primary_sizeof()
        } else if self.token == TK_ID {
            self.primary_ident()
        } else if self.token == TK_LPAREN {
            self.primary_paren()
        } else if self.token == TK_MUL {
            self.unary_deref()
        } else if self.token == TK_AND {
            self.unary_address()
        } else if self.token == TK_NOT {
            self.unary_not()
        } else if self.token == TK_TILDE {
            self.unary_complement()
        } else if self.token == TK_ADD {
            self.unary_plus()
        } else if self.token == TK_SUB {
            self.unary_minus()
        } else if self.token == TK_INC || self.token == TK_DEC {
            self.prefix_step()
        } else {
            fail(self, CompileErrorKind::BadExpression)
        }
    }

    /// The binary operators that follow a compiled left operand, as long as
    /// their token code is at least `level`. An assignment turns the load
    /// that ends the left operand's code into `PSH`, compiles the right
    /// side and stores. Any other operator compiles its right operand at
    /// the operator's own code less one, then emits its instruction; the
    /// type stays that of the left operand.
    pub open spec fn binary(self, level: i32) -> (State, Result<(), CompileError>)
        decreases self.weight(), 1int,
        when self.wf()
    {
        if self.token < level {
            done(self)
        } else if self.token == TK_ASSIGN {
            let s1 = self.next();
            if !s1.ends_in_load() {
                fail(s1, CompileErrorKind::BadLvalueInAssignment)
            } else {
                proof {
                    lemma_next(self);
                }
                let (s2, r) = s1.set_last_word(OpCode::PSH.spec_code()).expr(TK_ASSIGN);
                match r {
                    Err(e) => (s2, Err(e)),
                    Ok(_) => if !s2.advanced_from(self) {
                        done(s2)
                    } else {
                        s2.with_ty(s1.ty).emit_store().binary(level)
                    },
                }
            }
        } else {
            match binary_opcode(self.token) {
                None => fail(self, CompileErrorKind::BadOperator),
                Some(op) => {
                    proof {
                        lemma_next(self);
                    }
                    let (s2, r) = self.next().expr((self.token - 1) as i32);
                    match r {
                        Err(e) => (s2, Err(e)),
                        Ok(_) => if !s2.advanced_from(self) {
                            done(s2)
                        } else {
                            s2.emit(op).with_ty(self.ty).binary(level)
                        },
                    }
                },
            }
        }
    }

    /// An expression: a primary, then the binary operators of precedence
    /// `level` or higher.
    pub open spec fn expr(self, level: i32) -> (State, Result<(), CompileError>)
        decreases self.weight(), 3int,
        when self.wf()
    {
        let (s1, r) = self.primary();
        match r {
            Err(e) => (s1, Err(e)),
            Ok(_) => if !s1.advanced_from(self) {
                done(s1)
            } else {
                s1.binary(level)
            },
        }
    }
}

/// Emitting keeps the state well formed and its weight.
pub proof fn lemma_push_word(s: State, w: i64)
    requires
        s.wf(),
    ensures
        s.push_word(w).wf(),
        s.push_word(w).weight() == s.weight(),
{
}

/// Passing over the `*` of a type keeps the state well formed and does not
/// raise its weight; the type that comes out is no smaller than the base.
pub proof fn lemma_stars(s: State, ty: i32)
    requires
        s.wf(),
    ensures
        s.stars(ty).0.wf(),
        s.stars(ty).0.after(s),
        s.stars(ty).1 matches Some(t) ==> s.stars(ty).0.token != TK_MUL,
    decreases s.weight(),
{
    if s.token == TK_MUL && !(ty > TYPE_LIMIT || ty < 0) {
        lemma_next(s);
        lemma_stars(s.next(), (ty + TY_PTR) as i32);
    }
}

/// Passing over string literals keeps the state well formed and does not
/// raise its weight.
pub proof fn lemma_skip_strings(s: State)
    requires
        s.wf(),
    ensures
        s.skip_strings().wf(),
        s.skip_strings().after(s),
        s.skip_strings().token != TK_STRING,
    decreases s.weight(),
{
    if s.token == TK_STRING {
        lemma_next(s);
        lemma_skip_strings(s.next());
    }
}

} // verus!
