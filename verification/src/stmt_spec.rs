//! What the statement compiler does, as functions on the compilation state.

use crate::error::{CompileError, CompileErrorKind};
use crate::expr_spec::{done, fail};
use crate::lex_spec::lemma_next;
use crate::opcode::OpCode;
use crate::state::State;
use crate::token::{
    TK_ASSIGN, TK_ELSE, TK_EOF, TK_IF, TK_LBRACE, TK_LPAREN, TK_RBRACE, TK_RETURN, TK_RPAREN,
    TK_SEMI, TK_WHILE, TY_INT,
};
use vstd::prelude::*;

verus! {

impl State {
    /// The index of the word emitted last: the operand slot of a jump that
    /// was just emitted.
    pub open spec fn last_slot(self) -> int {
        self.code.len() - 1
    }

    /// `( expression )` behind `if` or `while`: the condition is compiled
    /// and must be an `int`.
    pub open spec fn condition(self) -> (State, Result<(), CompileError>) {
        let s1 = self.next();
        if s1.token != TK_LPAREN {
            fail(s1, CompileErrorKind::OpenParenExpected)
        } else {
            let (s2, r) = s1.next().expr(TK_ASSIGN);
            match r {
                Err(e) => (s2, Err(e)),
                Ok(_) => if s2.ty != TY_INT {
                    fail(s2, CompileErrorKind::ConditionNotInt)
                } else if s2.token != TK_RPAREN {
                    fail(s2, CompileErrorKind::CloseParenExpected)
                } else {
                    done(s2.next())
                },
            }
        }
    }

    /// An expression followed by `;`.
    pub open spec fn expression_statement(self) -> (State, Result<(), CompileError>) {
        let (s1, r) = self.expr(TK_ASSIGN);
        match r {
            Err(e) => (s1, Err(e)),
            Ok(_) => if s1.token != TK_SEMI {
                fail(s1, CompileErrorKind::SemicolonExpected)
            } else {
                done(s1.next())
            },
        }
    }

    /// `return ;` or `return expression ;`: the expression, which must be
    /// an `int`, then `LEV`.
    pub open spec fn return_statement(self) -> (State, Result<(), CompileError>) {
        let s1 = self.next();
        let (s2, r) = if s1.token != TK_SEMI {
            s1.expr(TK_ASSIGN)
        } else {
            done(s1)
        };
        match r {
            Err(e) => (s2, Err(e)),
            Ok(_) => if s1.token != TK_SEMI && s2.ty != TY_INT {
                fail(s2, CompileErrorKind::ReturnNotInt)
            } else if s2.token != TK_SEMI {
                fail(s2, CompileErrorKind::SemicolonExpected)
            } else {
                done(s2.emit(OpCode::LEV).next())
            },
        }
    }

    /// `if ( condition ) statement` with an optional `else statement`:
    /// `BZ` over the first statement, and with an `else` a `JMP` over the
    /// second; each target is filled in when the address is known.
    pub open spec fn if_statement(self) -> (State, Result<(), CompileError>)
        decreases self.weight(), 0int,
        when self.wf()
    {
        let (s1, r1) = self.condition();
        match r1 {
            Err(e) => (s1, Err(e)),
            Ok(_) => if !s1.advanced_from(self) {
                done(s1)
            } else {
                let s2 = s1.emit_with_operand(OpCode::BZ, 0);
                let skip_then = s2.last_slot();
                let (s3, r3) = s2.statement();
                match r3 {
                    Err(e) => (s3, Err(e)),
                    Ok(_) => if s3.token != TK_ELSE {
                        done(s3.patch(skip_then, s3.here()))
                    } else if !s3.advanced_from(self) {
                        done(s3)
                    } else {
                        let s4 = s3.emit_with_operand(OpCode::JMP, 0);
                        let skip_else = s4.last_slot();
                        let s5 = s4.patch(skip_then, s4.here()).next();
                        if !s5.advanced_from(self) {
                            done(s5)
                        } else {
                            let (s6, r6) = s5.statement();
                            match r6 {
                                Err(e) => (s6, Err(e)),
                                Ok(_) => done(s6.patch(skip_else, s6.here())),
                            }
                        }
                    },
                }
            },
        }
    }

    /// `while ( condition ) statement`: `BZ` out of the loop behind the
    /// condition, and behind the statement a `JMP` back to the first word of
    /// the condition's code.
    pub open spec fn while_statement(self) -> (State, Result<(), CompileError>)
        decreases self.weight(), 0int,
        when self.wf()
    {
        let start = self.here();
        let (s1, r1) = self.condition();
        match r1 {
            Err(e) => (s1, Err(e)),
            Ok(_) => if !s1.advanced_from(self) {
                done(s1)
            } else {
                let s2 = s1.emit_with_operand(OpCode::BZ, 0);
                let leave = s2.last_slot();
                let (s3, r3) = s2.statement();
                match r3 {
                    Err(e) => (s3, Err(e)),
                    Ok(_) => {
                        let s4 = s3.emit_with_operand(OpCode::JMP, start);
                        done(s4.patch(leave, s4.here()))
                    },
                }
            },
        }
    }

    /// The jumps of a `while` statement that was compiled from `old` to
    /// `self` go where they should: the `BZ` behind the condition goes to
    /// the address behind the loop, and the `JMP` that ends the loop goes
    /// back to the first word of the condition.
    pub open spec fn closes_loop(self, old: State) -> bool {
        let test = old.condition().0.code.len() as int;
        let n = self.code.len() as int;
        &&& test + 4 <= n
        &&& self.code[test] == OpCode::BZ.spec_code()
        &&& self.code[test + 1] == n
        &&& self.code[n - 2] == OpCode::JMP.spec_code()
        &&& self.code[n - 1] == old.code.len()
    }

    /// The jumps of an `if` statement that was compiled from `old` to
    /// `self` go where they should: without `else` the `BZ` behind the
    /// condition goes to the address behind the statement; with `else` it
    /// goes to the first word of the second branch, and the `JMP` that ends
    /// the first branch goes to the address behind the statement.
    pub open spec fn closes_branches(self, old: State) -> bool {
        let condition = old.condition().0;
        let first = condition.emit_with_operand(OpCode::BZ, 0).statement().0;
        let test = condition.code.len() as int;
        let other = first.code.len() as int;
        let n = self.code.len() as int;
        &&& test + 2 <= other <= n
        &&& self.code[test] == OpCode::BZ.spec_code()
        &&& if first.token == TK_ELSE {
            &&& other + 2 <= n
            &&& self.code[test + 1] == other + 2
            &&& self.code[other] == OpCode::JMP.spec_code()
            &&& self.code[other + 1] == n
        } else {
            self.code[test + 1] == n
        }
    }

    /// The statements up to a `}`, which stays the current token.
    pub open spec fn statements(self) -> (State, Result<(), CompileError>)
        decreases self.weight(), 2int,
        when self.wf()
    {
        if self.token == TK_RBRACE {
            done(self)
        } else {
            let (s1, r) = self.statement();
            match r {
                Err(e) => (s1, Err(e)),
                Ok(_) => if !s1.advanced_from(self) {
                    done(s1)
                } else {
                    s1.statements()
                },
            }
        }
    }

    /// `{ statements }`.
    pub open spec fn block(self) -> (State, Result<(), CompileError>)
        decreases self.weight(), 0int,
        when self.wf() && self.token != TK_EOF
    {
        proof {
            lemma_next(self);
        }
        let (s1, r) = self.next().statements();
        match r {
            Err(e) => (s1, Err(e)),
            Ok(_) => done(s1.next()),
        }
    }

    /// One statement, told by its first token: `if`, `while`, `return`, a
    /// block, or an expression statement.
    pub open spec fn statement(self) -> (State, Result<(), CompileError>)
        decreases self.weight(), 1int,
        when self.wf()
    {
        if self.token == TK_IF {
            self.if_statement()
        } else if self.token == TK_WHILE {
            self.while_statement()
        } else if self.token == TK_RETURN {
            self.return_statement()
        } else if self.token == TK_LBRACE {
            self.block()
        } else {
            self.expression_statement()
        }
    }
}

} // verus!
