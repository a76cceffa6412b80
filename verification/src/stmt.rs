//! The statement compiler: control flow with jumps whose targets are filled
//! in once they are known.

use crate::compiler::C4;
use crate::error::{CompileError, CompileErrorKind};
use crate::expr::agrees;
use crate::opcode::OpCode;
use crate::token::{
    TK_ASSIGN, TK_ELSE, TK_EOF, TK_IF, TK_LBRACE, TK_LPAREN, TK_RBRACE, TK_RETURN, TK_RPAREN,
    TK_SEMI, TK_WHILE, TY_INT,
};
use vstd::prelude::*;

verus! {

impl C4 {
    /// Index of the word emitted last.
    fn last_slot(&self) -> (at: usize)
        requires
            self.wf(),
        ensures
            at == self@.last_slot(),
    {
        self.e.len() - 1
    }

    /// Compiles the condition of an `if` or a `while`, parentheses
    /// included.
    fn condition(&mut self) -> (r: Result<(), CompileError>)
        requires
            old(self).wf(),
            old(self).token != TK_EOF,
        ensures
            final(self).wf(),
            final(self)@.retains(old(self)@),
            agrees(r, final(self)@, old(self)@.condition()),
            r is Ok ==> final(self)@.keeps(old(self)@),
            r is Ok ==> final(self)@.weight() < old(self)@.weight(),
    {
        self.next();
        if self.token != TK_LPAREN {
            return self.error(CompileErrorKind::OpenParenExpected);
        }
        self.next();
        match self.expr(TK_ASSIGN) {
            Err(e) => {
                return Err(e);
            },
            Ok(_) => {},
        }
        if self.type_ != TY_INT {
            return self.error(CompileErrorKind::ConditionNotInt);
        }
        if self.token != TK_RPAREN {
            return self.error(CompileErrorKind::CloseParenExpected);
        }
        self.next();
        Ok(())
    }

    /// Compiles an expression statement: an assignment, a call or any other
    /// expression, up to and with its `;`.
    pub fn compile_assignment(&mut self) -> (r: Result<(), CompileError>)
        requires
            old(self).wf(),
        ensures
            final(self).wf(),
            final(self)@.retains(old(self)@),
            agrees(r, final(self)@, old(self)@.expression_statement()),
            r is Ok ==> final(self)@.keeps(old(self)@),
            r is Ok ==> final(self)@.weight() < old(self)@.weight(),
    {
        match self.expr(TK_ASSIGN) {
            Err(e) => {
                return Err(e);
            },
            Ok(_) => {},
        }
        if self.token != TK_SEMI {
            return self.error(CompileErrorKind::SemicolonExpected);
        }
        self.next();
        Ok(())
    }

    /// Compiles a `return` statement.
    pub fn compile_return_statement(&mut self) -> (r: Result<(), CompileError>)
        requires
            old(self).wf(),
            old(self).token == TK_RETURN,
        ensures
            final(self).wf(),
            final(self)@.retains(old(self)@),
            agrees(r, final(self)@, old(self)@.return_statement()),
            r is Ok ==> final(self)@.keeps(old(self)@),
            r is Ok ==> final(self)@.weight() < old(self)@.weight(),
    {
        self.next();
        if self.token != TK_SEMI {
            match self.expr(TK_ASSIGN) {
                Err(e) => {
                    return Err(e);
                },
                Ok(_) => {},
            }
            if self.type_ != TY_INT {
                return self.error(CompileErrorKind::ReturnNotInt);
            }
        }
        if self.token != TK_SEMI {
            return self.error(CompileErrorKind::SemicolonExpected);
        }
        self.emit(OpCode::LEV);
        self.next();
        Ok(())
    }

    /// Compiles an `if` statement with its optional `else`.
    pub fn compile_if_statement(&mut self) -> (r: Result<(), CompileError>)
        requires
            old(self).wf(),
            old(self).token == TK_IF,
        ensures
            final(self).wf(),
            final(self)@.retains(old(self)@),
            agrees(r, final(self)@, old(self)@.if_statement()),
            r is Ok ==> final(self)@.keeps(old(self)@),
            r is Ok && !final(self).overflow ==> final(self)@.closes_branches(old(self)@),
            r is Ok ==> final(self)@.weight() < old(self)@.weight(),
        decreases old(self)@.weight(), 0int,
    {
        match self.condition() {
            Err(e) => {
                return Err(e);
            },
            Ok(_) => {},
        }
        self.emit_with_operand(OpCode::BZ, 0);
        let skip_then = self.last_slot();
        match self.compile_statement() {
            Err(e) => {
                return Err(e);
            },
            Ok(_) => {},
        }
        if self.token == TK_ELSE {
            self.emit_with_operand(OpCode::JMP, 0);
            let skip_else = self.last_slot();
            let target = self.here();
            self.patch(skip_then, target);
            self.next();
            match self.compile_statement() {
                Err(e) => {
                    return Err(e);
                },
                Ok(_) => {},
            }
            let target = self.here();
            self.patch(skip_else, target);
        } else {
            let target = self.here();
            self.patch(skip_then, target);
        }
        Ok(())
    }

    /// Compiles a `while` statement.
    pub fn compile_while_statement(&mut self) -> (r: Result<(), CompileError>)
        requires
            old(self).wf(),
            old(self).token == TK_WHILE,
        ensures
            final(self).wf(),
            final(self)@.retains(old(self)@),
            agrees(r, final(self)@, old(self)@.while_statement()),
            r is Ok ==> final(self)@.keeps(old(self)@),
            r is Ok && !final(self).overflow ==> final(self)@.closes_loop(old(self)@),
            r is Ok ==> final(self)@.weight() < old(self)@.weight(),
        decreases old(self)@.weight(), 0int,
    {
        let start = self.here();
        match self.condition() {
            Err(e) => {
                return Err(e);
            },
            Ok(_) => {},
        }
        self.emit_with_operand(OpCode::BZ, 0);
        let leave = self.last_slot();
        match self.compile_statement() {
            Err(e) => {
                return Err(e);
            },
            Ok(_) => {},
        }
        self.emit_with_operand(OpCode::JMP, start);
        let target = self.here();
        self.patch(leave, target);
        Ok(())
    }

    /// Compiles the statements up to a `}`, which it leaves as the current
    /// token.
    pub fn compile_statements(&mut self) -> (r: Result<(), CompileError>)
        requires
            old(self).wf(),
        ensures
            final(self).wf(),
            final(self)@.retains(old(self)@),
            agrees(r, final(self)@, old(self)@.statements()),
            r is Ok ==> final(self)@.keeps(old(self)@),
            r is Ok ==> final(self)@.weight() <= old(self)@.weight(),
            r is Ok ==> final(self).token == TK_RBRACE,
        decreases old(self)@.weight(), 2int,
    {
        while self.token != TK_RBRACE
            invariant
                self.wf(),
                self@.statements() == old(self)@.statements(),
                self@.weight() <= old(self)@.weight(),
                self@.keeps(old(self)@),
                self@.retains(old(self)@),
            decreases self@.weight(),
        {
            match self.compile_statement() {
                Err(e) => {
                    return Err(e);
                },
                Ok(_) => {},
            }
        }
        Ok(())
    }

    /// Compiles a block, `{` and `}` included.
    pub fn compile_block(&mut self) -> (r: Result<(), CompileError>)
        requires
            old(self).wf(),
            old(self).token == TK_LBRACE,
        ensures
            final(self).wf(),
            final(self)@.retains(old(self)@),
            agrees(r, final(self)@, old(self)@.block()),
            r is Ok ==> final(self)@.keeps(old(self)@),
            r is Ok ==> final(self)@.weight() < old(self)@.weight(),
        decreases old(self)@.weight(), 0int,
    {
        self.next();
        match self.compile_statements() {
            Err(e) => {
                return Err(e);
            },
            Ok(_) => {},
        }
        self.next();
        Ok(())
    }

    /// Compiles one statement.
    pub fn compile_statement(&mut self) -> (r: Result<(), CompileError>)
        requires
            old(self).wf(),
        ensures
            final(self).wf(),
            final(self)@.retains(old(self)@),
            agrees(r, final(self)@, old(self)@.statement()),
            r is Ok ==> final(self)@.keeps(old(self)@),
            r is Ok ==> final(self)@.weight() < old(self)@.weight(),
        decreases old(self)@.weight(), 1int,
    {
        if self.token == TK_IF {
            self.compile_if_statement()
        } else if self.token == TK_WHILE {
            self.compile_while_statement()
        } else if self.token == TK_RETURN {
            self.compile_return_statement()
        } else if self.token == TK_LBRACE {
            self.compile_block()
        } else {
            self.compile_assignment()
        }
    }
}

} // verus!
