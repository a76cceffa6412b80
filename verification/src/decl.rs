//! The compiler of declarations: enums, global variables, functions, and
//! the program as a whole.

use crate::compiler::C4;
use crate::decl_spec::{find_main_from, leave_scope};
use crate::error::{CompileError, CompileErrorKind};
use crate::expr::agrees;
use crate::opcode::OpCode;
use crate::state::{MAX_SOURCE_LEN, State};
use crate::token::{
    TK_ASSIGN, TK_CHAR, TK_COMMA, TK_ENUM, TK_EOF, TK_FUN, TK_GLO, TK_ID, TK_INT, TK_LBRACE,
    TK_LOC, TK_LPAREN, TK_NUM, TK_RBRACE, TK_RPAREN, TK_SEMI, TY_CHAR, TY_INT,
};
use crate::symbol::bytes_eq;
use vstd::prelude::*;
use vstd::string::*;

verus! {

impl C4 {
    /// Index of the first function named `main`.
    pub fn find_main(&self) -> (r: Option<usize>)
        ensures
            match r {
                Some(i) => i < self.symbols.len() && find_main_from(self@.symbols, 0) == Some(
                    i as int,
                ),
                None => find_main_from(self@.symbols, 0) is None,
            },
    {
        let name = "main".as_bytes();
        let mut i: usize = 0;
        while i < self.symbols.len()
            invariant
                i <= self.symbols.len(),
                name@ == "main".spec_bytes(),
                find_main_from(self@.symbols, i as int) == find_main_from(self@.symbols, 0),
            decreases self.symbols.len() - i,
        {
            if self.symbols[i].class == TK_FUN && bytes_eq(self.symbols[i].name.as_slice(), name) {
                return Some(i);
            }
            i += 1;
        }
        None
    }

    /// Passes over the base type that starts a declaration and gives its
    /// type code.
    fn base_type(&mut self) -> (base: i32)
        requires
            old(self).wf(),
        ensures
            final(self).wf(),
            final(self)@.retains(old(self)@),
            final(self)@ == old(self)@.base_type().0,
            base == old(self)@.base_type().1,
            final(self)@.after(old(self)@),
    {
        if self.token == TK_INT {
            self.next();
            TY_INT
        } else if self.token == TK_CHAR {
            self.next();
            TY_CHAR
        } else {
            TY_INT
        }
    }

    /// Passes over a `,`.
    fn skip_comma(&mut self)
        requires
            old(self).wf(),
        ensures
            final(self).wf(),
            final(self)@.retains(old(self)@),
            final(self)@ == old(self)@.skip_comma(),
            final(self)@.after(old(self)@),
    {
        if self.token == TK_COMMA {
            self.next();
        }
    }

    /// Makes symbol `i` a local of type `ty` at frame index `index`.
    fn declare_local(&mut self, i: usize, ty: i32, index: i64)
        requires
            old(self).wf(),
            i < old(self)@.symbols.len(),
        ensures
            final(self).wf(),
            final(self)@.retains(old(self)@),
            final(self)@ == old(self)@.declare_local(i as int, ty, index),
    {
        self.shadow(i);
        self.bind(i, TK_LOC, ty, index);
        assert(self@.symbols =~= old(self)@.declare_local(i as int, ty, index).symbols);
    }

    /// Makes symbol `i` a global of type `ty` and gives it one word of the
    /// data segment.
    fn declare_global(&mut self, i: usize, ty: i32)
        requires
            old(self).wf(),
            i < old(self)@.symbols.len(),
        ensures
            final(self).wf(),
            final(self)@.retains(old(self)@),
            final(self)@ == old(self)@.declare_global(i as int, ty),
    {
        let at = self.data.len() as i64;
        self.bind(i, TK_GLO, ty, at);
        self.alloc_word();
    }

    /// Compiles the enumerators of an enum up to the `}`.
    fn enumerators(&mut self) -> (r: Result<(), CompileError>)
        requires
            old(self).wf(),
        ensures
            final(self).wf(),
            final(self)@.retains(old(self)@),
            agrees(r, final(self)@, old(self)@.enumerators(0)),
            r is Ok ==> final(self)@.weight() <= old(self)@.weight(),
    {
        let mut value: i64 = 0;
        while self.token != TK_RBRACE
            invariant
                self.wf(),
                self@.retains(old(self)@),
                self@.enumerators(value) == old(self)@.enumerators(0),
                self@.weight() <= old(self)@.weight(),
            decreases self@.weight(),
        {
            if self.token != TK_ID {
                return self.error(CompileErrorKind::BadEnumIdentifier);
            }
            let i = self.id;
            self.next();
            if self.token == TK_ASSIGN {
                self.next();
                if self.token != TK_NUM {
                    return self.error(CompileErrorKind::BadEnumInitializer);
                }
                value = self.token_val;
                self.next();
            }
            self.bind(i, TK_NUM, TY_INT, value);
            self.skip_comma();
            value = value.wrapping_add(1);
        }
        Ok(())
    }

    /// Compiles an enum declaration up to and with its `}`.
    fn enum_declaration(&mut self) -> (r: Result<(), CompileError>)
        requires
            old(self).wf(),
            old(self).token == TK_ENUM,
        ensures
            final(self).wf(),
            final(self)@.retains(old(self)@),
            agrees(r, final(self)@, old(self)@.enum_declaration()),
            r is Ok ==> final(self)@.weight() < old(self)@.weight(),
    {
        self.next();
        if self.token != TK_LBRACE {
            self.next();
        }
        if self.token == TK_LBRACE {
            self.next();
            match self.enumerators() {
                Err(e) => {
                    return Err(e);
                },
                Ok(_) => {},
            }
            self.next();
        }
        Ok(())
    }

    /// Declares the parameters of a function up to the `)` and gives their
    /// number.
    fn params(&mut self) -> (r: Result<i64, CompileError>)
        requires
            old(self).wf(),
        ensures
            final(self).wf(),
            final(self)@.retains(old(self)@),
            agrees(r, final(self)@, old(self)@.params(0)),
            r is Ok ==> final(self)@.weight() <= old(self)@.weight(),
            r matches Ok(n) ==> 0 <= n <= 2 * MAX_SOURCE_LEN + 1,
    {
        let mut n: i64 = 0;
        while self.token != TK_RPAREN
            invariant
                self.wf(),
                self@.retains(old(self)@),
                self@.params(n) == old(self)@.params(0),
                self@.weight() <= old(self)@.weight(),
                0 <= n,
                n + self@.weight() <= old(self)@.weight(),
                old(self)@.weight() <= 2 * MAX_SOURCE_LEN + 1,
            decreases self@.weight(),
        {
            let base = self.base_type();
            let ty = match self.stars(base) {
                Some(ty) => ty,
                None => {
                    return self.error(CompileErrorKind::TypeTooDeep);
                },
            };
            if self.token != TK_ID {
                return self.error(CompileErrorKind::BadParameterDeclaration);
            }
            if self.symbols[self.id].class == TK_LOC {
                return self.error(CompileErrorKind::DuplicateParameterDefinition);
            }
            self.declare_local(self.id, ty, n);
            self.next();
            self.skip_comma();
            n = n + 1;
        }
        Ok(n)
    }

    /// Declares the locals at the start of a function body and gives the
    /// frame index of the last, counted from `first`.
    fn locals(&mut self, first: i64) -> (r: Result<i64, CompileError>)
        requires
            old(self).wf(),
            0 <= first <= 2 * MAX_SOURCE_LEN + 2,
        ensures
            final(self).wf(),
            final(self)@.retains(old(self)@),
            agrees(r, final(self)@, old(self)@.locals(first)),
            r is Ok ==> final(self)@.weight() <= old(self)@.weight(),
            r matches Ok(m) ==> first <= m <= first + 2 * MAX_SOURCE_LEN + 1,
    {
        let mut m: i64 = first;
        while self.token == TK_INT || self.token == TK_CHAR
            invariant
                self.wf(),
                self@.retains(old(self)@),
                self@.locals(m) == old(self)@.locals(first),
                self@.weight() <= old(self)@.weight(),
                first <= m,
                m - first + self@.weight() <= old(self)@.weight(),
                old(self)@.weight() <= 2 * MAX_SOURCE_LEN + 1,
                0 <= first <= 2 * MAX_SOURCE_LEN + 2,
            decreases self@.weight(),
        {
            let base = if self.token == TK_INT {
                TY_INT
            } else {
                TY_CHAR
            };
            let ghost heavier = self@.weight();
            self.next();
            while self.token != TK_SEMI
                invariant
                    self.wf(),
                    self@.retains(old(self)@),
                    self@.local_declarators(base, m) == old(self)@.locals(first),
                    self@.weight() < heavier,
                    first <= m,
                    m - first + self@.weight() <= old(self)@.weight(),
                    old(self)@.weight() <= 2 * MAX_SOURCE_LEN + 1,
                    0 <= first <= 2 * MAX_SOURCE_LEN + 2,
                decreases self@.weight(),
            {
                let ty = match self.stars(base) {
                    Some(ty) => ty,
                    None => {
                        return self.error(CompileErrorKind::TypeTooDeep);
                    },
                };
                if self.token != TK_ID {
                    return self.error(CompileErrorKind::BadLocalDeclaration);
                }
                if self.symbols[self.id].class == TK_LOC {
                    return self.error(CompileErrorKind::DuplicateLocalDefinition);
                }
                m = m + 1;
                self.declare_local(self.id, ty, m);
                self.next();
                self.skip_comma();
            }
            self.next();
        }
        Ok(m)
    }

    /// Emits the `LEV` that ends a function, unless the code ends in one.
    fn emit_leave(&mut self)
        requires
            old(self).wf(),
        ensures
            final(self).wf(),
            final(self)@.retains(old(self)@),
            final(self)@ == old(self)@.emit_leave(),
    {
        if self.e[self.e.len() - 1] != OpCode::LEV.code() {
            self.emit(OpCode::LEV);
        }
    }

    /// Takes the locals out of the symbol table: each gives way to what it
    /// hid.
    fn leave_scope(&mut self)
        requires
            old(self).wf(),
        ensures
            final(self).wf(),
            final(self)@.retains(old(self)@),
            final(self)@ == (State { symbols: leave_scope(old(self)@.symbols), ..old(self)@ }),
    {
        let ghost before = self@;
        let mut i: usize = 0;
        while i < self.symbols.len()
            invariant
                self.wf(),
                self@.retains(old(self)@),
                i <= self.symbols.len(),
                self@ == (State { symbols: self@.symbols, ..before }),
                self@.symbols.len() == before.symbols.len(),
                forall|j: int| 0 <= j < i ==> self@.symbols[j] == leave_scope(before.symbols)[j],
                forall|j: int|
                    i <= j < self@.symbols.len() ==> self@.symbols[j] == before.symbols[j],
            decreases self.symbols.len() - i,
        {
            if self.symbols[i].class == TK_LOC {
                self.unshadow(i);
            }
            i += 1;
        }
        assert(self@.symbols =~= leave_scope(before.symbols));
    }

    /// Compiles the body of a function with `n` parameters, from the first
    /// token behind its `{` up to and with its `}`.
    pub fn compile_function(&mut self, n: i64) -> (r: Result<(), CompileError>)
        requires
            old(self).wf(),
            0 <= n <= 2 * MAX_SOURCE_LEN + 1,
        ensures
            final(self).wf(),
            final(self)@.retains(old(self)@),
            agrees(r, final(self)@, old(self)@.function_body(n)),
            r is Ok ==> final(self)@.weight() <= old(self)@.weight(),
    {
        let frame = n + 1;
        self.loc = frame;
        let m = match self.locals(frame) {
            Ok(m) => m,
            Err(e) => {
                return Err(e);
            },
        };
        self.emit_with_operand(OpCode::ENT, m - frame);
        match self.compile_statements() {
            Err(e) => {
                return Err(e);
            },
            Ok(_) => {},
        }
        self.emit_leave();
        self.leave_scope();
        self.next();
        Ok(())
    }

    /// Compiles a function definition from the `(` behind its name, where
    /// `i` is the symbol of the name and `ty` the type that the function
    /// returns.
    pub fn compile_function_definition(&mut self, i: usize, ty: i32) -> (r: Result<
        (),
        CompileError,
    >)
        requires
            old(self).wf(),
            old(self).token == TK_LPAREN,
            i < old(self)@.symbols.len(),
        ensures
            final(self).wf(),
            final(self)@.retains(old(self)@),
            agrees(r, final(self)@, old(self)@.function_definition(i as int, ty)),
            r is Ok ==> final(self)@.weight() < old(self)@.weight(),
    {
        let entry = self.here();
        self.bind(i, TK_FUN, ty, entry);
        self.next();
        let n = match self.params() {
            Ok(n) => n,
            Err(e) => {
                return Err(e);
            },
        };
        self.next();
        if self.token != TK_LBRACE {
            return self.error(CompileErrorKind::BadFunctionDefinition);
        }
        self.next();
        self.compile_function(n)
    }

    /// Compiles the declarators of a global declaration of base type
    /// `base`.
    fn declarators(&mut self, base: i32) -> (r: Result<(), CompileError>)
        requires
            old(self).wf(),
        ensures
            final(self).wf(),
            final(self)@.retains(old(self)@),
            agrees(r, final(self)@, old(self)@.declarators(base)),
            r is Ok ==> final(self)@.weight() < old(self)@.weight(),
    {
        while self.token != TK_SEMI
            invariant
                self.wf(),
                self@.retains(old(self)@),
                self@.declarators(base) == old(self)@.declarators(base),
                self@.weight() <= old(self)@.weight(),
            decreases self@.weight(),
        {
            let ty = match self.stars(base) {
                Some(ty) => ty,
                None => {
                    return self.error(CompileErrorKind::TypeTooDeep);
                },
            };
            if self.token != TK_ID {
                return self.error(CompileErrorKind::BadGlobalDeclaration);
            }
            let i = self.id;
            if self.symbols[i].class != 0 {
                return self.error(CompileErrorKind::DuplicateGlobalDefinition);
            }
            self.next();
            if self.token == TK_LPAREN {
                return self.compile_function_definition(i, ty);
            }
            self.declare_global(i, ty);
            self.skip_comma();
        }
        self.next();
        Ok(())
    }

    /// Compiles one declaration of the top level.
    pub fn compile_declaration(&mut self) -> (r: Result<(), CompileError>)
        requires
            old(self).wf(),
            old(self).token != TK_EOF,
        ensures
            final(self).wf(),
            final(self)@.retains(old(self)@),
            agrees(r, final(self)@, old(self)@.declaration()),
            r is Ok ==> final(self)@.weight() < old(self)@.weight(),
    {
        if self.token == TK_ENUM {
            match self.enum_declaration() {
                Err(e) => {
                    return Err(e);
                },
                Ok(_) => {},
            }
            self.declarators(TY_INT)
        } else {
            let base = self.base_type();
            self.declarators(base)
        }
    }

    /// Compiles the source from the cursor to its end: every declaration
    /// of the program. Fails where the program has no `main` or a segment
    /// is full.
    pub fn compile(&mut self) -> (r: Result<(), CompileError>)
        requires
            old(self).wf(),
        ensures
            final(self).wf(),
            final(self)@.retains(old(self)@),
            agrees(r, final(self)@, old(self)@.program()),
    {
        self.next();
        let ghost s1 = self@;
        while self.token != TK_EOF
            invariant
                self.wf(),
                self@.retains(old(self)@),
                s1 == old(self)@.next(),
                self@.declarations() == s1.declarations(),
            decreases self@.weight(),
        {
            match self.compile_declaration() {
                Err(e) => {
                    return Err(e);
                },
                Ok(_) => {},
            }
        }
        if self.overflow {
            return self.error(CompileErrorKind::ProgramTooLarge);
        }
        match self.find_main() {
            Some(_) => Ok(()),
            None => self.error(CompileErrorKind::MainNotDefined),
        }
    }
}

} // verus!
