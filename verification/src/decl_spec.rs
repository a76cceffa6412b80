//! What the compiler does with declarations, as functions on the
//! compilation state: enums, global variables, and functions with their
//! parameters and local variables.

use crate::error::{CompileError, CompileErrorKind};
use crate::expr_spec::{done, fail, lemma_stars};
use crate::lex_spec::lemma_next;
use crate::opcode::OpCode;
use crate::state::State;
use crate::symbol::SymbolView;
use crate::token::{
    TK_ASSIGN, TK_CHAR, TK_COMMA, TK_ENUM, TK_EOF, TK_FUN, TK_GLO, TK_ID, TK_INT, TK_LBRACE,
    TK_LOC, TK_LPAREN, TK_NUM, TK_RBRACE, TK_RPAREN, TK_SEMI, TY_CHAR, TY_INT,
};
use vstd::prelude::*;
use vstd::string::*;

verus! {

/// Index of the first function named `main` from `i` on.
pub open spec fn find_main_from(table: Seq<SymbolView>, i: int) -> Option<int>
    decreases table.len() - i,
{
    if i < 0 || i >= table.len() {
        None
    } else if table[i].name == "main".spec_bytes() && table[i].class == TK_FUN {
        Some(i)
    } else {
        find_main_from(table, i + 1)
    }
}

/// The table after the end of a function: every local gives way to what it
/// hid.
pub open spec fn leave_scope(table: Seq<SymbolView>) -> Seq<SymbolView> {
    Seq::new(
        table.len(),
        |i: int|
            if table[i].class == TK_LOC {
                table[i].unshadow()
            } else {
                table[i]
            },
    )
}

impl State {
    /// The compiled program can be handed out: the segments took all that
    /// was emitted, and `main` is a function.
    pub open spec fn finish(self) -> (State, Result<(), CompileError>) {
        if self.overflow {
            fail(self, CompileErrorKind::ProgramTooLarge)
        } else if find_main_from(self.symbols, 0) is None {
            fail(self, CompileErrorKind::MainNotDefined)
        } else {
            done(self)
        }
    }

    /// The base type of a declaration: `int` or `char` is passed over;
    /// without either the type is `int`.
    pub open spec fn base_type(self) -> (State, i32) {
        if self.token == TK_INT {
            (self.next(), TY_INT)
        } else if self.token == TK_CHAR {
            (self.next(), TY_CHAR)
        } else {
            (self, TY_INT)
        }
    }

    /// Symbol `i` becomes a local of type `ty` at frame index `index`; what
    /// it was is kept in its shadow fields.
    pub open spec fn declare_local(self, i: int, ty: i32, index: i64) -> State {
        self.set_symbol(i, self.symbols[i].shadow().bind(TK_LOC, ty, index))
    }

    /// A `,` at the cursor is passed over.
    pub open spec fn skip_comma(self) -> State {
        if self.token == TK_COMMA {
            self.next()
        } else {
            self
        }
    }

    /// The enumerators up to the `}`: each identifier becomes a constant of
    /// type `int`; `= number` sets the value, which otherwise is one more
    /// than that of the enumerator before, from `value` on.
    pub open spec fn enumerators(self, value: i64) -> (State, Result<(), CompileError>)
        decreases self.weight(),
        when self.wf()
    {
        if self.token == TK_RBRACE {
            done(self)
        } else if self.token != TK_ID {
            fail(self, CompileErrorKind::BadEnumIdentifier)
        } else {
            let i = self.id;
            let s1 = self.next();
            if s1.token == TK_ASSIGN && s1.next().token != TK_NUM {
                fail(s1.next(), CompileErrorKind::BadEnumInitializer)
            } else {
                let (s2, v) = if s1.token == TK_ASSIGN {
                    (s1.next().next(), s1.next().token_val)
                } else {
                    (s1, value)
                };
                proof {
                    lemma_next(self);
                    lemma_next(s1);
                    lemma_next(s1.next());
                    lemma_next(s2.set_symbol(i, s2.symbols[i].bind(TK_NUM, TY_INT, v)));
                }
                s2.set_symbol(i, s2.symbols[i].bind(TK_NUM, TY_INT, v)).skip_comma().enumerators(
                    v.wrapping_add(1),
                )
            }
        }
    }

    /// `enum`, an optional name, and an optional list of enumerators in
    /// braces.
    pub open spec fn enum_declaration(self) -> (State, Result<(), CompileError>) {
        let s1 = self.next();
        let s2 = if s1.token != TK_LBRACE {
            s1.next()
        } else {
            s1
        };
        if s2.token != TK_LBRACE {
            done(s2)
        } else {
            let (s3, r) = s2.next().enumerators(0);
            match r {
                Err(e) => (s3, Err(e)),
                Ok(_) => done(s3.next()),
            }
        }
    }

    /// The parameters of a function up to the `)`: each becomes a local
    /// whose frame index counts from `n`; gives the index behind the last.
    pub open spec fn params(self, n: i64) -> (State, Result<i64, CompileError>)
        decreases self.weight(),
        when self.wf()
    {
        if self.token == TK_RPAREN {
            (self, Ok(n))
        } else {
            let (s1, base) = self.base_type();
            match s1.stars(base) {
                (s2, None) => fail(s2, CompileErrorKind::TypeTooDeep),
                (s2, Some(ty)) => if s2.token != TK_ID {
                    fail(s2, CompileErrorKind::BadParameterDeclaration)
                } else if s2.symbols[s2.id].class == TK_LOC {
                    fail(s2, CompileErrorKind::DuplicateParameterDefinition)
                } else {
                    let s3 = s2.declare_local(s2.id, ty, n);
                    proof {
                        lemma_next(self);
                        lemma_stars(s1, base);
                        lemma_next(s3);
                        lemma_next(s3.next());
                    }
                    s3.next().skip_comma().params((n + 1) as i64)
                },
            }
        }
    }

    /// The declarators of one local declaration up to its `;`, then the
    /// local declarations that follow. Each local gets the frame index one
    /// above the one before; gives the last index, counted from `m`.
    pub open spec fn local_declarators(self, base: i32, m: i64) -> (
        State,
        Result<i64, CompileError>,
    )
        decreases self.weight(), 0int,
        when self.wf()
    {
        if self.token == TK_SEMI {
            proof {
                lemma_next(self);
            }
            self.next().locals(m)
        } else {
            match self.stars(base) {
                (s1, None) => fail(s1, CompileErrorKind::TypeTooDeep),
                (s1, Some(ty)) => if s1.token != TK_ID {
                    fail(s1, CompileErrorKind::BadLocalDeclaration)
                } else if s1.symbols[s1.id].class == TK_LOC {
                    fail(s1, CompileErrorKind::DuplicateLocalDefinition)
                } else {
                    let s2 = s1.declare_local(s1.id, ty, (m + 1) as i64);
                    proof {
                        lemma_stars(self, base);
                        lemma_next(s2);
                        lemma_next(s2.next());
                    }
                    s2.next().skip_comma().local_declarators(base, (m + 1) as i64)
                },
            }
        }
    }

    /// The local declarations at the start of a function body: as long as
    /// a base type starts one.
    pub open spec fn locals(self, m: i64) -> (State, Result<i64, CompileError>)
        decreases self.weight(), 1int,
        when self.wf()
    {
        if self.token == TK_INT || self.token == TK_CHAR {
            proof {
                lemma_next(self);
            }
            self.next().local_declarators(
                if self.token == TK_INT {
                    TY_INT
                } else {
                    TY_CHAR
                },
                m,
            )
        } else {
            (self, Ok(m))
        }
    }

    /// The `LEV` that ends a function, unless the word emitted last is one.
    pub open spec fn emit_leave(self) -> State {
        if self.last_word() == OpCode::LEV.spec_code() {
            self
        } else {
            self.emit(OpCode::LEV)
        }
    }

    /// The body of a function with `n` parameters, from the first token
    /// behind its `{`: the local declarations, `ENT` with the number of
    /// locals, the statements, and a final `LEV` unless the code ends in
    /// one. Then the locals leave the table and the `}` is passed over.
    pub open spec fn function_body(self, n: i64) -> (State, Result<(), CompileError>) {
        let frame = (n + 1) as i64;
        let (s1, r1) = State { loc: frame, ..self }.locals(frame);
        match r1 {
            Err(e) => (s1, Err(e)),
            Ok(m) => {
                let (s2, r2) = s1.emit_with_operand(OpCode::ENT, (m - frame) as i64).statements();
                match r2 {
                    Err(e) => (s2, Err(e)),
                    Ok(_) => {
                        let s3 = s2.emit_leave();
                        done(State { symbols: leave_scope(s3.symbols), ..s3 }.next())
                    },
                }
            },
        }
    }

    /// A function definition, from the `(` behind its name, where `i` is
    /// the symbol of the name and `ty` the type it returns: the symbol
    /// becomes a function whose value is the address of its `ENT`.
    pub open spec fn function_definition(self, i: int, ty: i32) -> (
        State,
        Result<(), CompileError>,
    ) {
        let s1 = self.set_symbol(i, self.symbols[i].bind(TK_FUN, ty, self.here())).next();
        let (s2, r) = s1.params(0);
        match r {
            Err(e) => (s2, Err(e)),
            Ok(n) => {
                let s3 = s2.next();
                if s3.token != TK_LBRACE {
                    fail(s3, CompileErrorKind::BadFunctionDefinition)
                } else {
                    s3.next().function_body(n)
                }
            },
        }
    }

    /// Symbol `i` becomes a global of type `ty`, with one zeroed word of the
    /// data segment as its storage.
    pub open spec fn declare_global(self, i: int, ty: i32) -> State {
        self.set_symbol(i, self.symbols[i].bind(TK_GLO, ty, self.data.len() as i64)).alloc_word()
    }

    /// The declarators of a global declaration of base type `base`: names
    /// of global variables up to the `;`, or one function definition.
    pub open spec fn declarators(self, base: i32) -> (State, Result<(), CompileError>)
        decreases self.weight(),
        when self.wf()
    {
        if self.token == TK_SEMI {
            done(self.next())
        } else {
            match self.stars(base) {
                (s1, None) => fail(s1, CompileErrorKind::TypeTooDeep),
                (s1, Some(ty)) => if s1.token != TK_ID {
                    fail(s1, CompileErrorKind::BadGlobalDeclaration)
                } else if s1.symbols[s1.id].class != 0 {
                    fail(s1, CompileErrorKind::DuplicateGlobalDefinition)
                } else {
                    let i = s1.id;
                    let s2 = s1.next();
                    if s2.token == TK_LPAREN {
                        s2.function_definition(i, ty)
                    } else {
                        let s3 = s2.declare_global(i, ty);
                        proof {
                            lemma_stars(self, base);
                            lemma_next(s1);
                            lemma_next(s3);
                        }
                        s3.skip_comma().declarators(base)
                    }
                },
            }
        }
    }

    /// One declaration at the top level: an enum, or a base type and its
    /// declarators.
    pub open spec fn declaration(self) -> (State, Result<(), CompileError>) {
        if self.token == TK_ENUM {
            let (s1, r) = self.enum_declaration();
            match r {
                Err(e) => (s1, Err(e)),
                Ok(_) => s1.declarators(TY_INT),
            }
        } else {
            let (s1, base) = self.base_type();
            s1.declarators(base)
        }
    }

    /// The declarations up to the end of the source.
    pub open spec fn declarations(self) -> (State, Result<(), CompileError>)
        decreases self.weight(),
        when self.wf()
    {
        if self.token == TK_EOF {
            done(self)
        } else {
            let (s1, r) = self.declaration();
            match r {
                Err(e) => (s1, Err(e)),
                Ok(_) => if !s1.advanced_from(self) {
                    done(s1)
                } else {
                    s1.declarations()
                },
            }
        }
    }

    /// A whole program: the first token is read, the declarations are
    /// compiled, and the result is checked for a `main` and for overflow.
    pub open spec fn program(self) -> (State, Result<(), CompileError>) {
        let (s1, r) = self.next().declarations();
        match r {
            Err(e) => (s1, Err(e)),
            Ok(_) => s1.finish(),
        }
    }
}

} // verus!
