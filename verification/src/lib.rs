//! A one-pass compiler from a small subset of C to the bytecode of a stack
//! machine, and the machine that runs it.
//!
//! The compiler reads the source token by token and emits code while it
//! parses; there is no syntax tree. Its parts share one state, `C4`: the
//! lexer (`lexer`), the expression compiler (`expr`), the statement
//! compiler (`stmt`) and the compiler of declarations (`decl`). What each
//! of them does is defined as a function on the state as a mathematical
//! value (`state`, `lex_spec`, `expr_spec`, `stmt_spec`, `decl_spec`), and
//! each is proved to do just that. `compile` turns a source text into a
//! `Program`.
//!
//! The machine (`vm`, defined in `vm_spec`) runs a program instruction by
//! instruction. It performs the system calls that touch nothing but its own
//! memory and stops for the others, which the host performs; `execute` runs
//! a program that needs no host.
//!
//! What follows from the definitions is proved in `laws`, `progress` and
//! `vm_laws`.

pub mod compiler;
pub mod decl;
pub mod decl_spec;
pub mod error;
pub mod expr;
pub mod expr_spec;
pub mod laws;
pub mod lex_spec;
pub mod lexer;
pub mod opcode;
pub mod printf;
pub mod printf_spec;
pub mod program;
pub mod progress;
pub mod state;
pub mod stmt;
pub mod stmt_spec;
pub mod symbol;
pub mod token;
pub mod vm;
pub mod vm_laws;
pub mod vm_spec;

pub use compiler::C4;
pub use error::{CompileError, CompileErrorKind, RuntimeError, RuntimeErrorKind};
pub use opcode::OpCode;
pub use program::{compile, Program};
pub use symbol::Symbol;
pub use token::{TokenType, Type};
pub use vm::{execute, Vm};
pub use vm_spec::{HostCall, Stop};
