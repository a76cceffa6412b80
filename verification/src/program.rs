//! The compiled program, and the compiler's entry point.

use crate::compiler::C4;
use crate::decl_spec::find_main_from;
use crate::error::{CompileError, CompileErrorKind};
use crate::state::{CODE_LIMIT, DATA_LIMIT, MAX_SOURCE_LEN, State};
use crate::symbol::copy_bytes;
use vstd::prelude::*;
use vstd::string::*;

verus! {

/// What the compiler hands to the virtual machine.
#[derive(Clone, Debug, PartialEq, Eq)]
pub struct Program {
    /// The code: opcodes and operands, one word each. Addresses of
    /// instructions are indices into it; word 0 is a filler.
    pub code: Vec<i64>,
    /// The data segment: the bytes of the string literals and one zeroed
    /// word per global variable.
    pub data: Vec<u8>,
    /// Address of the first instruction of `main`.
    pub entry: i64,
}

/// A program with its segments as sequences.
pub struct ProgramView {
    pub code: Seq<i64>,
    pub data: Seq<u8>,
    pub entry: i64,
}

impl View for Program {
    type V = ProgramView;

    open spec fn view(&self) -> ProgramView {
        ProgramView { code: self.code@, data: self.data@, entry: self.entry }
    }
}

impl ProgramView {
    /// The segments fit their limits.
    pub open spec fn wf(self) -> bool {
        &&& self.code.len() <= CODE_LIMIT
        &&& self.data.len() <= DATA_LIMIT
    }
}

impl State {
    /// The state with `source` as its source text and the cursor at its
    /// start.
    pub open spec fn with_source(self, source: Seq<u8>) -> State {
        State { src: source, p: 0, line: 1, ..self }
    }

    /// The program that a finished compilation has produced.
    pub open spec fn to_program(self) -> ProgramView {
        ProgramView {
            code: self.code,
            data: self.data,
            entry: match find_main_from(self.symbols, 0) {
                Some(i) => self.symbols[i].value,
                None => 0,
            },
        }
    }
}

/// What compiling a source text gives: a fresh compiler, whose table holds
/// the keywords and the system calls, compiles the declarations of the text.
pub open spec fn compile_spec(source: Seq<u8>) -> Result<ProgramView, CompileError> {
    if source.len() > MAX_SOURCE_LEN {
        Err(CompileError { line: 1, kind: CompileErrorKind::SourceTooLarge })
    } else {
        let (s, r) = State::initial().init_symbols().with_source(source).program();
        match r {
            Err(e) => Err(e),
            Ok(_) => Ok(s.to_program()),
        }
    }
}

/// Compiles a source text to a program.
pub fn compile(source: &str) -> (r: Result<Program, CompileError>)
    ensures
        match r {
            Ok(program) => compile_spec(source.spec_bytes()) == Ok::<ProgramView, CompileError>(
                program@,
            ) && program@.wf(),
            Err(e) => compile_spec(source.spec_bytes()) == Err::<ProgramView, CompileError>(e),
        },
{
    let bytes = source.as_bytes();
    if bytes.len() > MAX_SOURCE_LEN {
        return Err(CompileError { line: 1, kind: CompileErrorKind::SourceTooLarge });
    }
    let mut c = C4::new();
    c.init_symbol_table();
    c.source = copy_bytes(bytes);
    match c.compile() {
        Err(e) => {
            return Err(e);
        },
        Ok(_) => {},
    }
    match c.find_main() {
        Some(i) => {
            let entry = c.symbols[i].value;
            Ok(Program { code: c.e, data: c.data, entry })
        },
        None => Err(CompileError { line: c.line, kind: CompileErrorKind::MainNotDefined }),
    }
}

} // verus!
