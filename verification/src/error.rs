//! The two kinds of failure: a source text that does not compile, and a
//! program that faults while it runs.

use vstd::prelude::*;

verus! {

/// Why a source text was refused.
#[derive(Clone, Copy, Debug, PartialEq, Eq, Structural)]
pub enum CompileErrorKind {
    /// The source text is longer than `MAX_SOURCE_LEN` bytes.
    SourceTooLarge,
    /// The code or the data segment is full.
    ProgramTooLarge,
    /// A type has more levels of indirection than a type code can hold.
    TypeTooDeep,
    UnexpectedEof,
    SizeofOpenParenExpected,
    SizeofCloseParenExpected,
    BadFunctionCall,
    UndefinedVariable,
    BadCast,
    CloseParenExpected,
    BadDereference,
    BadAddressOf,
    BadLvalueInPreIncrement,
    BadExpression,
    BadLvalueInAssignment,
    BadOperator,
    OpenParenExpected,
    ConditionNotInt,
    ReturnNotInt,
    SemicolonExpected,
    BadEnumIdentifier,
    BadEnumInitializer,
    BadGlobalDeclaration,
    DuplicateGlobalDefinition,
    BadParameterDeclaration,
    DuplicateParameterDefinition,
    BadFunctionDefinition,
    BadLocalDeclaration,
    DuplicateLocalDefinition,
    MainNotDefined,
}

impl CompileErrorKind {
    /// The message that goes with a kind of error.
    pub open spec fn spec_message(self) -> Seq<char> {
        match self {
            CompileErrorKind::SourceTooLarge => "source text too large"@,
            CompileErrorKind::ProgramTooLarge => "program too large"@,
            CompileErrorKind::TypeTooDeep => "too many levels of indirection"@,
            CompileErrorKind::UnexpectedEof => "unexpected end of file in expression"@,
            CompileErrorKind::SizeofOpenParenExpected => "open paren expected in sizeof"@,
            CompileErrorKind::SizeofCloseParenExpected => "close paren expected in sizeof"@,
            CompileErrorKind::BadFunctionCall => "bad function call"@,
            CompileErrorKind::UndefinedVariable => "undefined variable"@,
            CompileErrorKind::BadCast => "bad cast"@,
            CompileErrorKind::CloseParenExpected => "close paren expected"@,
            CompileErrorKind::BadDereference => "bad dereference"@,
            CompileErrorKind::BadAddressOf => "bad address-of"@,
            CompileErrorKind::BadLvalueInPreIncrement => "bad lvalue in pre-increment"@,
            CompileErrorKind::BadExpression => "bad expression"@,
            CompileErrorKind::BadLvalueInAssignment => "bad lvalue in assignment"@,
            CompileErrorKind::BadOperator => "bad operator"@,
            CompileErrorKind::OpenParenExpected => "open paren expected"@,
            CompileErrorKind::ConditionNotInt => "condition must be of type int"@,
            CompileErrorKind::ReturnNotInt => "return type must be int"@,
            CompileErrorKind::SemicolonExpected => "semicolon expected"@,
            CompileErrorKind::BadEnumIdentifier => "bad enum identifier"@,
            CompileErrorKind::BadEnumInitializer => "bad enum initializer"@,
            CompileErrorKind::BadGlobalDeclaration => "bad global declaration"@,
            CompileErrorKind::DuplicateGlobalDefinition => "duplicate global definition"@,
            CompileErrorKind::BadParameterDeclaration => "bad parameter declaration"@,
            CompileErrorKind::DuplicateParameterDefinition => "duplicate parameter definition"@,
            CompileErrorKind::BadFunctionDefinition => "bad function definition"@,
            CompileErrorKind::BadLocalDeclaration => "bad local declaration"@,
            CompileErrorKind::DuplicateLocalDefinition => "duplicate local definition"@,
            CompileErrorKind::MainNotDefined => "main() not defined"@,
        }
    }

    /// The message that goes with a kind of error.
    pub fn message(self) -> (m: &'static str)
        ensures
            m@ == self.spec_message(),
    {
        match self {
            CompileErrorKind::SourceTooLarge => "source text too large",
            CompileErrorKind::ProgramTooLarge => "program too large",
            CompileErrorKind::TypeTooDeep => "too many levels of indirection",
            CompileErrorKind::UnexpectedEof => "unexpected end of file in expression",
            CompileErrorKind::SizeofOpenParenExpected => "open paren expected in sizeof",
            CompileErrorKind::SizeofCloseParenExpected => "close paren expected in sizeof",
            CompileErrorKind::BadFunctionCall => "bad function call",
            CompileErrorKind::UndefinedVariable => "undefined variable",
            CompileErrorKind::BadCast => "bad cast",
            CompileErrorKind::CloseParenExpected => "close paren expected",
            CompileErrorKind::BadDereference => "bad dereference",
            CompileErrorKind::BadAddressOf => "bad address-of",
            CompileErrorKind::BadLvalueInPreIncrement => "bad lvalue in pre-increment",
            CompileErrorKind::BadExpression => "bad expression",
            CompileErrorKind::BadLvalueInAssignment => "bad lvalue in assignment",
            CompileErrorKind::BadOperator => "bad operator",
            CompileErrorKind::OpenParenExpected => "open paren expected",
            CompileErrorKind::ConditionNotInt => "condition must be of type int",
            CompileErrorKind::ReturnNotInt => "return type must be int",
            CompileErrorKind::SemicolonExpected => "semicolon expected",
            CompileErrorKind::BadEnumIdentifier => "bad enum identifier",
            CompileErrorKind::BadEnumInitializer => "bad enum initializer",
            CompileErrorKind::BadGlobalDeclaration => "bad global declaration",
            CompileErrorKind::DuplicateGlobalDefinition => "duplicate global definition",
            CompileErrorKind::BadParameterDeclaration => "bad parameter declaration",
            CompileErrorKind::DuplicateParameterDefinition => "duplicate parameter definition",
            CompileErrorKind::BadFunctionDefinition => "bad function definition",
            CompileErrorKind::BadLocalDeclaration => "bad local declaration",
            CompileErrorKind::DuplicateLocalDefinition => "duplicate local definition",
            CompileErrorKind::MainNotDefined => "main() not defined",
        }
    }
}

/// A refusal of the compiler, with the source line at which it stopped.
#[derive(Clone, Copy, Debug, PartialEq, Eq, Structural)]
pub struct CompileError {
    pub line: i32,
    pub kind: CompileErrorKind,
}

impl CompileError {
    /// The message of the error, without its line.
    pub fn message(&self) -> (m: &'static str)
        ensures
            m@ == self.kind.spec_message(),
    {
        self.kind.message()
    }
}

/// Why a running program was stopped.
#[derive(Clone, Copy, Debug, PartialEq, Eq, Structural)]
pub enum RuntimeErrorKind {
    /// The program counter left the code, or an operand word is missing.
    BadProgramCounter,
    /// The word at the program counter is no opcode.
    InvalidOpcode,
    /// A load, a store or a stack operation outside the memory.
    OutOfBounds,
    /// Division or remainder by zero.
    DivisionByZero,
    /// A system call that needs the host, met where there is none.
    UnresolvedSyscall,
    /// The cycle budget ran out before the program ended.
    CycleLimit,
}

impl RuntimeErrorKind {
    /// The message that goes with a kind of fault.
    pub open spec fn spec_message(self) -> Seq<char> {
        match self {
            RuntimeErrorKind::BadProgramCounter => "program counter out of bounds"@,
            RuntimeErrorKind::InvalidOpcode => "invalid opcode"@,
            RuntimeErrorKind::OutOfBounds => "memory access out of bounds"@,
            RuntimeErrorKind::DivisionByZero => "division by zero"@,
            RuntimeErrorKind::UnresolvedSyscall => "unresolved system call"@,
            RuntimeErrorKind::CycleLimit => "cycle limit reached"@,
        }
    }

    /// The message that goes with a kind of fault.
    pub fn message(self) -> (m: &'static str)
        ensures
            m@ == self.spec_message(),
    {
        match self {
            RuntimeErrorKind::BadProgramCounter => "program counter out of bounds",
            RuntimeErrorKind::InvalidOpcode => "invalid opcode",
            RuntimeErrorKind::OutOfBounds => "memory access out of bounds",
            RuntimeErrorKind::DivisionByZero => "division by zero",
            RuntimeErrorKind::UnresolvedSyscall => "unresolved system call",
            RuntimeErrorKind::CycleLimit => "cycle limit reached",
        }
    }
}

/// A fault of the virtual machine, with the address of the instruction that
/// faulted.
#[derive(Clone, Copy, Debug, PartialEq, Eq, Structural)]
pub struct RuntimeError {
    pub pc: i64,
    pub kind: RuntimeErrorKind,
}

impl RuntimeError {
    /// The message of the fault, without its address.
    pub fn message(&self) -> (m: &'static str)
        ensures
            m@ == self.kind.spec_message(),
    {
        self.kind.message()
    }
}

} // verus!
