use c4_rust::compiler::C4;
use c4_rust::error::{CompileError, CompileErrorKind, RuntimeError, RuntimeErrorKind};
use c4_rust::program::{compile, Program};
use c4_rust::token::TokenType;
use c4_rust::vm::execute;

const LEA: i64 = 0;
const IMM: i64 = 1;
const JMP: i64 = 2;
const JSR: i64 = 3;
const BZ: i64 = 4;
const ENT: i64 = 6;
const ADJ: i64 = 7;
const LEV: i64 = 8;
const LI: i64 = 9;
const LC: i64 = 10;
const SI: i64 = 11;
const PSH: i64 = 13;
const EQ: i64 = 17;
const LT: i64 = 19;
const ADD: i64 = 25;
const SUB: i64 = 26;

fn compiler(source: &str) -> C4 {
    let mut c4 = C4::new();
    c4.init_symbol_table();
    c4.source = source.as_bytes().to_vec();
    c4
}

fn statement(source: &str) -> Result<Vec<i64>, CompileError> {
    let mut c4 = compiler(source);
    let x = c4.intern(b"x");
    c4.bind(x, TokenType::Glo.code(), 1, 16);
    let p = c4.intern(b"p");
    c4.bind(p, TokenType::Glo.code(), 3, 24);
    c4.next();
    c4.compile_statement()?;
    Ok(c4.e[1..].to_vec())
}

fn error(source: &str) -> CompileErrorKind {
    compile(source).unwrap_err().kind
}

fn run(source: &str) -> Result<i32, RuntimeError> {
    let program = compile(source).unwrap();
    execute(program, &Vec::new(), 100_000)
}

#[test]
fn return_statements() {
    assert_eq!(statement("return 42;"), Ok(vec![IMM, 42, LEV]));
    assert_eq!(statement("return;"), Ok(vec![LEV]));
    assert_eq!(statement("return x;"), Ok(vec![IMM, 16, LI, LEV]));
    assert_eq!(statement("return p;").unwrap_err().kind, CompileErrorKind::ReturnNotInt);
    assert_eq!(statement("return 1").unwrap_err().kind, CompileErrorKind::SemicolonExpected);
    assert_eq!(statement("return").unwrap_err().kind, CompileErrorKind::UnexpectedEof);
}

#[test]
fn expression_statements() {
    assert_eq!(statement("x = 1;"), Ok(vec![IMM, 16, PSH, IMM, 1, SI]));
    assert_eq!(statement("x;"), Ok(vec![IMM, 16, LI]));
    assert_eq!(statement("*p = 2;"), Ok(vec![IMM, 24, LI, PSH, IMM, 2, SI]));
    assert_eq!(statement("7;"), Ok(vec![IMM, 7]));
    assert_eq!(statement("x = 1").unwrap_err().kind, CompileErrorKind::SemicolonExpected);
    assert_eq!(statement(";").unwrap_err().kind, CompileErrorKind::BadExpression);
    assert_eq!(statement("}").unwrap_err().kind, CompileErrorKind::BadExpression);
    assert_eq!(statement("else x;").unwrap_err().kind, CompileErrorKind::BadExpression);
}

#[test]
fn assignment_statement_through_its_own_entry() {
    let mut c4 = compiler("x = 3; y");
    let x = c4.intern(b"x");
    c4.bind(x, TokenType::Glo.code(), 1, 16);
    c4.next();
    assert_eq!(c4.compile_assignment(), Ok(()));
    assert_eq!(c4.e[1..], [IMM, 16, PSH, IMM, 3, SI]);
    assert_eq!(c4.token, TokenType::Id.code());
    assert_eq!(
        c4.compile_assignment(),
        Err(CompileError { line: 1, kind: CompileErrorKind::UndefinedVariable })
    );
}

#[test]
fn blocks() {
    assert_eq!(statement("{ }"), Ok(vec![]));
    assert_eq!(statement("{ x = 1; return x; }"), Ok(vec![IMM, 16, PSH, IMM, 1, SI, IMM, 16, LI, LEV]));
    assert_eq!(statement("{ { return; } }"), Ok(vec![LEV]));
    assert_eq!(statement("{ return;").unwrap_err().kind, CompileErrorKind::UnexpectedEof);
}

#[test]
fn if_without_else_jumps_behind_the_statement() {
    // 1: IMM 16  3: LI  4: BZ 9  6: IMM 1  8: LEV  9:
    assert_eq!(statement("if (x) return 1;"), Ok(vec![IMM, 16, LI, BZ, 9, IMM, 1, LEV]));
}

#[test]
fn if_with_else_jumps_over_both_branches() {
    // 1: IMM 0  3: BZ 10  5: IMM 1  7: LEV  8: JMP 13  10: IMM 2  12: LEV  13:
    assert_eq!(
        statement("if (0) return 1; else return 2;"),
        Ok(vec![IMM, 0, BZ, 10, IMM, 1, LEV, JMP, 13, IMM, 2, LEV])
    );
    // the else belongs to the nearest if
    // 1: IMM 1  3: BZ 16  5: IMM 2  7: BZ 14  9: IMM 16  11: LI  12: JMP 16  14: IMM 3  16:
    assert_eq!(
        statement("if (1) if (2) x; else 3;"),
        Ok(vec![IMM, 1, BZ, 16, IMM, 2, BZ, 14, IMM, 16, LI, JMP, 16, IMM, 3])
    );
}

#[test]
fn if_errors() {
    assert_eq!(statement("if x) x;").unwrap_err().kind, CompileErrorKind::OpenParenExpected);
    assert_eq!(statement("if (x x;").unwrap_err().kind, CompileErrorKind::CloseParenExpected);
    assert_eq!(statement("if (p) x;").unwrap_err().kind, CompileErrorKind::ConditionNotInt);
    assert_eq!(statement("if (x)").unwrap_err().kind, CompileErrorKind::UnexpectedEof);
    assert_eq!(statement("if (x) x; else").unwrap_err().kind, CompileErrorKind::UnexpectedEof);
    assert_eq!(statement("if").unwrap_err().kind, CompileErrorKind::OpenParenExpected);
}

#[test]
fn while_jumps_back_to_the_condition_and_out_behind_the_loop() {
    // 1: IMM 16  3: LI  4: BZ 14  6: IMM 16  8: PSH  9: IMM 0  11: SI  12: JMP 1  14:
    assert_eq!(
        statement("while (x) x = 0;"),
        Ok(vec![IMM, 16, LI, BZ, 14, IMM, 16, PSH, IMM, 0, SI, JMP, 1])
    );
    assert_eq!(statement("while (1) { }"), Ok(vec![IMM, 1, BZ, 7, JMP, 1]));
    assert_eq!(statement("while x) x;").unwrap_err().kind, CompileErrorKind::OpenParenExpected);
    assert_eq!(statement("while (p) x;").unwrap_err().kind, CompileErrorKind::ConditionNotInt);
    assert_eq!(statement("while (x;").unwrap_err().kind, CompileErrorKind::CloseParenExpected);
}

#[test]
fn while_loop_targets_are_exact() {
    let program = compile("int i; int main(){ i=0; while(i<3){ i=i+1; } return i; }").unwrap();
    assert_eq!(
        program.code,
        vec![
            0, ENT, 0, // 1
            IMM, 0, PSH, IMM, 0, SI, // 3: i = 0
            IMM, 0, LI, IMM, 3, LT, // 9: i < 3
            BZ, 29, // 15
            IMM, 0, PSH, IMM, 0, LI, IMM, 1, ADD, SI, // 17: i = i + 1
            JMP, 9, // 27
            IMM, 0, LI, LEV, // 29: return i
        ]
    );
    // the operand of BZ is the address behind the loop, that of JMP the
    // address of the condition
    assert_eq!(program.code[16], 29);
    assert_eq!(program.code[28], 9);
    assert_eq!(program.entry, 1);
    assert_eq!(program.data, vec![0; 8]);
}

#[test]
fn minimal_program() {
    let program = compile("int main() { return 42; }").unwrap();
    assert_eq!(program.code, vec![0, ENT, 0, IMM, 42, LEV]);
    assert_eq!(program.entry, 1);
    assert!(program.data.is_empty());
    assert_eq!(execute(program, &Vec::new(), 1000), Ok(42));
}

#[test]
fn if_else_program_takes_the_right_branch() {
    assert_eq!(run("int main() { if (0) return 1; else return 2; }"), Ok(2));
    assert_eq!(run("int main() { if (1) return 1; else return 2; }"), Ok(1));
    assert_eq!(run("int main() { if (0) return 1; return 3; }"), Ok(3));
    let program = compile("int main() { if (0) return 1; else return 2; }").unwrap();
    assert_eq!(
        program.code,
        vec![0, ENT, 0, IMM, 0, BZ, 12, IMM, 1, LEV, JMP, 15, IMM, 2, LEV]
    );
}

#[test]
fn a_function_without_return_gets_a_final_lev() {
    let program = compile("int x; int main() { x = 1; }").unwrap();
    assert_eq!(program.code, vec![0, ENT, 0, IMM, 0, PSH, IMM, 1, SI, LEV]);
    let program = compile("int main() { }").unwrap();
    assert_eq!(program.code, vec![0, ENT, 0, LEV]);
    // a last word that equals LEV counts as one
    let program = compile("int main() { 8; }").unwrap();
    assert_eq!(program.code, vec![0, ENT, 0, IMM, 8]);
}

#[test]
fn globals_take_one_word_each() {
    let program = compile("int a, *b; char c; int main() { return c; }").unwrap_err();
    assert_eq!(program.kind, CompileErrorKind::ReturnNotInt);
    let program = compile("int a, *b; char c; int main() { b = &a; c = 1; return a; }").unwrap();
    assert_eq!(program.data, vec![0; 24]);
    assert_eq!(
        program.code,
        vec![0, ENT, 0, IMM, 8, PSH, IMM, 0, SI, IMM, 16, PSH, IMM, 1, 12, IMM, 0, LI, LEV]
    );
}

#[test]
fn strings_and_globals_share_the_data_segment() {
    let program = compile("int a; char *s; int main() { s = \"hey\"; a = 1; return *s; }");
    assert_eq!(program.unwrap_err().kind, CompileErrorKind::ReturnNotInt);
    let program = compile("int a; char *s; int main() { s = \"hey\"; return (int)*s; }").unwrap();
    assert_eq!(program.data, b"\0\0\0\0\0\0\0\0\0\0\0\0\0\0\0\0hey\0\0\0\0\0");
    assert_eq!(execute(program, &Vec::new(), 1000), Ok(104));
}

#[test]
fn parameters_and_locals_are_frame_relative() {
    let program = compile("int f(int a, int b) { int x, y; y = a; return b; } int main() { return f(1, 2); }")
        .unwrap();
    assert_eq!(
        program.code,
        vec![
            0, ENT, 2, // 1: two locals
            LEA, -2, PSH, LEA, 3, LI, SI, // 3: y = a
            LEA, 2, LI, LEV, // 10: return b
            ENT, 0, // 14: main
            IMM, 1, PSH, IMM, 2, PSH, JSR, 1, ADJ, 2, LEV,
        ]
    );
    assert_eq!(program.entry, 14);
    assert_eq!(execute(program, &Vec::new(), 1000), Ok(2));
    assert_eq!(run("int f(int a, int b) { return a; } int main() { return f(7, 9); }"), Ok(7));
    assert_eq!(run("int main() { int x; x = 5; return x; }"), Ok(5));
    assert_eq!(run("int main() { int x; int *p; p = &x; *p = 9; return x; }"), Ok(9));
}

#[test]
fn a_local_hides_a_global_until_the_function_ends() {
    let source = "int x; int f(int x) { return x; } int main() { x = 4; return f(6); }";
    let program = compile(source).unwrap();
    assert_eq!(
        program.code,
        vec![
            0, ENT, 0, LEA, 2, LI, LEV, // f reads its parameter
            ENT, 0, IMM, 0, PSH, IMM, 4, SI, // main writes the global
            IMM, 6, PSH, JSR, 1, ADJ, 1, LEV,
        ]
    );
    assert_eq!(execute(program, &Vec::new(), 1000), Ok(6));
    let mut c4 = compiler(source);
    assert_eq!(c4.compile(), Ok(()));
    let x = c4.intern(b"x");
    assert_eq!(c4.symbols[x].class, TokenType::Glo.code());
    assert_eq!(c4.symbols[x].value, 0);
}

#[test]
fn enum_constants_count_from_zero_or_from_their_initializer() {
    assert_eq!(run("enum { A, B, C }; int main() { return C; }"), Ok(2));
    assert_eq!(run("enum E { A = 5, B, C = 1, D }; int main() { return B; }"), Ok(6));
    assert_eq!(run("enum E { A = 5, B, C = 1, D }; int main() { return D; }"), Ok(2));
    assert_eq!(error("enum { 1 }; int main() { return 0; }"), CompileErrorKind::BadEnumIdentifier);
    assert_eq!(error("enum { A = B }; int main() { return 0; }"), CompileErrorKind::BadEnumInitializer);
}

#[test]
fn loops_run() {
    assert_eq!(
        run("int i; int n; int main() { i = 3; n = 0; while (i) { --i; ++n; } return n; }"),
        Ok(3)
    );
    assert_eq!(run("int i; int main() { i = 3; ++i; return i; }"), Ok(4));
    assert_eq!(run("int main() { return !0; }"), Ok(1));
    assert_eq!(run("int main() { return !5; }"), Ok(0));
    assert_eq!(run("int main() { return ~5; }"), Ok(-6));
    assert_eq!(run("int main() { return -7; }"), Ok(-7));
    assert_eq!(run("int x; int main() { x = 6; return -x; }"), Ok(-6));
    assert_eq!(run("int main() { return; }"), Ok(0));
}

#[test]
fn a_loop_without_end_runs_out_of_cycles() {
    let program = compile("int main() { while (1) { } return 0; }").unwrap();
    assert_eq!(
        execute(program, &Vec::new(), 1000),
        Err(RuntimeError { pc: 3, kind: RuntimeErrorKind::CycleLimit })
    );
}

#[test]
fn main_gets_its_arguments() {
    let argv = vec![String::from("prog"), String::from("a"), String::from("b")];
    let program = compile("int main(int argc, char **argv) { return argc; }").unwrap();
    assert_eq!(execute(program, &argv, 1000), Ok(3));
    // the strings lie at the start of the heap, the table behind them
    let program = compile("int main(int argc, char **argv) { return (int)argv; }").unwrap();
    assert_eq!(execute(program, &argv, 1000), Ok(0x4_0010));
    let program = compile("int main(int argc, char **argv) { return (int)*argv; }").unwrap();
    assert_eq!(execute(program, &argv, 1000), Ok(0x4_0000));
    let program = compile("int main(int argc, char **argv) { return (int)**argv; }").unwrap();
    assert_eq!(execute(program, &argv, 1000), Ok(112));
    let program = compile("int main(int argc, char **argv) { return argc; }").unwrap();
    assert_eq!(execute(program, &Vec::new(), 1000), Ok(0));
}

#[test]
fn declaration_errors() {
    assert_eq!(compile(""), Err(CompileError { line: 1, kind: CompileErrorKind::MainNotDefined }));
    assert_eq!(error("int x;"), CompileErrorKind::MainNotDefined);
    assert_eq!(error("int main;"), CompileErrorKind::MainNotDefined);
    assert_eq!(error("int 5;"), CompileErrorKind::BadGlobalDeclaration);
    assert_eq!(error("int"), CompileErrorKind::BadGlobalDeclaration);
    assert_eq!(error("}"), CompileErrorKind::BadGlobalDeclaration);
    assert_eq!(error("int x; int x;"), CompileErrorKind::DuplicateGlobalDefinition);
    assert_eq!(error("int printf;"), CompileErrorKind::DuplicateGlobalDefinition);
    assert_eq!(error("int f(5) { }"), CompileErrorKind::BadParameterDeclaration);
    assert_eq!(error("int f(int a, int a) { }"), CompileErrorKind::DuplicateParameterDefinition);
    assert_eq!(error("int f(int a);"), CompileErrorKind::BadFunctionDefinition);
    assert_eq!(error("int f() { int 5; }"), CompileErrorKind::BadLocalDeclaration);
    assert_eq!(error("int f(int a) { int a; }"), CompileErrorKind::DuplicateLocalDefinition);
    assert_eq!(error("int main() { return 1;"), CompileErrorKind::UnexpectedEof);
    assert_eq!(
        compile("int main() {\n  return y;\n}"),
        Err(CompileError { line: 2, kind: CompileErrorKind::UndefinedVariable })
    );
}

#[test]
fn a_program_too_large_for_the_code_segment_is_refused() {
    let mut source = String::from("int main() { ");
    let mut i = 0;
    while i < 140_000 {
        source.push_str("1;");
        i += 1;
    }
    source.push_str(" return 0; }");
    assert_eq!(error(&source), CompileErrorKind::ProgramTooLarge);
}

#[test]
fn a_source_beyond_the_limit_is_refused() {
    let mut source = String::from("int main() { return 0; }");
    while source.len() <= 0x100_0000 {
        source.push_str("                                                                ");
    }
    assert_eq!(compile(&source), Err(CompileError { line: 1, kind: CompileErrorKind::SourceTooLarge }));
    source.truncate(0x100_0000);
    assert!(compile(&source).is_ok());
}

#[test]
fn the_compiler_runs_what_it_compiled() {
    let mut c4 = compiler("int f() { return 3; } int main() { return 5; }");
    assert_eq!(c4.compile(), Ok(()));
    let main = c4.find_main().unwrap();
    assert_eq!(c4.symbols[main].name, b"main");
    assert_eq!(c4.run(main, &Vec::new(), 100), Ok(5));
    let f = c4.intern(b"f");
    assert_eq!(c4.run(f, &Vec::new(), 100), Ok(3));
    assert_eq!(CompileErrorKind::SourceTooLarge.message(), "source text too large");
}

#[test]
fn compiling_twice_gives_the_same_program() {
    let source = "int i; int f(int a) { return a; } int main() { i = f(2); while (i) --i; return i; }";
    let one = compile(source).unwrap();
    let two = compile(source).unwrap();
    assert_eq!(one.code, two.code);
    assert_eq!(one.data, two.data);
    assert_eq!(one.entry, two.entry);
    let first = execute(one, &Vec::new(), 10_000);
    let second = execute(two, &Vec::new(), 10_000);
    assert_eq!(first, second);
    assert_eq!(first, Ok(0));
    let _ = (LC, EQ, ADD, SUB, JMP, BZ, ADJ, JSR);
    let _ = Program { code: vec![0], data: vec![], entry: 0 };
}
