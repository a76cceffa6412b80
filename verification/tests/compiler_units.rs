use c4_rust::{OpCode, TokenType, Type, C4};

#[test]
fn test_init_symbol_table() {
    let mut c4 = C4::new();
    c4.init_symbol_table();

    // Verify that the symbol table has entries after initialization
    assert!(!c4.symbols.is_empty());

    // Check for specific keywords
    let has_char = c4.symbols.iter().any(|sym| sym.name == b"char");
    let has_if = c4.symbols.iter().any(|sym| sym.name == b"if");
    let has_printf = c4.symbols.iter().any(|sym| sym.name == b"printf");

    assert!(has_char);
    assert!(has_if);
    assert!(has_printf);
}

#[test]
fn test_lexer() {
    let mut c4 = C4::new();
    c4.init_symbol_table();

    // Test identifier lexing
    c4.source = "main".as_bytes().to_vec();
    c4.p = 0;
    c4.next();
    assert_eq!(c4.token, TokenType::Id.code());

    // Test number lexing
    c4.source = "42".as_bytes().to_vec();
    c4.p = 0;
    c4.next();
    assert_eq!(c4.token, TokenType::Num.code());
    assert_eq!(c4.token_val, 42);

    // Test operator lexing
    c4.source = "+".as_bytes().to_vec();
    c4.p = 0;
    c4.next();
    assert_eq!(c4.token, TokenType::Add.code());
}

#[test]
fn test_expression_parsing() {
    let mut c4 = C4::new();
    c4.init_symbol_table();

    // Test simple expression
    c4.source = "42".as_bytes().to_vec();
    c4.p = 0;
    c4.next();
    let result = c4.expr(TokenType::Assign.code());
    assert!(result.is_ok());

    // Verify the emitted code (should have IMM 42)
    assert_eq!(c4.e[1], OpCode::IMM as i64);
    assert_eq!(c4.e[2], 42);
}

#[test]
fn test_full_compilation() {
    let mut c4 = C4::new();
    c4.init_symbol_table();

    // Test compiling a minimal C program
    c4.source = "int main() { return 42; }".as_bytes().to_vec();
    let result = c4.compile();
    assert!(result.is_ok());

    // Verify main was found
    assert!(c4.find_main().is_some());
}

#[test]
fn test_simple_program() {
    let program = "int main() { return 42; }";

    let mut c4 = C4::new();
    c4.init_symbol_table();
    c4.source = program.as_bytes().to_vec();
    let result = c4.compile();
    assert!(result.is_ok());
}

#[test]
fn new_compiler_is_empty() {
    let c4 = C4::new();
    assert_eq!(c4.p, 0);
    assert_eq!(c4.line, 1);
    assert_eq!(c4.token, 0);
    assert_eq!(c4.e, vec![0i64]);
    assert!(c4.symbols.is_empty());
    assert!(c4.data.is_empty());
    assert!(!c4.overflow);
    assert_eq!(c4.type_, Type::CHAR.code());
}

#[test]
fn cursor_moves_byte_by_byte_and_stops_at_the_end() {
    let mut c4 = C4::new();
    c4.source = "ab".as_bytes().to_vec();
    assert_eq!(c4.current_char(), 'a');
    assert_eq!(c4.peek_char(0), b'a');
    assert_eq!(c4.peek_char(1), b'b');
    assert_eq!(c4.peek_char(2), 0);
    assert_eq!(c4.next_char(), 'b');
    assert_eq!(c4.next_char(), '\0');
    assert_eq!(c4.p, 2);
    assert_eq!(c4.next_char(), '\0');
    assert_eq!(c4.p, 2);
    assert_eq!(c4.current_char(), '\0');
}

#[test]
fn symbol_table_order_and_attributes() {
    let mut c4 = C4::new();
    c4.init_symbol_table();
    assert_eq!(c4.symbols.len(), 18);
    assert_eq!(c4.symbols[0].name, b"char");
    assert_eq!(c4.symbols[0].token, TokenType::Char.code());
    assert_eq!(c4.symbols[0].class, 0);
    assert_eq!(c4.symbols[7].name, b"while");
    assert_eq!(c4.symbols[7].token, TokenType::While.code());
    assert_eq!(c4.symbols[8].name, b"open");
    assert_eq!(c4.symbols[8].token, TokenType::Id.code());
    assert_eq!(c4.symbols[8].class, TokenType::Sys.code());
    assert_eq!(c4.symbols[8].type_, Type::INT.code());
    assert_eq!(c4.symbols[8].value, OpCode::OPEN as i64);
    assert_eq!(c4.symbols[11].name, b"printf");
    assert_eq!(c4.symbols[11].value, OpCode::PRTF as i64);
    assert_eq!(c4.symbols[16].name, b"exit");
    assert_eq!(c4.symbols[16].value, OpCode::EXIT as i64);
    assert_eq!(c4.symbols[17].name, b"void");
    assert_eq!(c4.symbols[17].token, TokenType::Char.code());
}

#[test]
fn hash_formula_has_an_exact_value() {
    // "if": ((105 * 147) + 102) << 6, plus the length 2
    let mut c4 = C4::new();
    c4.add_keyword("if", TokenType::If.code());
    assert_eq!(c4.symbols[0].hash, ((105 * 147 + 102) << 6) + 2);
    c4.add_syscall("a", 30);
    assert_eq!(c4.symbols[1].hash, (97 << 6) + 1);
    assert_eq!(c4.symbols[1].class, TokenType::Sys.code());
    assert_eq!(c4.symbols[1].value, 30);
    assert_eq!(c4.find_symbol(((105 * 147 + 102) << 6) + 2, "if"), Some(0));
    assert_eq!(c4.find_symbol((97 << 6) + 1, "a"), Some(1));
    // the hash alone does not make a match, nor does the name alone
    assert_eq!(c4.find_symbol((97 << 6) + 1, "b"), None);
    assert_eq!(c4.find_symbol(0, "a"), None);
}

#[test]
fn interning_is_idempotent() {
    let mut c4 = C4::new();
    c4.init_symbol_table();
    let i = c4.intern(b"counter");
    assert_eq!(i, 18);
    assert_eq!(c4.symbols[i].name, b"counter");
    assert_eq!(c4.symbols[i].token, TokenType::Id.code());
    let j = c4.intern(b"counter");
    assert_eq!(j, i);
    assert_eq!(c4.symbols.len(), 19);
    let k = c4.intern(b"other");
    assert_eq!(k, 19);
    // a keyword is found, not added
    assert_eq!(c4.intern(b"while"), 7);
    assert_eq!(c4.symbols.len(), 20);
}

#[test]
fn shadow_and_unshadow_restore_a_global() {
    let mut c4 = C4::new();
    let i = c4.intern(b"x");
    c4.bind(i, TokenType::Glo.code(), Type::INT.code(), 64);
    c4.shadow(i);
    c4.bind(i, TokenType::Loc.code(), Type::CHAR.code(), 2);
    assert_eq!(c4.symbols[i].class, TokenType::Loc.code());
    assert_eq!(c4.symbols[i].h_class, TokenType::Glo.code());
    assert_eq!(c4.symbols[i].h_type, Type::INT.code());
    assert_eq!(c4.symbols[i].h_val, 64);
    c4.unshadow(i);
    assert_eq!(c4.symbols[i].class, TokenType::Glo.code());
    assert_eq!(c4.symbols[i].type_, Type::INT.code());
    assert_eq!(c4.symbols[i].value, 64);
}

#[test]
fn emit_appends_words_behind_the_filler() {
    let mut c4 = C4::new();
    c4.emit(OpCode::PSH);
    c4.emit_with_operand(OpCode::IMM, -7);
    assert_eq!(c4.e, vec![0, OpCode::PSH as i64, OpCode::IMM as i64, -7]);
    assert_eq!(c4.here(), 4);
    c4.patch(3, 99);
    assert_eq!(c4.e[3], 99);
    c4.set_last_word(5);
    assert_eq!(c4.e[3], 5);
    c4.drop_last_word();
    assert_eq!(c4.e.len(), 3);
}

#[test]
fn a_full_code_segment_raises_overflow() {
    let mut c4 = C4::new();
    let mut i = 1;
    while i < 0x4_0000 {
        c4.emit(OpCode::PSH);
        i += 1;
    }
    assert_eq!(c4.e.len(), 0x4_0000);
    assert!(!c4.overflow);
    c4.emit(OpCode::PSH);
    assert_eq!(c4.e.len(), 0x4_0000);
    assert!(c4.overflow);
}
