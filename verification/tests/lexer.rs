use c4_rust::compiler::C4;
use c4_rust::token::TokenType;

fn lexer(source: &str) -> C4 {
    let mut c4 = C4::new();
    c4.init_symbol_table();
    c4.source = source.as_bytes().to_vec();
    c4
}

fn tokens(source: &str) -> Vec<i32> {
    let mut c4 = lexer(source);
    let mut out = Vec::new();
    loop {
        c4.next();
        if c4.token == 0 {
            return out;
        }
        out.push(c4.token);
    }
}

fn number(source: &str) -> i64 {
    let mut c4 = lexer(source);
    c4.next();
    assert_eq!(c4.token, TokenType::Num.code());
    c4.token_val
}

#[test]
fn empty_source_is_end_of_input() {
    let mut c4 = lexer("");
    c4.next();
    assert_eq!(c4.token, 0);
    c4.next();
    assert_eq!(c4.token, 0);
    assert_eq!(c4.p, 0);
}

#[test]
fn blanks_and_comments_are_skipped_and_lines_counted() {
    let mut c4 = lexer("  \t\r\n// a comment + - \n# include <x>\n\n  42 // tail");
    c4.next();
    assert_eq!(c4.token, TokenType::Num.code());
    assert_eq!(c4.token_val, 42);
    assert_eq!(c4.line, 5);
    c4.next();
    assert_eq!(c4.token, 0);
    assert_eq!(c4.line, 5);
    assert_eq!(c4.p, c4.source.len());
}

#[test]
fn a_slash_alone_is_division() {
    assert_eq!(tokens("6 / 3"), vec![128, TokenType::Div.code(), 128]);
}

#[test]
fn identifiers_are_letters_and_underscores_only() {
    let mut c4 = lexer("foo_bar9");
    c4.next();
    assert_eq!(c4.token, TokenType::Id.code());
    assert_eq!(c4.symbols[c4.id].name, b"foo_bar");
    assert_eq!(c4.id, 18);
    assert_eq!(c4.symbols[c4.id].class, 0);
    c4.next();
    assert_eq!(c4.token, TokenType::Num.code());
    assert_eq!(c4.token_val, 9);
}

#[test]
fn relexing_a_name_gives_the_same_symbol() {
    let mut c4 = lexer("alpha beta alpha _x beta");
    c4.next();
    let alpha = c4.id;
    c4.next();
    let beta = c4.id;
    assert_ne!(alpha, beta);
    c4.next();
    assert_eq!(c4.id, alpha);
    assert_eq!(c4.token, TokenType::Id.code());
    c4.next();
    assert_eq!(c4.symbols[c4.id].name, b"_x");
    c4.next();
    assert_eq!(c4.id, beta);
    assert_eq!(c4.symbols.len(), 21);
    assert_eq!(c4.symbols[alpha].name, b"alpha");
    assert_eq!(c4.symbols[alpha].hash, hash_of(b"alpha"));
}

fn hash_of(name: &[u8]) -> i32 {
    let mut h: i32 = 0;
    for c in name {
        h = h.wrapping_mul(147).wrapping_add(*c as i32);
    }
    (h << 6).wrapping_add(name.len() as i32)
}

#[test]
fn keywords_have_their_own_tokens() {
    assert_eq!(
        tokens("char else enum if int return sizeof while void"),
        vec![134, 135, 136, 137, 138, 139, 140, 141, 134]
    );
    // a system call is an identifier
    let mut c4 = lexer("printf");
    c4.next();
    assert_eq!(c4.token, TokenType::Id.code());
    assert_eq!(c4.id, 11);
    assert_eq!(c4.symbols.len(), 18);
}

#[test]
fn numbers_in_three_bases() {
    assert_eq!(number("0"), 0);
    assert_eq!(number("7"), 7);
    assert_eq!(number("1234567890"), 1234567890);
    assert_eq!(number("9223372036854775807"), i64::MAX);
    assert_eq!(number("0x1F"), 31);
    assert_eq!(number("0Xff"), 255);
    assert_eq!(number("0xABCdef"), 0xABCDEF);
    assert_eq!(number("017"), 15);
    assert_eq!(number("0x"), 0);
    // 8 is no octal digit: the number ends before it
    assert_eq!(tokens("08"), vec![128, 128]);
    assert_eq!(number("08"), 0);
    // a decimal literal out of range wraps
    assert_eq!(number("9223372036854775808"), i64::MIN);
}

#[test]
fn character_literals() {
    assert_eq!(number("'a'"), 97);
    assert_eq!(number("'\\n'"), 10);
    assert_eq!(number("'\\t'"), 116);
    assert_eq!(number("'\\\\'"), 92);
    assert_eq!(number("'\\''"), 39);
    // of several bytes the last one counts; of none, 0
    assert_eq!(number("'ab'"), 98);
    assert_eq!(number("''"), 0);
    // a missing quote ends the literal at the end of the source
    assert_eq!(number("'z"), 122);
    let mut c4 = lexer("'a' 1");
    c4.next();
    assert!(c4.data.is_empty());
    c4.next();
    assert_eq!(c4.token_val, 1);
}

#[test]
fn string_literals_go_to_the_data_segment() {
    let mut c4 = lexer("\"hi\\n\" \"12345678\" \"\"");
    c4.next();
    assert_eq!(c4.token, 34);
    assert_eq!(c4.token_val, 0);
    assert_eq!(c4.data, vec![104, 105, 10, 0, 0, 0, 0, 0]);
    c4.next();
    assert_eq!(c4.token, 34);
    assert_eq!(c4.token_val, 8);
    assert_eq!(c4.data.len(), 16);
    assert_eq!(&c4.data[8..], b"12345678");
    c4.next();
    assert_eq!(c4.token, 34);
    assert_eq!(c4.token_val, 16);
    assert_eq!(c4.data.len(), 16);
    c4.next();
    assert_eq!(c4.token, 0);
}

#[test]
fn a_backslash_takes_the_next_byte_as_it_is() {
    let mut c4 = lexer("\"a\\\"b\\\\\" 'x'");
    c4.next();
    assert_eq!(c4.token, 34);
    assert_eq!(c4.data, b"a\"b\\\0\0\0\0");
    c4.next();
    assert_eq!(c4.token_val, 120);
    // a backslash at the very end stands for itself
    let mut c4 = lexer("\"ab\\");
    c4.next();
    assert_eq!(c4.data, b"ab\\\0\0\0\0\0");
    assert_eq!(c4.p, 4);
    // a string that is not closed ends with the source
    let mut c4 = lexer("\"ab\ncd");
    c4.next();
    assert_eq!(c4.data, b"ab\ncd\0\0\0");
    assert_eq!(c4.line, 1);
    c4.next();
    assert_eq!(c4.token, 0);
}

#[test]
fn operators_take_the_longest_match() {
    assert_eq!(
        tokens("== != <= >= << >> && || ++ --"),
        vec![149, 150, 153, 154, 155, 156, 145, 144, 162, 163]
    );
    assert_eq!(
        tokens("= ! < > & | + - * / % ^ [ ?"),
        vec![142, 33, 151, 152, 148, 146, 157, 158, 159, 160, 161, 147, 164, 143]
    );
    assert_eq!(tokens("==="), vec![149, 142]);
    assert_eq!(tokens("+++"), vec![162, 157]);
    assert_eq!(tokens("<<="), vec![155, 142]);
    assert_eq!(tokens(">>>"), vec![156, 152]);
    assert_eq!(tokens("&&&"), vec![145, 148]);
}

#[test]
fn punctuation_is_its_own_code() {
    assert_eq!(
        tokens("~ ; { } ( ) ] , : @ $"),
        vec![126, 59, 123, 125, 40, 41, 93, 44, 58, 64, 36]
    );
}

#[test]
fn a_byte_outside_ascii_is_none_of_the_named_kinds() {
    let mut c4 = lexer("");
    c4.source = vec![133, 200];
    c4.next();
    assert_eq!(c4.token, 133 + 256);
    c4.next();
    assert_eq!(c4.token, 200 + 256);
    c4.next();
    assert_eq!(c4.token, 0);
}

#[test]
fn a_full_data_segment_raises_overflow() {
    let mut text = String::from("\"");
    let mut i = 0;
    while i < 0x4_0000 {
        text.push('x');
        i += 1;
    }
    text.push_str("\" \"y\"");
    let mut c4 = lexer(&text);
    c4.next();
    assert_eq!(c4.data.len(), 0x4_0000);
    assert!(!c4.overflow);
    c4.next();
    assert_eq!(c4.token, 34);
    assert_eq!(c4.token_val, 0x4_0000);
    assert_eq!(c4.data.len(), 0x4_0000);
    assert!(c4.overflow);
}
