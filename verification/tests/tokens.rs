use c4_rust::opcode::OpCode;
use c4_rust::token::{TokenType, Type};

#[test]
fn token_codes_start_at_128_and_follow_declaration_order() {
    assert_eq!(TokenType::Num.code(), 128);
    assert_eq!(TokenType::Id.code(), 133);
    assert_eq!(TokenType::Assign.code(), 142);
    assert_eq!(TokenType::Add.code(), 157);
    assert_eq!(TokenType::Brak.code(), 164);
}

#[test]
fn opcode_codes_round_trip() {
    let mut w: i64 = 0;
    while w <= 38 {
        let op = OpCode::from_code(w).unwrap();
        assert_eq!(op.code(), w);
        assert_eq!(op as i64, w);
        w += 1;
    }
    assert_eq!(OpCode::from_code(39), None);
    assert_eq!(OpCode::from_code(-1), None);
    assert_eq!(OpCode::IMM.code(), 1);
    assert_eq!(OpCode::LI.code(), 9);
    assert_eq!(OpCode::LC.code(), 10);
    assert_eq!(OpCode::EXIT.code(), 38);
}

#[test]
fn type_codes() {
    assert_eq!(Type::CHAR.code(), 0);
    assert_eq!(Type::INT.code(), 1);
    assert_eq!(Type::PTR.code(), 2);
    assert_eq!(Type::INT as i32, 1);
}
