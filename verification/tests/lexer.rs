use elfasm::instruction::JumpCondition;
use elfasm::lexer::{tokenize, Token};
use elfasm::Register;

#[test]
fn lexer() {
    let toks = tokenize(
        "_msg:
    db \"Hello World!\", 0xA
_start:
    mov eax, 5 ; eax <- 5
    int 0x80",
    )
    .unwrap();

    assert!(matches!(&toks[0], Token::Identifier(s) if s == "_msg"));
    assert!(matches!(&toks[1], Token::Colon));
    assert!(matches!(&toks[2], Token::Newline));
    assert!(matches!(&toks[3], Token::Whitespace));
    assert!(matches!(&toks[4], Token::Db));
    assert!(matches!(&toks[5], Token::Whitespace));
    assert!(matches!(&toks[6], Token::Str(s) if s == "Hello World!"));
    assert!(matches!(&toks[7], Token::Comma));
    assert!(matches!(&toks[8], Token::Whitespace));
    assert!(matches!(&toks[9], Token::HexNumber(0xA)));
    assert!(matches!(&toks[10], Token::Newline));
    assert!(matches!(&toks[11], Token::Identifier(s) if s == "_start"));
    assert!(matches!(&toks[12], Token::Colon));
    assert!(matches!(&toks[13], Token::Newline));
    assert!(matches!(&toks[14], Token::Whitespace));
    assert!(matches!(&toks[15], Token::Mov));
    assert!(matches!(&toks[16], Token::Whitespace));
    assert!(matches!(&toks[17], Token::Reg(Register::EAX)));
    assert!(matches!(&toks[18], Token::Comma));
    assert!(matches!(&toks[19], Token::Whitespace));
    assert!(matches!(&toks[20], Token::Number(5)));
    assert!(matches!(&toks[21], Token::Whitespace));
    assert!(matches!(&toks[22], Token::Newline));
    assert!(matches!(&toks[23], Token::Whitespace));
    assert!(matches!(&toks[24], Token::Int));
    assert!(matches!(&toks[25], Token::Whitespace));
    assert!(matches!(&toks[26], Token::HexNumber(0x80)));
    assert_eq!(toks.len(), 27);
}

#[test]
fn lexer_symbols_and_jcc() {
    let toks = tokenize("EQU X ( $ + 2 ) * 3 - -4 / 1").unwrap();
    assert!(matches!(&toks[0], Token::Equ));
    assert!(matches!(&toks[2], Token::Identifier(s) if s == "X"));
    assert!(matches!(&toks[4], Token::LeftParen));
    assert!(matches!(&toks[6], Token::Dollar));
    assert!(matches!(&toks[8], Token::Plus));
    assert!(matches!(&toks[10], Token::Number(2)));
    assert!(matches!(&toks[12], Token::RightParen));
    assert!(matches!(&toks[14], Token::Multiply));
    assert!(matches!(&toks[16], Token::Number(3)));
    assert!(matches!(&toks[18], Token::Minus));
    assert!(matches!(&toks[20], Token::Number(-4)));
    assert!(matches!(&toks[22], Token::Divide));
    assert!(matches!(&toks[24], Token::Number(1)));

    let toks = tokenize("jnz _l").unwrap();
    assert!(matches!(&toks[0], Token::Jcc(JumpCondition::NotZero)));

    let toks = tokenize("jae top").unwrap();
    assert!(matches!(&toks[0], Token::Jcc(JumpCondition::NotCarry)));
}

#[test]
fn lexer_rejects_stray_input() {
    assert!(tokenize("mov eax, #1").is_err());
    // a comment must end in a line break
    assert!(tokenize("ret ; trailing").is_err());
    // an unterminated string
    assert!(tokenize("db \"abc").is_err());
    // a decimal literal wider than a signed 64-bit word
    assert!(tokenize("db 99999999999999999999").is_err());
}
