//! The lexical tokenizer: assembly source text to a token stream.
//!
//! Tokens follow Intel-style assembly syntax: punctuation, directives,
//! mnemonics, register names, newlines (a comment runs from `;` to the end of
//! its line and lexes with it), horizontal whitespace, identifiers,
//! double-quoted strings, and decimal or `0x`-prefixed hexadecimal numbers.

use vstd::prelude::*;

use crate::instruction::JumpCondition;
use crate::Register;

verus! {

/// One lexical token.
#[derive(Debug, Clone)]
pub enum Token {
    // Symbols
    Comma,
    LeftBracket,
    RightBracket,
    Colon,
    LeftParen,
    RightParen,
    Plus,
    Minus,
    Multiply,
    Divide,
    Dollar,
    // Pseudo-instructions and directives
    Entry,
    Db,
    Dw,
    Dl,
    Ds,
    Equ,
    // Instructions
    Mov,
    Int,
    Inc,
    Dec,
    Jmp,
    Jcc(JumpCondition),
    Add,
    Sub,
    Mul,
    Div,
    And,
    Or,
    Xor,
    Cmp,
    Bswap,
    Push,
    Pop,
    Call,
    Ret,
    Not,
    Neg,
    Shl,
    Shr,
    // Registers
    Reg(Register),
    // Layout
    Newline,
    Whitespace,
    // Values
    Identifier(String),
    Str(String),
    HexNumber(u64),
    Number(i64),
}

/// The mathematical model of a token: text payloads as character sequences.
pub enum TokenView {
    Comma,
    LeftBracket,
    RightBracket,
    Colon,
    LeftParen,
    RightParen,
    Plus,
    Minus,
    Multiply,
    Divide,
    Dollar,
    Entry,
    Db,
    Dw,
    Dl,
    Ds,
    Equ,
    Mov,
    Int,
    Inc,
    Dec,
    Jmp,
    Jcc(JumpCondition),
    Add,
    Sub,
    Mul,
    Div,
    And,
    Or,
    Xor,
    Cmp,
    Bswap,
    Push,
    Pop,
    Call,
    Ret,
    Not,
    Neg,
    Shl,
    Shr,
    Reg(Register),
    Newline,
    Whitespace,
    Identifier(Seq<char>),
    Str(Seq<char>),
    HexNumber(u64),
    Number(i64),
}

impl View for Token {
    type V = TokenView;

    open spec fn view(&self) -> TokenView {
        match self {
            Token::Comma => TokenView::Comma,
            Token::LeftBracket => TokenView::LeftBracket,
            Token::RightBracket => TokenView::RightBracket,
            Token::Colon => TokenView::Colon,
            Token::LeftParen => TokenView::LeftParen,
            Token::RightParen => TokenView::RightParen,
            Token::Plus => TokenView::Plus,
            Token::Minus => TokenView::Minus,
            Token::Multiply => TokenView::Multiply,
            Token::Divide => TokenView::Divide,
            Token::Dollar => TokenView::Dollar,
            Token::Entry => TokenView::Entry,
            Token::Db => TokenView::Db,
            Token::Dw => TokenView::Dw,
            Token::Dl => TokenView::Dl,
            Token::Ds => TokenView::Ds,
            Token::Equ => TokenView::Equ,
            Token::Mov => TokenView::Mov,
            Token::Int => TokenView::Int,
            Token::Inc => TokenView::Inc,
            Token::Dec => TokenView::Dec,
            Token::Jmp => TokenView::Jmp,
            Token::Jcc(c) => TokenView::Jcc(*c),
            Token::Add => TokenView::Add,
            Token::Sub => TokenView::Sub,
            Token::Mul => TokenView::Mul,
            Token::Div => TokenView::Div,
            Token::And => TokenView::And,
            Token::Or => TokenView::Or,
            Token::Xor => TokenView::Xor,
            Token::Cmp => TokenView::Cmp,
            Token::Bswap => TokenView::Bswap,
            Token::Push => TokenView::Push,
            Token::Pop => TokenView::Pop,
            Token::Call => TokenView::Call,
            Token::Ret => TokenView::Ret,
            Token::Not => TokenView::Not,
            Token::Neg => TokenView::Neg,
            Token::Shl => TokenView::Shl,
            Token::Shr => TokenView::Shr,
            Token::Reg(r) => TokenView::Reg(*r),
            Token::Newline => TokenView::Newline,
            Token::Whitespace => TokenView::Whitespace,
            Token::Identifier(s) => TokenView::Identifier(s@),
            Token::Str(s) => TokenView::Str(s@),
            Token::HexNumber(x) => TokenView::HexNumber(*x),
            Token::Number(x) => TokenView::Number(*x),
        }
    }
}

/// A lexical fault: the character index where no token could be read.
#[derive(Debug, PartialEq, Eq, Structural, Clone, Copy)]
pub struct LexError {
    pub pos: usize,
}

/// The characters of a string, as a vector.
fn str_chars(s: &str) -> (r: Vec<char>)
    ensures
        r@ == s@,
{
    let n = s.unicode_len();
    let mut out: Vec<char> = Vec::new();
    let mut i: usize = 0;
    proof {
        assert(out@ =~= s@.take(0));
    }
    while i < n
        invariant
            n == s@.len(),
            i <= n,
            out@ == s@.take(i as int),
        decreases n - i,
    {
        let c = s.get_char(i);
        out.push(c);
        proof {
            assert(out@ =~= s@.take(i + 1));
        }
        i = i + 1;
    }
    proof {
        assert(s@.take(n as int) =~= s@);
    }
    out
}

/// Whether the character is a decimal digit.
fn is_digit(c: char) -> (b: bool)
    ensures
        b == (0x30 <= c as u32 <= 0x39),
{
    let u = c as u32;
    0x30 <= u && u <= 0x39
}

/// Whether the character is a hexadecimal digit, and its value.
fn hex_value(c: char) -> (r: Option<u64>)
    ensures
        r matches Some(v) ==> v < 16,
{
    let u = c as u32;
    if 0x30 <= u && u <= 0x39 {
        Some((u - 0x30) as u64)
    } else if 0x41 <= u && u <= 0x46 {
        Some((u - 0x41 + 10) as u64)
    } else if 0x61 <= u && u <= 0x66 {
        Some((u - 0x61 + 10) as u64)
    } else {
        None
    }
}

/// Whether the character may start an identifier: a letter or `_`.
fn is_ident_start(c: char) -> bool {
    let u = c as u32;
    (0x41 <= u && u <= 0x5A) || (0x61 <= u && u <= 0x7A) || u == 0x5F
}

/// Whether the character may continue an identifier.
fn is_ident_part(c: char) -> bool {
    let u = c as u32;
    (0x41 <= u && u <= 0x5A) || (0x61 <= u && u <= 0x7A) || (0x30 <= u && u <= 0x39) || u == 0x5F
}

/// The keyword, directive or register token an identifier's text stands
/// for, if any: the name-to-token table of the assembly syntax.
pub open spec fn spec_keyword(s: Seq<char>) -> Option<TokenView> {
    if s == "entry"@ {
        Some(TokenView::Entry)
    } else     if s == "db"@ {
        Some(TokenView::Db)
    } else     if s == "dw"@ {
        Some(TokenView::Dw)
    } else     if s == "dl"@ {
        Some(TokenView::Dl)
    } else     if s == "ds"@ {
        Some(TokenView::Ds)
    } else     if s == "EQU"@ {
        Some(TokenView::Equ)
    } else     if s == "mov"@ {
        Some(TokenView::Mov)
    } else     if s == "int"@ {
        Some(TokenView::Int)
    } else     if s == "inc"@ {
        Some(TokenView::Inc)
    } else     if s == "dec"@ {
        Some(TokenView::Dec)
    } else     if s == "jmp"@ {
        Some(TokenView::Jmp)
    } else     if s == "jo"@ {
        Some(TokenView::Jcc(JumpCondition::Overflow))
    } else     if s == "jno"@ {
        Some(TokenView::Jcc(JumpCondition::NotOverflow))
    } else     if s == "jb"@ {
        Some(TokenView::Jcc(JumpCondition::Carry))
    } else     if s == "jnae"@ {
        Some(TokenView::Jcc(JumpCondition::Carry))
    } else     if s == "jc"@ {
        Some(TokenView::Jcc(JumpCondition::Carry))
    } else     if s == "jnb"@ {
        Some(TokenView::Jcc(JumpCondition::NotCarry))
    } else     if s == "jae"@ {
        Some(TokenView::Jcc(JumpCondition::NotCarry))
    } else     if s == "jnc"@ {
        Some(TokenView::Jcc(JumpCondition::NotCarry))
    } else     if s == "jz"@ {
        Some(TokenView::Jcc(JumpCondition::Zero))
    } else     if s == "je"@ {
        Some(TokenView::Jcc(JumpCondition::Zero))
    } else     if s == "jnz"@ {
        Some(TokenView::Jcc(JumpCondition::NotZero))
    } else     if s == "jne"@ {
        Some(TokenView::Jcc(JumpCondition::NotZero))
    } else     if s == "jbe"@ {
        Some(TokenView::Jcc(JumpCondition::CarryOrZero))
    } else     if s == "jna"@ {
        Some(TokenView::Jcc(JumpCondition::CarryOrZero))
    } else     if s == "jnbe"@ {
        Some(TokenView::Jcc(JumpCondition::NotCarryAndNotZero))
    } else     if s == "ja"@ {
        Some(TokenView::Jcc(JumpCondition::NotCarryAndNotZero))
    } else     if s == "js"@ {
        Some(TokenView::Jcc(JumpCondition::Sign))
    } else     if s == "jns"@ {
        Some(TokenView::Jcc(JumpCondition::NotSign))
    } else     if s == "jp"@ {
        Some(TokenView::Jcc(JumpCondition::Parity))
    } else     if s == "jpe"@ {
        Some(TokenView::Jcc(JumpCondition::Parity))
    } else     if s == "jnp"@ {
        Some(TokenView::Jcc(JumpCondition::NotParity))
    } else     if s == "jpo"@ {
        Some(TokenView::Jcc(JumpCondition::NotParity))
    } else     if s == "jl"@ {
        Some(TokenView::Jcc(JumpCondition::Less))
    } else     if s == "jnge"@ {
        Some(TokenView::Jcc(JumpCondition::Less))
    } else     if s == "jnl"@ {
        Some(TokenView::Jcc(JumpCondition::NotLess))
    } else     if s == "jge"@ {
        Some(TokenView::Jcc(JumpCondition::NotLess))
    } else     if s == "jle"@ {
        Some(TokenView::Jcc(JumpCondition::NotGreater))
    } else     if s == "jng"@ {
        Some(TokenView::Jcc(JumpCondition::NotGreater))
    } else     if s == "jnle"@ {
        Some(TokenView::Jcc(JumpCondition::Greater))
    } else     if s == "jg"@ {
        Some(TokenView::Jcc(JumpCondition::Greater))
    } else     if s == "add"@ {
        Some(TokenView::Add)
    } else     if s == "sub"@ {
        Some(TokenView::Sub)
    } else     if s == "mul"@ {
        Some(TokenView::Mul)
    } else     if s == "div"@ {
        Some(TokenView::Div)
    } else     if s == "and"@ {
        Some(TokenView::And)
    } else     if s == "or"@ {
        Some(TokenView::Or)
    } else     if s == "xor"@ {
        Some(TokenView::Xor)
    } else     if s == "cmp"@ {
        Some(TokenView::Cmp)
    } else     if s == "bswap"@ {
        Some(TokenView::Bswap)
    } else     if s == "push"@ {
        Some(TokenView::Push)
    } else     if s == "pop"@ {
        Some(TokenView::Pop)
    } else     if s == "call"@ {
        Some(TokenView::Call)
    } else     if s == "ret"@ {
        Some(TokenView::Ret)
    } else     if s == "not"@ {
        Some(TokenView::Not)
    } else     if s == "neg"@ {
        Some(TokenView::Neg)
    } else     if s == "shl"@ {
        Some(TokenView::Shl)
    } else     if s == "shr"@ {
        Some(TokenView::Shr)
    } else     if s == "ah"@ {
        Some(TokenView::Reg(Register::AH))
    } else     if s == "al"@ {
        Some(TokenView::Reg(Register::AL))
    } else     if s == "bh"@ {
        Some(TokenView::Reg(Register::BH))
    } else     if s == "bl"@ {
        Some(TokenView::Reg(Register::BL))
    } else     if s == "ch"@ {
        Some(TokenView::Reg(Register::CH))
    } else     if s == "cl"@ {
        Some(TokenView::Reg(Register::CL))
    } else     if s == "dh"@ {
        Some(TokenView::Reg(Register::DH))
    } else     if s == "ax"@ {
        Some(TokenView::Reg(Register::AX))
    } else     if s == "cx"@ {
        Some(TokenView::Reg(Register::CX))
    } else     if s == "dx"@ {
        Some(TokenView::Reg(Register::DX))
    } else     if s == "bx"@ {
        Some(TokenView::Reg(Register::BX))
    } else     if s == "sp"@ {
        Some(TokenView::Reg(Register::SP))
    } else     if s == "bp"@ {
        Some(TokenView::Reg(Register::BP))
    } else     if s == "si"@ {
        Some(TokenView::Reg(Register::SI))
    } else     if s == "di"@ {
        Some(TokenView::Reg(Register::DI))
    } else     if s == "eax"@ {
        Some(TokenView::Reg(Register::EAX))
    } else     if s == "ebx"@ {
        Some(TokenView::Reg(Register::EBX))
    } else     if s == "ecx"@ {
        Some(TokenView::Reg(Register::ECX))
    } else     if s == "esp"@ {
        Some(TokenView::Reg(Register::ESP))
    } else     if s == "ebp"@ {
        Some(TokenView::Reg(Register::EBP))
    } else     if s == "edi"@ {
        Some(TokenView::Reg(Register::EDI))
    } else     if s == "esi"@ {
        Some(TokenView::Reg(Register::ESI))
    } else     if s == "edx"@ {
        Some(TokenView::Reg(Register::EDX))
    } else {
        None
    }
}

/// The keyword, directive or register token an identifier stands for, if
/// any. The data directive `dl` names the 16-bit register `DL` too; as in the
/// grammar, the directive reading wins and the register is unreachable by
/// name, matching the token definitions this follows.
fn keyword(s: &String) -> (r: Option<Token>)
    ensures
        r matches Some(t) ==> spec_keyword(s@) == Some(t@),
        r is None ==> spec_keyword(s@) is None,
{
    if crate::string_eq_str(s, "entry") {
        return Some(Token::Entry);
    }
    if crate::string_eq_str(s, "db") {
        return Some(Token::Db);
    }
    if crate::string_eq_str(s, "dw") {
        return Some(Token::Dw);
    }
    if crate::string_eq_str(s, "dl") {
        return Some(Token::Dl);
    }
    if crate::string_eq_str(s, "ds") {
        return Some(Token::Ds);
    }
    if crate::string_eq_str(s, "EQU") {
        return Some(Token::Equ);
    }
    if crate::string_eq_str(s, "mov") {
        return Some(Token::Mov);
    }
    if crate::string_eq_str(s, "int") {
        return Some(Token::Int);
    }
    if crate::string_eq_str(s, "inc") {
        return Some(Token::Inc);
    }
    if crate::string_eq_str(s, "dec") {
        return Some(Token::Dec);
    }
    if crate::string_eq_str(s, "jmp") {
        return Some(Token::Jmp);
    }
    if crate::string_eq_str(s, "jo") {
        return Some(Token::Jcc(JumpCondition::Overflow));
    }
    if crate::string_eq_str(s, "jno") {
        return Some(Token::Jcc(JumpCondition::NotOverflow));
    }
    if crate::string_eq_str(s, "jb") {
        return Some(Token::Jcc(JumpCondition::Carry));
    }
    if crate::string_eq_str(s, "jnae") {
        return Some(Token::Jcc(JumpCondition::Carry));
    }
    if crate::string_eq_str(s, "jc") {
        return Some(Token::Jcc(JumpCondition::Carry));
    }
    if crate::string_eq_str(s, "jnb") {
        return Some(Token::Jcc(JumpCondition::NotCarry));
    }
    if crate::string_eq_str(s, "jae") {
        return Some(Token::Jcc(JumpCondition::NotCarry));
    }
    if crate::string_eq_str(s, "jnc") {
        return Some(Token::Jcc(JumpCondition::NotCarry));
    }
    if crate::string_eq_str(s, "jz") {
        return Some(Token::Jcc(JumpCondition::Zero));
    }
    if crate::string_eq_str(s, "je") {
        return Some(Token::Jcc(JumpCondition::Zero));
    }
    if crate::string_eq_str(s, "jnz") {
        return Some(Token::Jcc(JumpCondition::NotZero));
    }
    if crate::string_eq_str(s, "jne") {
        return Some(Token::Jcc(JumpCondition::NotZero));
    }
    if crate::string_eq_str(s, "jbe") {
        return Some(Token::Jcc(JumpCondition::CarryOrZero));
    }
    if crate::string_eq_str(s, "jna") {
        return Some(Token::Jcc(JumpCondition::CarryOrZero));
    }
    if crate::string_eq_str(s, "jnbe") {
        return Some(Token::Jcc(JumpCondition::NotCarryAndNotZero));
    }
    if crate::string_eq_str(s, "ja") {
        return Some(Token::Jcc(JumpCondition::NotCarryAndNotZero));
    }
    if crate::string_eq_str(s, "js") {
        return Some(Token::Jcc(JumpCondition::Sign));
    }
    if crate::string_eq_str(s, "jns") {
        return Some(Token::Jcc(JumpCondition::NotSign));
    }
    if crate::string_eq_str(s, "jp") {
        return Some(Token::Jcc(JumpCondition::Parity));
    }
    if crate::string_eq_str(s, "jpe") {
        return Some(Token::Jcc(JumpCondition::Parity));
    }
    if crate::string_eq_str(s, "jnp") {
        return Some(Token::Jcc(JumpCondition::NotParity));
    }
    if crate::string_eq_str(s, "jpo") {
        return Some(Token::Jcc(JumpCondition::NotParity));
    }
    if crate::string_eq_str(s, "jl") {
        return Some(Token::Jcc(JumpCondition::Less));
    }
    if crate::string_eq_str(s, "jnge") {
        return Some(Token::Jcc(JumpCondition::Less));
    }
    if crate::string_eq_str(s, "jnl") {
        return Some(Token::Jcc(JumpCondition::NotLess));
    }
    if crate::string_eq_str(s, "jge") {
        return Some(Token::Jcc(JumpCondition::NotLess));
    }
    if crate::string_eq_str(s, "jle") {
        return Some(Token::Jcc(JumpCondition::NotGreater));
    }
    if crate::string_eq_str(s, "jng") {
        return Some(Token::Jcc(JumpCondition::NotGreater));
    }
    if crate::string_eq_str(s, "jnle") {
        return Some(Token::Jcc(JumpCondition::Greater));
    }
    if crate::string_eq_str(s, "jg") {
        return Some(Token::Jcc(JumpCondition::Greater));
    }
    if crate::string_eq_str(s, "add") {
        return Some(Token::Add);
    }
    if crate::string_eq_str(s, "sub") {
        return Some(Token::Sub);
    }
    if crate::string_eq_str(s, "mul") {
        return Some(Token::Mul);
    }
    if crate::string_eq_str(s, "div") {
        return Some(Token::Div);
    }
    if crate::string_eq_str(s, "and") {
        return Some(Token::And);
    }
    if crate::string_eq_str(s, "or") {
        return Some(Token::Or);
    }
    if crate::string_eq_str(s, "xor") {
        return Some(Token::Xor);
    }
    if crate::string_eq_str(s, "cmp") {
        return Some(Token::Cmp);
    }
    if crate::string_eq_str(s, "bswap") {
        return Some(Token::Bswap);
    }
    if crate::string_eq_str(s, "push") {
        return Some(Token::Push);
    }
    if crate::string_eq_str(s, "pop") {
        return Some(Token::Pop);
    }
    if crate::string_eq_str(s, "call") {
        return Some(Token::Call);
    }
    if crate::string_eq_str(s, "ret") {
        return Some(Token::Ret);
    }
    if crate::string_eq_str(s, "not") {
        return Some(Token::Not);
    }
    if crate::string_eq_str(s, "neg") {
        return Some(Token::Neg);
    }
    if crate::string_eq_str(s, "shl") {
        return Some(Token::Shl);
    }
    if crate::string_eq_str(s, "shr") {
        return Some(Token::Shr);
    }
    if crate::string_eq_str(s, "ah") {
        return Some(Token::Reg(Register::AH));
    }
    if crate::string_eq_str(s, "al") {
        return Some(Token::Reg(Register::AL));
    }
    if crate::string_eq_str(s, "bh") {
        return Some(Token::Reg(Register::BH));
    }
    if crate::string_eq_str(s, "bl") {
        return Some(Token::Reg(Register::BL));
    }
    if crate::string_eq_str(s, "ch") {
        return Some(Token::Reg(Register::CH));
    }
    if crate::string_eq_str(s, "cl") {
        return Some(Token::Reg(Register::CL));
    }
    if crate::string_eq_str(s, "dh") {
        return Some(Token::Reg(Register::DH));
    }
    if crate::string_eq_str(s, "ax") {
        return Some(Token::Reg(Register::AX));
    }
    if crate::string_eq_str(s, "cx") {
        return Some(Token::Reg(Register::CX));
    }
    if crate::string_eq_str(s, "dx") {
        return Some(Token::Reg(Register::DX));
    }
    if crate::string_eq_str(s, "bx") {
        return Some(Token::Reg(Register::BX));
    }
    if crate::string_eq_str(s, "sp") {
        return Some(Token::Reg(Register::SP));
    }
    if crate::string_eq_str(s, "bp") {
        return Some(Token::Reg(Register::BP));
    }
    if crate::string_eq_str(s, "si") {
        return Some(Token::Reg(Register::SI));
    }
    if crate::string_eq_str(s, "di") {
        return Some(Token::Reg(Register::DI));
    }
    if crate::string_eq_str(s, "eax") {
        return Some(Token::Reg(Register::EAX));
    }
    if crate::string_eq_str(s, "ebx") {
        return Some(Token::Reg(Register::EBX));
    }
    if crate::string_eq_str(s, "ecx") {
        return Some(Token::Reg(Register::ECX));
    }
    if crate::string_eq_str(s, "esp") {
        return Some(Token::Reg(Register::ESP));
    }
    if crate::string_eq_str(s, "ebp") {
        return Some(Token::Reg(Register::EBP));
    }
    if crate::string_eq_str(s, "edi") {
        return Some(Token::Reg(Register::EDI));
    }
    if crate::string_eq_str(s, "esi") {
        return Some(Token::Reg(Register::ESI));
    }
    if crate::string_eq_str(s, "edx") {
        return Some(Token::Reg(Register::EDX));
    }
    None
}

/// Scans a double-quoted string beginning at the quote at index `i`,
/// validating escapes without decoding them: the index of the closing quote.
fn scan_string(chars: &Vec<char>, i: usize) -> (r: Result<usize, LexError>)
    requires
        i < chars@.len(),
    ensures
        r matches Ok(j) ==> i < j < chars@.len(),
{
    let n = chars.len();
    let mut j = i + 1;
    while j < n
        invariant
            n == chars@.len(),
            i < j <= n,
        decreases n - j,
    {
        let d = chars[j] as u32;
        if d == 0x22 {
            return Ok(j);
        } else if d == 0x5C {
            if n - j <= 1 {
                return Err(LexError { pos: j });
            }
            let e = chars[j + 1] as u32;
            if e == 0x22 || e == 0x5C || e == 0x62 || e == 0x6E || e == 0x66 || e == 0x72
                || e == 0x74 || e == 0x2F {
                j = j + 2;
            } else if e == 0x75 {
                if n - j <= 5 {
                    return Err(LexError { pos: j });
                }
                if hex_value(chars[j + 2]).is_none() || hex_value(chars[j + 3]).is_none()
                    || hex_value(chars[j + 4]).is_none() || hex_value(chars[j + 5]).is_none() {
                    return Err(LexError { pos: j });
                }
                j = j + 6;
            } else {
                return Err(LexError { pos: j });
            }
        } else if d < 0x20 {
            return Err(LexError { pos: j });
        } else {
            j = j + 1;
        }
    }
    Err(LexError { pos: i })
}

/// The token stream of one source text, or the index of the first character
/// where no token could be read: an unexpected character, an unterminated
/// string or comment, a bad escape, or a numeric literal out of range.
pub fn tokenize(src: &str) -> Result<Vec<Token>, LexError> {
    let chars = str_chars(src);
    let n = chars.len();
    let mut toks: Vec<Token> = Vec::new();
    let mut i: usize = 0;
    while i < n
        invariant
            n == chars@.len(),
            chars@ == src@,
            i <= n,
        decreases n - i,
    {
        let c = chars[i];
        let u = c as u32;
        if u == 0x2C {
            toks.push(Token::Comma);
            i = i + 1;
        } else if u == 0x5B {
            toks.push(Token::LeftBracket);
            i = i + 1;
        } else if u == 0x5D {
            toks.push(Token::RightBracket);
            i = i + 1;
        } else if u == 0x3A {
            toks.push(Token::Colon);
            i = i + 1;
        } else if u == 0x28 {
            toks.push(Token::LeftParen);
            i = i + 1;
        } else if u == 0x29 {
            toks.push(Token::RightParen);
            i = i + 1;
        } else if u == 0x2B {
            toks.push(Token::Plus);
            i = i + 1;
        } else if u == 0x2A {
            toks.push(Token::Multiply);
            i = i + 1;
        } else if u == 0x2F {
            toks.push(Token::Divide);
            i = i + 1;
        } else if u == 0x24 {
            toks.push(Token::Dollar);
            i = i + 1;
        } else if u == 0x0A || u == 0x0D {
            // a bare line break
            toks.push(Token::Newline);
            i = i + 1;
        } else if u == 0x3B {
            // a comment runs to its line break and lexes with it
            let mut j = i + 1;
            while j < n
                invariant
                    n == chars@.len(),
                    i < j <= n,
                decreases n - j,
            {
                let d = chars[j] as u32;
                if d == 0x0A || d == 0x0D {
                    break ;
                }
                j = j + 1;
            }
            if j >= n {
                return Err(LexError { pos: i });
            }
            toks.push(Token::Newline);
            i = j + 1;
        } else if u == 0x20 || u == 0x09 || u == 0x0C {
            // a run of horizontal whitespace
            let mut j = i + 1;
            while j < n
                invariant
                    n == chars@.len(),
                    i < j <= n,
                decreases n - j,
            {
                let d = chars[j] as u32;
                if d == 0x20 || d == 0x09 || d == 0x0C {
                    j = j + 1;
                } else {
                    break ;
                }
            }
            toks.push(Token::Whitespace);
            i = j;
        } else if u == 0x22 {
            // a double-quoted string; escapes are validated but kept verbatim
            let j = match scan_string(&chars, i) {
                Ok(j) => j,
                Err(e) => {
                    return Err(e);
                },
            };
            let content = src.substring_char(i + 1, j).to_owned();
            toks.push(Token::Str(content));
            i = j + 1;
        } else if u == 0x2D {
            // a minus sign, or a negative decimal number
            if n - i > 1 && is_digit(chars[i + 1]) {
                let mut j = i + 1;
                let mut value: u64 = 0;
                while j < n && is_digit(chars[j])
                    invariant
                        n == chars@.len(),
                        i < j <= n,
                    decreases n - j,
                {
                    let d = (chars[j] as u32 - 0x30) as u64;
                    value = match value.checked_mul(10) {
                        Some(v) => v,
                        None => {
                            return Err(LexError { pos: i });
                        },
                    };
                    value = match value.checked_add(d) {
                        Some(v) => v,
                        None => {
                            return Err(LexError { pos: i });
                        },
                    };
                    j = j + 1;
                }
                if value > 0x8000_0000_0000_0000 {
                    return Err(LexError { pos: i });
                }
                let number: i64 = if value == 0x8000_0000_0000_0000 {
                    i64::MIN
                } else {
                    -(value as i64)
                };
                toks.push(Token::Number(number));
                i = j;
            } else {
                toks.push(Token::Minus);
                i = i + 1;
            }
        } else if is_digit(c) {
            // a decimal number, or a 0x-prefixed hexadecimal number
            if u == 0x30 && n - i > 2 && chars[i + 1] as u32 == 0x78 && hex_value(
                chars[i + 2],
            ).is_some() {
                let mut j = i + 2;
                let mut value: u64 = 0;
                while j < n && hex_value(chars[j]).is_some()
                    invariant
                        n == chars@.len(),
                        i < j <= n,
                    decreases n - j,
                {
                    let d = match hex_value(chars[j]) {
                        Some(v) => v,
                        None => 0,
                    };
                    value = match value.checked_mul(16) {
                        Some(v) => v,
                        None => {
                            return Err(LexError { pos: i });
                        },
                    };
                    value = match value.checked_add(d) {
                        Some(v) => v,
                        None => {
                            return Err(LexError { pos: i });
                        },
                    };
                    j = j + 1;
                }
                toks.push(Token::HexNumber(value));
                i = j;
            } else {
                let mut j = i;
                let mut value: u64 = 0;
                while j < n && is_digit(chars[j])
                    invariant
                        n == chars@.len(),
                        i <= j <= n,
                    decreases n - j,
                {
                    let d = (chars[j] as u32 - 0x30) as u64;
                    value = match value.checked_mul(10) {
                        Some(v) => v,
                        None => {
                            return Err(LexError { pos: i });
                        },
                    };
                    value = match value.checked_add(d) {
                        Some(v) => v,
                        None => {
                            return Err(LexError { pos: i });
                        },
                    };
                    j = j + 1;
                }
                if value > 0x7FFF_FFFF_FFFF_FFFF {
                    return Err(LexError { pos: i });
                }
                toks.push(Token::Number(value as i64));
                i = if j > i {
                    j
                } else {
                    i + 1
                };
            }
        } else if is_ident_start(c) {
            let mut j = i + 1;
            while j < n && is_ident_part(chars[j])
                invariant
                    n == chars@.len(),
                    i < j <= n,
                decreases n - j,
            {
                j = j + 1;
            }
            let word = src.substring_char(i, j).to_owned();
            match keyword(&word) {
                Some(t) => toks.push(t),
                None => toks.push(Token::Identifier(word)),
            }
            i = j;
        } else {
            return Err(LexError { pos: i });
        }
    }
    Ok(toks)
}

} // verus!

