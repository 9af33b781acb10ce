//! The recursive-descent syntax parser: a token stream to an abstract syntax
//! tree. One statement per line: a label declaration, a directive, or an
//! Intel-style mnemonic with comma-separated operands; memory operands are
//! bracketed; constant expressions accept `$`, names, integers, parentheses
//! and the four arithmetic operators.

use vstd::prelude::*;

use crate::ast::Node;
use crate::instruction::JumpCondition;
use crate::lexer::{tokenize, Token};
use crate::Register;

verus! {

/// A parse fault: a message and the line it was found on.
#[derive(Debug)]
pub struct Error {
    pub message: String,
    pub line_no: usize,
}

/// The parser's cursor over the token stream.
pub struct Parser {
    pub tokens: Vec<Token>,
    pub pos: usize,
    pub line_no: usize,
}

impl Parser {
    /// The cursor sits within the token stream.
    pub open spec fn wf(&self) -> bool {
        self.pos <= self.tokens@.len()
    }

    /// Parse a source text into an abstract syntax tree.
    pub fn parse(src: &str) -> (r: Result<Node, Error>)
        ensures
            r matches Ok(node) ==> node is Program,
    {
        let tokens = match tokenize(src) {
            Ok(t) => t,
            Err(_) => {
                return Err(
                    Error { message: "unrecognized input character".to_owned(), line_no: 1 },
                );
            },
        };
        let mut parser = Parser { tokens, pos: 0, line_no: 1 };
        parser.program()
    }

    /// A parse error at the current line.
    fn error(&self, msg: &str) -> (r: Result<Node, Error>)
        ensures
            r is Err,
    {
        Err(Error { message: msg.to_owned(), line_no: self.line_no })
    }

    /// Consumes the current token.
    fn march(&mut self)
        requires
            old(self).wf(),
        ensures
            final(self).wf(),
            final(self).tokens@ == old(self).tokens@,
            final(self).pos == if old(self).pos < old(self).tokens@.len() {
                old(self).pos + 1
            } else {
                old(self).pos as int
            },
    {
        if self.pos < self.tokens.len() {
            self.pos = self.pos + 1;
        }
    }

    /// Whether any token remains.
    fn has_next(&self) -> (b: bool)
        requires
            self.wf(),
        ensures
            b == (self.pos < self.tokens@.len()),
    {
        self.pos < self.tokens.len()
    }

    /// Consumes a run of whitespace tokens.
    fn whitespace(&mut self)
        requires
            old(self).wf(),
        ensures
            final(self).wf(),
            final(self).tokens@ == old(self).tokens@,
            old(self).pos <= final(self).pos,
        decreases old(self).tokens@.len() - old(self).pos,
    {
        if self.pos < self.tokens.len() {
            match &self.tokens[self.pos] {
                Token::Whitespace => {
                    self.pos = self.pos + 1;
                    self.whitespace();
                },
                _ => (),
            }
        }
    }

    /// Demands at least one whitespace token, then consumes the run.
    fn required_whitespace(&mut self) -> (b: bool)
        requires
            old(self).wf(),
        ensures
            final(self).wf(),
            final(self).tokens@ == old(self).tokens@,
            old(self).pos <= final(self).pos,
            b ==> old(self).pos < final(self).pos,
    {
        if self.pos < self.tokens.len() {
            match &self.tokens[self.pos] {
                Token::Whitespace => {
                    self.pos = self.pos + 1;
                    self.whitespace();
                    true
                },
                _ => false,
            }
        } else {
            false
        }
    }

    /// Consumes a register name, also accepting the `dl` directive token in
    /// register position as the 8-bit register `DL`.
    fn register(&mut self) -> (r: Option<Register>)
        requires
            old(self).wf(),
        ensures
            final(self).wf(),
            final(self).tokens@ == old(self).tokens@,
            old(self).pos <= final(self).pos,
            r is Some ==> old(self).pos < final(self).pos,
    {
        if self.pos >= self.tokens.len() {
            return None;
        }
        let r = match &self.tokens[self.pos] {
            Token::Reg(r) => Some(*r),
            Token::Dl => Some(Register::DL),
            _ => None,
        };
        if r.is_some() {
            self.pos = self.pos + 1;
        }
        r
    }

    /// Consumes a number no wider than a byte.
    fn byte(&mut self) -> (r: Option<u8>)
        requires
            old(self).wf(),
        ensures
            final(self).wf(),
            final(self).tokens@ == old(self).tokens@,
            old(self).pos <= final(self).pos,
            r is Some ==> old(self).pos < final(self).pos,
    {
        if self.pos >= self.tokens.len() {
            return None;
        }
        let r = match &self.tokens[self.pos] {
            Token::Number(x) => if 0 <= *x && *x <= 0xFF {
                Some(*x as u8)
            } else {
                None
            },
            Token::HexNumber(x) => if *x <= 0xFF {
                Some(*x as u8)
            } else {
                None
            },
            _ => None,
        };
        if r.is_some() {
            self.pos = self.pos + 1;
        }
        r
    }

    /// Consumes a number no wider than a word.
    fn word(&mut self) -> (r: Option<u16>)
        requires
            old(self).wf(),
        ensures
            final(self).wf(),
            final(self).tokens@ == old(self).tokens@,
            old(self).pos <= final(self).pos,
            r is Some ==> old(self).pos < final(self).pos,
    {
        if self.pos >= self.tokens.len() {
            return None;
        }
        let r = match &self.tokens[self.pos] {
            Token::Number(x) => if 0 <= *x && *x <= 0xFFFF {
                Some(*x as u16)
            } else {
                None
            },
            Token::HexNumber(x) => if *x <= 0xFFFF {
                Some(*x as u16)
            } else {
                None
            },
            _ => None,
        };
        if r.is_some() {
            self.pos = self.pos + 1;
        }
        r
    }

    /// Consumes a number no wider than a dword.
    fn integer(&mut self) -> (r: Option<u32>)
        requires
            old(self).wf(),
        ensures
            final(self).wf(),
            final(self).tokens@ == old(self).tokens@,
            old(self).pos <= final(self).pos,
            r is Some ==> old(self).pos < final(self).pos,
    {
        if self.pos >= self.tokens.len() {
            return None;
        }
        let r = match &self.tokens[self.pos] {
            Token::Number(x) => if 0 <= *x && *x <= 0xFFFF_FFFF {
                Some(*x as u32)
            } else {
                None
            },
            Token::HexNumber(x) => if *x <= 0xFFFF_FFFF {
                Some(*x as u32)
            } else {
                None
            },
            _ => None,
        };
        if r.is_some() {
            self.pos = self.pos + 1;
        }
        r
    }

    /// Consumes an identifier, handing back its text.
    fn identifier(&mut self) -> (r: Option<String>)
        requires
            old(self).wf(),
        ensures
            final(self).wf(),
            final(self).tokens@ == old(self).tokens@,
            old(self).pos <= final(self).pos,
            r is Some ==> old(self).pos < final(self).pos,
    {
        if self.pos >= self.tokens.len() {
            return None;
        }
        let r = match &self.tokens[self.pos] {
            Token::Identifier(s) => Some(s.clone()),
            _ => None,
        };
        if r.is_some() {
            self.pos = self.pos + 1;
        }
        r
    }

    /// Whether the current token is a comma; consumes it when it is.
    fn comma(&mut self) -> (b: bool)
        requires
            old(self).wf(),
        ensures
            final(self).wf(),
            final(self).tokens@ == old(self).tokens@,
            old(self).pos <= final(self).pos,
            b ==> old(self).pos < final(self).pos,
    {
        if self.pos >= self.tokens.len() {
            return false;
        }
        let b = match &self.tokens[self.pos] {
            Token::Comma => true,
            _ => false,
        };
        if b {
            self.pos = self.pos + 1;
        }
        b
    }

    /// A register, then a comma, then a register, an identifier or an
    /// integer: the operand pair of the two-operand arithmetic mnemonics.
    fn reg_and_operand(&mut self) -> (r: Option<(Register, Node)>)
        requires
            old(self).wf(),
        ensures
            final(self).wf(),
            final(self).tokens@ == old(self).tokens@,
            old(self).pos <= final(self).pos,
            r is Some ==> old(self).pos < final(self).pos,
    {
        let a = match self.register() {
            Some(a) => a,
            None => {
                return None;
            },
        };
        self.whitespace();
        if !self.comma() {
            return None;
        }
        self.whitespace();
        match self.identifier() {
            Some(x) => {
                return Some((a, Node::Pointer(x)));
            },
            None => (),
        }
        match self.integer() {
            Some(x) => {
                return Some((a, Node::Integer(x)));
            },
            None => (),
        }
        match self.register() {
            Some(b) => Some((a, Node::Register(b))),
            None => None,
        }
    }

    /// A register, a comma and a second register.
    fn reg_reg(&mut self) -> (r: Option<(Register, Register)>)
        requires
            old(self).wf(),
        ensures
            final(self).wf(),
            final(self).tokens@ == old(self).tokens@,
            old(self).pos <= final(self).pos,
            r is Some ==> old(self).pos < final(self).pos,
    {
        let a = match self.register() {
            Some(a) => a,
            None => {
                return None;
            },
        };
        self.whitespace();
        if !self.comma() {
            return None;
        }
        self.whitespace();
        match self.register() {
            Some(b) => Some((a, b)),
            None => None,
        }
    }

    /// A bracketed memory operand: a register, an identifier or an integer.
    fn bracketed(&mut self) -> (r: Option<Node>)
        requires
            old(self).wf(),
        ensures
            final(self).wf(),
            final(self).tokens@ == old(self).tokens@,
            old(self).pos <= final(self).pos,
            r is Some ==> old(self).pos < final(self).pos,
    {
        // the opening bracket was already seen by the caller
        self.march();
        self.whitespace();
        let inner = match self.identifier() {
            Some(x) => Some(Node::Pointer(x)),
            None => match self.integer() {
                Some(x) => Some(Node::Integer(x)),
                None => match self.register() {
                    Some(x) => Some(Node::Register(x)),
                    None => None,
                },
            },
        };
        let inner = match inner {
            Some(i) => i,
            None => {
                return None;
            },
        };
        self.whitespace();
        if self.pos >= self.tokens.len() {
            return None;
        }
        match &self.tokens[self.pos] {
            Token::RightBracket => {
                self.pos = self.pos + 1;
                Some(inner)
            },
            _ => None,
        }
    }

    /// One statement: a label declaration, a directive, or a mnemonic with
    /// its operands.
    fn statement(&mut self) -> (r: Result<Node, Error>)
        requires
            old(self).wf(),
            old(self).pos < old(self).tokens@.len(),
        ensures
            final(self).wf(),
            final(self).tokens@ == old(self).tokens@,
            old(self).pos <= final(self).pos,
            r is Ok ==> old(self).pos < final(self).pos,
    {
        let tok_kind: usize = match &self.tokens[self.pos] {
            Token::Identifier(_) => 0,
            Token::Entry => 1,
            Token::Ds => 2,
            Token::Db => 3,
            Token::Dw => 4,
            Token::Dl => 5,
            Token::Int => 6,
            Token::Inc => 7,
            Token::Dec => 8,
            Token::Jmp => 9,
            Token::Jcc(_) => 10,
            Token::Mov => 11,
            Token::Add => 12,
            Token::Sub => 13,
            Token::Mul => 14,
            Token::Div => 15,
            Token::And => 16,
            Token::Or => 17,
            Token::Xor => 18,
            Token::Cmp => 19,
            Token::Bswap => 20,
            Token::Push => 21,
            Token::Pop => 22,
            Token::Call => 23,
            Token::Ret => 24,
            Token::Not => 25,
            Token::Neg => 26,
            Token::Shl => 27,
            Token::Shr => 28,
            Token::Equ => 29,
            _ => 30,
        };
        if tok_kind == 0 {
            return self.label_statement();
        }
        if tok_kind == 1 {
            return self.entry_statement();
        }
        if tok_kind == 2 {
            // storage reservation: ds <byte count>
            self.march();
            if !self.required_whitespace() {
                return self.error("expected whitespace after the directive");
            }
            return match self.integer() {
                Some(x) => Ok(Node::DS(x)),
                None => self.error("invalid argument: expected a dword count"),
            };
        }
        if tok_kind == 3 {
            return self.db_statement();
        }
        if tok_kind == 4 {
            return self.dw_statement();
        }
        if tok_kind == 5 {
            return self.dl_statement();
        }
        if tok_kind == 6 {
            self.march();
            if !self.required_whitespace() {
                return self.error("expected whitespace after the mnemonic");
            }
            return match self.byte() {
                Some(x) => Ok(Node::Int(x)),
                None => self.error("invalid argument: expected a byte"),
            };
        }
        if tok_kind == 7 || tok_kind == 8 || tok_kind == 14 || tok_kind == 15 || tok_kind == 20
            || tok_kind == 21 || tok_kind == 22 || tok_kind == 25 || tok_kind == 26 || tok_kind
            == 27 || tok_kind == 28 {
            // single-register mnemonics
            self.march();
            if !self.required_whitespace() {
                return self.error("expected whitespace after the mnemonic");
            }
            let r = match self.register() {
                Some(r) => r,
                None => {
                    return self.error("invalid argument: expected a register");
                },
            };
            return Ok(
                if tok_kind == 7 {
                    Node::Inc(r)
                } else if tok_kind == 8 {
                    Node::Dec(r)
                } else if tok_kind == 14 {
                    Node::Mul(r)
                } else if tok_kind == 15 {
                    Node::Div(r)
                } else if tok_kind == 20 {
                    Node::BSWAP(r)
                } else if tok_kind == 21 {
                    Node::Push(r)
                } else if tok_kind == 22 {
                    Node::Pop(r)
                } else if tok_kind == 25 {
                    Node::Not(r)
                } else if tok_kind == 26 {
                    Node::Neg(r)
                } else if tok_kind == 27 {
                    Node::SHL(r)
                } else {
                    Node::SHR(r)
                },
            );
        }
        if tok_kind == 9 || tok_kind == 10 {
            let condition = match &self.tokens[self.pos] {
                Token::Jcc(c) => *c,
                _ => JumpCondition::Unconditional,
            };
            self.march();
            if !self.required_whitespace() {
                return self.error("expected whitespace after the mnemonic");
            }
            match self.identifier() {
                Some(label) => {
                    return Ok(Node::Jump { condition, label });
                },
                None => (),
            }
            return match self.integer() {
                Some(addr) => Ok(Node::JumpImm { condition, addr }),
                None => self.error("invalid argument: expected a label or an address"),
            };
        }
        if tok_kind == 11 {
            return self.mov_statement();
        }
        if tok_kind == 12 || tok_kind == 13 || tok_kind == 19 {
            // two-operand mnemonics with an immediate form
            self.march();
            if !self.required_whitespace() {
                return self.error("expected whitespace after the mnemonic");
            }
            let (reg, operand) = match self.reg_and_operand() {
                Some(p) => p,
                None => {
                    return self.error("invalid arguments: expected register, comma, operand");
                },
            };
            return Ok(
                match operand {
                    Node::Register(b) => if tok_kind == 12 {
                        Node::Add(reg, b)
                    } else if tok_kind == 13 {
                        Node::Sub(reg, b)
                    } else {
                        Node::CMP(reg, b)
                    },
                    Node::Pointer(label) => if tok_kind == 12 {
                        Node::AddImmPointer(reg, label)
                    } else if tok_kind == 13 {
                        Node::SubImmPointer(reg, label)
                    } else {
                        Node::CMPImmPointer(reg, label)
                    },
                    Node::Integer(x) => if tok_kind == 12 {
                        Node::AddImm(reg, x)
                    } else if tok_kind == 13 {
                        Node::SubImm(reg, x)
                    } else {
                        Node::CMPImm(reg, x)
                    },
                    _ => {
                        return self.error("invalid arguments to the mnemonic");
                    },
                },
            );
        }
        if tok_kind == 16 || tok_kind == 17 || tok_kind == 18 {
            // register-register bitwise mnemonics
            self.march();
            if !self.required_whitespace() {
                return self.error("expected whitespace after the mnemonic");
            }
            let (a, b) = match self.reg_reg() {
                Some(p) => p,
                None => {
                    return self.error("invalid arguments: expected two registers");
                },
            };
            return Ok(
                if tok_kind == 16 {
                    Node::And(a, b)
                } else if tok_kind == 17 {
                    Node::Or(a, b)
                } else {
                    Node::XOr(a, b)
                },
            );
        }
        if tok_kind == 23 {
            self.march();
            if !self.required_whitespace() {
                return self.error("expected whitespace after the mnemonic");
            }
            match self.identifier() {
                Some(label) => {
                    return Ok(Node::CallPointer(label));
                },
                None => (),
            }
            match self.integer() {
                Some(x) => {
                    return Ok(Node::Call(x));
                },
                None => (),
            }
            return match self.register() {
                Some(r) => Ok(Node::CallRegister(r)),
                None => self.error("invalid argument to the call"),
            };
        }
        if tok_kind == 24 {
            self.march();
            return Ok(Node::Return);
        }
        if tok_kind == 29 {
            return self.equ_statement();
        }
        self.error("unexpected token at the start of a statement")
    }

    /// A label declaration: an identifier followed by a colon.
    fn label_statement(&mut self) -> (r: Result<Node, Error>)
        requires
            old(self).wf(),
        ensures
            final(self).wf(),
            final(self).tokens@ == old(self).tokens@,
            old(self).pos <= final(self).pos,
            r is Ok ==> old(self).pos < final(self).pos,
    {
        let ident = match self.identifier() {
            Some(x) => x,
            None => {
                return self.error("a label requires a name");
            },
        };
        self.whitespace();
        if self.pos >= self.tokens.len() {
            return self.error("expected a colon in the label declaration");
        }
        match &self.tokens[self.pos] {
            Token::Colon => {
                self.pos = self.pos + 1;
                Ok(Node::Label(ident))
            },
            _ => self.error("unknown instruction"),
        }
    }

    /// The entry directive: the name of the entry label.
    fn entry_statement(&mut self) -> (r: Result<Node, Error>)
        requires
            old(self).wf(),
        ensures
            final(self).wf(),
            final(self).tokens@ == old(self).tokens@,
            old(self).pos <= final(self).pos,
            r is Ok ==> old(self).pos < final(self).pos,
    {
        self.march();
        if !self.required_whitespace() {
            return self.error("expected whitespace after the entry directive");
        }
        match self.identifier() {
            Some(x) => Ok(Node::Entry(x)),
            None => self.error("invalid argument to the entry directive: expected a label"),
        }
    }

    /// Byte data: strings hand over their raw bytes, numbers one byte each.
    fn db_statement(&mut self) -> (r: Result<Node, Error>)
        requires
            old(self).wf(),
        ensures
            final(self).wf(),
            final(self).tokens@ == old(self).tokens@,
            old(self).pos <= final(self).pos,
            r is Ok ==> old(self).pos < final(self).pos,
    {
        self.march();
        if !self.required_whitespace() {
            return self.error("expected whitespace after the directive");
        }
        let mut data: Vec<u8> = Vec::new();
        if !self.db_argument(&mut data) {
            return self.error("invalid argument: expected a string or a byte");
        }
        while self.comma()
            invariant
                self.wf(),
                self.tokens@ == old(self).tokens@,
                old(self).pos < self.pos,
            decreases self.tokens@.len() - self.pos,
        {
            self.whitespace();
            if !self.db_argument(&mut data) {
                return self.error("invalid argument: expected a string or a byte");
            }
        }
        Ok(Node::Db(data))
    }

    /// One byte-data argument.
    fn db_argument(&mut self, data: &mut Vec<u8>) -> (b: bool)
        requires
            old(self).wf(),
        ensures
            final(self).wf(),
            final(self).tokens@ == old(self).tokens@,
            old(self).pos <= final(self).pos,
            b ==> old(self).pos < final(self).pos,
    {
        if self.pos >= self.tokens.len() {
            return false;
        }
        let is_str = match &self.tokens[self.pos] {
            Token::Str(_) => true,
            _ => false,
        };
        if is_str {
            match &self.tokens[self.pos] {
                Token::Str(st) => {
                    let bytes = st.as_str().as_bytes();
                    data.extend_from_slice(bytes);
                },
                _ => (),
            }
            self.pos = self.pos + 1;
            return true;
        }
        match self.byte() {
            Some(x) => {
                data.push(x);
                true
            },
            None => false,
        }
    }

    /// Word data: strings hand over one word per byte, numbers one word each.
    fn dw_statement(&mut self) -> (r: Result<Node, Error>)
        requires
            old(self).wf(),
        ensures
            final(self).wf(),
            final(self).tokens@ == old(self).tokens@,
            old(self).pos <= final(self).pos,
            r is Ok ==> old(self).pos < final(self).pos,
    {
        self.march();
        if !self.required_whitespace() {
            return self.error("expected whitespace after the directive");
        }
        let mut data: Vec<u16> = Vec::new();
        if !self.dw_argument(&mut data) {
            return self.error("invalid argument: expected a string or a word");
        }
        while self.comma()
            invariant
                self.wf(),
                self.tokens@ == old(self).tokens@,
                old(self).pos < self.pos,
            decreases self.tokens@.len() - self.pos,
        {
            self.whitespace();
            if !self.dw_argument(&mut data) {
                return self.error("invalid argument: expected a string or a word");
            }
        }
        Ok(Node::DW(data))
    }

    /// One word-data argument.
    fn dw_argument(&mut self, data: &mut Vec<u16>) -> (b: bool)
        requires
            old(self).wf(),
        ensures
            final(self).wf(),
            final(self).tokens@ == old(self).tokens@,
            old(self).pos <= final(self).pos,
            b ==> old(self).pos < final(self).pos,
    {
        if self.pos >= self.tokens.len() {
            return false;
        }
        let is_str = match &self.tokens[self.pos] {
            Token::Str(_) => true,
            _ => false,
        };
        if is_str {
            match &self.tokens[self.pos] {
                Token::Str(st) => {
                    let bytes = st.as_str().as_bytes();
                    let mut k: usize = 0;
                    while k < bytes.len()
                        invariant
                            k <= bytes@.len(),
                        decreases bytes@.len() - k,
                    {
                        data.push(bytes[k] as u16);
                        k = k + 1;
                    }
                },
                _ => (),
            }
            self.pos = self.pos + 1;
            return true;
        }
        match self.word() {
            Some(x) => {
                data.push(x);
                true
            },
            None => false,
        }
    }

    /// Dword data: strings hand over one dword per byte, numbers one each.
    fn dl_statement(&mut self) -> (r: Result<Node, Error>)
        requires
            old(self).wf(),
        ensures
            final(self).wf(),
            final(self).tokens@ == old(self).tokens@,
            old(self).pos <= final(self).pos,
            r is Ok ==> old(self).pos < final(self).pos,
    {
        self.march();
        if !self.required_whitespace() {
            return self.error("expected whitespace after the directive");
        }
        let mut data: Vec<u32> = Vec::new();
        if !self.dl_argument(&mut data) {
            return self.error("invalid argument: expected a string or a dword");
        }
        while self.comma()
            invariant
                self.wf(),
                self.tokens@ == old(self).tokens@,
                old(self).pos < self.pos,
            decreases self.tokens@.len() - self.pos,
        {
            self.whitespace();
            if !self.dl_argument(&mut data) {
                return self.error("invalid argument: expected a string or a dword");
            }
        }
        Ok(Node::DL(data))
    }

    /// One dword-data argument.
    fn dl_argument(&mut self, data: &mut Vec<u32>) -> (b: bool)
        requires
            old(self).wf(),
        ensures
            final(self).wf(),
            final(self).tokens@ == old(self).tokens@,
            old(self).pos <= final(self).pos,
            b ==> old(self).pos < final(self).pos,
    {
        if self.pos >= self.tokens.len() {
            return false;
        }
        let is_str = match &self.tokens[self.pos] {
            Token::Str(_) => true,
            _ => false,
        };
        if is_str {
            match &self.tokens[self.pos] {
                Token::Str(st) => {
                    let bytes = st.as_str().as_bytes();
                    let mut k: usize = 0;
                    while k < bytes.len()
                        invariant
                            k <= bytes@.len(),
                        decreases bytes@.len() - k,
                    {
                        data.push(bytes[k] as u32);
                        k = k + 1;
                    }
                },
                _ => (),
            }
            self.pos = self.pos + 1;
            return true;
        }
        match self.integer() {
            Some(x) => {
                data.push(x);
                true
            },
            None => false,
        }
    }

    /// The move mnemonic in its three shapes: store to a bracketed operand,
    /// load from a bracketed operand, and the register-destination forms.
    fn mov_statement(&mut self) -> (r: Result<Node, Error>)
        requires
            old(self).wf(),
        ensures
            final(self).wf(),
            final(self).tokens@ == old(self).tokens@,
            old(self).pos <= final(self).pos,
            r is Ok ==> old(self).pos < final(self).pos,
    {
        self.march();
        if !self.required_whitespace() {
            return self.error("expected whitespace after the mnemonic");
        }
        if self.pos >= self.tokens.len() {
            return self.error("missing operands");
        }
        let starts_bracket = match &self.tokens[self.pos] {
            Token::LeftBracket => true,
            _ => false,
        };
        if starts_bracket {
            // a store: mov [addr], reg
            let addr = match self.bracketed() {
                Some(a) => a,
                None => {
                    return self.error("invalid memory address");
                },
            };
            self.whitespace();
            if !self.comma() {
                return self.error("expected a comma");
            }
            self.whitespace();
            let reg = match self.register() {
                Some(r) => r,
                None => {
                    return self.error("unknown register");
                },
            };
            return Ok(
                match addr {
                    Node::Integer(x) => Node::MovMemory(x, reg),
                    Node::Pointer(x) => Node::MovMemoryPointer(x, reg),
                    Node::Register(x) => Node::MovMemoryRegister(x, reg),
                    _ => {
                        return self.error("invalid memory address");
                    },
                },
            );
        }
        let register = match self.register() {
            Some(r) => r,
            None => {
                return self.error("invalid argument: expected a register");
            },
        };
        self.whitespace();
        if !self.comma() {
            return self.error("expected a comma");
        }
        self.whitespace();
        if self.pos < self.tokens.len() {
            let loads = match &self.tokens[self.pos] {
                Token::LeftBracket => true,
                _ => false,
            };
            if loads {
                // a load: mov reg, [addr]
                let addr = match self.bracketed() {
                    Some(a) => a,
                    None => {
                        return self.error("invalid memory address");
                    },
                };
                return Ok(
                    match addr {
                        Node::Integer(x) => Node::MovFromMemory(register, x),
                        Node::Pointer(x) => Node::MovFromMemoryPointer(register, x),
                        Node::Register(x) => Node::MovFromMemoryRegister(register, x),
                        _ => {
                            return self.error("invalid memory address");
                        },
                    },
                );
            }
        }
        match self.identifier() {
            Some(x) => {
                return Ok(Node::MovImmPointer(register, x));
            },
            None => (),
        }
        match self.integer() {
            Some(x) => {
                return Ok(Node::MovImm(register, x));
            },
            None => (),
        }
        match self.register() {
            Some(x) => Ok(Node::Mov(register, x)),
            None => self.error("invalid source operand"),
        }
    }

    /// The equate directive: a name and a constant expression.
    fn equ_statement(&mut self) -> (r: Result<Node, Error>)
        requires
            old(self).wf(),
        ensures
            final(self).wf(),
            final(self).tokens@ == old(self).tokens@,
            old(self).pos <= final(self).pos,
            r is Ok ==> old(self).pos < final(self).pos,
    {
        self.march();
        if !self.required_whitespace() {
            return self.error("expected whitespace after the equate directive");
        }
        let ident = match self.identifier() {
            Some(x) => x,
            None => {
                return self.error("expected a name after the equate directive");
            },
        };
        if !self.required_whitespace() {
            return self.error("missing definition in the equate directive");
        }
        match self.expr() {
            Ok(e) => Ok(Node::EQU(ident, Box::new(e))),
            Err(e) => Err(e),
        }
    }

    /// A constant expression: a term, then `operator term` pairs.
    fn expr(&mut self) -> (r: Result<Node, Error>)
        requires
            old(self).wf(),
        ensures
            final(self).wf(),
            final(self).tokens@ == old(self).tokens@,
            old(self).pos <= final(self).pos,
        decreases old(self).tokens@.len() - old(self).pos, 2int,
    {
        let first = match self.expr_term() {
            Ok(t) => t,
            Err(e) => {
                return Err(e);
            },
        };
        self.whitespace();
        let mut parts: Vec<Node> = Vec::new();
        parts.push(first);
        loop
            invariant
                self.wf(),
                self.tokens@ == old(self).tokens@,
                old(self).pos <= self.pos,
            decreases self.tokens@.len() - self.pos,
        {
            let op = if self.pos < self.tokens.len() {
                match &self.tokens[self.pos] {
                    Token::Plus => Some(Token::Plus),
                    Token::Minus => Some(Token::Minus),
                    Token::Multiply => Some(Token::Multiply),
                    Token::Divide => Some(Token::Divide),
                    _ => None,
                }
            } else {
                None
            };
            let op = match op {
                Some(o) => o,
                None => {
                    break ;
                },
            };
            self.pos = self.pos + 1;
            self.whitespace();
            let next = match self.expr_term() {
                Ok(t) => t,
                Err(e) => {
                    return Err(e);
                },
            };
            parts.push(Node::Operator(op));
            parts.push(next);
            self.whitespace();
        }
        Ok(Node::Expr(parts))
    }

    /// One expression term: `$`, a parenthesized sub-expression, a name or an
    /// integer.
    fn expr_term(&mut self) -> (r: Result<Node, Error>)
        requires
            old(self).wf(),
        ensures
            final(self).wf(),
            final(self).tokens@ == old(self).tokens@,
            old(self).pos <= final(self).pos,
            r is Ok ==> old(self).pos < final(self).pos,
        decreases old(self).tokens@.len() - old(self).pos, 1int,
    {
        if self.pos >= self.tokens.len() {
            return self.error("missing expression term");
        }
        let kind: usize = match &self.tokens[self.pos] {
            Token::Dollar => 0,
            Token::LeftParen => 1,
            Token::Identifier(_) => 2,
            _ => 3,
        };
        if kind == 0 {
            self.pos = self.pos + 1;
            return Ok(Node::Dollar);
        }
        if kind == 1 {
            return self.paren_expr();
        }
        if kind == 2 {
            return match self.identifier() {
                Some(x) => Ok(Node::Pointer(x)),
                None => self.error("missing expression term"),
            };
        }
        match self.integer() {
            Some(x) => Ok(Node::Integer(x)),
            None => self.error("invalid expression term"),
        }
    }

    /// A parenthesized sub-expression.
    fn paren_expr(&mut self) -> (r: Result<Node, Error>)
        requires
            old(self).wf(),
            old(self).pos < old(self).tokens@.len(),
        ensures
            final(self).wf(),
            final(self).tokens@ == old(self).tokens@,
            old(self).pos <= final(self).pos,
            r is Ok ==> old(self).pos < final(self).pos,
        decreases old(self).tokens@.len() - old(self).pos, 0int,
    {
        self.march();
        self.whitespace();
        let inner = match self.expr() {
            Ok(e) => e,
            Err(e) => {
                return Err(e);
            },
        };
        self.whitespace();
        if self.pos >= self.tokens.len() {
            return self.error("expected a closing parenthesis");
        }
        match &self.tokens[self.pos] {
            Token::RightParen => {
                self.pos = self.pos + 1;
                Ok(Node::ParenExpr(Box::new(inner)))
            },
            _ => self.error("expected a closing parenthesis"),
        }
    }

    /// The whole program: statements separated by line breaks, blank lines
    /// free.
    fn program(&mut self) -> (r: Result<Node, Error>)
        requires
            old(self).wf(),
        ensures
            final(self).wf(),
            r matches Ok(node) ==> node is Program,
    {
        let mut stmts: Vec<Node> = Vec::new();
        loop
            invariant
                self.wf(),
                self.tokens@ == old(self).tokens@,
            decreases self.tokens@.len() - self.pos,
        {
            self.whitespace();
            if self.pos >= self.tokens.len() {
                break ;
            }
            let at_newline = match &self.tokens[self.pos] {
                Token::Newline => true,
                _ => false,
            };
            if at_newline {
                self.pos = self.pos + 1;
                self.line_no = if self.line_no < usize::MAX {
                    self.line_no + 1
                } else {
                    self.line_no
                };
                continue ;
            }
            let node = match self.statement() {
                Ok(n) => n,
                Err(e) => {
                    return Err(e);
                },
            };
            let was_label = match &node {
                Node::Label(_) => true,
                _ => false,
            };
            stmts.push(node);
            if was_label {
                // a statement may follow its label on the same line
                continue ;
            }
            self.whitespace();
            if self.pos < self.tokens.len() {
                let nl = match &self.tokens[self.pos] {
                    Token::Newline => true,
                    _ => false,
                };
                if !nl {
                    return self.error("expected a line break after the statement");
                }
                self.pos = self.pos + 1;
                self.line_no = if self.line_no < usize::MAX {
                    self.line_no + 1
                } else {
                    self.line_no
                };
            }
        }
        Ok(Node::Program(stmts))
    }
}

} // verus!
