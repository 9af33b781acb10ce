//! The abstract syntax tree that the parser produces and the code generator
//! consumes. Leaf nodes carry registers, integers and label names; constant
//! expressions appear as flat term/operator lists with parenthesized
//! sub-expressions nested below them.

use vstd::prelude::*;

use crate::instruction::JumpCondition;
use crate::lexer::{Token, TokenView};
use crate::Register;

verus! {

/// One node of the abstract syntax tree.
#[derive(Debug)]
pub enum Node {
    Program(Vec<Node>),
    Label(String),
    Entry(String),
    DS(u32),
    Db(Vec<u8>),
    DW(Vec<u16>),
    DL(Vec<u32>),
    Int(u8),
    Inc(Register),
    Dec(Register),
    Jump { condition: JumpCondition, label: String },
    JumpImm { condition: JumpCondition, addr: u32 },
    Mov(Register, Register),
    MovImm(Register, u32),
    MovImmPointer(Register, String),
    MovMemory(u32, Register),
    MovMemoryPointer(String, Register),
    MovMemoryRegister(Register, Register),
    MovFromMemory(Register, u32),
    MovFromMemoryPointer(Register, String),
    MovFromMemoryRegister(Register, Register),
    Add(Register, Register),
    AddImm(Register, u32),
    AddImmPointer(Register, String),
    Sub(Register, Register),
    SubImm(Register, u32),
    SubImmPointer(Register, String),
    Mul(Register),
    Div(Register),
    And(Register, Register),
    Or(Register, Register),
    XOr(Register, Register),
    CMP(Register, Register),
    CMPImm(Register, u32),
    CMPImmPointer(Register, String),
    BSWAP(Register),
    Push(Register),
    Pop(Register),
    Call(u32),
    CallPointer(String),
    CallRegister(Register),
    Return,
    Not(Register),
    Neg(Register),
    SHL(Register),
    SHR(Register),
    Register(Register),
    Integer(u32),
    Pointer(String),
    Newline,
    EQU(String, Box<Node>),
    Expr(Vec<Node>),
    ParenExpr(Box<Node>),
    Operator(Token),
    Dollar,
}

/// The mathematical model of a syntax tree node.
pub enum NodeView {
    Program(Seq<NodeView>),
    Label(Seq<char>),
    Entry(Seq<char>),
    DS(u32),
    Db(Seq<u8>),
    DW(Seq<u16>),
    DL(Seq<u32>),
    Int(u8),
    Inc(Register),
    Dec(Register),
    Jump { condition: JumpCondition, label: Seq<char> },
    JumpImm { condition: JumpCondition, addr: u32 },
    Mov(Register, Register),
    MovImm(Register, u32),
    MovImmPointer(Register, Seq<char>),
    MovMemory(u32, Register),
    MovMemoryPointer(Seq<char>, Register),
    MovMemoryRegister(Register, Register),
    MovFromMemory(Register, u32),
    MovFromMemoryPointer(Register, Seq<char>),
    MovFromMemoryRegister(Register, Register),
    Add(Register, Register),
    AddImm(Register, u32),
    AddImmPointer(Register, Seq<char>),
    Sub(Register, Register),
    SubImm(Register, u32),
    SubImmPointer(Register, Seq<char>),
    Mul(Register),
    Div(Register),
    And(Register, Register),
    Or(Register, Register),
    XOr(Register, Register),
    CMP(Register, Register),
    CMPImm(Register, u32),
    CMPImmPointer(Register, Seq<char>),
    BSWAP(Register),
    Push(Register),
    Pop(Register),
    Call(u32),
    CallPointer(Seq<char>),
    CallRegister(Register),
    Return,
    Not(Register),
    Neg(Register),
    SHL(Register),
    SHR(Register),
    Register(Register),
    Integer(u32),
    Pointer(Seq<char>),
    Newline,
    EQU(Seq<char>, Box<NodeView>),
    Expr(Seq<NodeView>),
    ParenExpr(Box<NodeView>),
    Operator(TokenView),
    Dollar,
}

impl View for Node {
    type V = NodeView;

    open spec fn view(&self) -> NodeView {
        node_view(self)
    }
}

/// The mathematical model of a syntax tree node, structurally.
pub open spec fn node_view(n: &Node) -> NodeView
    decreases n,
    via node_view_decreases
{
    match n {
            Node::Program(stmts) => NodeView::Program(nodes_view(stmts@)),
            Node::Label(s) => NodeView::Label(s@),
            Node::Entry(s) => NodeView::Entry(s@),
            Node::DS(n) => NodeView::DS(*n),
            Node::Db(d) => NodeView::Db(d@),
            Node::DW(d) => NodeView::DW(d@),
            Node::DL(d) => NodeView::DL(d@),
            Node::Int(x) => NodeView::Int(*x),
            Node::Inc(r) => NodeView::Inc(*r),
            Node::Dec(r) => NodeView::Dec(*r),
            Node::Jump { condition, label } => NodeView::Jump {
                condition: *condition,
                label: label@,
            },
            Node::JumpImm { condition, addr } => NodeView::JumpImm {
                condition: *condition,
                addr: *addr,
            },
            Node::Mov(a, b) => NodeView::Mov(*a, *b),
            Node::MovImm(r, x) => NodeView::MovImm(*r, *x),
            Node::MovImmPointer(r, s) => NodeView::MovImmPointer(*r, s@),
            Node::MovMemory(x, r) => NodeView::MovMemory(*x, *r),
            Node::MovMemoryPointer(s, r) => NodeView::MovMemoryPointer(s@, *r),
            Node::MovMemoryRegister(a, b) => NodeView::MovMemoryRegister(*a, *b),
            Node::MovFromMemory(r, x) => NodeView::MovFromMemory(*r, *x),
            Node::MovFromMemoryPointer(r, s) => NodeView::MovFromMemoryPointer(*r, s@),
            Node::MovFromMemoryRegister(a, b) => NodeView::MovFromMemoryRegister(*a, *b),
            Node::Add(a, b) => NodeView::Add(*a, *b),
            Node::AddImm(r, x) => NodeView::AddImm(*r, *x),
            Node::AddImmPointer(r, s) => NodeView::AddImmPointer(*r, s@),
            Node::Sub(a, b) => NodeView::Sub(*a, *b),
            Node::SubImm(r, x) => NodeView::SubImm(*r, *x),
            Node::SubImmPointer(r, s) => NodeView::SubImmPointer(*r, s@),
            Node::Mul(r) => NodeView::Mul(*r),
            Node::Div(r) => NodeView::Div(*r),
            Node::And(a, b) => NodeView::And(*a, *b),
            Node::Or(a, b) => NodeView::Or(*a, *b),
            Node::XOr(a, b) => NodeView::XOr(*a, *b),
            Node::CMP(a, b) => NodeView::CMP(*a, *b),
            Node::CMPImm(r, x) => NodeView::CMPImm(*r, *x),
            Node::CMPImmPointer(r, s) => NodeView::CMPImmPointer(*r, s@),
            Node::BSWAP(r) => NodeView::BSWAP(*r),
            Node::Push(r) => NodeView::Push(*r),
            Node::Pop(r) => NodeView::Pop(*r),
            Node::Call(x) => NodeView::Call(*x),
            Node::CallPointer(s) => NodeView::CallPointer(s@),
            Node::CallRegister(r) => NodeView::CallRegister(*r),
            Node::Return => NodeView::Return,
            Node::Not(r) => NodeView::Not(*r),
            Node::Neg(r) => NodeView::Neg(*r),
            Node::SHL(r) => NodeView::SHL(*r),
            Node::SHR(r) => NodeView::SHR(*r),
            Node::Register(r) => NodeView::Register(*r),
            Node::Integer(x) => NodeView::Integer(*x),
            Node::Pointer(s) => NodeView::Pointer(s@),
            Node::Newline => NodeView::Newline,
            Node::EQU(s, e) => NodeView::EQU(s@, Box::new(node_view(&**e))),
            Node::Expr(nodes) => NodeView::Expr(nodes_view(nodes@)),
            Node::ParenExpr(e) => NodeView::ParenExpr(Box::new(node_view(&**e))),
            Node::Operator(t) => NodeView::Operator(t@),
            Node::Dollar => NodeView::Dollar,
    }
}

/// The mathematical models of a list of nodes, elementwise.
pub open spec fn nodes_view(v: Seq<Node>) -> Seq<NodeView>
    decreases v,
{
    Seq::new(
        v.len(),
        |i: int|
            if 0 <= i < v.len() {
                node_view(&v[i])
            } else {
                NodeView::Dollar
            },
    )
}

/// Termination of the view: every statement of a program node and every part
/// of an expression node sits below the node itself.
#[via_fn]
proof fn node_view_decreases(n: &Node) {
    broadcast use vstd::std_specs::vec::group_vec_axioms;

    match n {
        Node::Program(stmts) => {
            assert(decreases_to!(*n => *stmts));
            assert(decreases_to!(*stmts => stmts@));
        },
        Node::Expr(nodes) => {
            assert(decreases_to!(*n => *nodes));
            assert(decreases_to!(*nodes => nodes@));
        },
        _ => {},
    }
}

/// Every node of a list sits below the list.
pub proof fn lemma_nodes_view_index(v: Seq<Node>, i: int)
    requires
        0 <= i < v.len(),
    ensures
        nodes_view(v)[i] == node_view(&v[i]),
{
}

} // verus!
