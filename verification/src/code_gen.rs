//! The code generator: walks the abstract syntax tree in declaration order,
//! opens a block at every label, lowers each statement to an instruction,
//! evaluates constant expressions for the equate directive, and records the
//! entry-point label.
//!
//! The generator starts with a single block named `__entry_point__` so that
//! instructions before the first label have a home; a label node opens a new
//! block and makes it current; an equate binds a name to a 32-bit value that
//! shadows labels in later operands and expressions.

use vstd::prelude::*;

use crate::ast::{lemma_nodes_view_index, node_view, nodes_view, Node, NodeView};
use crate::instruction::{instr_len, Instruction, InstrView, JumpCondition};
use crate::lexer::{Token, TokenView};
use crate::addr::Addr;
use crate::program::{blocks_len, has_label, resolve_offset, resolve_vaddr, BlockView, Program, ProgramView};
use crate::{truncate32, Register, Value, ValueView};

verus! {

/// A fatal code-generation error. The whole compilation unit is rejected.
#[derive(Debug, PartialEq, Eq, Structural, Clone, Copy)]
pub enum GenError {
    /// An operand shape that no encoding supports: a memory operand
    /// addressed through a register that is not 32 bits wide, or a label
    /// operand on a register narrower than 32 bits.
    UnsupportedOperand,
    /// An immediate wider than the destination register.
    ImmediateOverflow,
    /// A name in a constant expression that is neither an equate nor a label
    /// seen so far.
    UnknownName,
    /// Division by zero in a constant expression.
    DivisionByZero,
    /// A constant expression that is not an alternation of terms and
    /// operators.
    BadExpression,
    /// The program grew past the 32-bit image bound.
    ProgramTooLarge,
}

impl GenError {
    /// A one-line description of the error.
    pub fn message(&self) -> String {
        match self {
            GenError::UnsupportedOperand => "operand shape not supported".to_owned(),
            GenError::ImmediateOverflow => "immediate overflows the destination register".to_owned(),
            GenError::UnknownName => "unknown name in expression".to_owned(),
            GenError::DivisionByZero => "division by zero in expression".to_owned(),
            GenError::BadExpression => "malformed expression".to_owned(),
            GenError::ProgramTooLarge => "program exceeds the 32-bit image bound".to_owned(),
        }
    }
}

/// The generator's working state: the program under construction, the entry
/// label, the recorded offsets of the labels seen so far, the equates, and
/// the index of the block being appended to.
pub struct CodeGenerator {
    pub program: Program,
    pub entry_point: String,
    pub block_addrs: Vec<(String, u32)>,
    pub variables: Vec<(String, u32)>,
    pub current_block: usize,
}

/// The mathematical model of the generator's state.
#[verifier::ext_equal]
pub struct GenView {
    pub program: ProgramView,
    pub entry_point: Seq<char>,
    pub block_addrs: Seq<(Seq<char>, u32)>,
    pub variables: Seq<(Seq<char>, u32)>,
    pub current_block: int,
}

impl View for CodeGenerator {
    type V = GenView;

    open spec fn view(&self) -> GenView {
        GenView {
            program: self.program@,
            entry_point: self.entry_point@,
            block_addrs: self.block_addrs@.map_values(|p: (String, u32)| (p.0@, p.1)),
            variables: self.variables@.map_values(|p: (String, u32)| (p.0@, p.1)),
            current_block: self.current_block as int,
        }
    }
}

/// The binding of a name in an association list; the latest binding wins.
pub open spec fn lookup(m: Seq<(Seq<char>, u32)>, name: Seq<char>) -> Option<u32>
    decreases m.len(),
{
    if m.len() == 0 {
        None
    } else if m.last().0 == name {
        Some(m.last().1)
    } else {
        lookup(m.drop_last(), name)
    }
}

/// Finds the latest binding of a name.
fn lookup_assoc(m: &Vec<(String, u32)>, name: &str) -> (r: Option<u32>)
    ensures
        r == lookup(m@.map_values(|p: (String, u32)| (p.0@, p.1)), name@),
{
    let ghost gm = m@.map_values(|p: (String, u32)| (p.0@, p.1));
    let mut i: usize = m.len();
    proof {
        assert(gm.take(i as int) =~= gm);
    }
    while i > 0
        invariant
            i <= m.len(),
            gm == m@.map_values(|p: (String, u32)| (p.0@, p.1)),
            lookup(gm, name@) == lookup(gm.take(i as int), name@),
        decreases i,
    {
        proof {
            assert(gm.take(i as int).last() == gm[i - 1]);
            assert(gm.take(i as int).drop_last() =~= gm.take(i - 1));
        }
        i = i - 1;
        if crate::string_eq_str(&m[i].0, name) {
            return Some(m[i].1);
        }
    }
    proof {
        assert(gm.take(0) =~= Seq::<(Seq<char>, u32)>::empty());
    }
    None
}

/// The precedence of an expression operator: multiplication and division
/// bind tighter than addition and subtraction; anything else is no operator.
pub open spec fn op_prec(t: TokenView) -> Option<nat> {
    match t {
        TokenView::Plus => Some(0),
        TokenView::Minus => Some(0),
        TokenView::Multiply => Some(1),
        TokenView::Divide => Some(1),
        _ => None,
    }
}

/// One step of 32-bit expression arithmetic: addition, subtraction and
/// multiplication wrap; division by zero is an error.
pub open spec fn spec_apply_op(op: TokenView, a: u32, b: u32) -> Result<u32, GenError> {
    match op {
        TokenView::Plus => Ok(vstd::wrapping::u32_specs::wrapping_add(a, b)),
        TokenView::Minus => Ok(vstd::wrapping::u32_specs::wrapping_sub(a, b)),
        TokenView::Multiply => Ok(vstd::wrapping::u32_specs::wrapping_mul(a, b)),
        TokenView::Divide => if b == 0 {
            Err(GenError::DivisionByZero)
        } else {
            Ok((a as nat / b as nat) as u32)
        },
        _ => Err(GenError::BadExpression),
    }
}

/// The value of one expression term, against the generator state `st`:
/// an integer literal is itself; `$` is the current total program length; a
/// name is its equate binding, else the recorded offset of the label, else an
/// error; a parenthesized sub-expression is evaluated below; an expression
/// list is an alternation of terms and operators, with `*` and `/` binding
/// tighter than `+` and `-`, left-associative.
pub open spec fn spec_eval_term(st: GenView, n: NodeView) -> Result<u32, GenError>
    decreases n, 0int,
{
    match n {
        NodeView::Integer(v) => Ok(v),
        NodeView::Dollar => Ok(truncate32(blocks_len(st.program.blocks) as int)),
        NodeView::Pointer(name) => match lookup(st.variables, name) {
            Some(v) => Ok(v),
            None => match lookup(st.block_addrs, name) {
                Some(v) => Ok(v),
                None => Err(GenError::UnknownName),
            },
        },
        NodeView::ParenExpr(b) => spec_eval_term(st, *b),
        NodeView::Expr(nodes) => if nodes.len() == 0 {
            Err(GenError::BadExpression)
        } else {
            match spec_eval_term(st, nodes[0]) {
                Err(e) => Err(e),
                Ok(first) => spec_eval_rest(st, nodes, 1, 0, TokenView::Plus, first),
            }
        },
        _ => Err(GenError::BadExpression),
    }
}

/// Folds the remaining `operator term` pairs of an expression list, starting
/// at index `i`. `prod` is the multiplicative run being accumulated; when an
/// additive operator arrives, the pending `addop` folds `prod` into `sum`.
pub open spec fn spec_eval_rest(
    st: GenView,
    nodes: Seq<NodeView>,
    i: int,
    sum: u32,
    addop: TokenView,
    prod: u32,
) -> Result<u32, GenError>
    decreases nodes, nodes.len() - i,
{
    if i < 0 {
        Err(GenError::BadExpression)
    } else if i >= nodes.len() {
        spec_apply_op(addop, sum, prod)
    } else if i + 1 >= nodes.len() {
        Err(GenError::BadExpression)
    } else {
        match nodes[i] {
            NodeView::Operator(op) => match op_prec(op) {
                None => Err(GenError::BadExpression),
                Some(p) => match spec_eval_term(st, nodes[i + 1]) {
                    Err(e) => Err(e),
                    Ok(t) => if p == 1 {
                        // multiplicative: fold into the current product
                        match spec_apply_op(op, prod, t) {
                            Err(e) => Err(e),
                            Ok(prod2) => spec_eval_rest(st, nodes, i + 2, sum, addop, prod2),
                        }
                    } else {
                        // additive: close the product, start a new one
                        match spec_apply_op(addop, sum, prod) {
                            Err(e) => Err(e),
                            Ok(sum2) => spec_eval_rest(st, nodes, i + 2, sum2, op, t),
                        }
                    },
                },
            },
            _ => Err(GenError::BadExpression),
        }
    }
}

impl CodeGenerator {
    /// The generator state is sound: the program is well formed, sits at
    /// offset zero, and the current block is the last one.
    pub open spec fn wf(&self) -> bool {
        &&& self.program.wf()
        &&& self.program.blocks@.len() > 0
        &&& self.current_block == self.program.blocks@.len() - 1
        &&& self.program.offset.addr == 0
        &&& self.program.offset.vaddr == 0
    }
}

/// The little-endian serialization of a run of 16-bit words.
pub open spec fn words_le(s: Seq<u16>) -> Seq<u8>
    decreases s.len(),
{
    if s.len() == 0 {
        Seq::empty()
    } else {
        crate::utils::word_bytes(s[0], crate::Endianness::Little) + words_le(s.drop_first())
    }
}

/// The little-endian serialization of a run of 32-bit words.
pub open spec fn dwords_le(s: Seq<u32>) -> Seq<u8>
    decreases s.len(),
{
    if s.len() == 0 {
        Seq::empty()
    } else {
        crate::utils::dword_bytes(s[0], crate::Endianness::Little) + dwords_le(s.drop_first())
    }
}

/// Appending a word appends its two bytes.
proof fn lemma_words_le_push(s: Seq<u16>, x: u16)
    ensures
        words_le(s.push(x)) == words_le(s) + crate::utils::word_bytes(
            x,
            crate::Endianness::Little,
        ),
    decreases s.len(),
{
    assert(s.push(x).len() == s.len() + 1);
    assert(words_le(s.push(x)) == crate::utils::word_bytes(s.push(x)[0], crate::Endianness::Little)
        + words_le(s.push(x).drop_first()));
    if s.len() == 0 {
        assert(s.push(x).drop_first() =~= Seq::<u16>::empty());
        assert(s.push(x)[0] == x);
        assert(words_le(Seq::<u16>::empty()) =~= Seq::<u8>::empty());
        assert(words_le(s) =~= Seq::<u8>::empty());
        assert(words_le(s.push(x)) =~= words_le(s) + crate::utils::word_bytes(
            x,
            crate::Endianness::Little,
        ));
    } else {
        assert(s.push(x).drop_first() =~= s.drop_first().push(x));
        assert(s.push(x)[0] == s[0]);
        assert(words_le(s) == crate::utils::word_bytes(s[0], crate::Endianness::Little)
            + words_le(s.drop_first()));
        lemma_words_le_push(s.drop_first(), x);
        assert(words_le(s.push(x)) =~= words_le(s) + crate::utils::word_bytes(
            x,
            crate::Endianness::Little,
        ));
    }
}

/// Appending a dword appends its four bytes.
proof fn lemma_dwords_le_push(s: Seq<u32>, x: u32)
    ensures
        dwords_le(s.push(x)) == dwords_le(s) + crate::utils::dword_bytes(
            x,
            crate::Endianness::Little,
        ),
    decreases s.len(),
{
    assert(s.push(x).len() == s.len() + 1);
    assert(dwords_le(s.push(x)) == crate::utils::dword_bytes(
        s.push(x)[0],
        crate::Endianness::Little,
    ) + dwords_le(s.push(x).drop_first()));
    if s.len() == 0 {
        assert(s.push(x).drop_first() =~= Seq::<u32>::empty());
        assert(s.push(x)[0] == x);
        assert(dwords_le(Seq::<u32>::empty()) =~= Seq::<u8>::empty());
        assert(dwords_le(s) =~= Seq::<u8>::empty());
        assert(dwords_le(s.push(x)) =~= dwords_le(s) + crate::utils::dword_bytes(
            x,
            crate::Endianness::Little,
        ));
    } else {
        assert(s.push(x).drop_first() =~= s.drop_first().push(x));
        assert(s.push(x)[0] == s[0]);
        assert(dwords_le(s) == crate::utils::dword_bytes(s[0], crate::Endianness::Little)
            + dwords_le(s.drop_first()));
        lemma_dwords_le_push(s.drop_first(), x);
        assert(dwords_le(s.push(x)) =~= dwords_le(s) + crate::utils::dword_bytes(
            x,
            crate::Endianness::Little,
        ));
    }
}

/// Appends one instruction to the current block of the generator state; the
/// image bound is the one failure.
pub open spec fn spec_push(st: GenView, i: InstrView) -> Result<GenView, GenError> {
    if blocks_len(st.program.blocks) + instr_len(i) > 0xFFFF_FFFF {
        Err(GenError::ProgramTooLarge)
    } else {
        let b = st.program.blocks[st.current_block];
        Ok(
            GenView {
                program: ProgramView {
                    blocks: st.program.blocks.update(
                        st.current_block,
                        BlockView { label: b.label, instrs: b.instrs.push(i) },
                    ),
                    ..st.program
                },
                ..st
            },
        )
    }
}

/// An immediate for a register of the given width: the register width drives
/// the form; a value wider than the register is an error.
pub open spec fn spec_imm_value(r: Register, x: u32) -> Result<ValueView, GenError> {
    if r.spec_bits() == 8 {
        if x > 0xFF {
            Err(GenError::ImmediateOverflow)
        } else {
            Ok(ValueView::UByte(x as u8))
        }
    } else if r.spec_bits() == 16 {
        if x > 0xFFFF {
            Err(GenError::ImmediateOverflow)
        } else {
            Ok(ValueView::UShort(x as u16))
        }
    } else {
        Ok(ValueView::UInt(x))
    }
}

/// An identifier in immediate position: an equate name becomes its numeric
/// value at the register's width; any other name is an absolute label
/// reference, which is 32 bits wide and so needs a 32-bit register.
pub open spec fn spec_ptr_imm(st: GenView, r: Register, name: Seq<char>) -> Result<
    ValueView,
    GenError,
> {
    match lookup(st.variables, name) {
        Some(v) => spec_imm_value(r, v),
        None => if r.spec_bits() == 32 {
            Ok(ValueView::Pointer(name))
        } else {
            Err(GenError::UnsupportedOperand)
        },
    }
}

/// An identifier in memory-address position: an equate name becomes its
/// numeric value, any other name an absolute label reference.
pub open spec fn spec_mem_value(st: GenView, name: Seq<char>) -> ValueView {
    match lookup(st.variables, name) {
        Some(v) => ValueView::UInt(v),
        None => ValueView::Pointer(name),
    }
}

/// An identifier in jump or call position: an equate name becomes its numeric
/// value, any other name a PC-relative label reference.
pub open spec fn spec_rel_value(st: GenView, name: Seq<char>) -> ValueView {
    match lookup(st.variables, name) {
        Some(v) => ValueView::UInt(v),
        None => ValueView::RelPointer(name),
    }
}

/// Lowers one syntax node into the generator state. Opaque: the per-variant
/// lemmas below give its value one node shape at a time.
#[verifier::opaque]
pub open spec fn spec_gen_node(st: GenView, n: NodeView) -> Result<GenView, GenError>
    decreases n, 0int,
{
    match n {
        NodeView::Program(stmts) => spec_gen_nodes(st, stmts, 0),
        NodeView::Label(l) => Ok(
            GenView {
                program: ProgramView {
                    blocks: st.program.blocks.push(BlockView { label: l, instrs: Seq::empty() }),
                    ..st.program
                },
                block_addrs: st.block_addrs.push(
                    (l, truncate32(blocks_len(st.program.blocks) as int)),
                ),
                current_block: st.current_block + 1,
                ..st
            },
        ),
        NodeView::Entry(l) => Ok(GenView { entry_point: l, ..st }),
        NodeView::DS(len) => spec_push(st, InstrView::RawData(Seq::new(len as nat, |i: int| 0u8))),
        NodeView::Db(data) => spec_push(st, InstrView::RawData(data)),
        NodeView::DW(data) => spec_push(st, InstrView::RawData(words_le(data))),
        NodeView::DL(data) => spec_push(st, InstrView::RawData(dwords_le(data))),
        NodeView::Int(x) => spec_push(st, InstrView::Int(x)),
        NodeView::Inc(r) => spec_push(st, InstrView::Inc(r)),
        NodeView::Dec(r) => spec_push(st, InstrView::Dec(r)),
        NodeView::Jump { condition, label } => spec_push(
            st,
            InstrView::Jump { condition, addr: spec_rel_value(st, label) },
        ),
        NodeView::JumpImm { condition, addr } => spec_push(
            st,
            InstrView::Jump { condition, addr: ValueView::UInt(addr) },
        ),
        NodeView::Mov(a, b) => spec_push(st, InstrView::Mov(a, b)),
        NodeView::MovImm(r, x) => match spec_imm_value(r, x) {
            Err(e) => Err(e),
            Ok(v) => spec_push(st, InstrView::MovImmediate { register: r, value: v }),
        },
        NodeView::MovImmPointer(r, name) => match spec_ptr_imm(st, r, name) {
            Err(e) => Err(e),
            Ok(v) => spec_push(st, InstrView::MovImmediate { register: r, value: v }),
        },
        NodeView::MovMemory(x, r) => spec_push(
            st,
            InstrView::MovMemory { addr: ValueView::UInt(x), register: r },
        ),
        NodeView::MovMemoryPointer(name, r) => spec_push(
            st,
            InstrView::MovMemory { addr: spec_mem_value(st, name), register: r },
        ),
        NodeView::MovMemoryRegister(dest, src) => if dest.spec_bits() == 32 {
            spec_push(st, InstrView::MovMemoryReg { dest, src })
        } else {
            Err(GenError::UnsupportedOperand)
        },
        NodeView::MovFromMemory(r, x) => spec_push(
            st,
            InstrView::MovFromMemory(r, ValueView::UInt(x)),
        ),
        NodeView::MovFromMemoryPointer(r, name) => spec_push(
            st,
            InstrView::MovFromMemory(r, spec_mem_value(st, name)),
        ),
        NodeView::MovFromMemoryRegister(dest, src) => if src.spec_bits() == 32 {
            spec_push(st, InstrView::MovFromMemoryReg(dest, src))
        } else {
            Err(GenError::UnsupportedOperand)
        },
        NodeView::Add(a, b) => spec_push(st, InstrView::Add(a, b)),
        NodeView::AddImm(r, x) => match spec_imm_value(r, x) {
            Err(e) => Err(e),
            Ok(v) => spec_push(st, InstrView::AddImmediate { register: r, value: v }),
        },
        NodeView::AddImmPointer(r, name) => match spec_ptr_imm(st, r, name) {
            Err(e) => Err(e),
            Ok(v) => spec_push(st, InstrView::AddImmediate { register: r, value: v }),
        },
        NodeView::Sub(a, b) => spec_push(st, InstrView::Sub(a, b)),
        NodeView::SubImm(r, x) => match spec_imm_value(r, x) {
            Err(e) => Err(e),
            Ok(v) => spec_push(st, InstrView::SubImmediate { register: r, value: v }),
        },
        NodeView::SubImmPointer(r, name) => match spec_ptr_imm(st, r, name) {
            Err(e) => Err(e),
            Ok(v) => spec_push(st, InstrView::SubImmediate { register: r, value: v }),
        },
        NodeView::Mul(r) => spec_push(st, InstrView::Multiply(r)),
        NodeView::Div(r) => spec_push(st, InstrView::Divide(r)),
        NodeView::And(a, b) => spec_push(st, InstrView::And(a, b)),
        NodeView::Or(a, b) => spec_push(st, InstrView::Or(a, b)),
        NodeView::XOr(a, b) => spec_push(st, InstrView::XOr(a, b)),
        NodeView::CMP(a, b) => spec_push(st, InstrView::Compare(a, b)),
        NodeView::CMPImm(r, x) => match spec_imm_value(r, x) {
            Err(e) => Err(e),
            Ok(v) => spec_push(st, InstrView::CompareImmediate(r, v)),
        },
        NodeView::CMPImmPointer(r, name) => match spec_ptr_imm(st, r, name) {
            Err(e) => Err(e),
            Ok(v) => spec_push(st, InstrView::CompareImmediate(r, v)),
        },
        NodeView::BSWAP(r) => spec_push(st, InstrView::ByteSwap(r)),
        NodeView::Push(r) => spec_push(st, InstrView::Push(r)),
        NodeView::Pop(r) => spec_push(st, InstrView::Pop(r)),
        NodeView::Call(x) => spec_push(st, InstrView::Call(ValueView::UInt(x))),
        NodeView::CallPointer(name) => spec_push(st, InstrView::Call(spec_rel_value(st, name))),
        NodeView::CallRegister(r) => spec_push(st, InstrView::CallRegister(r)),
        NodeView::Return => spec_push(st, InstrView::Return),
        NodeView::Not(r) => spec_push(st, InstrView::Not(r)),
        NodeView::Neg(r) => spec_push(st, InstrView::Neg(r)),
        NodeView::SHL(r) => spec_push(st, InstrView::ShiftLeft(r)),
        NodeView::SHR(r) => spec_push(st, InstrView::ShiftRight(r)),
        NodeView::EQU(name, expr) => match spec_eval_term(st, *expr) {
            Err(e) => Err(e),
            Ok(v) => Ok(GenView { variables: st.variables.push((name, v)), ..st }),
        },
        _ => Ok(st),
    }
}

/// Lowers the statements of a program node from index `i` on, stopping at the
/// first error.
pub open spec fn spec_gen_nodes(st: GenView, nodes: Seq<NodeView>, i: int) -> Result<
    GenView,
    GenError,
>
    decreases nodes, nodes.len() - i,
{
    if i < 0 {
        Err(GenError::BadExpression)
    } else if i >= nodes.len() {
        Ok(st)
    } else {
        match spec_gen_node(st, nodes[i]) {
            Err(e) => Err(e),
            Ok(st2) => spec_gen_nodes(st2, nodes, i + 1),
        }
    }
}

/// The initial generator state: one empty block named `__entry_point__`, its
/// offset recorded, no equates, that block current, and itself the default
/// entry label.
pub open spec fn init_gen() -> GenView {
    GenView {
        program: ProgramView {
            offset: Addr { addr: 0, vaddr: 0 },
            entry_point: Addr { addr: 0, vaddr: 0 },
            blocks: seq![BlockView { label: "__entry_point__"@, instrs: Seq::empty() }],
        },
        entry_point: "__entry_point__"@,
        block_addrs: seq![("__entry_point__"@, 0u32)],
        variables: Seq::empty(),
        current_block: 0,
    }
}

/// What a successful run of the code generator returns: the blocks and the
/// entry point that the lowered state determines.
pub open spec fn generate_ok(root: NodeView, p: ProgramView) -> bool {
    &&& spec_gen_node(init_gen(), root) matches Ok(st) && {
        &&& p.blocks == st.program.blocks
        &&& p.offset == (Addr { addr: 0, vaddr: 0 })
        &&& has_label(st.program.blocks, st.entry_point) ==> p.entry_point.addr == resolve_offset(
            st.program,
            st.entry_point,
        ) && p.entry_point.vaddr == resolve_vaddr(st.program, st.entry_point)
        &&& !has_label(st.program.blocks, st.entry_point) ==> p.entry_point == (Addr {
            addr: 0,
            vaddr: 0,
        })
    }
}

/// The value of the node-lowering function, one node shape at a time.
proof fn lemma_gen_ds(st: GenView, len: u32)
    ensures
        spec_gen_node(st, NodeView::DS(len)) == (spec_push(st, InstrView::RawData(Seq::new(len as nat, |i: int| 0u8)))),
{
    reveal(spec_gen_node);
}

proof fn lemma_gen_db(st: GenView, data: Seq<u8>)
    ensures
        spec_gen_node(st, NodeView::Db(data)) == (spec_push(st, InstrView::RawData(data))),
{
    reveal(spec_gen_node);
}

proof fn lemma_gen_dw(st: GenView, data: Seq<u16>)
    ensures
        spec_gen_node(st, NodeView::DW(data)) == (spec_push(st, InstrView::RawData(words_le(data)))),
{
    reveal(spec_gen_node);
}

proof fn lemma_gen_dl(st: GenView, data: Seq<u32>)
    ensures
        spec_gen_node(st, NodeView::DL(data)) == (spec_push(st, InstrView::RawData(dwords_le(data)))),
{
    reveal(spec_gen_node);
}

proof fn lemma_gen_int(st: GenView, x: u8)
    ensures
        spec_gen_node(st, NodeView::Int(x)) == (spec_push(st, InstrView::Int(x))),
{
    reveal(spec_gen_node);
}

proof fn lemma_gen_inc(st: GenView, r: Register)
    ensures
        spec_gen_node(st, NodeView::Inc(r)) == (spec_push(st, InstrView::Inc(r))),
{
    reveal(spec_gen_node);
}

proof fn lemma_gen_dec(st: GenView, r: Register)
    ensures
        spec_gen_node(st, NodeView::Dec(r)) == (spec_push(st, InstrView::Dec(r))),
{
    reveal(spec_gen_node);
}

proof fn lemma_gen_jump(st: GenView, condition: JumpCondition, label: Seq<char>)
    ensures
        spec_gen_node(st, NodeView::Jump { condition, label }) == (spec_push(st, InstrView::Jump { condition, addr: spec_rel_value(st, label) })),
{
    reveal(spec_gen_node);
}

proof fn lemma_gen_jump_imm(st: GenView, condition: JumpCondition, addr: u32)
    ensures
        spec_gen_node(st, NodeView::JumpImm { condition, addr }) == (spec_push(st, InstrView::Jump { condition, addr: ValueView::UInt(addr) })),
{
    reveal(spec_gen_node);
}

proof fn lemma_gen_mov(st: GenView, a: Register, b: Register)
    ensures
        spec_gen_node(st, NodeView::Mov(a, b)) == (spec_push(st, InstrView::Mov(a, b))),
{
    reveal(spec_gen_node);
}

proof fn lemma_gen_mov_memory(st: GenView, x: u32, r: Register)
    ensures
        spec_gen_node(st, NodeView::MovMemory(x, r)) == (spec_push(st, InstrView::MovMemory { addr: ValueView::UInt(x), register: r })),
{
    reveal(spec_gen_node);
}

proof fn lemma_gen_mov_memory_pointer(st: GenView, name: Seq<char>, r: Register)
    ensures
        spec_gen_node(st, NodeView::MovMemoryPointer(name, r)) == (spec_push(st, InstrView::MovMemory { addr: spec_mem_value(st, name), register: r })),
{
    reveal(spec_gen_node);
}

proof fn lemma_gen_mov_from_memory(st: GenView, r: Register, x: u32)
    ensures
        spec_gen_node(st, NodeView::MovFromMemory(r, x)) == (spec_push(st, InstrView::MovFromMemory(r, ValueView::UInt(x)))),
{
    reveal(spec_gen_node);
}

proof fn lemma_gen_mov_from_memory_pointer(st: GenView, r: Register, name: Seq<char>)
    ensures
        spec_gen_node(st, NodeView::MovFromMemoryPointer(r, name)) == (spec_push(st, InstrView::MovFromMemory(r, spec_mem_value(st, name)))),
{
    reveal(spec_gen_node);
}

proof fn lemma_gen_add(st: GenView, a: Register, b: Register)
    ensures
        spec_gen_node(st, NodeView::Add(a, b)) == (spec_push(st, InstrView::Add(a, b))),
{
    reveal(spec_gen_node);
}

proof fn lemma_gen_sub(st: GenView, a: Register, b: Register)
    ensures
        spec_gen_node(st, NodeView::Sub(a, b)) == (spec_push(st, InstrView::Sub(a, b))),
{
    reveal(spec_gen_node);
}

proof fn lemma_gen_mul(st: GenView, r: Register)
    ensures
        spec_gen_node(st, NodeView::Mul(r)) == (spec_push(st, InstrView::Multiply(r))),
{
    reveal(spec_gen_node);
}

proof fn lemma_gen_divide(st: GenView, r: Register)
    ensures
        spec_gen_node(st, NodeView::Div(r)) == (spec_push(st, InstrView::Divide(r))),
{
    reveal(spec_gen_node);
}

proof fn lemma_gen_and(st: GenView, a: Register, b: Register)
    ensures
        spec_gen_node(st, NodeView::And(a, b)) == (spec_push(st, InstrView::And(a, b))),
{
    reveal(spec_gen_node);
}

proof fn lemma_gen_or(st: GenView, a: Register, b: Register)
    ensures
        spec_gen_node(st, NodeView::Or(a, b)) == (spec_push(st, InstrView::Or(a, b))),
{
    reveal(spec_gen_node);
}

proof fn lemma_gen_xor(st: GenView, a: Register, b: Register)
    ensures
        spec_gen_node(st, NodeView::XOr(a, b)) == (spec_push(st, InstrView::XOr(a, b))),
{
    reveal(spec_gen_node);
}

proof fn lemma_gen_cmp(st: GenView, a: Register, b: Register)
    ensures
        spec_gen_node(st, NodeView::CMP(a, b)) == (spec_push(st, InstrView::Compare(a, b))),
{
    reveal(spec_gen_node);
}

proof fn lemma_gen_bswap(st: GenView, r: Register)
    ensures
        spec_gen_node(st, NodeView::BSWAP(r)) == (spec_push(st, InstrView::ByteSwap(r))),
{
    reveal(spec_gen_node);
}

proof fn lemma_gen_push(st: GenView, r: Register)
    ensures
        spec_gen_node(st, NodeView::Push(r)) == (spec_push(st, InstrView::Push(r))),
{
    reveal(spec_gen_node);
}

proof fn lemma_gen_pop(st: GenView, r: Register)
    ensures
        spec_gen_node(st, NodeView::Pop(r)) == (spec_push(st, InstrView::Pop(r))),
{
    reveal(spec_gen_node);
}

proof fn lemma_gen_call(st: GenView, x: u32)
    ensures
        spec_gen_node(st, NodeView::Call(x)) == (spec_push(st, InstrView::Call(ValueView::UInt(x)))),
{
    reveal(spec_gen_node);
}

proof fn lemma_gen_call_pointer(st: GenView, name: Seq<char>)
    ensures
        spec_gen_node(st, NodeView::CallPointer(name)) == (spec_push(st, InstrView::Call(spec_rel_value(st, name)))),
{
    reveal(spec_gen_node);
}

proof fn lemma_gen_call_register(st: GenView, r: Register)
    ensures
        spec_gen_node(st, NodeView::CallRegister(r)) == (spec_push(st, InstrView::CallRegister(r))),
{
    reveal(spec_gen_node);
}

proof fn lemma_gen_ret(st: GenView)
    ensures
        spec_gen_node(st, NodeView::Return) == (spec_push(st, InstrView::Return)),
{
    reveal(spec_gen_node);
}

proof fn lemma_gen_not(st: GenView, r: Register)
    ensures
        spec_gen_node(st, NodeView::Not(r)) == (spec_push(st, InstrView::Not(r))),
{
    reveal(spec_gen_node);
}

proof fn lemma_gen_neg(st: GenView, r: Register)
    ensures
        spec_gen_node(st, NodeView::Neg(r)) == (spec_push(st, InstrView::Neg(r))),
{
    reveal(spec_gen_node);
}

proof fn lemma_gen_shl(st: GenView, r: Register)
    ensures
        spec_gen_node(st, NodeView::SHL(r)) == (spec_push(st, InstrView::ShiftLeft(r))),
{
    reveal(spec_gen_node);
}

proof fn lemma_gen_shr(st: GenView, r: Register)
    ensures
        spec_gen_node(st, NodeView::SHR(r)) == (spec_push(st, InstrView::ShiftRight(r))),
{
    reveal(spec_gen_node);
}

proof fn lemma_gen_mov_memory_register(st: GenView, dest: Register, src: Register)
    ensures
        spec_gen_node(st, NodeView::MovMemoryRegister(dest, src)) == (if dest.spec_bits() == 32 { spec_push(st, InstrView::MovMemoryReg { dest, src }) } else { Err(GenError::UnsupportedOperand) }),
{
    reveal(spec_gen_node);
}

proof fn lemma_gen_mov_from_memory_register(st: GenView, dest: Register, src: Register)
    ensures
        spec_gen_node(st, NodeView::MovFromMemoryRegister(dest, src)) == (if src.spec_bits() == 32 { spec_push(st, InstrView::MovFromMemoryReg(dest, src)) } else { Err(GenError::UnsupportedOperand) }),
{
    reveal(spec_gen_node);
}

proof fn lemma_gen_mov_imm(st: GenView, r: Register, x: u32)
    ensures
        spec_gen_node(st, NodeView::MovImm(r, x)) == (match spec_imm_value(r, x) { Err(e) => Err(e), Ok(v) => spec_push(st, InstrView::MovImmediate { register: r, value: v }) }),
{
    reveal(spec_gen_node);
}

proof fn lemma_gen_add_imm(st: GenView, r: Register, x: u32)
    ensures
        spec_gen_node(st, NodeView::AddImm(r, x)) == (match spec_imm_value(r, x) { Err(e) => Err(e), Ok(v) => spec_push(st, InstrView::AddImmediate { register: r, value: v }) }),
{
    reveal(spec_gen_node);
}

proof fn lemma_gen_sub_imm(st: GenView, r: Register, x: u32)
    ensures
        spec_gen_node(st, NodeView::SubImm(r, x)) == (match spec_imm_value(r, x) { Err(e) => Err(e), Ok(v) => spec_push(st, InstrView::SubImmediate { register: r, value: v }) }),
{
    reveal(spec_gen_node);
}

proof fn lemma_gen_cmp_imm(st: GenView, r: Register, x: u32)
    ensures
        spec_gen_node(st, NodeView::CMPImm(r, x)) == (match spec_imm_value(r, x) { Err(e) => Err(e), Ok(v) => spec_push(st, InstrView::CompareImmediate(r, v)) }),
{
    reveal(spec_gen_node);
}

proof fn lemma_gen_mov_imm_pointer(st: GenView, r: Register, name: Seq<char>)
    ensures
        spec_gen_node(st, NodeView::MovImmPointer(r, name)) == (match spec_ptr_imm(st, r, name) { Err(e) => Err(e), Ok(v) => spec_push(st, InstrView::MovImmediate { register: r, value: v }) }),
{
    reveal(spec_gen_node);
}

proof fn lemma_gen_add_imm_pointer(st: GenView, r: Register, name: Seq<char>)
    ensures
        spec_gen_node(st, NodeView::AddImmPointer(r, name)) == (match spec_ptr_imm(st, r, name) { Err(e) => Err(e), Ok(v) => spec_push(st, InstrView::AddImmediate { register: r, value: v }) }),
{
    reveal(spec_gen_node);
}

proof fn lemma_gen_sub_imm_pointer(st: GenView, r: Register, name: Seq<char>)
    ensures
        spec_gen_node(st, NodeView::SubImmPointer(r, name)) == (match spec_ptr_imm(st, r, name) { Err(e) => Err(e), Ok(v) => spec_push(st, InstrView::SubImmediate { register: r, value: v }) }),
{
    reveal(spec_gen_node);
}

proof fn lemma_gen_cmp_imm_pointer(st: GenView, r: Register, name: Seq<char>)
    ensures
        spec_gen_node(st, NodeView::CMPImmPointer(r, name)) == (match spec_ptr_imm(st, r, name) { Err(e) => Err(e), Ok(v) => spec_push(st, InstrView::CompareImmediate(r, v)) }),
{
    reveal(spec_gen_node);
}

proof fn lemma_gen_program(st: GenView, stmts: Seq<NodeView>)
    ensures
        spec_gen_node(st, NodeView::Program(stmts)) == (spec_gen_nodes(st, stmts, 0)),
{
    reveal(spec_gen_node);
}

proof fn lemma_gen_label(st: GenView, l: Seq<char>)
    ensures
        spec_gen_node(st, NodeView::Label(l)) == (Ok::<GenView, GenError>(GenView {
            program: ProgramView {
                blocks: st.program.blocks.push(BlockView { label: l, instrs: Seq::empty() }),
                ..st.program
            },
            block_addrs: st.block_addrs.push(
                (l, truncate32(blocks_len(st.program.blocks) as int)),
            ),
            current_block: st.current_block + 1,
            ..st
        })),
{
    reveal(spec_gen_node);
}

proof fn lemma_gen_entry(st: GenView, l: Seq<char>)
    ensures
        spec_gen_node(st, NodeView::Entry(l)) == (Ok::<GenView, GenError>(GenView { entry_point: l, ..st })),
{
    reveal(spec_gen_node);
}

proof fn lemma_gen_equ(st: GenView, name: Seq<char>, expr: Box<NodeView>)
    ensures
        spec_gen_node(st, NodeView::EQU(name, expr)) == (match spec_eval_term(st, *expr) { Err(e) => Err(e), Ok(v) => Ok(GenView { variables: st.variables.push((name, v)), ..st }) }),
{
    reveal(spec_gen_node);
}

/// Nodes that carry no statement lower to the unchanged state.
proof fn lemma_gen_noop(st: GenView, n: NodeView)
    requires
        n is Register || n is Integer || n is Pointer || n is Newline || n is Expr
            || n is ParenExpr || n is Operator || n is Dollar,
    ensures
        spec_gen_node(st, n) == Ok::<GenView, GenError>(st),
{
    reveal(spec_gen_node);
}

impl CodeGenerator {
    /// Evaluates one expression term against the current state.
    fn eval_term(&self, n: &Node) -> (r: Result<u32, GenError>)
        requires
            self.wf(),
        ensures
            r == spec_eval_term(self@, node_view(n)),
        decreases *n, 0int,
    {
        broadcast use vstd::std_specs::vec::group_vec_axioms;

        match n {
            Node::Integer(v) => Ok(*v),
            Node::Dollar => {
                let len = self.program.len();
                proof {
                    vstd::arithmetic::div_mod::lemma_small_mod(
                        self.program.spec_len(),
                        0x1_0000_0000nat,
                    );
                }
                Ok(len as u32)
            },
            Node::Pointer(name) => match lookup_assoc(&self.variables, name.as_str()) {
                Some(v) => Ok(v),
                None => match lookup_assoc(&self.block_addrs, name.as_str()) {
                    Some(v) => Ok(v),
                    None => Err(GenError::UnknownName),
                },
            },
            Node::ParenExpr(b) => self.eval_term(&**b),
            Node::Expr(nodes) => {
                if nodes.len() == 0 {
                    proof {
                        assert(node_view(n) == NodeView::Expr(nodes_view(nodes@)));
                    }
                    return Err(GenError::BadExpression);
                }
                proof {
                    assert(node_view(n) == NodeView::Expr(nodes_view(nodes@)));
                    lemma_nodes_view_index(nodes@, 0);
                }
                let first = match self.eval_term(&nodes[0]) {
                    Ok(v) => v,
                    Err(e) => {
                        return Err(e);
                    },
                };
                self.eval_rest(nodes, 1, 0, &Token::Plus, first)
            },
            _ => Err(GenError::BadExpression),
        }
    }

    /// Folds the remaining `operator term` pairs of an expression list.
    fn eval_rest(
        &self,
        nodes: &Vec<Node>,
        i: usize,
        sum: u32,
        addop: &Token,
        prod: u32,
    ) -> (r: Result<u32, GenError>)
        requires
            self.wf(),
        ensures
            r == spec_eval_rest(self@, nodes_view(nodes@), i as int, sum, addop@, prod),
        decreases *nodes, nodes@.len() - i,
    {
        broadcast use vstd::std_specs::vec::group_vec_axioms;

        let n = nodes.len();
        if i >= n {
            return apply_op(addop, sum, prod);
        }
        if i + 1 >= n {
            return Err(GenError::BadExpression);
        }
        proof {
            lemma_nodes_view_index(nodes@, i as int);
            lemma_nodes_view_index(nodes@, i + 1);
        }
        match &nodes[i] {
            Node::Operator(op) => {
                let p: usize = match op {
                    Token::Plus => 0,
                    Token::Minus => 0,
                    Token::Multiply => 1,
                    Token::Divide => 1,
                    _ => {
                        return Err(GenError::BadExpression);
                    },
                };
                let t = match self.eval_term(&nodes[i + 1]) {
                    Ok(v) => v,
                    Err(e) => {
                        return Err(e);
                    },
                };
                if p == 1 {
                    let prod2 = match apply_op(op, prod, t) {
                        Ok(v) => v,
                        Err(e) => {
                            return Err(e);
                        },
                    };
                    self.eval_rest(nodes, i + 2, sum, addop, prod2)
                } else {
                    let sum2 = match apply_op(addop, sum, prod) {
                        Ok(v) => v,
                        Err(e) => {
                            return Err(e);
                        },
                    };
                    self.eval_rest(nodes, i + 2, sum2, op, t)
                }
            },
            _ => Err(GenError::BadExpression),
        }
    }

    /// Appends an instruction to the current block, rejecting a program that
    /// would outgrow the 32-bit image.
    fn push_checked(&mut self, instr: Instruction) -> (r: Result<(), GenError>)
        requires
            old(self).wf(),
        ensures
            r is Ok ==> final(self).wf() && spec_push(old(self)@, instr@) == Ok::<
                GenView,
                GenError,
            >(final(self)@),
            r matches Err(e) ==> spec_push(old(self)@, instr@) == Err::<GenView, GenError>(e)
                && *final(self) == *old(self),
    {
        let total = self.program.len();
        let il = instr.len();
        let il64 = il as u64;
        if il64 > 0xFFFF_FFFF {
            return Err(GenError::ProgramTooLarge);
        }
        if (total as u64) + il64 > 0xFFFF_FFFF {
            return Err(GenError::ProgramTooLarge);
        }
        self.program.push_instr(self.current_block, instr);
        proof {
            assert(self@ =~~= spec_push(old(self)@, instr@)->Ok_0);
        }
        Ok(())
    }

    /// An identifier in immediate position: equates substitute their value.
    fn ptr_imm(&self, r: &Register, name: &str) -> (res: Result<Value, GenError>)
        ensures
            res matches Ok(v) ==> spec_ptr_imm(self@, *r, name@) == Ok::<ValueView, GenError>(v@),
            res matches Err(e) ==> spec_ptr_imm(self@, *r, name@) == Err::<ValueView, GenError>(e),
    {
        match lookup_assoc(&self.variables, name) {
            Some(v) => imm_value(r, v),
            None => if r.bits() == 32 {
                Ok(Value::Pointer(name.to_owned()))
            } else {
                Err(GenError::UnsupportedOperand)
            },
        }
    }

    /// An identifier in memory-address position.
    fn mem_value(&self, name: &str) -> (v: Value)
        ensures
            v@ == spec_mem_value(self@, name@),
    {
        match lookup_assoc(&self.variables, name) {
            Some(x) => Value::UInt(x),
            None => Value::Pointer(name.to_owned()),
        }
    }

    /// An identifier in jump or call position.
    fn rel_value(&self, name: &str) -> (v: Value)
        ensures
            v@ == spec_rel_value(self@, name@),
    {
        match lookup_assoc(&self.variables, name) {
            Some(x) => Value::UInt(x),
            None => Value::RelPointer(name.to_owned()),
        }
    }

    /// Lowers one syntax node into the generator state, stopping at the first
    /// error.
    #[verifier::loop_isolation(false)]
    #[verifier::rlimit(100)]
    #[verifier::spinoff_prover]
    fn process(&mut self, n: &Node) -> (r: Result<(), GenError>)
        requires
            old(self).wf(),
        ensures
            r is Ok ==> final(self).wf() && spec_gen_node(old(self)@, node_view(n)) == Ok::<
                GenView,
                GenError,
            >(final(self)@),
            r matches Err(e) ==> spec_gen_node(old(self)@, node_view(n)) == Err::<
                GenView,
                GenError,
            >(e),
        decreases *n,
    {
        broadcast use vstd::std_specs::vec::group_vec_axioms;

        match n {
            Node::Program(stmts) => {
                let ghost views = nodes_view(stmts@);
                proof {
                    lemma_gen_program(old(self)@, views);
                    assert(*stmts == n->Program_0);
                    assert(node_view(n) == NodeView::Program(views)) by {
                        reveal_with_fuel(crate::ast::node_view, 2);
                    }
                }
                let mut i: usize = 0;
                while i < stmts.len()
                    invariant
                        self.wf(),
                        i <= stmts@.len(),
                        views == nodes_view(stmts@),
                        views.len() == stmts@.len(),
                        spec_gen_nodes(old(self)@, views, 0) == spec_gen_nodes(
                            self@,
                            views,
                            i as int,
                        ),
                    decreases stmts@.len() - i,
                {
                    proof {
                        lemma_nodes_view_index(stmts@, i as int);
                        assert(decreases_to!(*n => *stmts));
                        assert(decreases_to!(*stmts => stmts@[i as int]));
                    }
                    let ghost pre = self@;
                    match self.process(&stmts[i]) {
                        Ok(()) => {
                            proof {
                                reveal_with_fuel(spec_gen_nodes, 2);
                                assert(spec_gen_node(pre, node_view(&stmts@[i as int])) == Ok::<
                                    GenView,
                                    GenError,
                                >(self@));
                                assert(spec_gen_node(pre, views[i as int]) == Ok::<
                                    GenView,
                                    GenError,
                                >(self@));
                                assert(spec_gen_nodes(pre, views, i as int) == spec_gen_nodes(
                                    self@,
                                    views,
                                    i + 1,
                                ));
                            }
                        },
                        Err(e) => {
                            proof {
                                reveal_with_fuel(spec_gen_nodes, 2);
                                assert(spec_gen_node(pre, node_view(&stmts@[i as int])) == Err::<
                                    GenView,
                                    GenError,
                                >(e));
                                assert(spec_gen_node(pre, views[i as int]) == Err::<
                                    GenView,
                                    GenError,
                                >(e));
                                assert(spec_gen_nodes(pre, views, i as int) == Err::<
                                    GenView,
                                    GenError,
                                >(e));
                            }
                            return Err(e);
                        },
                    }
                    i = i + 1;
                }
                proof {
                    assert(spec_gen_nodes(self@, views, stmts@.len() as int) == Ok::<
                        GenView,
                        GenError,
                    >(self@));
                }
                return Ok(());
            },
            Node::Label(l) => {
                proof {
                    assert(node_view(n) == (NodeView::Label(l@)));
                }
                return self.process_label(l);
            },
            Node::Entry(l) => {
                proof {
                    assert(node_view(n) == (NodeView::Entry(l@)));
                }
                return self.process_entry(l);
            },
            Node::DS(len) => {
                proof {
                    assert(node_view(n) == (NodeView::DS(*len)));
                }
                return self.process_ds(*len);
            },
            Node::Db(data) => {
                proof {
                    assert(node_view(n) == (NodeView::Db(data@)));
                }
                return self.process_db(data);
            },
            Node::DW(data) => {
                proof {
                    assert(node_view(n) == (NodeView::DW(data@)));
                }
                return self.process_dw(data);
            },
            Node::DL(data) => {
                proof {
                    assert(node_view(n) == (NodeView::DL(data@)));
                }
                return self.process_dl(data);
            },
            Node::Jump { condition, label } => {
                proof {
                    assert(node_view(n) == (NodeView::Jump { condition: *condition, label: label@ }));
                }
                return self.process_jump(condition, label);
            },
            Node::CallPointer(name) => {
                proof {
                    assert(node_view(n) == (NodeView::CallPointer(name@)));
                }
                return self.process_call_pointer(name);
            },
            Node::MovMemoryPointer(name, r) => {
                proof {
                    assert(node_view(n) == (NodeView::MovMemoryPointer(name@, *r)));
                }
                return self.process_mov_memory_pointer(name, r);
            },
            Node::MovFromMemoryPointer(r, name) => {
                proof {
                    assert(node_view(n) == (NodeView::MovFromMemoryPointer(*r, name@)));
                }
                return self.process_mov_from_memory_pointer(r, name);
            },
            Node::MovMemoryRegister(dest, src) => {
                proof {
                    assert(node_view(n) == (NodeView::MovMemoryRegister(*dest, *src)));
                }
                return self.process_mov_memory_register(dest, src);
            },
            Node::MovFromMemoryRegister(dest, src) => {
                proof {
                    assert(node_view(n) == (NodeView::MovFromMemoryRegister(*dest, *src)));
                }
                return self.process_mov_from_memory_register(dest, src);
            },
            Node::EQU(name, expr) => {
                proof {
                    lemma_gen_equ(old(self)@, name@, Box::new(node_view(&**expr)));
                    assert(node_view(n) == NodeView::EQU(name@, Box::new(node_view(&**expr))));
                }
                let value = match self.eval_term(&**expr) {
                    Ok(v) => v,
                    Err(e) => {
                        return Err(e);
                    },
                };
                self.variables.push((name.as_str().to_owned(), value));
                proof {
                    assert(self@.variables =~= old(self)@.variables.push((name@, value)));
                    assert(self@ =~~= spec_gen_node(old(self)@, node_view(n))->Ok_0);
                }
                return Ok(());
            },
            Node::Int(x) => {
                proof {
                    assert(node_view(n) == (NodeView::Int(*x)));
                }
                return self.process_int(*x);
            },
            Node::Inc(r) => {
                proof {
                    assert(node_view(n) == (NodeView::Inc(*r)));
                }
                return self.process_inc(r);
            },
            Node::Dec(r) => {
                proof {
                    assert(node_view(n) == (NodeView::Dec(*r)));
                }
                return self.process_dec(r);
            },
            Node::JumpImm { condition, addr } => {
                proof {
                    assert(node_view(n) == (NodeView::JumpImm { condition: *condition, addr: *addr }));
                }
                return self.process_jump_imm(condition, *addr);
            },
            Node::Mov(a, b) => {
                proof {
                    assert(node_view(n) == (NodeView::Mov(*a, *b)));
                }
                return self.process_mov(a, b);
            },
            Node::MovMemory(x, r) => {
                proof {
                    assert(node_view(n) == (NodeView::MovMemory(*x, *r)));
                }
                return self.process_mov_memory(*x, r);
            },
            Node::MovFromMemory(r, x) => {
                proof {
                    assert(node_view(n) == (NodeView::MovFromMemory(*r, *x)));
                }
                return self.process_mov_from_memory(r, *x);
            },
            Node::Add(a, b) => {
                proof {
                    assert(node_view(n) == (NodeView::Add(*a, *b)));
                }
                return self.process_add(a, b);
            },
            Node::Sub(a, b) => {
                proof {
                    assert(node_view(n) == (NodeView::Sub(*a, *b)));
                }
                return self.process_sub(a, b);
            },
            Node::Mul(r) => {
                proof {
                    assert(node_view(n) == (NodeView::Mul(*r)));
                }
                return self.process_mul(r);
            },
            Node::Div(r) => {
                proof {
                    assert(node_view(n) == (NodeView::Div(*r)));
                }
                return self.process_div(r);
            },
            Node::And(a, b) => {
                proof {
                    assert(node_view(n) == (NodeView::And(*a, *b)));
                }
                return self.process_and(a, b);
            },
            Node::Or(a, b) => {
                proof {
                    assert(node_view(n) == (NodeView::Or(*a, *b)));
                }
                return self.process_or(a, b);
            },
            Node::XOr(a, b) => {
                proof {
                    assert(node_view(n) == (NodeView::XOr(*a, *b)));
                }
                return self.process_xor(a, b);
            },
            Node::CMP(a, b) => {
                proof {
                    assert(node_view(n) == (NodeView::CMP(*a, *b)));
                }
                return self.process_cmp(a, b);
            },
            Node::BSWAP(r) => {
                proof {
                    assert(node_view(n) == (NodeView::BSWAP(*r)));
                }
                return self.process_bswap(r);
            },
            Node::Push(r) => {
                proof {
                    assert(node_view(n) == (NodeView::Push(*r)));
                }
                return self.process_push(r);
            },
            Node::Pop(r) => {
                proof {
                    assert(node_view(n) == (NodeView::Pop(*r)));
                }
                return self.process_pop(r);
            },
            Node::Call(x) => {
                proof {
                    assert(node_view(n) == (NodeView::Call(*x)));
                }
                return self.process_call(*x);
            },
            Node::CallRegister(r) => {
                proof {
                    assert(node_view(n) == (NodeView::CallRegister(*r)));
                }
                return self.process_call_register(r);
            },
            Node::Return => {
                proof {
                    assert(node_view(n) == (NodeView::Return));
                }
                return self.process_return();
            },
            Node::Not(r) => {
                proof {
                    assert(node_view(n) == (NodeView::Not(*r)));
                }
                return self.process_not(r);
            },
            Node::Neg(r) => {
                proof {
                    assert(node_view(n) == (NodeView::Neg(*r)));
                }
                return self.process_neg(r);
            },
            Node::SHL(r) => {
                proof {
                    assert(node_view(n) == (NodeView::SHL(*r)));
                }
                return self.process_shl(r);
            },
            Node::SHR(r) => {
                proof {
                    assert(node_view(n) == (NodeView::SHR(*r)));
                }
                return self.process_shr(r);
            },
            Node::MovImm(r, x) => {
                proof {
                    assert(node_view(n) == (NodeView::MovImm(*r, *x)));
                }
                return self.process_mov_imm(r, *x);
            },
            Node::AddImm(r, x) => {
                proof {
                    assert(node_view(n) == (NodeView::AddImm(*r, *x)));
                }
                return self.process_add_imm(r, *x);
            },
            Node::SubImm(r, x) => {
                proof {
                    assert(node_view(n) == (NodeView::SubImm(*r, *x)));
                }
                return self.process_sub_imm(r, *x);
            },
            Node::CMPImm(r, x) => {
                proof {
                    assert(node_view(n) == (NodeView::CMPImm(*r, *x)));
                }
                return self.process_cmp_imm(r, *x);
            },
            Node::MovImmPointer(r, name) => {
                proof {
                    assert(node_view(n) == (NodeView::MovImmPointer(*r, name@)));
                }
                return self.process_mov_imm_pointer(r, name);
            },
            Node::AddImmPointer(r, name) => {
                proof {
                    assert(node_view(n) == (NodeView::AddImmPointer(*r, name@)));
                }
                return self.process_add_imm_pointer(r, name);
            },
            Node::SubImmPointer(r, name) => {
                proof {
                    assert(node_view(n) == (NodeView::SubImmPointer(*r, name@)));
                }
                return self.process_sub_imm_pointer(r, name);
            },
            Node::CMPImmPointer(r, name) => {
                proof {
                    assert(node_view(n) == (NodeView::CMPImmPointer(*r, name@)));
                }
                return self.process_cmp_imm_pointer(r, name);
            },
            Node::Register(_) => {
                proof {
                    lemma_gen_noop(old(self)@, node_view(n));
                }
                return Ok(());
            },
            Node::Integer(_) => {
                proof {
                    lemma_gen_noop(old(self)@, node_view(n));
                }
                return Ok(());
            },
            Node::Pointer(_) => {
                proof {
                    lemma_gen_noop(old(self)@, node_view(n));
                }
                return Ok(());
            },
            Node::Newline => {
                proof {
                    lemma_gen_noop(old(self)@, node_view(n));
                }
                return Ok(());
            },
            Node::Expr(_) => {
                proof {
                    lemma_gen_noop(old(self)@, node_view(n));
                }
                return Ok(());
            },
            Node::ParenExpr(_) => {
                proof {
                    lemma_gen_noop(old(self)@, node_view(n));
                }
                return Ok(());
            },
            Node::Operator(_) => {
                proof {
                    lemma_gen_noop(old(self)@, node_view(n));
                }
                return Ok(());
            },
            Node::Dollar => {
                proof {
                    lemma_gen_noop(old(self)@, node_view(n));
                }
                return Ok(());
            },
        }
    }

    /// Lowering of this statement shape.
    fn process_label(&mut self, l: &String) -> (res: Result<(), GenError>)
        requires
            old(self).wf(),
        ensures
            res is Ok ==> final(self).wf() && spec_gen_node(old(self)@, NodeView::Label(l@)) == Ok::<
                GenView,
                GenError,
            >(final(self)@),
            res matches Err(e) ==> spec_gen_node(old(self)@, NodeView::Label(l@)) == Err::<
                GenView,
                GenError,
            >(e),
    {
        let here = self.program.len();
        proof {
            vstd::arithmetic::div_mod::lemma_small_mod(
                self.program.spec_len(),
                0x1_0000_0000nat,
            );
        }
        self.program.new_block(l.as_str());
        self.block_addrs.push((l.as_str().to_owned(), here as u32));
        let nb = self.program.blocks.len();
        self.current_block = nb - 1;
        proof {
            lemma_gen_label(old(self)@, l@);
            assert(self@.block_addrs =~= old(self)@.block_addrs.push(
                (l@, truncate32(blocks_len(old(self)@.program.blocks) as int)),
            ));
            assert(self@ =~~= spec_gen_node(old(self)@, NodeView::Label(l@))->Ok_0);
        }
        return Ok(());
    }

    /// Lowering of this statement shape.
    fn process_entry(&mut self, l: &String) -> (res: Result<(), GenError>)
        requires
            old(self).wf(),
        ensures
            res is Ok ==> final(self).wf() && spec_gen_node(old(self)@, NodeView::Entry(l@)) == Ok::<
                GenView,
                GenError,
            >(final(self)@),
            res matches Err(e) ==> spec_gen_node(old(self)@, NodeView::Entry(l@)) == Err::<
                GenView,
                GenError,
            >(e),
    {
        self.entry_point = l.as_str().to_owned();
        proof {
            lemma_gen_entry(old(self)@, l@);
            assert(self@ =~~= spec_gen_node(old(self)@, NodeView::Entry(l@))->Ok_0);
        }
        return Ok(());
    }

    /// Lowering of this statement shape.
    fn process_ds(&mut self, len: u32) -> (res: Result<(), GenError>)
        requires
            old(self).wf(),
        ensures
            res is Ok ==> final(self).wf() && spec_gen_node(old(self)@, NodeView::DS(len)) == Ok::<
                GenView,
                GenError,
            >(final(self)@),
            res matches Err(e) ==> spec_gen_node(old(self)@, NodeView::DS(len)) == Err::<
                GenView,
                GenError,
            >(e),
    {
        let data: Vec<u8> = vec![0u8; len as usize];
        let instr = Instruction::RawData(data);
        proof {
            lemma_gen_ds(old(self)@, len);
            assert(instr@ == InstrView::RawData(Seq::new(len as nat, |i: int| 0u8))) by {
                assert(instr@->RawData_0 =~= Seq::new(len as nat, |i: int| 0u8));
            }
        }
        return self.push_checked(instr);
    }

    /// Lowering of this statement shape.
    fn process_db(&mut self, data: &Vec<u8>) -> (res: Result<(), GenError>)
        requires
            old(self).wf(),
        ensures
            res is Ok ==> final(self).wf() && spec_gen_node(old(self)@, NodeView::Db(data@)) == Ok::<
                GenView,
                GenError,
            >(final(self)@),
            res matches Err(e) ==> spec_gen_node(old(self)@, NodeView::Db(data@)) == Err::<
                GenView,
                GenError,
            >(e),
    {
        let copy = clone_bytes(data);
        let instr = Instruction::RawData(copy);
        proof {
            lemma_gen_db(old(self)@, data@);
            assert(instr@ == InstrView::RawData(data@));
        }
        return self.push_checked(instr);
    }

    /// Lowering of this statement shape.
    fn process_dw(&mut self, data: &Vec<u16>) -> (res: Result<(), GenError>)
        requires
            old(self).wf(),
        ensures
            res is Ok ==> final(self).wf() && spec_gen_node(old(self)@, NodeView::DW(data@)) == Ok::<
                GenView,
                GenError,
            >(final(self)@),
            res matches Err(e) ==> spec_gen_node(old(self)@, NodeView::DW(data@)) == Err::<
                GenView,
                GenError,
            >(e),
    {
        let bytes = words_vec(data);
        let instr = Instruction::RawData(bytes);
        proof {
            lemma_gen_dw(old(self)@, data@);
            assert(instr@ == InstrView::RawData(words_le(data@)));
        }
        return self.push_checked(instr);
    }

    /// Lowering of this statement shape.
    fn process_dl(&mut self, data: &Vec<u32>) -> (res: Result<(), GenError>)
        requires
            old(self).wf(),
        ensures
            res is Ok ==> final(self).wf() && spec_gen_node(old(self)@, NodeView::DL(data@)) == Ok::<
                GenView,
                GenError,
            >(final(self)@),
            res matches Err(e) ==> spec_gen_node(old(self)@, NodeView::DL(data@)) == Err::<
                GenView,
                GenError,
            >(e),
    {
        let bytes = dwords_vec(data);
        let instr = Instruction::RawData(bytes);
        proof {
            lemma_gen_dl(old(self)@, data@);
            assert(instr@ == InstrView::RawData(dwords_le(data@)));
        }
        return self.push_checked(instr);
    }

    /// Lowering of this statement shape.
    fn process_jump(&mut self, condition: &JumpCondition, label: &String) -> (res: Result<(), GenError>)
        requires
            old(self).wf(),
        ensures
            res is Ok ==> final(self).wf() && spec_gen_node(old(self)@, NodeView::Jump { condition: *condition, label: label@ }) == Ok::<
                GenView,
                GenError,
            >(final(self)@),
            res matches Err(e) ==> spec_gen_node(old(self)@, NodeView::Jump { condition: *condition, label: label@ }) == Err::<
                GenView,
                GenError,
            >(e),
    {
        let addr = self.rel_value(label.as_str());
        let instr = Instruction::Jump { condition: *condition, addr };
        proof {
            lemma_gen_jump(old(self)@, *condition, label@);
            assert(instr@ == (InstrView::Jump {
                condition: *condition,
                addr: spec_rel_value(old(self)@, label@),
            }));
        }
        return self.push_checked(instr);
    }

    /// Lowering of this statement shape.
    fn process_call_pointer(&mut self, name: &String) -> (res: Result<(), GenError>)
        requires
            old(self).wf(),
        ensures
            res is Ok ==> final(self).wf() && spec_gen_node(old(self)@, NodeView::CallPointer(name@)) == Ok::<
                GenView,
                GenError,
            >(final(self)@),
            res matches Err(e) ==> spec_gen_node(old(self)@, NodeView::CallPointer(name@)) == Err::<
                GenView,
                GenError,
            >(e),
    {
        let addr = self.rel_value(name.as_str());
        let instr = Instruction::Call(addr);
        proof {
            lemma_gen_call_pointer(old(self)@, name@);
            assert(instr@ == InstrView::Call(spec_rel_value(old(self)@, name@)));
        }
        return self.push_checked(instr);
    }

    /// Lowering of this statement shape.
    fn process_mov_memory_pointer(&mut self, name: &String, r: &Register) -> (res: Result<(), GenError>)
        requires
            old(self).wf(),
        ensures
            res is Ok ==> final(self).wf() && spec_gen_node(old(self)@, NodeView::MovMemoryPointer(name@, *r)) == Ok::<
                GenView,
                GenError,
            >(final(self)@),
            res matches Err(e) ==> spec_gen_node(old(self)@, NodeView::MovMemoryPointer(name@, *r)) == Err::<
                GenView,
                GenError,
            >(e),
    {
        let addr = self.mem_value(name.as_str());
        let instr = Instruction::MovMemory { addr, register: *r };
        proof {
            lemma_gen_mov_memory_pointer(old(self)@, name@, *r);
            assert(instr@ == (InstrView::MovMemory {
                addr: spec_mem_value(old(self)@, name@),
                register: *r,
            }));
        }
        return self.push_checked(instr);
    }

    /// Lowering of this statement shape.
    fn process_mov_from_memory_pointer(&mut self, r: &Register, name: &String) -> (res: Result<(), GenError>)
        requires
            old(self).wf(),
        ensures
            res is Ok ==> final(self).wf() && spec_gen_node(old(self)@, NodeView::MovFromMemoryPointer(*r, name@)) == Ok::<
                GenView,
                GenError,
            >(final(self)@),
            res matches Err(e) ==> spec_gen_node(old(self)@, NodeView::MovFromMemoryPointer(*r, name@)) == Err::<
                GenView,
                GenError,
            >(e),
    {
        let addr = self.mem_value(name.as_str());
        let instr = Instruction::MovFromMemory(*r, addr);
        proof {
            lemma_gen_mov_from_memory_pointer(old(self)@, *r, name@);
            assert(instr@ == InstrView::MovFromMemory(
                *r,
                spec_mem_value(old(self)@, name@),
            ));
        }
        return self.push_checked(instr);
    }

    /// Lowering of this statement shape.
    fn process_mov_memory_register(&mut self, dest: &Register, src: &Register) -> (res: Result<(), GenError>)
        requires
            old(self).wf(),
        ensures
            res is Ok ==> final(self).wf() && spec_gen_node(old(self)@, NodeView::MovMemoryRegister(*dest, *src)) == Ok::<
                GenView,
                GenError,
            >(final(self)@),
            res matches Err(e) ==> spec_gen_node(old(self)@, NodeView::MovMemoryRegister(*dest, *src)) == Err::<
                GenView,
                GenError,
            >(e),
    {
        proof {
            lemma_gen_mov_memory_register(old(self)@, *dest, *src);
        }
        if dest.bits() == 32 {
            let instr = Instruction::MovMemoryReg { dest: *dest, src: *src };
            proof {
                assert(instr@ == (InstrView::MovMemoryReg { dest: *dest, src: *src }));
            }
            return self.push_checked(instr);
        } else {
            return Err(GenError::UnsupportedOperand);
        }
    }

    /// Lowering of this statement shape.
    fn process_mov_from_memory_register(&mut self, dest: &Register, src: &Register) -> (res: Result<(), GenError>)
        requires
            old(self).wf(),
        ensures
            res is Ok ==> final(self).wf() && spec_gen_node(old(self)@, NodeView::MovFromMemoryRegister(*dest, *src)) == Ok::<
                GenView,
                GenError,
            >(final(self)@),
            res matches Err(e) ==> spec_gen_node(old(self)@, NodeView::MovFromMemoryRegister(*dest, *src)) == Err::<
                GenView,
                GenError,
            >(e),
    {
        proof {
            lemma_gen_mov_from_memory_register(old(self)@, *dest, *src);
        }
        if src.bits() == 32 {
            let instr = Instruction::MovFromMemoryReg(*dest, *src);
            proof {
                assert(instr@ == InstrView::MovFromMemoryReg(*dest, *src));
            }
            return self.push_checked(instr);
        } else {
            return Err(GenError::UnsupportedOperand);
        }
    }

    /// Lowering of this statement shape.
    fn process_int(&mut self, x: u8) -> (res: Result<(), GenError>)
        requires
            old(self).wf(),
        ensures
            res is Ok ==> final(self).wf() && spec_gen_node(old(self)@, NodeView::Int(x)) == Ok::<
                GenView,
                GenError,
            >(final(self)@),
            res matches Err(e) ==> spec_gen_node(old(self)@, NodeView::Int(x)) == Err::<
                GenView,
                GenError,
            >(e),
    {
        let instr = Instruction::Int(x);
        proof {
            lemma_gen_int(old(self)@, x);
            assert(instr@ == (InstrView::Int(x)));
        }
        return self.push_checked(instr);
    }

    /// Lowering of this statement shape.
    fn process_inc(&mut self, r: &Register) -> (res: Result<(), GenError>)
        requires
            old(self).wf(),
        ensures
            res is Ok ==> final(self).wf() && spec_gen_node(old(self)@, NodeView::Inc(*r)) == Ok::<
                GenView,
                GenError,
            >(final(self)@),
            res matches Err(e) ==> spec_gen_node(old(self)@, NodeView::Inc(*r)) == Err::<
                GenView,
                GenError,
            >(e),
    {
        let instr = Instruction::Inc(*r);
        proof {
            lemma_gen_inc(old(self)@, *r);
            assert(instr@ == (InstrView::Inc(*r)));
        }
        return self.push_checked(instr);
    }

    /// Lowering of this statement shape.
    fn process_dec(&mut self, r: &Register) -> (res: Result<(), GenError>)
        requires
            old(self).wf(),
        ensures
            res is Ok ==> final(self).wf() && spec_gen_node(old(self)@, NodeView::Dec(*r)) == Ok::<
                GenView,
                GenError,
            >(final(self)@),
            res matches Err(e) ==> spec_gen_node(old(self)@, NodeView::Dec(*r)) == Err::<
                GenView,
                GenError,
            >(e),
    {
        let instr = Instruction::Dec(*r);
        proof {
            lemma_gen_dec(old(self)@, *r);
            assert(instr@ == (InstrView::Dec(*r)));
        }
        return self.push_checked(instr);
    }

    /// Lowering of this statement shape.
    fn process_jump_imm(&mut self, condition: &JumpCondition, addr: u32) -> (res: Result<(), GenError>)
        requires
            old(self).wf(),
        ensures
            res is Ok ==> final(self).wf() && spec_gen_node(old(self)@, NodeView::JumpImm { condition: *condition, addr }) == Ok::<
                GenView,
                GenError,
            >(final(self)@),
            res matches Err(e) ==> spec_gen_node(old(self)@, NodeView::JumpImm { condition: *condition, addr }) == Err::<
                GenView,
                GenError,
            >(e),
    {
        let instr = Instruction::Jump { condition: *condition, addr: Value::UInt(addr) };
        proof {
            lemma_gen_jump_imm(old(self)@, *condition, addr);
            assert(instr@ == (InstrView::Jump { condition: *condition, addr: ValueView::UInt(addr) }));
        }
        return self.push_checked(instr);
    }

    /// Lowering of this statement shape.
    fn process_mov(&mut self, a: &Register, b: &Register) -> (res: Result<(), GenError>)
        requires
            old(self).wf(),
        ensures
            res is Ok ==> final(self).wf() && spec_gen_node(old(self)@, NodeView::Mov(*a, *b)) == Ok::<
                GenView,
                GenError,
            >(final(self)@),
            res matches Err(e) ==> spec_gen_node(old(self)@, NodeView::Mov(*a, *b)) == Err::<
                GenView,
                GenError,
            >(e),
    {
        let instr = Instruction::Mov(*a, *b);
        proof {
            lemma_gen_mov(old(self)@, *a, *b);
            assert(instr@ == (InstrView::Mov(*a, *b)));
        }
        return self.push_checked(instr);
    }

    /// Lowering of this statement shape.
    fn process_mov_memory(&mut self, x: u32, r: &Register) -> (res: Result<(), GenError>)
        requires
            old(self).wf(),
        ensures
            res is Ok ==> final(self).wf() && spec_gen_node(old(self)@, NodeView::MovMemory(x, *r)) == Ok::<
                GenView,
                GenError,
            >(final(self)@),
            res matches Err(e) ==> spec_gen_node(old(self)@, NodeView::MovMemory(x, *r)) == Err::<
                GenView,
                GenError,
            >(e),
    {
        let instr = Instruction::MovMemory { addr: Value::UInt(x), register: *r };
        proof {
            lemma_gen_mov_memory(old(self)@, x, *r);
            assert(instr@ == (InstrView::MovMemory { addr: ValueView::UInt(x), register: *r }));
        }
        return self.push_checked(instr);
    }

    /// Lowering of this statement shape.
    fn process_mov_from_memory(&mut self, r: &Register, x: u32) -> (res: Result<(), GenError>)
        requires
            old(self).wf(),
        ensures
            res is Ok ==> final(self).wf() && spec_gen_node(old(self)@, NodeView::MovFromMemory(*r, x)) == Ok::<
                GenView,
                GenError,
            >(final(self)@),
            res matches Err(e) ==> spec_gen_node(old(self)@, NodeView::MovFromMemory(*r, x)) == Err::<
                GenView,
                GenError,
            >(e),
    {
        let instr = Instruction::MovFromMemory(*r, Value::UInt(x));
        proof {
            lemma_gen_mov_from_memory(old(self)@, *r, x);
            assert(instr@ == (InstrView::MovFromMemory(*r, ValueView::UInt(x))));
        }
        return self.push_checked(instr);
    }

    /// Lowering of this statement shape.
    fn process_add(&mut self, a: &Register, b: &Register) -> (res: Result<(), GenError>)
        requires
            old(self).wf(),
        ensures
            res is Ok ==> final(self).wf() && spec_gen_node(old(self)@, NodeView::Add(*a, *b)) == Ok::<
                GenView,
                GenError,
            >(final(self)@),
            res matches Err(e) ==> spec_gen_node(old(self)@, NodeView::Add(*a, *b)) == Err::<
                GenView,
                GenError,
            >(e),
    {
        let instr = Instruction::Add(*a, *b);
        proof {
            lemma_gen_add(old(self)@, *a, *b);
            assert(instr@ == (InstrView::Add(*a, *b)));
        }
        return self.push_checked(instr);
    }

    /// Lowering of this statement shape.
    fn process_sub(&mut self, a: &Register, b: &Register) -> (res: Result<(), GenError>)
        requires
            old(self).wf(),
        ensures
            res is Ok ==> final(self).wf() && spec_gen_node(old(self)@, NodeView::Sub(*a, *b)) == Ok::<
                GenView,
                GenError,
            >(final(self)@),
            res matches Err(e) ==> spec_gen_node(old(self)@, NodeView::Sub(*a, *b)) == Err::<
                GenView,
                GenError,
            >(e),
    {
        let instr = Instruction::Sub(*a, *b);
        proof {
            lemma_gen_sub(old(self)@, *a, *b);
            assert(instr@ == (InstrView::Sub(*a, *b)));
        }
        return self.push_checked(instr);
    }

    /// Lowering of this statement shape.
    fn process_mul(&mut self, r: &Register) -> (res: Result<(), GenError>)
        requires
            old(self).wf(),
        ensures
            res is Ok ==> final(self).wf() && spec_gen_node(old(self)@, NodeView::Mul(*r)) == Ok::<
                GenView,
                GenError,
            >(final(self)@),
            res matches Err(e) ==> spec_gen_node(old(self)@, NodeView::Mul(*r)) == Err::<
                GenView,
                GenError,
            >(e),
    {
        let instr = Instruction::Multiply(*r);
        proof {
            lemma_gen_mul(old(self)@, *r);
            assert(instr@ == (InstrView::Multiply(*r)));
        }
        return self.push_checked(instr);
    }

    /// Lowering of this statement shape.
    fn process_div(&mut self, r: &Register) -> (res: Result<(), GenError>)
        requires
            old(self).wf(),
        ensures
            res is Ok ==> final(self).wf() && spec_gen_node(old(self)@, NodeView::Div(*r)) == Ok::<
                GenView,
                GenError,
            >(final(self)@),
            res matches Err(e) ==> spec_gen_node(old(self)@, NodeView::Div(*r)) == Err::<
                GenView,
                GenError,
            >(e),
    {
        let instr = Instruction::Divide(*r);
        proof {
            lemma_gen_divide(old(self)@, *r);
            assert(instr@ == (InstrView::Divide(*r)));
        }
        return self.push_checked(instr);
    }

    /// Lowering of this statement shape.
    fn process_and(&mut self, a: &Register, b: &Register) -> (res: Result<(), GenError>)
        requires
            old(self).wf(),
        ensures
            res is Ok ==> final(self).wf() && spec_gen_node(old(self)@, NodeView::And(*a, *b)) == Ok::<
                GenView,
                GenError,
            >(final(self)@),
            res matches Err(e) ==> spec_gen_node(old(self)@, NodeView::And(*a, *b)) == Err::<
                GenView,
                GenError,
            >(e),
    {
        let instr = Instruction::And(*a, *b);
        proof {
            lemma_gen_and(old(self)@, *a, *b);
            assert(instr@ == (InstrView::And(*a, *b)));
        }
        return self.push_checked(instr);
    }

    /// Lowering of this statement shape.
    fn process_or(&mut self, a: &Register, b: &Register) -> (res: Result<(), GenError>)
        requires
            old(self).wf(),
        ensures
            res is Ok ==> final(self).wf() && spec_gen_node(old(self)@, NodeView::Or(*a, *b)) == Ok::<
                GenView,
                GenError,
            >(final(self)@),
            res matches Err(e) ==> spec_gen_node(old(self)@, NodeView::Or(*a, *b)) == Err::<
                GenView,
                GenError,
            >(e),
    {
        let instr = Instruction::Or(*a, *b);
        proof {
            lemma_gen_or(old(self)@, *a, *b);
            assert(instr@ == (InstrView::Or(*a, *b)));
        }
        return self.push_checked(instr);
    }

    /// Lowering of this statement shape.
    fn process_xor(&mut self, a: &Register, b: &Register) -> (res: Result<(), GenError>)
        requires
            old(self).wf(),
        ensures
            res is Ok ==> final(self).wf() && spec_gen_node(old(self)@, NodeView::XOr(*a, *b)) == Ok::<
                GenView,
                GenError,
            >(final(self)@),
            res matches Err(e) ==> spec_gen_node(old(self)@, NodeView::XOr(*a, *b)) == Err::<
                GenView,
                GenError,
            >(e),
    {
        let instr = Instruction::XOr(*a, *b);
        proof {
            lemma_gen_xor(old(self)@, *a, *b);
            assert(instr@ == (InstrView::XOr(*a, *b)));
        }
        return self.push_checked(instr);
    }

    /// Lowering of this statement shape.
    fn process_cmp(&mut self, a: &Register, b: &Register) -> (res: Result<(), GenError>)
        requires
            old(self).wf(),
        ensures
            res is Ok ==> final(self).wf() && spec_gen_node(old(self)@, NodeView::CMP(*a, *b)) == Ok::<
                GenView,
                GenError,
            >(final(self)@),
            res matches Err(e) ==> spec_gen_node(old(self)@, NodeView::CMP(*a, *b)) == Err::<
                GenView,
                GenError,
            >(e),
    {
        let instr = Instruction::Compare(*a, *b);
        proof {
            lemma_gen_cmp(old(self)@, *a, *b);
            assert(instr@ == (InstrView::Compare(*a, *b)));
        }
        return self.push_checked(instr);
    }

    /// Lowering of this statement shape.
    fn process_bswap(&mut self, r: &Register) -> (res: Result<(), GenError>)
        requires
            old(self).wf(),
        ensures
            res is Ok ==> final(self).wf() && spec_gen_node(old(self)@, NodeView::BSWAP(*r)) == Ok::<
                GenView,
                GenError,
            >(final(self)@),
            res matches Err(e) ==> spec_gen_node(old(self)@, NodeView::BSWAP(*r)) == Err::<
                GenView,
                GenError,
            >(e),
    {
        let instr = Instruction::ByteSwap(*r);
        proof {
            lemma_gen_bswap(old(self)@, *r);
            assert(instr@ == (InstrView::ByteSwap(*r)));
        }
        return self.push_checked(instr);
    }

    /// Lowering of this statement shape.
    fn process_push(&mut self, r: &Register) -> (res: Result<(), GenError>)
        requires
            old(self).wf(),
        ensures
            res is Ok ==> final(self).wf() && spec_gen_node(old(self)@, NodeView::Push(*r)) == Ok::<
                GenView,
                GenError,
            >(final(self)@),
            res matches Err(e) ==> spec_gen_node(old(self)@, NodeView::Push(*r)) == Err::<
                GenView,
                GenError,
            >(e),
    {
        let instr = Instruction::Push(*r);
        proof {
            lemma_gen_push(old(self)@, *r);
            assert(instr@ == (InstrView::Push(*r)));
        }
        return self.push_checked(instr);
    }

    /// Lowering of this statement shape.
    fn process_pop(&mut self, r: &Register) -> (res: Result<(), GenError>)
        requires
            old(self).wf(),
        ensures
            res is Ok ==> final(self).wf() && spec_gen_node(old(self)@, NodeView::Pop(*r)) == Ok::<
                GenView,
                GenError,
            >(final(self)@),
            res matches Err(e) ==> spec_gen_node(old(self)@, NodeView::Pop(*r)) == Err::<
                GenView,
                GenError,
            >(e),
    {
        let instr = Instruction::Pop(*r);
        proof {
            lemma_gen_pop(old(self)@, *r);
            assert(instr@ == (InstrView::Pop(*r)));
        }
        return self.push_checked(instr);
    }

    /// Lowering of this statement shape.
    fn process_call(&mut self, x: u32) -> (res: Result<(), GenError>)
        requires
            old(self).wf(),
        ensures
            res is Ok ==> final(self).wf() && spec_gen_node(old(self)@, NodeView::Call(x)) == Ok::<
                GenView,
                GenError,
            >(final(self)@),
            res matches Err(e) ==> spec_gen_node(old(self)@, NodeView::Call(x)) == Err::<
                GenView,
                GenError,
            >(e),
    {
        let instr = Instruction::Call(Value::UInt(x));
        proof {
            lemma_gen_call(old(self)@, x);
            assert(instr@ == (InstrView::Call(ValueView::UInt(x))));
        }
        return self.push_checked(instr);
    }

    /// Lowering of this statement shape.
    fn process_call_register(&mut self, r: &Register) -> (res: Result<(), GenError>)
        requires
            old(self).wf(),
        ensures
            res is Ok ==> final(self).wf() && spec_gen_node(old(self)@, NodeView::CallRegister(*r)) == Ok::<
                GenView,
                GenError,
            >(final(self)@),
            res matches Err(e) ==> spec_gen_node(old(self)@, NodeView::CallRegister(*r)) == Err::<
                GenView,
                GenError,
            >(e),
    {
        let instr = Instruction::CallRegister(*r);
        proof {
            lemma_gen_call_register(old(self)@, *r);
            assert(instr@ == (InstrView::CallRegister(*r)));
        }
        return self.push_checked(instr);
    }

    /// Lowering of this statement shape.
    fn process_return(&mut self) -> (res: Result<(), GenError>)
        requires
            old(self).wf(),
        ensures
            res is Ok ==> final(self).wf() && spec_gen_node(old(self)@, NodeView::Return) == Ok::<
                GenView,
                GenError,
            >(final(self)@),
            res matches Err(e) ==> spec_gen_node(old(self)@, NodeView::Return) == Err::<
                GenView,
                GenError,
            >(e),
    {
        let instr = Instruction::Return;
        proof {
            lemma_gen_ret(old(self)@);
            assert(instr@ == (InstrView::Return));
        }
        return self.push_checked(instr);
    }

    /// Lowering of this statement shape.
    fn process_not(&mut self, r: &Register) -> (res: Result<(), GenError>)
        requires
            old(self).wf(),
        ensures
            res is Ok ==> final(self).wf() && spec_gen_node(old(self)@, NodeView::Not(*r)) == Ok::<
                GenView,
                GenError,
            >(final(self)@),
            res matches Err(e) ==> spec_gen_node(old(self)@, NodeView::Not(*r)) == Err::<
                GenView,
                GenError,
            >(e),
    {
        let instr = Instruction::Not(*r);
        proof {
            lemma_gen_not(old(self)@, *r);
            assert(instr@ == (InstrView::Not(*r)));
        }
        return self.push_checked(instr);
    }

    /// Lowering of this statement shape.
    fn process_neg(&mut self, r: &Register) -> (res: Result<(), GenError>)
        requires
            old(self).wf(),
        ensures
            res is Ok ==> final(self).wf() && spec_gen_node(old(self)@, NodeView::Neg(*r)) == Ok::<
                GenView,
                GenError,
            >(final(self)@),
            res matches Err(e) ==> spec_gen_node(old(self)@, NodeView::Neg(*r)) == Err::<
                GenView,
                GenError,
            >(e),
    {
        let instr = Instruction::Neg(*r);
        proof {
            lemma_gen_neg(old(self)@, *r);
            assert(instr@ == (InstrView::Neg(*r)));
        }
        return self.push_checked(instr);
    }

    /// Lowering of this statement shape.
    fn process_shl(&mut self, r: &Register) -> (res: Result<(), GenError>)
        requires
            old(self).wf(),
        ensures
            res is Ok ==> final(self).wf() && spec_gen_node(old(self)@, NodeView::SHL(*r)) == Ok::<
                GenView,
                GenError,
            >(final(self)@),
            res matches Err(e) ==> spec_gen_node(old(self)@, NodeView::SHL(*r)) == Err::<
                GenView,
                GenError,
            >(e),
    {
        let instr = Instruction::ShiftLeft(*r);
        proof {
            lemma_gen_shl(old(self)@, *r);
            assert(instr@ == (InstrView::ShiftLeft(*r)));
        }
        return self.push_checked(instr);
    }

    /// Lowering of this statement shape.
    fn process_shr(&mut self, r: &Register) -> (res: Result<(), GenError>)
        requires
            old(self).wf(),
        ensures
            res is Ok ==> final(self).wf() && spec_gen_node(old(self)@, NodeView::SHR(*r)) == Ok::<
                GenView,
                GenError,
            >(final(self)@),
            res matches Err(e) ==> spec_gen_node(old(self)@, NodeView::SHR(*r)) == Err::<
                GenView,
                GenError,
            >(e),
    {
        let instr = Instruction::ShiftRight(*r);
        proof {
            lemma_gen_shr(old(self)@, *r);
            assert(instr@ == (InstrView::ShiftRight(*r)));
        }
        return self.push_checked(instr);
    }

    /// Lowering of this statement shape.
    fn process_mov_imm(&mut self, r: &Register, x: u32) -> (res: Result<(), GenError>)
        requires
            old(self).wf(),
        ensures
            res is Ok ==> final(self).wf() && spec_gen_node(old(self)@, NodeView::MovImm(*r, x)) == Ok::<
                GenView,
                GenError,
            >(final(self)@),
            res matches Err(e) ==> spec_gen_node(old(self)@, NodeView::MovImm(*r, x)) == Err::<
                GenView,
                GenError,
            >(e),
    {
        proof {
            lemma_gen_mov_imm(old(self)@, *r, x);
        }
        let v = match imm_value(r, x) {
            Ok(v) => v,
            Err(e) => {
                return Err(e);
            },
        };
        let instr = Instruction::MovImmediate { register: *r, value: v };
        proof {
            assert(instr@ == (InstrView::MovImmediate { register: *r, value: v@ }));
        }
        return self.push_checked(instr);
    }

    /// Lowering of this statement shape.
    fn process_add_imm(&mut self, r: &Register, x: u32) -> (res: Result<(), GenError>)
        requires
            old(self).wf(),
        ensures
            res is Ok ==> final(self).wf() && spec_gen_node(old(self)@, NodeView::AddImm(*r, x)) == Ok::<
                GenView,
                GenError,
            >(final(self)@),
            res matches Err(e) ==> spec_gen_node(old(self)@, NodeView::AddImm(*r, x)) == Err::<
                GenView,
                GenError,
            >(e),
    {
        proof {
            lemma_gen_add_imm(old(self)@, *r, x);
        }
        let v = match imm_value(r, x) {
            Ok(v) => v,
            Err(e) => {
                return Err(e);
            },
        };
        let instr = Instruction::AddImmediate { register: *r, value: v };
        proof {
            assert(instr@ == (InstrView::AddImmediate { register: *r, value: v@ }));
        }
        return self.push_checked(instr);
    }

    /// Lowering of this statement shape.
    fn process_sub_imm(&mut self, r: &Register, x: u32) -> (res: Result<(), GenError>)
        requires
            old(self).wf(),
        ensures
            res is Ok ==> final(self).wf() && spec_gen_node(old(self)@, NodeView::SubImm(*r, x)) == Ok::<
                GenView,
                GenError,
            >(final(self)@),
            res matches Err(e) ==> spec_gen_node(old(self)@, NodeView::SubImm(*r, x)) == Err::<
                GenView,
                GenError,
            >(e),
    {
        proof {
            lemma_gen_sub_imm(old(self)@, *r, x);
        }
        let v = match imm_value(r, x) {
            Ok(v) => v,
            Err(e) => {
                return Err(e);
            },
        };
        let instr = Instruction::SubImmediate { register: *r, value: v };
        proof {
            assert(instr@ == (InstrView::SubImmediate { register: *r, value: v@ }));
        }
        return self.push_checked(instr);
    }

    /// Lowering of this statement shape.
    fn process_cmp_imm(&mut self, r: &Register, x: u32) -> (res: Result<(), GenError>)
        requires
            old(self).wf(),
        ensures
            res is Ok ==> final(self).wf() && spec_gen_node(old(self)@, NodeView::CMPImm(*r, x)) == Ok::<
                GenView,
                GenError,
            >(final(self)@),
            res matches Err(e) ==> spec_gen_node(old(self)@, NodeView::CMPImm(*r, x)) == Err::<
                GenView,
                GenError,
            >(e),
    {
        proof {
            lemma_gen_cmp_imm(old(self)@, *r, x);
        }
        let v = match imm_value(r, x) {
            Ok(v) => v,
            Err(e) => {
                return Err(e);
            },
        };
        let instr = Instruction::CompareImmediate(*r, v);
        proof {
            assert(instr@ == (InstrView::CompareImmediate(*r, v@)));
        }
        return self.push_checked(instr);
    }

    /// Lowering of this statement shape.
    fn process_mov_imm_pointer(&mut self, r: &Register, name: &String) -> (res: Result<(), GenError>)
        requires
            old(self).wf(),
        ensures
            res is Ok ==> final(self).wf() && spec_gen_node(old(self)@, NodeView::MovImmPointer(*r, name@)) == Ok::<
                GenView,
                GenError,
            >(final(self)@),
            res matches Err(e) ==> spec_gen_node(old(self)@, NodeView::MovImmPointer(*r, name@)) == Err::<
                GenView,
                GenError,
            >(e),
    {
        proof {
            lemma_gen_mov_imm_pointer(old(self)@, *r, name@);
        }
        let v = match self.ptr_imm(r, name.as_str()) {
            Ok(v) => v,
            Err(e) => {
                return Err(e);
            },
        };
        let instr = Instruction::MovImmediate { register: *r, value: v };
        proof {
            assert(instr@ == (InstrView::MovImmediate { register: *r, value: v@ }));
        }
        return self.push_checked(instr);
    }

    /// Lowering of this statement shape.
    fn process_add_imm_pointer(&mut self, r: &Register, name: &String) -> (res: Result<(), GenError>)
        requires
            old(self).wf(),
        ensures
            res is Ok ==> final(self).wf() && spec_gen_node(old(self)@, NodeView::AddImmPointer(*r, name@)) == Ok::<
                GenView,
                GenError,
            >(final(self)@),
            res matches Err(e) ==> spec_gen_node(old(self)@, NodeView::AddImmPointer(*r, name@)) == Err::<
                GenView,
                GenError,
            >(e),
    {
        proof {
            lemma_gen_add_imm_pointer(old(self)@, *r, name@);
        }
        let v = match self.ptr_imm(r, name.as_str()) {
            Ok(v) => v,
            Err(e) => {
                return Err(e);
            },
        };
        let instr = Instruction::AddImmediate { register: *r, value: v };
        proof {
            assert(instr@ == (InstrView::AddImmediate { register: *r, value: v@ }));
        }
        return self.push_checked(instr);
    }

    /// Lowering of this statement shape.
    fn process_sub_imm_pointer(&mut self, r: &Register, name: &String) -> (res: Result<(), GenError>)
        requires
            old(self).wf(),
        ensures
            res is Ok ==> final(self).wf() && spec_gen_node(old(self)@, NodeView::SubImmPointer(*r, name@)) == Ok::<
                GenView,
                GenError,
            >(final(self)@),
            res matches Err(e) ==> spec_gen_node(old(self)@, NodeView::SubImmPointer(*r, name@)) == Err::<
                GenView,
                GenError,
            >(e),
    {
        proof {
            lemma_gen_sub_imm_pointer(old(self)@, *r, name@);
        }
        let v = match self.ptr_imm(r, name.as_str()) {
            Ok(v) => v,
            Err(e) => {
                return Err(e);
            },
        };
        let instr = Instruction::SubImmediate { register: *r, value: v };
        proof {
            assert(instr@ == (InstrView::SubImmediate { register: *r, value: v@ }));
        }
        return self.push_checked(instr);
    }

    /// Lowering of this statement shape.
    fn process_cmp_imm_pointer(&mut self, r: &Register, name: &String) -> (res: Result<(), GenError>)
        requires
            old(self).wf(),
        ensures
            res is Ok ==> final(self).wf() && spec_gen_node(old(self)@, NodeView::CMPImmPointer(*r, name@)) == Ok::<
                GenView,
                GenError,
            >(final(self)@),
            res matches Err(e) ==> spec_gen_node(old(self)@, NodeView::CMPImmPointer(*r, name@)) == Err::<
                GenView,
                GenError,
            >(e),
    {
        proof {
            lemma_gen_cmp_imm_pointer(old(self)@, *r, name@);
        }
        let v = match self.ptr_imm(r, name.as_str()) {
            Ok(v) => v,
            Err(e) => {
                return Err(e);
            },
        };
        let instr = Instruction::CompareImmediate(*r, v);
        proof {
            assert(instr@ == (InstrView::CompareImmediate(*r, v@)));
        }
        return self.push_checked(instr);
    }

    /// Runs the generator over a syntax tree, returning the finished state:
    /// the lowered program, the entry label, the label offsets and the
    /// equates.
    pub fn run(root: &Node) -> (r: Result<CodeGenerator, GenError>)
        ensures
            match r {
                Ok(g) => g.wf() && spec_gen_node(init_gen(), node_view(root)) == Ok::<
                    GenView,
                    GenError,
                >(g@),
                Err(e) => spec_gen_node(init_gen(), node_view(root)) == Err::<GenView, GenError>(e),
            },
    {
        let mut gen = CodeGenerator {
            program: Program::new(),
            entry_point: "__entry_point__".to_owned(),
            block_addrs: Vec::new(),
            variables: Vec::new(),
            current_block: 0,
        };
        gen.program.new_block("__entry_point__");
        gen.block_addrs.push(("__entry_point__".to_owned(), 0));
        proof {
            assert(gen@ =~~= init_gen());
        }
        match gen.process(root) {
            Ok(()) => Ok(gen),
            Err(e) => Err(e),
        }
    }

    /// The value bound to an equate name, if the generator saw one.
    pub fn equate_value(&self, name: &str) -> (r: Option<u32>)
        ensures
            r == lookup(self@.variables, name@),
    {
        lookup_assoc(&self.variables, name)
    }

    /// Lowers a syntax tree to a program: every statement in declaration
    /// order, then the entry point resolved against the finished label table.
    pub fn generate(root: &Node) -> (r: Result<Program, GenError>)
        ensures
            match r {
                Ok(p) => p.wf() && generate_ok(node_view(root), p@),
                Err(e) => spec_gen_node(init_gen(), node_view(root)) == Err::<GenView, GenError>(e),
            },
    {
        let gen = match CodeGenerator::run(root) {
            Ok(g) => g,
            Err(e) => {
                return Err(e);
            },
        };
        let mut program = gen.program;
        let entry = gen.entry_point;
        program.set_entrypoint(entry.as_str());
        Ok(program)
    }
}

/// Copies a byte vector.
fn clone_bytes(data: &Vec<u8>) -> (r: Vec<u8>)
    ensures
        r@ == data@,
{
    let mut out: Vec<u8> = Vec::new();
    let mut i: usize = 0;
    while i < data.len()
        invariant
            i <= data@.len(),
            out@ == data@.take(i as int),
        decreases data@.len() - i,
    {
        out.push(data[i]);
        proof {
            assert(out@ =~= data@.take(i + 1));
        }
        i = i + 1;
    }
    proof {
        assert(data@.take(data@.len() as int) =~= data@);
    }
    out
}

/// Builds an immediate for a register: the register width drives the form;
/// too wide a value is an error.
fn imm_value(r: &Register, x: u32) -> (res: Result<Value, GenError>)
    ensures
        res matches Ok(v) ==> spec_imm_value(*r, x) == Ok::<ValueView, GenError>(v@),
        res matches Err(e) ==> spec_imm_value(*r, x) == Err::<ValueView, GenError>(e),
{
    let bits = r.bits();
    if bits == 8 {
        if x > 0xFF {
            Err(GenError::ImmediateOverflow)
        } else {
            Ok(Value::UByte(x as u8))
        }
    } else if bits == 16 {
        if x > 0xFFFF {
            Err(GenError::ImmediateOverflow)
        } else {
            Ok(Value::UShort(x as u16))
        }
    } else {
        Ok(Value::UInt(x))
    }
}

/// The little-endian bytes of a run of 16-bit words.
fn words_vec(d: &Vec<u16>) -> (r: Vec<u8>)
    ensures
        r@ == words_le(d@),
{
    let mut out: Vec<u8> = Vec::new();
    let mut i: usize = 0;
    proof {
        assert(d@.take(0) =~= Seq::<u16>::empty());
        assert(words_le(d@.take(0)) =~= Seq::<u8>::empty());
    }
    while i < d.len()
        invariant
            i <= d@.len(),
            out@ == words_le(d@.take(i as int)),
        decreases d@.len() - i,
    {
        let b = crate::utils::dump_word(d[i], crate::Endianness::Little);
        out.push(b[0]);
        out.push(b[1]);
        proof {
            assert(d@.take(i + 1) =~= d@.take(i as int).push(d@[i as int]));
            lemma_words_le_push(d@.take(i as int), d@[i as int]);
            assert(out@ =~= words_le(d@.take(i + 1)));
        }
        i = i + 1;
    }
    proof {
        assert(d@.take(d@.len() as int) =~= d@);
    }
    out
}

/// The little-endian bytes of a run of 32-bit words.
fn dwords_vec(d: &Vec<u32>) -> (r: Vec<u8>)
    ensures
        r@ == dwords_le(d@),
{
    let mut out: Vec<u8> = Vec::new();
    let mut i: usize = 0;
    proof {
        assert(d@.take(0) =~= Seq::<u32>::empty());
        assert(dwords_le(d@.take(0)) =~= Seq::<u8>::empty());
    }
    while i < d.len()
        invariant
            i <= d@.len(),
            out@ == dwords_le(d@.take(i as int)),
        decreases d@.len() - i,
    {
        let b = crate::utils::dump_dword(d[i], crate::Endianness::Little);
        out.push(b[0]);
        out.push(b[1]);
        out.push(b[2]);
        out.push(b[3]);
        proof {
            assert(d@.take(i + 1) =~= d@.take(i as int).push(d@[i as int]));
            lemma_dwords_le_push(d@.take(i as int), d@[i as int]);
            assert(out@ =~= dwords_le(d@.take(i + 1)));
        }
        i = i + 1;
    }
    proof {
        assert(d@.take(d@.len() as int) =~= d@);
    }
    out
}

/// Applies one expression operator: addition, subtraction and multiplication
/// wrap at 32 bits; division by zero is an error.
fn apply_op(op: &Token, a: u32, b: u32) -> (r: Result<u32, GenError>)
    ensures
        r == spec_apply_op(op@, a, b),
{
    match op {
        Token::Plus => Ok(a.wrapping_add(b)),
        Token::Minus => Ok(a.wrapping_sub(b)),
        Token::Multiply => Ok(a.wrapping_mul(b)),
        Token::Divide => if b == 0 {
            Err(GenError::DivisionByZero)
        } else {
            Ok(a / b)
        },
        _ => Err(GenError::BadExpression),
    }
}

/// Two runs of the code generator over equal syntax trees produce equal
/// programs, and therefore byte-identical output images.
pub proof fn lemma_generate_deterministic(root: NodeView, p1: ProgramView, p2: ProgramView)
    requires
        generate_ok(root, p1),
        generate_ok(root, p2),
    ensures
        p1 == p2,
        crate::program::program_bytes(p1) == crate::program::program_bytes(p2),
{
    assert(p1.entry_point.addr == p2.entry_point.addr);
    assert(p1.entry_point.vaddr == p2.entry_point.vaddr);
    assert(p1 =~= p2);
}

} // verus!
