//! The program model: an ordered list of labeled instruction blocks.
//!
//! The concatenation of each block's encoded bytes in declaration order is the
//! loadable segment. The address of a label is the program's load offset plus
//! the lengths of every instruction in every block preceding the block that
//! carries the label; because instruction lengths are operand-shape-only, the
//! whole layout is a single forward pass.

use vstd::prelude::*;

use crate::addr::Addr;
use crate::string_eq_str;
use crate::instruction::{Instruction, InstrView, instr_bytes, instr_len, lemma_instr_bytes_len};

verus! {

/// A contiguous, named sequence of instructions. `len` caches the total
/// encoded length of `instrs`; well-formedness ties the two together.
#[derive(Debug)]
pub struct ProgramBlock {
    pub label: String,
    pub len: usize,
    pub instrs: Vec<Instruction>,
}

/// The mathematical model of a block: its label and its instructions.
#[verifier::ext_equal]
pub struct BlockView {
    pub label: Seq<char>,
    pub instrs: Seq<InstrView>,
}

impl View for ProgramBlock {
    type V = BlockView;

    open spec fn view(&self) -> BlockView {
        BlockView {
            label: self.label@,
            instrs: self.instrs@.map_values(|i: Instruction| i@),
        }
    }
}

/// The total encoded length of a sequence of instructions.
pub open spec fn instrs_len(s: Seq<InstrView>) -> nat
    decreases s.len(),
{
    if s.len() == 0 {
        0
    } else {
        instr_len(s[0]) + instrs_len(s.drop_first())
    }
}

/// The total encoded length of a block.
pub open spec fn block_len(b: BlockView) -> nat {
    instrs_len(b.instrs)
}

/// The total encoded length of a sequence of blocks.
pub open spec fn blocks_len(s: Seq<BlockView>) -> nat
    decreases s.len(),
{
    if s.len() == 0 {
        0
    } else {
        block_len(s[0]) + blocks_len(s.drop_first())
    }
}

/// Whether some block in the sequence carries the label.
pub open spec fn has_label(s: Seq<BlockView>, label: Seq<char>) -> bool
    decreases s.len(),
{
    if s.len() == 0 {
        false
    } else {
        s[0].label == label || has_label(s.drop_first(), label)
    }
}

/// The sum of the lengths of all blocks preceding the first block that
/// carries the label. Meaningful only when `has_label` holds; it degenerates
/// to the whole program length otherwise.
pub open spec fn label_offset(s: Seq<BlockView>, label: Seq<char>) -> nat
    decreases s.len(),
{
    if s.len() == 0 {
        0
    } else if s[0].label == label {
        0
    } else {
        block_len(s[0]) + label_offset(s.drop_first(), label)
    }
}

/// The mathematical model of a program.
#[verifier::ext_equal]
pub struct ProgramView {
    pub offset: Addr,
    pub entry_point: Addr,
    pub blocks: Seq<BlockView>,
}

/// The file offset that the label resolves to: the load offset plus the
/// lengths of all blocks preceding the labeled block.
pub open spec fn resolve_offset(p: ProgramView, label: Seq<char>) -> int {
    p.offset.addr + label_offset(p.blocks, label)
}

/// The virtual address that the label resolves to.
pub open spec fn resolve_vaddr(p: ProgramView, label: Seq<char>) -> int {
    p.offset.vaddr + label_offset(p.blocks, label)
}

/// A program: a load offset, an entry point, and the ordered blocks whose
/// concatenated encodings are the loadable segment.
#[derive(Debug)]
pub struct Program {
    pub offset: Addr,
    pub entry_point: Addr,
    pub blocks: Vec<ProgramBlock>,
}

impl View for Program {
    type V = ProgramView;

    open spec fn view(&self) -> ProgramView {
        ProgramView {
            offset: self.offset,
            entry_point: self.entry_point,
            blocks: self.blocks@.map_values(|b: ProgramBlock| b@),
        }
    }
}

impl ProgramBlock {
    /// The cached length is the sum of the instruction lengths, and every
    /// instruction has an encodable operand shape.
    pub open spec fn wf(&self) -> bool {
        self.len == instrs_len(self@.instrs)
    }

    /// Pushes an instruction to the block.
    pub fn push(&mut self, instr: Instruction)
        requires
            old(self).wf(),
            old(self).len + instr_len(instr@) <= usize::MAX,
        ensures
            final(self).wf(),
            final(self)@.label == old(self)@.label,
            final(self)@.instrs == old(self)@.instrs.push(instr@),
            final(self).len == old(self).len + instr_len(instr@),
    {
        proof {
            lemma_instrs_len_push(self@.instrs, instr@);
        }
        self.len = self.len + instr.len();
        self.instrs.push(instr);
        proof {
            assert(self@.instrs =~= old(self)@.instrs.push(instr@));
        }
    }

    /// Gets the length of the block.
    pub fn len(&self) -> (r: usize)
        ensures
            r == self.len,
    {
        self.len
    }
}

/// Appending one instruction adds its length to the total.
pub proof fn lemma_instrs_len_push(s: Seq<InstrView>, i: InstrView)
    ensures
        instrs_len(s.push(i)) == instrs_len(s) + instr_len(i),
    decreases s.len(),
{
    assert(s.push(i).len() == s.len() + 1);
    assert(instrs_len(s.push(i)) == instr_len(s.push(i)[0]) + instrs_len(s.push(i).drop_first()));
    if s.len() == 0 {
        assert(s.push(i).drop_first() =~= Seq::<InstrView>::empty());
        assert(s.push(i)[0] == i);
        assert(instrs_len(Seq::<InstrView>::empty()) == 0);
    } else {
        assert(s.push(i).drop_first() =~= s.drop_first().push(i));
        assert(s.push(i)[0] == s[0]);
        lemma_instrs_len_push(s.drop_first(), i);
    }
}

/// Appending one block adds its length to the total.
pub proof fn lemma_blocks_len_push(s: Seq<BlockView>, b: BlockView)
    ensures
        blocks_len(s.push(b)) == blocks_len(s) + block_len(b),
    decreases s.len(),
{
    assert(s.push(b).len() == s.len() + 1);
    assert(blocks_len(s.push(b)) == block_len(s.push(b)[0]) + blocks_len(s.push(b).drop_first()));
    if s.len() == 0 {
        assert(s.push(b).drop_first() =~= Seq::<BlockView>::empty());
        assert(s.push(b)[0] == b);
        assert(blocks_len(Seq::<BlockView>::empty()) == 0);
    } else {
        assert(s.push(b).drop_first() =~= s.drop_first().push(b));
        assert(s.push(b)[0] == s[0]);
        lemma_blocks_len_push(s.drop_first(), b);
    }
}

/// The total length splits at any index.
pub proof fn lemma_blocks_len_split(s: Seq<BlockView>, i: int)
    requires
        0 <= i <= s.len(),
    ensures
        blocks_len(s) == blocks_len(s.take(i)) + blocks_len(s.skip(i)),
    decreases i,
{
    if i == 0 {
        assert(s.take(0) =~= Seq::<BlockView>::empty());
        assert(s.skip(0) =~= s);
    } else {
        lemma_blocks_len_split(s, i - 1);
        lemma_blocks_len_push(s.take(i - 1), s[i - 1]);
        assert(s.take(i) =~= s.take(i - 1).push(s[i - 1]));
        lemma_blocks_len_skip_one(s.skip(i - 1));
        assert(s.skip(i - 1).drop_first() =~= s.skip(i));
    }
}

/// Unfolding of `blocks_len` on a nonempty sequence.
proof fn lemma_blocks_len_skip_one(s: Seq<BlockView>)
    requires
        s.len() > 0,
    ensures
        blocks_len(s) == block_len(s[0]) + blocks_len(s.drop_first()),
{
}

/// A label found only past a prefix resolves behind the whole prefix: the
/// offset of the label in the full sequence is the length of the prefix plus
/// the offset of the label in the rest.
pub proof fn lemma_label_offset_split(s: Seq<BlockView>, label: Seq<char>, i: int)
    requires
        0 <= i <= s.len(),
        forall|j: int| 0 <= j < i ==> (#[trigger] s[j]).label != label,
    ensures
        has_label(s, label) == has_label(s.skip(i), label),
        label_offset(s, label) == blocks_len(s.take(i)) + label_offset(s.skip(i), label),
    decreases i,
{
    if i == 0 {
        assert(s.take(0) =~= Seq::<BlockView>::empty());
        assert(s.skip(0) =~= s);
    } else {
        lemma_label_offset_split(s, label, i - 1);
        assert(s.take(i) =~= s.take(i - 1).push(s[i - 1]));
        lemma_blocks_len_push(s.take(i - 1), s[i - 1]);
        let t = s.skip(i - 1);
        assert(t[0] == s[i - 1]);
        assert(t.drop_first() =~= s.skip(i));
    }
}

impl Program {
    /// Every block is well formed, and the whole image fits comfortably in
    /// the 32-bit address space: the total length is below 2^32 and the load
    /// offset leaves room for it on both axes.
    pub open spec fn wf(&self) -> bool {
        &&& forall|i: int| 0 <= i < self.blocks@.len() ==> (#[trigger] self.blocks@[i]).wf()
        &&& blocks_len(self@.blocks) <= u32::MAX
        &&& self.offset.addr <= u64::MAX - u32::MAX
        &&& self.offset.vaddr <= u64::MAX - u32::MAX
    }

    /// The total encoded length of the program, as the model sees it.
    pub open spec fn spec_len(&self) -> nat {
        blocks_len(self@.blocks)
    }

    /// Constructs a new program with no blocks, placed at offset zero.
    pub fn new() -> (r: Program)
        ensures
            r.wf(),
            r@.blocks =~= Seq::<BlockView>::empty(),
            r.offset.addr == 0 && r.offset.vaddr == 0,
            r.entry_point.addr == 0 && r.entry_point.vaddr == 0,
    {
        let p = Program {
            offset: Addr::zero(),
            entry_point: Addr::zero(),
            blocks: Vec::new(),
        };
        proof {
            assert(p@.blocks =~= Seq::<BlockView>::empty());
        }
        p
    }

    /// Appends an empty instruction block labeled by `label`.
    pub fn new_block(&mut self, label: &str)
        requires
            old(self).wf(),
        ensures
            final(self).wf(),
            final(self)@.blocks == old(self)@.blocks.push(
                BlockView { label: label@, instrs: Seq::empty() },
            ),
            final(self).blocks@.len() == old(self).blocks@.len() + 1,
            final(self).offset == old(self).offset,
            final(self).entry_point == old(self).entry_point,
            final(self).spec_len() == old(self).spec_len(),
    {
        let block = ProgramBlock { label: label.to_owned(), len: 0, instrs: Vec::new() };
        proof {
            assert(block@.instrs =~= Seq::<InstrView>::empty());
        }
        self.blocks.push(block);
        proof {
            assert(self@.blocks =~= old(self)@.blocks.push(
                BlockView { label: label@, instrs: Seq::empty() },
            ));
            lemma_blocks_len_push(
                old(self)@.blocks,
                BlockView { label: label@, instrs: Seq::empty() },
            );
        }
    }

    /// Pushes an instruction onto the block at the given index.
    pub fn push_instr(&mut self, idx: usize, instr: Instruction)
        requires
            old(self).wf(),
            idx < old(self).blocks@.len(),
            old(self).spec_len() + instr_len(instr@) <= u32::MAX,
        ensures
            final(self).wf(),
            final(self)@.blocks == old(self)@.blocks.update(
                idx as int,
                BlockView {
                    label: old(self)@.blocks[idx as int].label,
                    instrs: old(self)@.blocks[idx as int].instrs.push(instr@),
                },
            ),
            final(self).offset == old(self).offset,
            final(self).entry_point == old(self).entry_point,
            final(self).spec_len() == old(self).spec_len() + instr_len(instr@),
    {
        proof {
            lemma_block_len_le_total(self@.blocks, idx as int);
            lemma_blocks_len_split(self@.blocks, idx as int);
            assert(self.blocks@[idx as int]@ == self@.blocks[idx as int]);
        }
        self.blocks[idx].push(instr);
        proof {
            let bv = BlockView {
                label: old(self)@.blocks[idx as int].label,
                instrs: old(self)@.blocks[idx as int].instrs.push(instr@),
            };
            assert(self@.blocks =~= old(self)@.blocks.update(idx as int, bv));
            lemma_blocks_len_update(old(self)@.blocks, idx as int, bv);
            lemma_instrs_len_push(old(self)@.blocks[idx as int].instrs, instr@);
        }
    }

    /// Gets the length of the program in bytes.
    pub fn len(&self) -> (r: usize)
        requires
            self.wf(),
        ensures
            r == self.spec_len(),
    {
        let mut total: usize = 0;
        let n = self.blocks.len();
        let mut i: usize = 0;
        while i < n
            invariant
                self.wf(),
                n == self.blocks@.len(),
                i <= n,
                total == blocks_len(self@.blocks.take(i as int)),
                total <= self.spec_len(),
            decreases n - i,
        {
            proof {
                lemma_blocks_len_split(self@.blocks, i as int);
                lemma_blocks_len_split(self@.blocks, i + 1);
                assert(self@.blocks.take(i + 1) =~= self@.blocks.take(i as int).push(
                    self@.blocks[i as int],
                ));
                lemma_blocks_len_push(self@.blocks.take(i as int), self@.blocks[i as int]);
                assert(self@.blocks[i as int] == self.blocks@[i as int]@);
            }
            total = total + self.blocks[i].len();
            i = i + 1;
        }
        proof {
            assert(self@.blocks.take(n as int) =~= self@.blocks);
        }
        total
    }

    /// Looks up the address of the start of the block labeled by `label`:
    /// `Some` exactly when a block carries the label, and then the pair of
    /// the resolved file offset and virtual address.
    pub fn get_addr(&self, label: &str) -> (r: Option<Addr>)
        requires
            self.wf(),
        ensures
            r is Some <==> has_label(self@.blocks, label@),
            r matches Some(a) ==> a.addr == resolve_offset(self@, label@) && a.vaddr
                == resolve_vaddr(self@, label@),
    {
        let mut addr = self.offset;
        let n = self.blocks.len();
        let mut i: usize = 0;
        while i < n
            invariant
                self.wf(),
                n == self.blocks@.len(),
                i <= n,
                forall|j: int| 0 <= j < i ==> (#[trigger] self@.blocks[j]).label != label@,
                addr.addr == self.offset.addr + blocks_len(self@.blocks.take(i as int)),
                addr.vaddr == self.offset.vaddr + blocks_len(self@.blocks.take(i as int)),
            decreases n - i,
        {
            proof {
                lemma_blocks_len_split(self@.blocks, i as int);
                assert(self@.blocks.skip(i as int)[0] == self@.blocks[i as int]);
            }
            if string_eq_str(&self.blocks[i].label, label) {
                proof {
                    lemma_label_offset_split(self@.blocks, label@, i as int);
                }
                return Some(addr);
            }
            proof {
                lemma_blocks_len_split(self@.blocks, i + 1);
                assert(self@.blocks.take(i + 1) =~= self@.blocks.take(i as int).push(
                    self@.blocks[i as int],
                ));
                lemma_blocks_len_push(self@.blocks.take(i as int), self@.blocks[i as int]);
                assert(self.blocks@[i as int].len == block_len(self@.blocks[i as int]));
            }
            let l = self.blocks[i].len;
            addr = addr.advanced(l as u64);
            i = i + 1;
        }
        proof {
            lemma_label_offset_split(self@.blocks, label@, n as int);
            assert(self@.blocks.skip(n as int) =~= Seq::<BlockView>::empty());
        }
        None
    }

    /// Resolves `label` and records it as the program's entry point; an
    /// unknown label falls back to the zero address.
    pub fn set_entrypoint(&mut self, label: &str)
        requires
            old(self).wf(),
        ensures
            final(self).wf(),
            final(self).offset == old(self).offset,
            final(self)@.blocks == old(self)@.blocks,
            has_label(old(self)@.blocks, label@) ==> final(self).entry_point.addr
                == resolve_offset(old(self)@, label@) && final(self).entry_point.vaddr
                == resolve_vaddr(old(self)@, label@),
            !has_label(old(self)@.blocks, label@) ==> final(self).entry_point.addr == 0
                && final(self).entry_point.vaddr == 0,
    {
        let addr = match self.get_addr(label) {
            Some(a) => a,
            None => Addr::zero(),
        };
        self.entry_point = addr;
    }
}

/// Replacing one block changes the total by the difference of the block
/// lengths.
pub proof fn lemma_blocks_len_update(s: Seq<BlockView>, i: int, b: BlockView)
    requires
        0 <= i < s.len(),
    ensures
        blocks_len(s.update(i, b)) == blocks_len(s) - block_len(s[i]) + block_len(b),
    decreases s.len(),
{
    if i == 0 {
        assert(s.update(0, b).drop_first() =~= s.drop_first());
    } else {
        assert(s.update(i, b).drop_first() =~= s.drop_first().update(i - 1, b));
        lemma_blocks_len_update(s.drop_first(), i - 1, b);
    }
}

/// One block's length is at most the total.
pub proof fn lemma_block_len_le_total(s: Seq<BlockView>, i: int)
    requires
        0 <= i < s.len(),
    ensures
        block_len(s[i]) <= blocks_len(s),
    decreases s.len(),
{
    if i == 0 {
    } else {
        lemma_block_len_le_total(s.drop_first(), i - 1);
    }
}


/// The concatenated encodings of a sequence of instructions laid out one
/// after another starting at file offset `cur`; each instruction is encoded
/// against the address immediately after it.
pub open spec fn instrs_bytes(s: Seq<InstrView>, p: ProgramView, cur: int) -> Seq<u8>
    decreases s.len(),
{
    if s.len() == 0 {
        Seq::empty()
    } else {
        instr_bytes(s[0], p, cur + instr_len(s[0])) + instrs_bytes(
            s.drop_first(),
            p,
            cur + instr_len(s[0]),
        )
    }
}

/// The concatenated encodings of a sequence of blocks starting at file
/// offset `cur`.
pub open spec fn blocks_bytes(s: Seq<BlockView>, p: ProgramView, cur: int) -> Seq<u8>
    decreases s.len(),
{
    if s.len() == 0 {
        Seq::empty()
    } else {
        instrs_bytes(s[0].instrs, p, cur) + blocks_bytes(s.drop_first(), p, cur + block_len(s[0]))
    }
}

/// The loadable segment: the concatenation of every block's encoded bytes in
/// declaration order, starting at the program's load offset.
pub open spec fn program_bytes(p: ProgramView) -> Seq<u8> {
    blocks_bytes(p.blocks, p, p.offset.addr as int)
}

/// Emitting instructions emits exactly their summed lengths.
pub proof fn lemma_instrs_bytes_len(s: Seq<InstrView>, p: ProgramView, cur: int)
    ensures
        instrs_bytes(s, p, cur).len() == instrs_len(s),
    decreases s.len(),
{
    if s.len() == 0 {
    } else {
        lemma_instr_bytes_len(s[0], p, cur + instr_len(s[0]));
        lemma_instrs_bytes_len(s.drop_first(), p, cur + instr_len(s[0]));
    }
}

/// Emitting blocks emits exactly their summed lengths.
pub proof fn lemma_blocks_bytes_len(s: Seq<BlockView>, p: ProgramView, cur: int)
    ensures
        blocks_bytes(s, p, cur).len() == blocks_len(s),
    decreases s.len(),
{
    if s.len() == 0 {
    } else {
        lemma_instrs_bytes_len(s[0].instrs, p, cur);
        lemma_blocks_bytes_len(s.drop_first(), p, cur + block_len(s[0]));
    }
}

/// Appending one instruction appends its encoding, taken against the address
/// just past it.
pub proof fn lemma_instrs_bytes_push(s: Seq<InstrView>, i: InstrView, p: ProgramView, cur: int)
    ensures
        instrs_bytes(s.push(i), p, cur) == instrs_bytes(s, p, cur) + instr_bytes(
            i,
            p,
            cur + instrs_len(s) + instr_len(i),
        ),
    decreases s.len(),
{
    if s.len() == 0 {
        assert(s.push(i).drop_first() =~= Seq::<InstrView>::empty());
        assert(s.push(i)[0] == i);
        assert(instrs_len(s) == 0);
        assert(instrs_bytes(s, p, cur) =~= Seq::<u8>::empty());
        assert(instrs_bytes(Seq::<InstrView>::empty(), p, cur + instr_len(i))
            =~= Seq::<u8>::empty());
        assert(instrs_bytes(s.push(i), p, cur) =~= instrs_bytes(s, p, cur) + instr_bytes(
            i,
            p,
            cur + instrs_len(s) + instr_len(i),
        ));
    } else {
        assert(s.push(i).drop_first() =~= s.drop_first().push(i));
        assert(s.push(i)[0] == s[0]);
        assert(instrs_len(s) == instr_len(s[0]) + instrs_len(s.drop_first()));
        lemma_instrs_bytes_push(s.drop_first(), i, p, cur + instr_len(s[0]));
        assert(instrs_bytes(s.push(i), p, cur) =~= instrs_bytes(s, p, cur) + instr_bytes(
            i,
            p,
            cur + instrs_len(s) + instr_len(i),
        ));
    }
}

/// Appending one block appends its instruction encodings, laid out after all
/// preceding blocks.
pub proof fn lemma_blocks_bytes_push(s: Seq<BlockView>, b: BlockView, p: ProgramView, cur: int)
    ensures
        blocks_bytes(s.push(b), p, cur) == blocks_bytes(s, p, cur) + instrs_bytes(
            b.instrs,
            p,
            cur + blocks_len(s),
        ),
    decreases s.len(),
{
    if s.len() == 0 {
        assert(s.push(b).drop_first() =~= Seq::<BlockView>::empty());
        assert(s.push(b)[0] == b);
        assert(blocks_len(s) == 0);
        assert(blocks_bytes(s, p, cur) =~= Seq::<u8>::empty());
        assert(blocks_bytes(Seq::<BlockView>::empty(), p, cur + block_len(b))
            =~= Seq::<u8>::empty());
        assert(blocks_bytes(s.push(b), p, cur) =~= blocks_bytes(s, p, cur) + instrs_bytes(
            b.instrs,
            p,
            cur + blocks_len(s),
        ));
    } else {
        assert(s.push(b).drop_first() =~= s.drop_first().push(b));
        assert(s.push(b)[0] == s[0]);
        assert(blocks_len(s) == block_len(s[0]) + blocks_len(s.drop_first()));
        lemma_blocks_bytes_push(s.drop_first(), b, p, cur + block_len(s[0]));
        assert(blocks_bytes(s.push(b), p, cur) =~= blocks_bytes(s, p, cur) + instrs_bytes(
            b.instrs,
            p,
            cur + blocks_len(s),
        ));
    }
}

/// The summed instruction length splits at any index.
pub proof fn lemma_instrs_len_split(s: Seq<InstrView>, i: int)
    requires
        0 <= i <= s.len(),
    ensures
        instrs_len(s) == instrs_len(s.take(i)) + instrs_len(s.skip(i)),
    decreases i,
{
    if i == 0 {
        assert(s.take(0) =~= Seq::<InstrView>::empty());
        assert(s.skip(0) =~= s);
    } else {
        lemma_instrs_len_split(s, i - 1);
        lemma_instrs_len_push(s.take(i - 1), s[i - 1]);
        assert(s.take(i) =~= s.take(i - 1).push(s[i - 1]));
        assert(s.skip(i - 1)[0] == s[i - 1]);
        assert(s.skip(i - 1).drop_first() =~= s.skip(i));
        assert(instrs_len(s.skip(i - 1)) == instr_len(s[i - 1]) + instrs_len(s.skip(i)));
    }
}


impl Program {
    /// Converts the program into its loadable segment: every block's encoded
    /// bytes concatenated in declaration order.
    pub fn as_vec(&self) -> (r: Vec<u8>)
        requires
            self.wf(),
        ensures
            r@ == program_bytes(self@),
            r@.len() == self.spec_len(),
    {
        let ghost off0: int = self.offset.addr as int;
        let mut addr = self.offset;
        let mut dump: Vec<u8> = Vec::new();
        let nb = self.blocks.len();
        let mut bi: usize = 0;
        proof {
            assert(self@.blocks.take(0) =~= Seq::<BlockView>::empty());
        }
        while bi < nb
            invariant
                self.wf(),
                nb == self.blocks@.len(),
                bi <= nb,
                off0 == self.offset.addr as int,
                addr.addr == self.offset.addr + blocks_len(self@.blocks.take(bi as int)),
                addr.vaddr == self.offset.vaddr + blocks_len(self@.blocks.take(bi as int)),
                dump@ == blocks_bytes(self@.blocks.take(bi as int), self@, off0),
                dump@.len() == blocks_len(self@.blocks.take(bi as int)),
            decreases nb - bi,
        {
            proof {
                lemma_blocks_len_split(self@.blocks, bi as int);
            }
            let ghost bstart: int = self.offset.addr as int + blocks_len(
                self@.blocks.take(bi as int),
            );
            let ni = self.blocks[bi].instrs.len();
            let mut ii: usize = 0;
            proof {
                assert(self@.blocks[bi as int] == self.blocks@[bi as int]@);
                assert(self@.blocks[bi as int].instrs.take(0) =~= Seq::<InstrView>::empty());
                lemma_instrs_len_split(self@.blocks[bi as int].instrs, 0);
            }
            while ii < ni
                invariant
                    self.wf(),
                    nb == self.blocks@.len(),
                    bi < nb,
                    ni == self@.blocks[bi as int].instrs.len(),
                    ii <= ni,
                    bstart == self.offset.addr + blocks_len(self@.blocks.take(bi as int)),
                    off0 == self.offset.addr as int,
                    addr.addr == bstart + instrs_len(self@.blocks[bi as int].instrs.take(ii as int)),
                    addr.vaddr == self.offset.vaddr + blocks_len(self@.blocks.take(bi as int))
                        + instrs_len(self@.blocks[bi as int].instrs.take(ii as int)),
                    dump@ == blocks_bytes(self@.blocks.take(bi as int), self@, off0)
                        + instrs_bytes(
                        self@.blocks[bi as int].instrs.take(ii as int),
                        self@,
                        bstart,
                    ),
                decreases ni - ii,
            {
                let ghost instrs = self@.blocks[bi as int].instrs;
                proof {
                    assert(self@.blocks[bi as int] == self.blocks@[bi as int]@);
                    assert(instrs[ii as int] == self.blocks@[bi as int].instrs@[ii as int]@);
                    lemma_instrs_len_split(instrs, ii as int);
                    lemma_instrs_len_split(instrs, ii + 1);
                    assert(instrs.take(ii + 1) =~= instrs.take(ii as int).push(instrs[ii as int]));
                    lemma_instrs_len_push(instrs.take(ii as int), instrs[ii as int]);
                    lemma_blocks_len_split(self@.blocks, bi as int);
                    lemma_block_len_le_total(self@.blocks, bi as int);
                    assert(instrs_len(instrs.take(ii + 1)) <= instrs_len(instrs));
                }
                let instr = &self.blocks[bi].instrs[ii];
                let l = instr.len();
                addr = addr.advanced(l as u64);
                let enc = self.encode_instruction(instr, addr);
                dump.extend_from_slice(enc.as_slice());
                proof {
                    lemma_instrs_bytes_push(instrs.take(ii as int), instrs[ii as int], self@, bstart);
                }
                ii = ii + 1;
            }
            proof {
                let instrs = self@.blocks[bi as int].instrs;
                assert(instrs.take(ni as int) =~= instrs);
                assert(self@.blocks.take(bi + 1) =~= self@.blocks.take(bi as int).push(
                    self@.blocks[bi as int],
                ));
                lemma_blocks_bytes_push(
                    self@.blocks.take(bi as int),
                    self@.blocks[bi as int],
                    self@,
                    off0,
                );
                lemma_blocks_len_push(self@.blocks.take(bi as int), self@.blocks[bi as int]);
                lemma_blocks_bytes_len(self@.blocks.take(bi + 1), self@, off0);
            }
            bi = bi + 1;
        }
        proof {
            assert(self@.blocks.take(nb as int) =~= self@.blocks);
        }
        dump
    }
}

} // verus!
