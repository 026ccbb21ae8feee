//! Machine-code data model: operands, instructions, blocks, functions and
//! modules over virtual registers, stack slots, immediates and labels.
//!
//! A memory operand is always a fixed window of five operands:
//! `[MemStart, immediate offset, base, index-or-Empty, scale-or-Empty]`.
//! The base starts as a raw stack-slot reference and is resolved to a
//! register and offset before printing.

use vstd::prelude::*;

use crate::x64::MachOpcode;
use crate::x64::Reg;
use crate::x64::base_reg_spec;

verus! {

/// One machine operand: a physical or virtual register, an immediate, a
/// stack-slot reference, a basic-block reference, a function-label
/// reference (by function index in the machine module), the sentinel that
/// starts a memory-operand window, or the explicit `Empty` placeholder
/// that pads a fixed-arity window.
#[derive(Clone, Copy, PartialEq, Eq, Structural, Debug)]
pub enum OperandData {
    Reg(Reg),
    VReg(u32),
    Slot(u32),
    Int32(i32),
    Block(u32),
    Label(u32),
    MemStart,
    Empty,
}

/// An operand together with its implicit mark. Implicit operands encode a
/// fixed register (such as a return-value register); they are kept for
/// correctness but skipped during textual rendering.
#[derive(Clone, Copy, PartialEq, Eq, Structural, Debug)]
pub struct Operand {
    pub data: OperandData,
    pub implicit: bool,
}

/// An explicit (printed) operand.
pub open spec fn exop(d: OperandData) -> Operand {
    Operand { data: d, implicit: false }
}

/// An implicit (unprinted) operand.
pub open spec fn imop(d: OperandData) -> Operand {
    Operand { data: d, implicit: true }
}

#[verifier::ext_equal]
/// Mathematical model of one machine instruction: its opcode and the
/// sequence of its operands.
pub ghost struct MachInstV {
    pub opcode: MachOpcode,
    pub ops: Seq<Operand>,
}

/// One machine instruction: a target opcode and its ordered operand list.
#[derive(Debug)]
pub struct MachInstruction {
    pub opcode: MachOpcode,
    pub operands: Vec<Operand>,
}

impl View for MachInstruction {
    type V = MachInstV;

    open spec fn view(&self) -> MachInstV {
        MachInstV { opcode: self.opcode, ops: self.operands@ }
    }
}

/// View of a sequence of machine instructions.
pub open spec fn insts_view(v: Seq<MachInstruction>) -> Seq<MachInstV> {
    v.map_values(|m: MachInstruction| m@)
}

/// One machine basic block: its instructions in program order.
#[derive(Debug)]
pub struct MachBlock {
    pub insts: Vec<MachInstruction>,
}

impl View for MachBlock {
    type V = Seq<MachInstV>;

    open spec fn view(&self) -> Seq<MachInstV> {
        insts_view(self.insts@)
    }
}

#[verifier::ext_equal]
/// Mathematical model of one machine function.
pub ghost struct MachFuncV {
    pub name: Seq<char>,
    pub blocks: Seq<Seq<MachInstV>>,
}

/// One machine function: its name and its basic blocks in layout order.
#[derive(Debug)]
pub struct MachFunction {
    pub name: String,
    pub blocks: Vec<MachBlock>,
}

impl View for MachFunction {
    type V = MachFuncV;

    open spec fn view(&self) -> MachFuncV {
        MachFuncV {
            name: self.name@,
            blocks: self.blocks@.map_values(|b: MachBlock| b@),
        }
    }
}

/// A whole machine module: its functions, in the order of the source
/// module's functions.
#[derive(Debug)]
pub struct MachModule {
    pub functions: Vec<MachFunction>,
}

impl View for MachModule {
    type V = Seq<MachFuncV>;

    open spec fn view(&self) -> Seq<MachFuncV> {
        self.functions@.map_values(|f: MachFunction| f@)
    }
}

/// The unresolved memory window for stack slot `s`: sentinel, zero offset,
/// the raw slot reference as base, and two padding placeholders.
pub open spec fn window_spec(s: u32) -> Seq<Operand> {
    seq![
        exop(OperandData::MemStart),
        exop(OperandData::Int32(0)),
        exop(OperandData::Slot(s)),
        exop(OperandData::Empty),
        exop(OperandData::Empty),
    ]
}

/// The resolved memory window for stack slot `s`: the base register with
/// the slot's frame offset.
pub open spec fn resolved_window_spec(s: u32) -> Seq<Operand>
    recommends
        s < 0x1000_0000,
{
    seq![
        exop(OperandData::MemStart),
        exop(OperandData::Int32((-(4 * (s + 1))) as i32)),
        exop(OperandData::Reg(base_reg_spec())),
        exop(OperandData::Empty),
        exop(OperandData::Empty),
    ]
}

/// Whether the operand at `p` starts a well-formed memory window: five
/// operands, an immediate offset, a base that is a register or a raw slot,
/// an optional index register with an immediate scale, all explicit.
pub open spec fn window_wf_at(ops: Seq<Operand>, p: int) -> bool {
    &&& p + 5 <= ops.len()
    &&& ops[p + 1].data is Int32 && !ops[p + 1].implicit
    &&& (ops[p + 2].data is Reg || ops[p + 2].data is Slot) && !ops[p + 2].implicit
    &&& {
        ||| (ops[p + 3].data is Empty && ops[p + 4].data is Empty)
        ||| (ops[p + 3].data is Reg && ops[p + 4].data is Int32)
    }
    &&& !ops[p + 3].implicit && !ops[p + 4].implicit
}

/// Whether every memory sentinel in the operand list starts a well-formed
/// window. The shape of each window keeps any two sentinels at least five
/// positions apart, so windows never overlap.
pub open spec fn inst_windows_wf(ops: Seq<Operand>) -> bool {
    forall|p: int|
        0 <= p < ops.len() && ops[p].data is MemStart ==> #[trigger] window_wf_at(ops, p)
}

/// Every printed memory operand is one five-element window, so distinct
/// sentinels stand at least five positions apart: no two windows share an
/// operand.
pub proof fn lemma_windows_disjoint(ops: Seq<Operand>, p: int, q: int)
    requires
        inst_windows_wf(ops),
        0 <= p < q < ops.len(),
        ops[p].data is MemStart,
        ops[q].data is MemStart,
    ensures
        q >= p + 5,
{
    assert(window_wf_at(ops, p));
}


/// The operand at `p` after slot resolution. A raw slot reference that is
/// the base of a memory window (the sentinel stands two before it) becomes
/// the base register; the window's offset immediate (right after a
/// sentinel, with a raw slot base following) becomes the slot's frame
/// offset. Every other operand, a merge-point slot reference included,
/// is unchanged.
pub open spec fn resolve_at(ops: Seq<Operand>, p: int) -> Operand {
    let o = ops[p];
    if o.data matches OperandData::Slot(s) && p >= 2 && ops[p - 2].data is MemStart && s
        < 0x1000_0000 {
        Operand { data: OperandData::Reg(base_reg_spec()), implicit: o.implicit }
    } else if o.data is Int32 && 1 <= p && p + 1 < ops.len() && ops[p - 1].data is MemStart
        && ops[p + 1].data is Slot && ops[p + 1].data->Slot_0 < 0x1000_0000 {
        Operand {
            data: OperandData::Int32((-(4 * (ops[p + 1].data->Slot_0 + 1))) as i32),
            implicit: o.implicit,
        }
    } else {
        o
    }
}

/// An operand list after slot resolution.
pub open spec fn resolve_ops_spec(ops: Seq<Operand>) -> Seq<Operand> {
    Seq::new(ops.len(), |p: int| resolve_at(ops, p))
}

/// An instruction after slot resolution.
pub open spec fn resolve_inst_v(iv: MachInstV) -> MachInstV {
    MachInstV { opcode: iv.opcode, ops: resolve_ops_spec(iv.ops) }
}

/// A block after slot resolution.
pub open spec fn resolve_block_v(b: Seq<MachInstV>) -> Seq<MachInstV> {
    b.map_values(|iv: MachInstV| resolve_inst_v(iv))
}

/// A function after slot resolution.
pub open spec fn resolve_func_v(f: MachFuncV) -> MachFuncV {
    MachFuncV { name: f.name, blocks: f.blocks.map_values(|b: Seq<MachInstV>| resolve_block_v(b)) }
}

/// A module after slot resolution.
pub open spec fn resolve_module_view(m: Seq<MachFuncV>) -> Seq<MachFuncV> {
    m.map_values(|f: MachFuncV| resolve_func_v(f))
}

/// Resolve the raw slot references of one operand list.
pub fn resolve_operands(ops: &Vec<Operand>) -> (r: Vec<Operand>)
    ensures
        r@ == resolve_ops_spec(ops@),
{
    let mut r: Vec<Operand> = Vec::new();
    let mut p: usize = 0;
    while p < ops.len()
        invariant
            p <= ops@.len(),
            r@.len() == p,
            forall|j: int| 0 <= j < p ==> #[trigger] r@[j] == resolve_at(ops@, j),
        decreases ops@.len() - p,
    {
        let o = ops[p];
        let mut done = false;
        if let OperandData::Slot(s) = o.data {
            if p >= 2 && s < 0x1000_0000 {
                if let OperandData::MemStart = ops[p - 2].data {
                    r.push(Operand { data: OperandData::Reg(base_reg()), implicit: o.implicit });
                    done = true;
                }
            }
        }
        if !done {
            if let OperandData::Int32(_) = o.data {
                if p >= 1 && p + 1 < ops.len() {
                    if let OperandData::MemStart = ops[p - 1].data {
                        if let OperandData::Slot(s) = ops[p + 1].data {
                            if s < 0x1000_0000 {
                                let off: i32 = -(((s + 1) * 4) as i32);
                                proof {
                                    assert(off as int == -(4 * (s + 1)));
                                }
                                r.push(
                                    Operand { data: OperandData::Int32(off), implicit: o.implicit },
                                );
                                done = true;
                            }
                        }
                    }
                }
            }
        }
        if !done {
            r.push(o);
        }
        proof {
            assert(r@[p as int] == resolve_at(ops@, p as int));
        }
        p = p + 1;
    }
    proof {
        assert(r@ =~= resolve_ops_spec(ops@));
    }
    r
}

/// The base register of resolved stack slots.
pub fn base_reg() -> (r: Reg)
    ensures
        r == base_reg_spec(),
{
    Reg(1, 5)
}

/// Resolve the raw slot references of one instruction.
pub fn resolve_inst(i: &MachInstruction) -> (r: MachInstruction)
    ensures
        r@ == resolve_inst_v(i@),
{
    MachInstruction { opcode: i.opcode, operands: resolve_operands(&i.operands) }
}

/// Resolve the raw slot references of one block.
pub fn resolve_block(b: &MachBlock) -> (r: MachBlock)
    ensures
        r@ == resolve_block_v(b@),
{
    let mut insts: Vec<MachInstruction> = Vec::new();
    let mut j: usize = 0;
    while j < b.insts.len()
        invariant
            j <= b.insts@.len(),
            insts@.len() == j,
            forall|i: int| 0 <= i < j ==> #[trigger] insts@[i]@ == resolve_inst_v(b.insts@[i]@),
        decreases b.insts@.len() - j,
    {
        insts.push(resolve_inst(&b.insts[j]));
        j = j + 1;
    }
    let r = MachBlock { insts };
    proof {
        assert(r@ =~= resolve_block_v(b@));
    }
    r
}

/// Resolve the raw slot references of one function.
pub fn resolve_function(f: &MachFunction) -> (r: MachFunction)
    ensures
        r@ == resolve_func_v(f@),
{
    let mut blocks: Vec<MachBlock> = Vec::new();
    let mut j: usize = 0;
    while j < f.blocks.len()
        invariant
            j <= f.blocks@.len(),
            blocks@.len() == j,
            forall|i: int| 0 <= i < j ==> #[trigger] blocks@[i]@ == resolve_block_v(f.blocks@[i]@),
        decreases f.blocks@.len() - j,
    {
        blocks.push(resolve_block(&f.blocks[j]));
        j = j + 1;
    }
    let r = MachFunction { name: f.name.clone(), blocks };
    proof {
        assert(r@.blocks =~= resolve_func_v(f@).blocks);
        assert(r@ =~~= resolve_func_v(f@));
    }
    r
}

/// Resolve the raw slot references of a whole module: every stack slot
/// used as a memory-window base becomes a base-register plus frame-offset
/// pair, which the printer requires.
pub fn resolve_module(m: &MachModule) -> (r: MachModule)
    ensures
        r@ == resolve_module_view(m@),
{
    let mut functions: Vec<MachFunction> = Vec::new();
    let mut j: usize = 0;
    while j < m.functions.len()
        invariant
            j <= m.functions@.len(),
            functions@.len() == j,
            forall|i: int| 0 <= i < j ==> #[trigger] functions@[i]@ == resolve_func_v(
                m.functions@[i]@,
            ),
        decreases m.functions@.len() - j,
    {
        functions.push(resolve_function(&m.functions[j]));
        j = j + 1;
    }
    let r = MachModule { functions };
    proof {
        assert(r@ =~= resolve_module_view(m@));
    }
    r
}


/// Slot resolution preserves structure: a function keeps its name, its
/// block count, and every block its instruction count and each
/// instruction its opcode and operand count — resolution only rewrites
/// window bases and offsets in place.
pub proof fn lemma_resolve_preserves_structure(f: MachFuncV)
    ensures
        resolve_func_v(f).name == f.name,
        resolve_func_v(f).blocks.len() == f.blocks.len(),
        forall|b: int|
            0 <= b < f.blocks.len() ==> #[trigger] resolve_func_v(f).blocks[b].len()
                == f.blocks[b].len(),
        forall|b: int, j: int|
            0 <= b < f.blocks.len() && 0 <= j < f.blocks[b].len() ==> {
                &&& (#[trigger] resolve_func_v(f).blocks[b][j]).opcode == f.blocks[b][j].opcode
                &&& resolve_func_v(f).blocks[b][j].ops.len() == f.blocks[b][j].ops.len()
            },
{
}


/// Resolution acts on whole windows: an unresolved window for slot `s`
/// becomes exactly the resolved window — same sentinel and padding, the
/// base register in place of the raw slot, the slot's frame offset in
/// place of the zero offset.
pub proof fn lemma_resolve_window(ops: Seq<Operand>, p: int, s: u32)
    requires
        0 <= p,
        p + 5 <= ops.len(),
        s < 0x1000_0000,
        ops.subrange(p, p + 5) =~= window_spec(s),
    ensures
        resolve_ops_spec(ops).subrange(p, p + 5) =~= resolved_window_spec(s),
{
    assert(ops[p] == ops.subrange(p, p + 5)[0]);
    assert(ops[p + 1] == ops.subrange(p, p + 5)[1]);
    assert(ops[p + 2] == ops.subrange(p, p + 5)[2]);
    assert(ops[p + 3] == ops.subrange(p, p + 5)[3]);
    assert(ops[p + 4] == ops.subrange(p, p + 5)[4]);
    assert(resolve_at(ops, p) == exop(OperandData::MemStart));
    assert(resolve_at(ops, p + 1) == exop(OperandData::Int32((-(4 * (s + 1))) as i32)));
    assert(resolve_at(ops, p + 2) == exop(OperandData::Reg(base_reg_spec())));
    assert(resolve_at(ops, p + 3) == exop(OperandData::Empty));
    assert(resolve_at(ops, p + 4) == exop(OperandData::Empty));
}

} // verus!
