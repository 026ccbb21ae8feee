//! Instruction selection: the per-opcode lowering rules that turn each IR
//! instruction into a sequence of machine instructions over virtual
//! registers and stack slots.
//!
//! Every value-producing IR instruction stores its result into a fresh
//! stack slot; the instruction-to-slot map is the def-use bridge that lets
//! later instructions reach earlier results. A rule that recognizes a
//! literal constant operand takes precedence over the generic
//! register-indexed rule.

use vstd::prelude::*;

use crate::fxmap::slot_map_get;
use crate::fxmap::slot_map_insert;
use crate::ir::Function;
use crate::ir::Instruction;
use crate::ir::Opcode;
use crate::ir::Value;
use crate::mach::MachBlock;
use crate::mach::MachFunction;
use crate::mach::MachFuncV;
use crate::mach::MachInstV;
use crate::mach::MachModule;
use crate::mach::MachInstruction;
use crate::mach::Operand;
use crate::mach::OperandData;
use crate::mach::exop;
use crate::mach::imop;
use crate::mach::insts_view;
use crate::mach::window_spec;
use crate::types::i32_ty;
use crate::types::void_ty;
use crate::x64::MachOpcode;
use crate::x64::Reg;
use crate::x64::SystemV;
use crate::x64::X86_64;
use crate::x64::param_reg32_spec;
use crate::x64::ret_reg32_spec;

verus! {

/// The per-function stack-slot allocator: hands out unique slot ids.
pub struct Slots {
    pub next: u32,
}

impl Slots {
    pub fn new() -> (r: Slots)
        ensures
            r.next == 0u32,
    {
        Slots { next: 0 }
    }

    /// Allocate a fresh slot id, distinct from every id handed out before.
    pub fn allocate(&mut self) -> (s: u32)
        requires
            old(self).next < 0xFFFF_FFFFu32,
        ensures
            s == old(self).next,
            final(self).next == old(self).next + 1,
    {
        let s = self.next;
        self.next = self.next + 1;
        s
    }
}

/// Mathematical state of lowering one function: the next fresh stack slot,
/// the mapping from IR instruction id to the slot holding its result, the
/// next fresh virtual register, and the two counts selection checks
/// references against: functions in the module and blocks in this function.
#[verifier::ext_equal]
pub ghost struct LowerSt {
    pub next_slot: u32,
    pub slot_of: Map<u32, u32>,
    pub next_vreg: u32,
    pub num_funcs: nat,
    pub num_blocks: nat,
}

/// Per-function mutable lowering state: the slot allocator, the
/// instruction-to-slot map bridging IR results to machine locations, the
/// virtual-register counter, and the position (function and block index)
/// used to locate failures.
pub struct LoweringContext {
    pub slots: Slots,
    pub inst_id_to_slot_id: rustc_hash::FxHashMap<u32, u32>,
    pub next_vreg: u32,
    pub num_functions: usize,
    pub num_blocks: usize,
    pub cur_func: usize,
    pub cur_block: usize,
}

impl View for LoweringContext {
    type V = LowerSt;

    open spec fn view(&self) -> LowerSt {
        LowerSt {
            next_slot: self.slots.next,
            slot_of: self.inst_id_to_slot_id@,
            next_vreg: self.next_vreg,
            num_funcs: self.num_functions as nat,
            num_blocks: self.num_blocks as nat,
        }
    }
}

impl LoweringContext {
    /// A fresh context for one function of a module with `num_functions`
    /// functions and `num_blocks` blocks in this function.
    pub fn new(num_functions: usize, num_blocks: usize, cur_func: usize) -> (r: LoweringContext)
        ensures
            r@ == (LowerSt {
                next_slot: 0u32,
                slot_of: Map::<u32, u32>::empty(),
                next_vreg: 0u32,
                num_funcs: num_functions as nat,
                num_blocks: num_blocks as nat,
            }),
            r.cur_func == cur_func,
            r.cur_block == 0,
    {
        LoweringContext {
            slots: Slots::new(),
            inst_id_to_slot_id: rustc_hash::FxHashMap::default(),
            next_vreg: 0,
            num_functions,
            num_blocks,
            cur_func,
            cur_block: 0,
        }
    }
}

/// Failure of instruction selection: no lowering rule matches the
/// instruction's opcode and operand shape. The opcode and the owning
/// function and block indices identify the gap in the target description.
#[derive(Clone, Copy, PartialEq, Eq, Structural, Debug)]
pub enum LoweringError {
    UnsupportedInstruction { opcode: Opcode, func: usize, block: usize },
}

/// A machine instruction value.
pub open spec fn minst(opcode: MachOpcode, ops: Seq<Operand>) -> MachInstV {
    MachInstV { opcode, ops }
}

/// Whether a value operand can be read in the given state: an immediate
/// always, an earlier instruction's result if a slot holds it, a function
/// parameter if a parameter register is assigned to it.
pub open spec fn val_ok(st: LowerSt, v: Value) -> bool {
    match v {
        Value::Int32(_) => true,
        Value::Inst(id) => st.slot_of.dom().contains(id),
        Value::Arg(i) => i < 6,
    }
}

/// The single instruction that brings a value into virtual register `dst`.
pub open spec fn load_into(st: LowerSt, v: Value, dst: u32) -> MachInstV
    recommends
        val_ok(st, v),
{
    match v {
        Value::Int32(imm) => minst(
            MachOpcode::MOVri32,
            seq![exop(OperandData::VReg(dst)), exop(OperandData::Int32(imm))],
        ),
        Value::Inst(id) => minst(
            MachOpcode::MOVrm32,
            seq![exop(OperandData::VReg(dst))] + window_spec(st.slot_of[id]),
        ),
        Value::Arg(i) => minst(
            MachOpcode::MOVrr32,
            seq![
                exop(OperandData::VReg(dst)),
                exop(OperandData::Reg(param_reg32_spec(i as nat))),
            ],
        ),
    }
}

/// The single instruction that brings a value into physical register `r`.
pub open spec fn load_into_reg(st: LowerSt, v: Value, r: Reg) -> MachInstV
    recommends
        val_ok(st, v),
{
    match v {
        Value::Int32(imm) => minst(
            MachOpcode::MOVri32,
            seq![exop(OperandData::Reg(r)), exop(OperandData::Int32(imm))],
        ),
        Value::Inst(id) => minst(
            MachOpcode::MOVrm32,
            seq![exop(OperandData::Reg(r))] + window_spec(st.slot_of[id]),
        ),
        Value::Arg(i) => minst(
            MachOpcode::MOVrr32,
            seq![
                exop(OperandData::Reg(r)),
                exop(OperandData::Reg(param_reg32_spec(i as nat))),
            ],
        ),
    }
}

/// The operand standing for a merge-point incoming value: an immediate
/// stays an immediate, an instruction result stands as its slot.
pub open spec fn phi_val(st: LowerSt, v: Value) -> Operand {
    match v {
        Value::Int32(imm) => exop(OperandData::Int32(imm)),
        Value::Inst(id) => exop(OperandData::Slot(st.slot_of[id])),
        Value::Arg(i) => exop(OperandData::Reg(param_reg32_spec(i as nat))),
    }
}

/// Whether a merge-point incoming value has a supported shape.
pub open spec fn phi_val_ok(st: LowerSt, v: Value) -> bool {
    match v {
        Value::Int32(_) => true,
        Value::Inst(id) => st.slot_of.dom().contains(id),
        Value::Arg(_) => false,
    }
}

/// The operand list of an emitted merge-point pseudo-instruction after its
/// defined register: incoming value and source block, pairwise.
pub open spec fn phi_args(st: LowerSt, args: Seq<Value>, targets: Seq<u32>) -> Seq<Operand>
    recommends
        args.len() == targets.len(),
{
    Seq::new(
        2 * args.len(),
        |j: int|
            if j % 2 == 0 {
                phi_val(st, args[j / 2])
            } else {
                exop(OperandData::Block(targets[j / 2]))
            },
    )
}

/// Whether every call argument can be read in the given state.
pub open spec fn call_args_ok(st: LowerSt, args: Seq<Value>) -> bool {
    forall|j: int| 0 <= j < args.len() ==> val_ok(st, #[trigger] args[j])
}

/// Whether a merge point's incoming values and source blocks all have
/// supported shapes.
pub open spec fn phi_shape_ok(st: LowerSt, args: Seq<Value>, targets: Seq<u32>) -> bool {
    &&& forall|j: int| 0 <= j < args.len() ==> phi_val_ok(st, #[trigger] args[j])
    &&& forall|j: int| 0 <= j < targets.len() ==> #[trigger] targets[j] < st.num_blocks
}

/// Result of one lowering step: whether a rule matched, the machine
/// instructions it produced, and the state after it.
#[verifier::ext_equal]
pub ghost struct StepRes {
    pub ok: bool,
    pub out: Seq<MachInstV>,
    pub st: LowerSt,
}

/// A step that matched no rule: nothing produced, state unchanged.
pub open spec fn step_fail(st: LowerSt) -> StepRes {
    StepRes { ok: false, out: seq![], st }
}

/// The x86-64 lowering rules: for each IR opcode and operand shape, the
/// machine instructions produced and the state change. Every
/// value-producing rule stores its result into a fresh stack slot and
/// records the slot in the instruction map.
pub open spec fn x64_step(st: LowerSt, inst: Instruction) -> StepRes {
    match inst.opcode {
        Opcode::Alloca => if inst.args@.len() == 0 && inst.ty == i32_ty() {
            StepRes {
                ok: true,
                out: seq![],
                st: LowerSt {
                    next_slot: (st.next_slot + 1) as u32,
                    slot_of: st.slot_of.insert(inst.id, st.next_slot),
                    ..st
                },
            }
        } else {
            step_fail(st)
        },
        Opcode::Store => if inst.args@.len() == 2
            && (inst.args@[1] matches Value::Inst(p) && st.slot_of.dom().contains(p)) {
            let sp = st.slot_of[inst.args@[1]->Inst_0];
            match inst.args@[0] {
                Value::Int32(imm) => StepRes {
                    ok: true,
                    out: seq![
                        minst(
                            MachOpcode::MOVmi32,
                            window_spec(sp) + seq![exop(OperandData::Int32(imm))],
                        ),
                    ],
                    st,
                },
                Value::Inst(q) => if st.slot_of.dom().contains(q) {
                    let v = st.next_vreg;
                    StepRes {
                        ok: true,
                        out: seq![
                            minst(
                                MachOpcode::MOVrm32,
                                seq![exop(OperandData::VReg(v))] + window_spec(st.slot_of[q]),
                            ),
                            minst(
                                MachOpcode::MOVmr32,
                                window_spec(sp) + seq![exop(OperandData::VReg(v))],
                            ),
                        ],
                        st: LowerSt { next_vreg: (st.next_vreg + 1) as u32, ..st },
                    }
                } else {
                    step_fail(st)
                },
                Value::Arg(i) => if i < 6 {
                    StepRes {
                        ok: true,
                        out: seq![
                            minst(
                                MachOpcode::MOVmr32,
                                window_spec(sp)
                                    + seq![exop(OperandData::Reg(param_reg32_spec(i as nat)))],
                            ),
                        ],
                        st,
                    }
                } else {
                    step_fail(st)
                },
            }
        } else {
            step_fail(st)
        },
        Opcode::Load => if inst.args@.len() == 1 && inst.ty == i32_ty()
            && (inst.args@[0] matches Value::Inst(p) && st.slot_of.dom().contains(p)) {
            let sp = st.slot_of[inst.args@[0]->Inst_0];
            let v = st.next_vreg;
            let s = st.next_slot;
            StepRes {
                ok: true,
                out: seq![
                    minst(
                        MachOpcode::MOVrm32,
                        seq![exop(OperandData::VReg(v))] + window_spec(sp),
                    ),
                    minst(
                        MachOpcode::MOVmr32,
                        window_spec(s) + seq![exop(OperandData::VReg(v))],
                    ),
                ],
                st: LowerSt {
                    next_slot: (st.next_slot + 1) as u32,
                    slot_of: st.slot_of.insert(inst.id, s),
                    next_vreg: (st.next_vreg + 1) as u32,
                    ..st
                },
            }
        } else {
            step_fail(st)
        },
        Opcode::Add => if inst.args@.len() == 2 && inst.ty == i32_ty()
            && val_ok(st, inst.args@[0]) && val_ok(st, inst.args@[1]) {
            let v = st.next_vreg;
            let s = st.next_slot;
            let first = load_into(st, inst.args@[0], v);
            let second: Seq<MachInstV> = match inst.args@[1] {
                Value::Int32(imm) => seq![
                    minst(
                        MachOpcode::ADDri32,
                        seq![exop(OperandData::VReg(v)), exop(OperandData::Int32(imm))],
                    ),
                ],
                Value::Inst(q) => seq![
                    minst(
                        MachOpcode::MOVrm32,
                        seq![exop(OperandData::VReg((st.next_vreg + 1) as u32))]
                            + window_spec(st.slot_of[q]),
                    ),
                    minst(
                        MachOpcode::ADDrr32,
                        seq![
                            exop(OperandData::VReg(v)),
                            exop(OperandData::VReg((st.next_vreg + 1) as u32)),
                        ],
                    ),
                ],
                Value::Arg(i) => seq![
                    minst(
                        MachOpcode::ADDrr32,
                        seq![
                            exop(OperandData::VReg(v)),
                            exop(OperandData::Reg(param_reg32_spec(i as nat))),
                        ],
                    ),
                ],
            };
            let used: u32 = if inst.args@[1] is Inst {
                2u32
            } else {
                1u32
            };
            StepRes {
                ok: true,
                out: seq![first] + second + seq![
                    minst(
                        MachOpcode::MOVmr32,
                        window_spec(s) + seq![exop(OperandData::VReg(v))],
                    ),
                ],
                st: LowerSt {
                    next_slot: (st.next_slot + 1) as u32,
                    slot_of: st.slot_of.insert(inst.id, s),
                    next_vreg: (st.next_vreg + used) as u32,
                    ..st
                },
            }
        } else {
            step_fail(st)
        },
        Opcode::Call => if (inst.callee matches Some(k) && k < st.num_funcs)
            && inst.args@.len() <= 6 && call_args_ok(st, inst.args@)
            && (inst.ty == i32_ty() || inst.ty == void_ty()) {
            let k = inst.callee->0;
            let moves = Seq::new(
                inst.args@.len(),
                |j: int| load_into_reg(st, inst.args@[j], param_reg32_spec(j as nat)),
            );
            let call = minst(
                MachOpcode::CALL,
                seq![
                    exop(OperandData::Label(k)),
                    imop(OperandData::Reg(ret_reg32_spec())),
                ],
            );
            if inst.ty == i32_ty() {
                let s = st.next_slot;
                StepRes {
                    ok: true,
                    out: moves + seq![
                        call,
                        minst(
                            MachOpcode::MOVmr32,
                            window_spec(s) + seq![exop(OperandData::Reg(ret_reg32_spec()))],
                        ),
                    ],
                    st: LowerSt {
                        next_slot: (st.next_slot + 1) as u32,
                        slot_of: st.slot_of.insert(inst.id, s),
                        ..st
                    },
                }
            } else {
                StepRes { ok: true, out: moves + seq![call], st }
            }
        } else {
            step_fail(st)
        },
        Opcode::Br => if inst.targets@.len() == 1 && inst.targets@[0] < st.num_blocks {
            StepRes {
                ok: true,
                out: seq![
                    minst(MachOpcode::JMP, seq![exop(OperandData::Block(inst.targets@[0]))]),
                ],
                st,
            }
        } else {
            step_fail(st)
        },
        Opcode::Ret => if inst.args@.len() == 0 {
            StepRes { ok: true, out: seq![minst(MachOpcode::RET, seq![])], st }
        } else if inst.args@.len() == 1 && val_ok(st, inst.args@[0]) {
            StepRes {
                ok: true,
                out: seq![
                    load_into_reg(st, inst.args@[0], ret_reg32_spec()),
                    minst(MachOpcode::RET, seq![imop(OperandData::Reg(ret_reg32_spec()))]),
                ],
                st,
            }
        } else {
            step_fail(st)
        },
        Opcode::Phi => if inst.ty == i32_ty() && inst.args@.len() == inst.targets@.len()
            && inst.args@.len() >= 1 && phi_shape_ok(st, inst.args@, inst.targets@) {
            let v = st.next_vreg;
            let s = st.next_slot;
            StepRes {
                ok: true,
                out: seq![
                    minst(
                        MachOpcode::Phi,
                        seq![exop(OperandData::VReg(v))]
                            + phi_args(st, inst.args@, inst.targets@),
                    ),
                    minst(
                        MachOpcode::MOVmr32,
                        window_spec(s) + seq![exop(OperandData::VReg(v))],
                    ),
                ],
                st: LowerSt {
                    next_slot: (st.next_slot + 1) as u32,
                    slot_of: st.slot_of.insert(inst.id, s),
                    next_vreg: (st.next_vreg + 1) as u32,
                    ..st
                },
            }
        } else {
            step_fail(st)
        },
    }
}

/// The lowering protocol a target backend implements: for each IR
/// instruction, either the machine instructions computing it (with the
/// state change recorded in the context) or the failure that identifies
/// the unsupported opcode and its location. The three specification
/// functions pin the exec method exactly.
pub trait Lower {
    /// Whether some rule of this target matches the instruction in this
    /// state.
    spec fn lowerable(&self, st: LowerSt, inst: Instruction) -> bool;

    /// The machine instructions the matching rule produces.
    spec fn lower_out(&self, st: LowerSt, inst: Instruction) -> Seq<MachInstV>;

    /// The state after the matching rule.
    spec fn next_st(&self, st: LowerSt, inst: Instruction) -> LowerSt;

    /// Lower one IR instruction, appending nothing but returning the
    /// produced machine instructions; the context advances to the next
    /// state exactly when a rule matched.
    fn lower(&self, ctx: &mut LoweringContext, inst: &Instruction) -> (r: Result<
        Vec<MachInstruction>,
        LoweringError,
    >)
        requires
            old(ctx)@.next_slot < 0xFFFF_FFFFu32,
            old(ctx)@.next_vreg < 0xFFFF_FFFEu32,
        ensures
            r is Ok <==> self.lowerable(old(ctx)@, *inst),
            r is Ok ==> insts_view(r->Ok_0@) == self.lower_out(old(ctx)@, *inst),
            r is Ok ==> final(ctx)@ == self.next_st(old(ctx)@, *inst),
            r is Err ==> final(ctx)@ == old(ctx)@,
            r is Err ==> r->Err_0 == (LoweringError::UnsupportedInstruction {
                opcode: inst.opcode,
                func: old(ctx).cur_func,
                block: old(ctx).cur_block,
            }),
            final(ctx)@.next_slot <= old(ctx)@.next_slot + 1,
            final(ctx)@.next_vreg <= old(ctx)@.next_vreg + 2,
            final(ctx)@.num_funcs == old(ctx)@.num_funcs,
            final(ctx)@.num_blocks == old(ctx)@.num_blocks,
            final(ctx).cur_func == old(ctx).cur_func,
            final(ctx).cur_block == old(ctx).cur_block,
    ;
}


/// An explicit operand.
fn op_ex(d: OperandData) -> (r: Operand)
    ensures
        r == exop(d),
{
    Operand { data: d, implicit: false }
}

/// An implicit operand.
fn op_im(d: OperandData) -> (r: Operand)
    ensures
        r == imop(d),
{
    Operand { data: d, implicit: true }
}

fn vec1(a: Operand) -> (v: Vec<Operand>)
    ensures
        v@ == seq![a],
{
    let mut v: Vec<Operand> = Vec::new();
    v.push(a);
    assert(v@ =~= seq![a]);
    v
}

fn vec2(a: Operand, b: Operand) -> (v: Vec<Operand>)
    ensures
        v@ == seq![a, b],
{
    let mut v: Vec<Operand> = Vec::new();
    v.push(a);
    v.push(b);
    assert(v@ =~= seq![a, b]);
    v
}

/// The unresolved memory window for slot `s`.
fn vec_window(s: u32) -> (v: Vec<Operand>)
    ensures
        v@ == window_spec(s),
{
    let mut v: Vec<Operand> = Vec::new();
    v.push(op_ex(OperandData::MemStart));
    v.push(op_ex(OperandData::Int32(0)));
    v.push(op_ex(OperandData::Slot(s)));
    v.push(op_ex(OperandData::Empty));
    v.push(op_ex(OperandData::Empty));
    assert(v@ =~= window_spec(s));
    v
}

/// A register operand followed by the window for slot `s`.
fn vec_pre_window(a: Operand, s: u32) -> (v: Vec<Operand>)
    ensures
        v@ == seq![a] + window_spec(s),
{
    let mut v: Vec<Operand> = Vec::new();
    v.push(a);
    v.push(op_ex(OperandData::MemStart));
    v.push(op_ex(OperandData::Int32(0)));
    v.push(op_ex(OperandData::Slot(s)));
    v.push(op_ex(OperandData::Empty));
    v.push(op_ex(OperandData::Empty));
    assert(v@ =~= seq![a] + window_spec(s));
    v
}

/// The window for slot `s` followed by one more operand.
fn vec_window_plus(s: u32, a: Operand) -> (v: Vec<Operand>)
    ensures
        v@ == window_spec(s) + seq![a],
{
    let mut v = vec_window(s);
    v.push(a);
    assert(v@ =~= window_spec(s) + seq![a]);
    v
}

fn new_inst(opcode: MachOpcode, operands: Vec<Operand>) -> (r: MachInstruction)
    ensures
        r@ == minst(opcode, operands@),
{
    MachInstruction { opcode, operands }
}

/// Whether a value operand can be read in the context's state.
fn val_ok_exec(ctx: &LoweringContext, v: Value) -> (r: bool)
    ensures
        r == val_ok(ctx@, v),
{
    match v {
        Value::Int32(_) => true,
        Value::Inst(id) => slot_map_get(&ctx.inst_id_to_slot_id, id).is_some(),
        Value::Arg(i) => i < 6,
    }
}

/// The instruction bringing a value into virtual register `dst`, when the
/// value can be read.
fn load_value_into_vreg(cc: &SystemV, ctx: &LoweringContext, v: Value, dst: u32) -> (r: Option<
    MachInstruction,
>)
    ensures
        r is Some <==> val_ok(ctx@, v),
        r is Some ==> r->0@ == load_into(ctx@, v, dst),
{
    match v {
        Value::Int32(imm) => Some(
            new_inst(
                MachOpcode::MOVri32,
                vec2(op_ex(OperandData::VReg(dst)), op_ex(OperandData::Int32(imm))),
            ),
        ),
        Value::Inst(id) => match slot_map_get(&ctx.inst_id_to_slot_id, id) {
            Some(s) => Some(
                new_inst(MachOpcode::MOVrm32, vec_pre_window(op_ex(OperandData::VReg(dst)), s)),
            ),
            None => None,
        },
        Value::Arg(i) => if i < 6 {
            let preg = cc.param_reg32(i as usize).unwrap();
            Some(
                new_inst(
                    MachOpcode::MOVrr32,
                    vec2(op_ex(OperandData::VReg(dst)), op_ex(OperandData::Reg(preg))),
                ),
            )
        } else {
            None
        },
    }
}

/// The instruction bringing a value into physical register `dst`, when the
/// value can be read.
fn load_value_into_reg(cc: &SystemV, ctx: &LoweringContext, v: Value, dst: Reg) -> (r: Option<
    MachInstruction,
>)
    ensures
        r is Some <==> val_ok(ctx@, v),
        r is Some ==> r->0@ == load_into_reg(ctx@, v, dst),
{
    match v {
        Value::Int32(imm) => Some(
            new_inst(
                MachOpcode::MOVri32,
                vec2(op_ex(OperandData::Reg(dst)), op_ex(OperandData::Int32(imm))),
            ),
        ),
        Value::Inst(id) => match slot_map_get(&ctx.inst_id_to_slot_id, id) {
            Some(s) => Some(
                new_inst(MachOpcode::MOVrm32, vec_pre_window(op_ex(OperandData::Reg(dst)), s)),
            ),
            None => None,
        },
        Value::Arg(i) => if i < 6 {
            let preg = cc.param_reg32(i as usize).unwrap();
            Some(
                new_inst(
                    MachOpcode::MOVrr32,
                    vec2(op_ex(OperandData::Reg(dst)), op_ex(OperandData::Reg(preg))),
                ),
            )
        } else {
            None
        },
    }
}

/// The failure naming the instruction's opcode and location.
fn unsupported_err(ctx: &LoweringContext, inst: &Instruction) -> (r: LoweringError)
    ensures
        r == (LoweringError::UnsupportedInstruction {
            opcode: inst.opcode,
            func: ctx.cur_func,
            block: ctx.cur_block,
        }),
{
    LoweringError::UnsupportedInstruction {
        opcode: inst.opcode,
        func: ctx.cur_func,
        block: ctx.cur_block,
    }
}

impl Lower for X86_64 {
    open spec fn lowerable(&self, st: LowerSt, inst: Instruction) -> bool {
        x64_step(st, inst).ok
    }

    open spec fn lower_out(&self, st: LowerSt, inst: Instruction) -> Seq<MachInstV> {
        x64_step(st, inst).out
    }

    open spec fn next_st(&self, st: LowerSt, inst: Instruction) -> LowerSt {
        x64_step(st, inst).st
    }

    fn lower(&self, ctx: &mut LoweringContext, inst: &Instruction) -> (r: Result<
        Vec<MachInstruction>,
        LoweringError,
    >) {
        match inst.opcode {
            Opcode::Alloca => {
                if inst.args.len() == 0 && inst.ty.0 == 0 {
                    let s = ctx.slots.allocate();
                    slot_map_insert(&mut ctx.inst_id_to_slot_id, inst.id, s);
                    let out: Vec<MachInstruction> = Vec::new();
                    proof {
                        assert(insts_view(out@) =~~= x64_step(old(ctx)@, *inst).out);
                        assert(ctx@ =~~= x64_step(old(ctx)@, *inst).st);
                    }
                    Ok(out)
                } else {
                    Err(unsupported_err(ctx, inst))
                }
            },
            Opcode::Store => {
                if inst.args.len() != 2 {
                    return Err(unsupported_err(ctx, inst));
                }
                let p = match inst.args[1] {
                    Value::Inst(p) => p,
                    _ => {
                        return Err(unsupported_err(ctx, inst));
                    },
                };
                let sp = match slot_map_get(&ctx.inst_id_to_slot_id, p) {
                    Some(sp) => sp,
                    None => {
                        return Err(unsupported_err(ctx, inst));
                    },
                };
                match inst.args[0] {
                    Value::Int32(imm) => {
                        let mut out: Vec<MachInstruction> = Vec::new();
                        out.push(
                            new_inst(
                                MachOpcode::MOVmi32,
                                vec_window_plus(sp, op_ex(OperandData::Int32(imm))),
                            ),
                        );
                        proof {
                            assert(insts_view(out@) =~~= x64_step(old(ctx)@, *inst).out);
                            assert(ctx@ =~~= x64_step(old(ctx)@, *inst).st);
                        }
                        Ok(out)
                    },
                    Value::Inst(q) => {
                        let sq = match slot_map_get(&ctx.inst_id_to_slot_id, q) {
                            Some(sq) => sq,
                            None => {
                                return Err(unsupported_err(ctx, inst));
                            },
                        };
                        let v = ctx.next_vreg;
                        ctx.next_vreg = ctx.next_vreg + 1;
                        let mut out: Vec<MachInstruction> = Vec::new();
                        out.push(
                            new_inst(
                                MachOpcode::MOVrm32,
                                vec_pre_window(op_ex(OperandData::VReg(v)), sq),
                            ),
                        );
                        out.push(
                            new_inst(
                                MachOpcode::MOVmr32,
                                vec_window_plus(sp, op_ex(OperandData::VReg(v))),
                            ),
                        );
                        proof {
                            assert(insts_view(out@) =~~= x64_step(old(ctx)@, *inst).out);
                            assert(ctx@ =~~= x64_step(old(ctx)@, *inst).st);
                        }
                        Ok(out)
                    },
                    Value::Arg(i) => {
                        if i < 6 {
                            let preg = self.cc.param_reg32(i as usize).unwrap();
                            let mut out: Vec<MachInstruction> = Vec::new();
                            out.push(
                                new_inst(
                                    MachOpcode::MOVmr32,
                                    vec_window_plus(sp, op_ex(OperandData::Reg(preg))),
                                ),
                            );
                            proof {
                                assert(insts_view(out@) =~~= x64_step(old(ctx)@, *inst).out);
                                assert(ctx@ =~~= x64_step(old(ctx)@, *inst).st);
                            }
                            Ok(out)
                        } else {
                            Err(unsupported_err(ctx, inst))
                        }
                    },
                }
            },
            Opcode::Load => {
                if inst.args.len() != 1 || inst.ty.0 != 0 {
                    return Err(unsupported_err(ctx, inst));
                }
                let p = match inst.args[0] {
                    Value::Inst(p) => p,
                    _ => {
                        return Err(unsupported_err(ctx, inst));
                    },
                };
                let sp = match slot_map_get(&ctx.inst_id_to_slot_id, p) {
                    Some(sp) => sp,
                    None => {
                        return Err(unsupported_err(ctx, inst));
                    },
                };
                let v = ctx.next_vreg;
                ctx.next_vreg = ctx.next_vreg + 1;
                let s = ctx.slots.allocate();
                slot_map_insert(&mut ctx.inst_id_to_slot_id, inst.id, s);
                let mut out: Vec<MachInstruction> = Vec::new();
                out.push(
                    new_inst(MachOpcode::MOVrm32, vec_pre_window(op_ex(OperandData::VReg(v)), sp)),
                );
                out.push(
                    new_inst(MachOpcode::MOVmr32, vec_window_plus(s, op_ex(OperandData::VReg(v)))),
                );
                proof {
                    assert(insts_view(out@) =~~= x64_step(old(ctx)@, *inst).out);
                    assert(ctx@ =~~= x64_step(old(ctx)@, *inst).st);
                }
                Ok(out)
            },
            Opcode::Add => {
                if inst.args.len() != 2 || inst.ty.0 != 0 {
                    return Err(unsupported_err(ctx, inst));
                }
                let a = inst.args[0];
                let b = inst.args[1];
                if !val_ok_exec(ctx, a) || !val_ok_exec(ctx, b) {
                    return Err(unsupported_err(ctx, inst));
                }
                let v = ctx.next_vreg;
                let first = load_value_into_vreg(&self.cc, ctx, a, v).unwrap();
                let mut out: Vec<MachInstruction> = Vec::new();
                out.push(first);
                match b {
                    Value::Int32(imm) => {
                        out.push(
                            new_inst(
                                MachOpcode::ADDri32,
                                vec2(op_ex(OperandData::VReg(v)), op_ex(OperandData::Int32(imm))),
                            ),
                        );
                        ctx.next_vreg = ctx.next_vreg + 1;
                    },
                    Value::Inst(q) => {
                        let sq = slot_map_get(&ctx.inst_id_to_slot_id, q).unwrap();
                        out.push(
                            new_inst(
                                MachOpcode::MOVrm32,
                                vec_pre_window(op_ex(OperandData::VReg(v + 1)), sq),
                            ),
                        );
                        out.push(
                            new_inst(
                                MachOpcode::ADDrr32,
                                vec2(op_ex(OperandData::VReg(v)), op_ex(OperandData::VReg(v + 1))),
                            ),
                        );
                        ctx.next_vreg = ctx.next_vreg + 2;
                    },
                    Value::Arg(i) => {
                        let preg = self.cc.param_reg32(i as usize).unwrap();
                        out.push(
                            new_inst(
                                MachOpcode::ADDrr32,
                                vec2(op_ex(OperandData::VReg(v)), op_ex(OperandData::Reg(preg))),
                            ),
                        );
                        ctx.next_vreg = ctx.next_vreg + 1;
                    },
                }
                let s = ctx.slots.allocate();
                slot_map_insert(&mut ctx.inst_id_to_slot_id, inst.id, s);
                out.push(
                    new_inst(MachOpcode::MOVmr32, vec_window_plus(s, op_ex(OperandData::VReg(v)))),
                );
                proof {
                    assert(insts_view(out@) =~~= x64_step(old(ctx)@, *inst).out);
                    assert(ctx@ =~~= x64_step(old(ctx)@, *inst).st);
                }
                Ok(out)
            },
            Opcode::Call => {
                let k = match inst.callee {
                    Some(k) => k,
                    None => {
                        return Err(unsupported_err(ctx, inst));
                    },
                };
                if !((k as usize) < ctx.num_functions) || inst.args.len() > 6
                    || !(inst.ty.0 == 0 || inst.ty.0 == 1) {
                    return Err(unsupported_err(ctx, inst));
                }
                let mut j: usize = 0;
                while j < inst.args.len()
                    invariant
                        j <= inst.args@.len(),
                        inst.opcode == Opcode::Call,
                        forall|jj: int| 0 <= jj < j ==> val_ok(ctx@, #[trigger] inst.args@[jj]),
                    decreases inst.args@.len() - j,
                {
                    if !val_ok_exec(ctx, inst.args[j]) {
                        proof {
                            assert(!call_args_ok(ctx@, inst.args@)) by {
                                assert(0 <= (j as int) < inst.args@.len());
                                assert(!val_ok(ctx@, inst.args@[j as int]));
                            }
                            assert(!x64_step(ctx@, *inst).ok);
                        }
                        return Err(unsupported_err(ctx, inst));
                    }
                    j = j + 1;
                }
                proof {
                    assert(call_args_ok(ctx@, inst.args@));
                }
                let mut out: Vec<MachInstruction> = Vec::new();
                let mut j: usize = 0;
                while j < inst.args.len()
                    invariant
                        j <= inst.args@.len(),
                        inst.args@.len() <= 6,
                        forall|jj: int| 0 <= jj < inst.args@.len()
                            ==> val_ok(ctx@, #[trigger] inst.args@[jj]),
                        out@.len() == j,
                        insts_view(out@) =~= Seq::new(
                            j as nat,
                            |jj: int| load_into_reg(
                                ctx@,
                                inst.args@[jj],
                                param_reg32_spec(jj as nat),
                            ),
                        ),
                    decreases inst.args@.len() - j,
                {
                    let preg = self.cc.param_reg32(j).unwrap();
                    let ghost out0 = out@;
                    let mi = load_value_into_reg(&self.cc, ctx, inst.args[j], preg).unwrap();
                    out.push(mi);
                    proof {
                        assert(out@ == out0.push(mi));
                        assert(out0.len() == j as int);
                        assert forall|jj: int| 0 <= jj < j + 1 implies insts_view(out@)[jj]
                            == load_into_reg(
                            ctx@,
                            inst.args@[jj],
                            param_reg32_spec(jj as nat),
                        ) by {
                            if jj < j {
                                assert(out@[jj] == out0[jj]);
                                assert(insts_view(out0)[jj] == load_into_reg(
                                    ctx@,
                                    inst.args@[jj],
                                    param_reg32_spec(jj as nat),
                                ));
                            } else {
                                assert(out@[jj] == mi);
                            }
                        }
                        assert(insts_view(out@) =~= Seq::new(
                            (j + 1) as nat,
                            |jj: int| load_into_reg(
                                ctx@,
                                inst.args@[jj],
                                param_reg32_spec(jj as nat),
                            ),
                        ));
                    }
                    j = j + 1;
                }
                let eax = self.cc.ret_reg32();
                out.push(
                    new_inst(
                        MachOpcode::CALL,
                        vec2(op_ex(OperandData::Label(k)), op_im(OperandData::Reg(eax))),
                    ),
                );
                if inst.ty.0 == 0 {
                    let s = ctx.slots.allocate();
                    slot_map_insert(&mut ctx.inst_id_to_slot_id, inst.id, s);
                    out.push(
                        new_inst(
                            MachOpcode::MOVmr32,
                            vec_window_plus(s, op_ex(OperandData::Reg(eax))),
                        ),
                    );
                }
                proof {
                    assert(insts_view(out@) =~~= x64_step(old(ctx)@, *inst).out);
                    assert(ctx@ =~~= x64_step(old(ctx)@, *inst).st);
                }
                Ok(out)
            },
            Opcode::Br => {
                if inst.targets.len() == 1 && (inst.targets[0] as usize) < ctx.num_blocks {
                    let out = vec1_inst(
                        new_inst(
                            MachOpcode::JMP,
                            vec1(op_ex(OperandData::Block(inst.targets[0]))),
                        ),
                    );
                    proof {
                        assert(insts_view(out@) =~~= x64_step(old(ctx)@, *inst).out);
                    }
                    Ok(out)
                } else {
                    Err(unsupported_err(ctx, inst))
                }
            },
            Opcode::Ret => {
                if inst.args.len() == 0 {
                    let out = vec1_inst(new_inst(MachOpcode::RET, Vec::new()));
                    proof {
                        assert(insts_view(out@) =~~= x64_step(old(ctx)@, *inst).out);
                    }
                    Ok(out)
                } else if inst.args.len() == 1 {
                    let eax = self.cc.ret_reg32();
                    let mi = match load_value_into_reg(&self.cc, ctx, inst.args[0], eax) {
                        Some(mi) => mi,
                        None => {
                            return Err(unsupported_err(ctx, inst));
                        },
                    };
                    let mut out: Vec<MachInstruction> = Vec::new();
                    out.push(mi);
                    out.push(new_inst(MachOpcode::RET, vec1(op_im(OperandData::Reg(eax)))));
                    proof {
                        assert(insts_view(out@) =~~= x64_step(old(ctx)@, *inst).out);
                    }
                    Ok(out)
                } else {
                    Err(unsupported_err(ctx, inst))
                }
            },
            Opcode::Phi => {
                if inst.ty.0 != 0 || inst.args.len() != inst.targets.len()
                    || inst.args.len() < 1 {
                    return Err(unsupported_err(ctx, inst));
                }
                let mut j: usize = 0;
                while j < inst.args.len()
                    invariant
                        j <= inst.args@.len(),
                        inst.opcode == Opcode::Phi,
                        inst.args@.len() == inst.targets@.len(),
                        forall|jj: int| 0 <= jj < j
                            ==> phi_val_ok(ctx@, #[trigger] inst.args@[jj]),
                        forall|jj: int| 0 <= jj < j
                            ==> #[trigger] inst.targets@[jj] < ctx@.num_blocks,
                    decreases inst.args@.len() - j,
                {
                    let arg_ok = match inst.args[j] {
                        Value::Int32(_) => true,
                        Value::Inst(id) => slot_map_get(
                            &ctx.inst_id_to_slot_id,
                            id,
                        ).is_some(),
                        Value::Arg(_) => false,
                    };
                    if !arg_ok || !((inst.targets[j] as usize) < ctx.num_blocks) {
                        proof {
                            assert(!phi_shape_ok(ctx@, inst.args@, inst.targets@)) by {
                                if !arg_ok {
                                    assert(!phi_val_ok(ctx@, inst.args@[j as int]));
                                } else {
                                    assert(!(inst.targets@[j as int] < ctx@.num_blocks));
                                }
                            }
                            assert(!x64_step(ctx@, *inst).ok);
                        }
                        return Err(unsupported_err(ctx, inst));
                    }
                    j = j + 1;
                }
                proof {
                    assert(phi_shape_ok(ctx@, inst.args@, inst.targets@));
                }
                let v = ctx.next_vreg;
                let mut ops: Vec<Operand> = Vec::new();
                ops.push(op_ex(OperandData::VReg(v)));
                let mut j: usize = 0;
                while j < inst.args.len()
                    invariant
                        j <= inst.args@.len(),
                        inst.args@.len() == inst.targets@.len(),
                        forall|jj: int| 0 <= jj < inst.args@.len()
                            ==> phi_val_ok(ctx@, #[trigger] inst.args@[jj]),
                        forall|jj: int| 0 <= jj < inst.targets@.len()
                            ==> #[trigger] inst.targets@[jj] < ctx@.num_blocks,
                        ops@.len() == 1 + 2 * j,
                        ops@[0] == exop(OperandData::VReg(v)),
                        forall|jj: int| 0 <= jj < 2 * j ==> #[trigger] ops@[1 + jj] == (if jj % 2
                            == 0 {
                            phi_val(ctx@, inst.args@[jj / 2])
                        } else {
                            exop(OperandData::Block(inst.targets@[jj / 2]))
                        }),
                    decreases inst.args@.len() - j,
                {
                    match inst.args[j] {
                        Value::Int32(imm) => {
                            ops.push(op_ex(OperandData::Int32(imm)));
                        },
                        Value::Inst(id) => {
                            let sq = slot_map_get(&ctx.inst_id_to_slot_id, id).unwrap();
                            ops.push(op_ex(OperandData::Slot(sq)));
                        },
                        Value::Arg(_) => {
                            proof {
                                assert(false);
                            }
                        },
                    }
                    ops.push(op_ex(OperandData::Block(inst.targets[j])));
                    j = j + 1;
                }
                proof {
                    let full = seq![exop(OperandData::VReg(v))] + phi_args(
                        ctx@,
                        inst.args@,
                        inst.targets@,
                    );
                    assert(ops@.len() == full.len());
                    assert forall|jj: int| 0 <= jj < ops@.len() implies ops@[jj] == full[jj] by {
                        if jj == 0 {
                            assert(full[0] == exop(OperandData::VReg(v)));
                        } else {
                            let t = jj - 1;
                            assert(full[jj] == phi_args(ctx@, inst.args@, inst.targets@)[t]);
                            assert(ops@[1 + t] == (if t % 2 == 0 {
                                phi_val(ctx@, inst.args@[t / 2])
                            } else {
                                exop(OperandData::Block(inst.targets@[t / 2]))
                            }));
                        }
                    }
                    assert(ops@ =~= full);
                }
                ctx.next_vreg = ctx.next_vreg + 1;
                let mut out: Vec<MachInstruction> = Vec::new();
                out.push(new_inst(MachOpcode::Phi, ops));
                let s = ctx.slots.allocate();
                slot_map_insert(&mut ctx.inst_id_to_slot_id, inst.id, s);
                out.push(
                    new_inst(MachOpcode::MOVmr32, vec_window_plus(s, op_ex(OperandData::VReg(v)))),
                );
                proof {
                    assert(insts_view(out@) =~~= x64_step(old(ctx)@, *inst).out);
                    assert(ctx@ =~~= x64_step(old(ctx)@, *inst).st);
                }
                Ok(out)
            },
        }
    }
}

fn vec1_inst(a: MachInstruction) -> (v: Vec<MachInstruction>)
    ensures
        v@.len() == 1,
        v@[0] == a,
{
    let mut v: Vec<MachInstruction> = Vec::new();
    v.push(a);
    v
}


/// Result of lowering a run of instruction ids: whether every id had a
/// matching rule, the opcode of the first that had none, the machine
/// instructions produced, and the state after the run.
#[verifier::ext_equal]
pub ghost struct IdsRes {
    pub ok: bool,
    pub err: Opcode,
    pub out: Seq<MachInstV>,
    pub st: LowerSt,
}

/// Lower the instructions named by `ids` in order, threading the state.
/// On the first unsupported instruction the run stops with its opcode and
/// the state reached so far.
pub open spec fn lower_ids<L: Lower>(isa: L, f: Function, st: LowerSt, ids: Seq<u32>) -> IdsRes
    decreases ids.len(),
{
    if ids.len() == 0 {
        IdsRes { ok: true, err: arbitrary(), out: seq![], st }
    } else {
        let inst = f.data@[ids[0] as int];
        if !isa.lowerable(st, inst) {
            IdsRes { ok: false, err: inst.opcode, out: seq![], st }
        } else {
            let rest = lower_ids(isa, f, isa.next_st(st, inst), ids.drop_first());
            IdsRes { ok: rest.ok, err: rest.err, out: isa.lower_out(st, inst) + rest.out, st: rest.st }
        }
    }
}

/// Result of lowering the blocks of a function from block `b` on: one
/// machine block per IR block, or the opcode and block index of the first
/// unsupported instruction.
#[verifier::ext_equal]
pub ghost struct BlocksRes {
    pub ok: bool,
    pub err: Opcode,
    pub err_block: int,
    pub blocks: Seq<Seq<MachInstV>>,
    pub st: LowerSt,
}

/// Lower a function's blocks from block `b` on, threading the state.
pub open spec fn lower_blocks<L: Lower>(isa: L, f: Function, st: LowerSt, b: int) -> BlocksRes
    decreases f.layout@.len() - b,
    when 0 <= b
{
    if b >= f.layout@.len() {
        BlocksRes { ok: true, err: arbitrary(), err_block: 0, blocks: seq![], st }
    } else {
        let ir = lower_ids(isa, f, st, f.layout@[b].insts@);
        if !ir.ok {
            BlocksRes { ok: false, err: ir.err, err_block: b, blocks: seq![], st: ir.st }
        } else {
            let rest = lower_blocks(isa, f, ir.st, b + 1);
            BlocksRes {
                ok: rest.ok,
                err: rest.err,
                err_block: rest.err_block,
                blocks: seq![ir.out] + rest.blocks,
                st: rest.st,
            }
        }
    }
}

/// The state lowering of one function starts from.
pub open spec fn init_st(num_funcs: nat, num_blocks: nat) -> LowerSt {
    LowerSt {
        next_slot: 0u32,
        slot_of: Map::<u32, u32>::empty(),
        next_vreg: 0u32,
        num_funcs,
        num_blocks,
    }
}

/// Result of lowering one whole function of a module with `num_funcs`
/// functions.
pub open spec fn fn_blocks_res<L: Lower>(isa: L, f: Function, num_funcs: nat) -> BlocksRes {
    lower_blocks(isa, f, init_st(num_funcs, f.layout@.len()), 0)
}

/// Whether every instruction of the function has a matching rule.
pub open spec fn fn_lowerable<L: Lower>(isa: L, f: Function, num_funcs: nat) -> bool {
    fn_blocks_res(isa, f, num_funcs).ok
}

/// The machine function (before slot resolution) that lowering a function
/// produces: the same name, one machine block per IR block.
pub open spec fn convert_function_v<L: Lower>(isa: L, f: Function, num_funcs: nat) -> MachFuncV {
    MachFuncV { name: f.name@, blocks: fn_blocks_res(isa, f, num_funcs).blocks }
}

/// Result of lowering a module's functions: the machine functions in
/// source order, or the error naming the first unsupported instruction.
#[verifier::ext_equal]
pub ghost struct ModRes {
    pub ok: bool,
    pub err: LoweringError,
    pub funcs: Seq<MachFuncV>,
}

/// Lower the functions of a module from index `i` on, each from a fresh
/// state.
pub open spec fn lower_funcs<L: Lower>(isa: L, funcs: Seq<Function>, nfuncs: nat, i: int) -> ModRes
    decreases funcs.len() - i,
    when 0 <= i
{
    if i >= funcs.len() {
        ModRes { ok: true, err: arbitrary(), funcs: seq![] }
    } else {
        let br = fn_blocks_res(isa, funcs[i], nfuncs);
        if !br.ok {
            ModRes {
                ok: false,
                err: LoweringError::UnsupportedInstruction {
                    opcode: br.err,
                    func: i as usize,
                    block: br.err_block as usize,
                },
                funcs: seq![],
            }
        } else {
            let rest = lower_funcs(isa, funcs, nfuncs, i + 1);
            ModRes {
                ok: rest.ok,
                err: rest.err,
                funcs: seq![convert_function_v(isa, funcs[i], nfuncs)] + rest.funcs,
            }
        }
    }
}

/// Result of lowering a whole module, before slot resolution.
pub open spec fn convert_module_res<L: Lower>(isa: L, funcs: Seq<Function>) -> ModRes {
    lower_funcs(isa, funcs, funcs.len(), 0)
}

/// Lower the instruction ids `ids[from..]` in order.
fn lower_ids_exec<L: Lower>(
    isa: &L,
    ctx: &mut LoweringContext,
    f: &Function,
    ids: &Vec<u32>,
    from: usize,
) -> (r: Result<Vec<MachInstruction>, LoweringError>)
    requires
        from <= ids@.len(),
        forall|j: int| from <= j < ids@.len() ==> #[trigger] ids@[j] < f.data@.len(),
        old(ctx)@.next_slot as int + (ids@.len() - from) <= 0x2000_0000,
        old(ctx)@.next_vreg as int + 2 * (ids@.len() - from) <= 0x4000_0000,
    ensures
        ({
            let res = lower_ids(*isa, *f, old(ctx)@, ids@.skip(from as int));
            &&& r is Ok <==> res.ok
            &&& r is Ok ==> insts_view(r->Ok_0@) == res.out
            &&& final(ctx)@ == res.st
            &&& r is Err ==> r->Err_0 == (LoweringError::UnsupportedInstruction {
                opcode: res.err,
                func: old(ctx).cur_func,
                block: old(ctx).cur_block,
            })
            &&& final(ctx)@.next_slot <= old(ctx)@.next_slot + (ids@.len() - from)
            &&& final(ctx)@.next_vreg <= old(ctx)@.next_vreg + 2 * (ids@.len() - from)
            &&& final(ctx).cur_func == old(ctx).cur_func
            &&& final(ctx).cur_block == old(ctx).cur_block
            &&& final(ctx)@.num_funcs == old(ctx)@.num_funcs
            &&& final(ctx)@.num_blocks == old(ctx)@.num_blocks
        }),
    decreases ids@.len() - from,
{
    if from >= ids.len() {
        let out: Vec<MachInstruction> = Vec::new();
        proof {
            assert(ids@.skip(from as int).len() == 0);
            assert(insts_view(out@) =~= lower_ids(*isa, *f, old(ctx)@, ids@.skip(from as int)).out);
        }
        Ok(out)
    } else {
        let id = ids[from];
        let inst = &f.data[id as usize];
        proof {
            assert(ids@.skip(from as int)[0] == ids@[from as int]);
            assert(ids@.skip(from as int).drop_first() =~= ids@.skip(from as int + 1));
        }
        match isa.lower(ctx, inst) {
            Err(e) => Err(e),
            Ok(mut out) => {
                match lower_ids_exec(isa, ctx, f, ids, from + 1) {
                    Err(e) => Err(e),
                    Ok(mut rest) => {
                        out.append(&mut rest);
                        proof {
                            let res = lower_ids(*isa, *f, old(ctx)@, ids@.skip(from as int));
                            assert(insts_view(out@) =~= res.out);
                        }
                        Ok(out)
                    },
                }
            },
        }
    }
}

/// Lower a function's blocks from block `b` on: one machine block per IR
/// block, instruction expansions kept contiguous and in order.
fn lower_blocks_exec<L: Lower>(
    isa: &L,
    ctx: &mut LoweringContext,
    f: &Function,
    b: usize,
) -> (r: Result<Vec<MachBlock>, LoweringError>)
    requires
        f.wf(),
        b <= f.layout@.len(),
        old(ctx)@.next_slot as int + crate::ir::layout_count(f.layout@, b as int) <= 0x2000_0000,
        old(ctx)@.next_vreg as int + 2 * crate::ir::layout_count(f.layout@, b as int)
            <= 0x4000_0000,
    ensures
        ({
            let res = lower_blocks(*isa, *f, old(ctx)@, b as int);
            &&& r is Ok <==> res.ok
            &&& r is Ok ==> r->Ok_0@.map_values(|bl: MachBlock| bl@) == res.blocks
            &&& r is Err ==> r->Err_0 == (LoweringError::UnsupportedInstruction {
                opcode: res.err,
                func: old(ctx).cur_func,
                block: res.err_block as usize,
            })
            &&& final(ctx).cur_func == old(ctx).cur_func
        }),
    decreases f.layout@.len() - b,
{
    if b >= f.layout.len() {
        let out: Vec<MachBlock> = Vec::new();
        proof {
            assert(out@.map_values(|bl: MachBlock| bl@) =~= lower_blocks(
                *isa,
                *f,
                old(ctx)@,
                b as int,
            ).blocks);
        }
        Ok(out)
    } else {
        ctx.cur_block = b;
        proof {
            assert(crate::ir::layout_count(f.layout@, b as int) == f.layout@[b as int].insts@.len()
                + crate::ir::layout_count(f.layout@, b as int + 1));
            assert(f.layout@[b as int].insts@.skip(0) =~= f.layout@[b as int].insts@);
        }
        let insts = match lower_ids_exec(isa, ctx, f, &f.layout[b].insts, 0) {
            Err(e) => {
                return Err(e);
            },
            Ok(insts) => insts,
        };
        let mb = MachBlock { insts };
        match lower_blocks_exec(isa, ctx, f, b + 1) {
            Err(e) => Err(e),
            Ok(rest) => {
                let mut out: Vec<MachBlock> = Vec::new();
                out.push(mb);
                let mut rest = rest;
                out.append(&mut rest);
                proof {
                    let res = lower_blocks(*isa, *f, old(ctx)@, b as int);
                    assert(out@.map_values(|bl: MachBlock| bl@) =~= res.blocks);
                }
                Ok(out)
            },
        }
    }
}

/// Lower one IR function into a machine function with the same name and
/// one machine block per IR block (slot references still unresolved).
pub fn convert_function<L: Lower>(
    isa: &L,
    f: &Function,
    func_idx: usize,
    num_functions: usize,
) -> (r: Result<MachFunction, LoweringError>)
    requires
        f.wf(),
    ensures
        ({
            let res = fn_blocks_res(*isa, *f, num_functions as nat);
            &&& r is Ok <==> res.ok
            &&& r is Ok ==> r->Ok_0@ == convert_function_v(*isa, *f, num_functions as nat)
            &&& r is Err ==> r->Err_0 == (LoweringError::UnsupportedInstruction {
                opcode: res.err,
                func: func_idx,
                block: res.err_block as usize,
            })
        }),
{
    let mut ctx = LoweringContext::new(num_functions, f.layout.len(), func_idx);
    match lower_blocks_exec(isa, &mut ctx, f, 0) {
        Err(e) => Err(e),
        Ok(blocks) => {
            let r = MachFunction { name: f.name.clone(), blocks };
            proof {
                assert(r@ =~~= convert_function_v(*isa, *f, num_functions as nat));
            }
            Ok(r)
        },
    }
}

/// The functions a sequence of references stands for.
pub open spec fn items_funcs(items: Seq<&Function>) -> Seq<Function> {
    items.map_values(|rf: &Function| *rf)
}

/// Lower the functions `items[i..]`, each against the whole module's
/// function count.
fn convert_funcs_exec<L: Lower>(
    isa: &L,
    items: &Vec<&Function>,
    i: usize,
    num_functions: usize,
) -> (r: Result<Vec<MachFunction>, LoweringError>)
    requires
        i <= items@.len(),
        num_functions == items@.len(),
        forall|j: int| 0 <= j < items@.len() ==> (#[trigger] items@[j]).wf(),
    ensures
        ({
            let res = lower_funcs(*isa, items_funcs(items@), items@.len() as nat, i as int);
            &&& r is Ok <==> res.ok
            &&& r is Ok ==> r->Ok_0@.map_values(|mf: MachFunction| mf@) == res.funcs
            &&& r is Err ==> r->Err_0 == res.err
        }),
    decreases items@.len() - i,
{
    if i >= items.len() {
        let out: Vec<MachFunction> = Vec::new();
        proof {
            assert(out@.map_values(|mf: MachFunction| mf@) =~= lower_funcs(
                *isa,
                items_funcs(items@),
                items@.len() as nat,
                i as int,
            ).funcs);
        }
        Ok(out)
    } else {
        let mf = match convert_function(isa, items[i], i, num_functions) {
            Err(e) => {
                return Err(e);
            },
            Ok(mf) => mf,
        };
        match convert_funcs_exec(isa, items, i + 1, num_functions) {
            Err(e) => Err(e),
            Ok(rest) => {
                let mut out: Vec<MachFunction> = Vec::new();
                out.push(mf);
                let mut rest = rest;
                out.append(&mut rest);
                proof {
                    let res = lower_funcs(*isa, items_funcs(items@), items@.len() as nat, i as int);
                    assert(out@.map_values(|mf2: MachFunction| mf2@) =~= res.funcs);
                }
                Ok(out)
            },
        }
    }
}

/// Lower a whole module: every function, in order, then resolve every
/// stack slot into its base-register and frame-offset form. The result
/// has one machine function per IR function and, within each, one machine
/// block per IR block; it fails exactly when some instruction has no
/// matching rule, naming that instruction's opcode and location.
pub fn convert_module<L: Lower>(isa: &L, module: &crate::ir::Module) -> (r: Result<
    MachModule,
    LoweringError,
>)
    requires
        module.wf(),
    ensures
        ({
            let res = convert_module_res(*isa, crate::ir::arena_funcs(module.functions));
            &&& r is Ok <==> res.ok
            &&& r is Ok ==> r->Ok_0@ == crate::mach::resolve_module_view(res.funcs)
            &&& r is Err ==> r->Err_0 == res.err
        }),
{
    let items = crate::ir::arena_items(&module.functions);
    proof {
        assert(items_funcs(items@) =~= crate::ir::arena_funcs(module.functions));
    }
    let n = items.len();
    match convert_funcs_exec(isa, &items, 0, n) {
        Err(e) => Err(e),
        Ok(functions) => {
            let mm = MachModule { functions };
            let resolved = crate::mach::resolve_module(&mm);
            proof {
                let res = convert_module_res(*isa, crate::ir::arena_funcs(module.functions));
                assert(mm@ == res.funcs);
                assert(resolved@ == crate::mach::resolve_module_view(res.funcs));
            }
            Ok(resolved)
        },
    }
}


/// The state lowering reaches after blocks `b..j`, starting block `b` in
/// state `st`.
pub open spec fn st_btwn<L: Lower>(isa: L, f: Function, st: LowerSt, b: int, j: int) -> LowerSt
    decreases j - b,
    when b <= j
{
    if j <= b {
        st
    } else {
        lower_ids(isa, f, st_btwn(isa, f, st, b, j - 1), f.layout@[j - 1].insts@).st
    }
}

proof fn lemma_st_btwn_shift<L: Lower>(isa: L, f: Function, st: LowerSt, b: int, j: int)
    requires
        b + 1 <= j,
    ensures
        st_btwn(isa, f, st, b, j) == st_btwn(
            isa,
            f,
            lower_ids(isa, f, st, f.layout@[b].insts@).st,
            b + 1,
            j,
        ),
    decreases j - b,
{
    let ids_st = lower_ids(isa, f, st, f.layout@[b].insts@).st;
    if j == b + 1 {
        assert(st_btwn(isa, f, st, b, b) == st);
        assert(st_btwn(isa, f, ids_st, b + 1, b + 1) == ids_st);
    } else {
        lemma_st_btwn_shift(isa, f, st, b, j - 1);
        assert(st_btwn(isa, f, st, b, j) == lower_ids(
            isa,
            f,
            st_btwn(isa, f, st, b, j - 1),
            f.layout@[j - 1].insts@,
        ).st);
        assert(st_btwn(isa, f, ids_st, b + 1, j) == lower_ids(
            isa,
            f,
            st_btwn(isa, f, ids_st, b + 1, j - 1),
            f.layout@[j - 1].insts@,
        ).st);
    }
}

/// Structural preservation: when every instruction of the blocks from `b`
/// on has a matching rule, lowering them yields exactly one machine block
/// per IR block, and machine block `j` is the in-order concatenation of
/// the expansions of IR block `j`'s instructions, each expansion
/// contiguous, possibly empty, threaded through the states the earlier
/// blocks left behind.
pub proof fn lemma_structural_preservation<L: Lower>(isa: L, f: Function, st: LowerSt, b: int)
    requires
        0 <= b <= f.layout@.len(),
        lower_blocks(isa, f, st, b).ok,
    ensures
        lower_blocks(isa, f, st, b).blocks.len() == f.layout@.len() - b,
        forall|j: int|
            b <= j < f.layout@.len() ==> #[trigger] lower_blocks(isa, f, st, b).blocks[j - b]
                == lower_ids(isa, f, st_btwn(isa, f, st, b, j), f.layout@[j].insts@).out,
    decreases f.layout@.len() - b,
{
    if b < f.layout@.len() {
        let ir = lower_ids(isa, f, st, f.layout@[b].insts@);
        lemma_structural_preservation(isa, f, ir.st, b + 1);
        let res = lower_blocks(isa, f, st, b);
        let rest = lower_blocks(isa, f, ir.st, b + 1);
        assert forall|j: int| b <= j < f.layout@.len() implies #[trigger] res.blocks[j - b]
            == lower_ids(isa, f, st_btwn(isa, f, st, b, j), f.layout@[j].insts@).out by {
            if j == b {
                assert(res.blocks[0] == ir.out);
            } else {
                lemma_st_btwn_shift(isa, f, st, b, j);
                assert(res.blocks[j - b] == rest.blocks[j - (b + 1)]);
            }
        }
    }
}

/// Structural preservation for a whole function: a lowerable IR function
/// with B blocks becomes a machine function with exactly B blocks, block
/// `j` the in-order concatenation of the expansions of IR block `j`'s
/// instructions.
pub proof fn lemma_function_structure<L: Lower>(isa: L, f: Function, num_funcs: nat)
    requires
        fn_lowerable(isa, f, num_funcs),
    ensures
        convert_function_v(isa, f, num_funcs).blocks.len() == f.layout@.len(),
        forall|j: int|
            0 <= j < f.layout@.len() ==> #[trigger] convert_function_v(isa, f, num_funcs).blocks[j]
                == lower_ids(
                isa,
                f,
                st_btwn(isa, f, init_st(num_funcs, f.layout@.len()), 0, j),
                f.layout@[j].insts@,
            ).out,
{
    let st0 = init_st(num_funcs, f.layout@.len());
    lemma_structural_preservation(isa, f, st0, 0);
    assert forall|j: int| 0 <= j < f.layout@.len() implies #[trigger] convert_function_v(
        isa,
        f,
        num_funcs,
    ).blocks[j] == lower_ids(isa, f, st_btwn(isa, f, st0, 0, j), f.layout@[j].insts@).out by {
        assert(lower_blocks(isa, f, st0, 0).blocks[j - 0] == lower_ids(
            isa,
            f,
            st_btwn(isa, f, st0, 0, j),
            f.layout@[j].insts@,
        ).out);
    }
}

/// The deterministic three-step expansion of an `add` whose first operand
/// is an earlier result held in a stack slot and whose second is an
/// immediate: a load from that slot, an add with the immediate, and a
/// store of the result to a fresh slot. The same state and instruction
/// always give exactly this expansion.
pub proof fn lemma_add_imm_expansion(st: LowerSt, inst: Instruction)
    requires
        inst.opcode == Opcode::Add,
        inst.ty == i32_ty(),
        inst.args@.len() == 2,
        inst.args@[0] is Inst,
        st.slot_of.dom().contains(inst.args@[0]->Inst_0),
        inst.args@[1] is Int32,
    ensures
        x64_step(st, inst).ok,
        x64_step(st, inst).out =~~= seq![
            minst(
                MachOpcode::MOVrm32,
                seq![exop(OperandData::VReg(st.next_vreg))] + window_spec(
                    st.slot_of[inst.args@[0]->Inst_0],
                ),
            ),
            minst(
                MachOpcode::ADDri32,
                seq![
                    exop(OperandData::VReg(st.next_vreg)),
                    exop(OperandData::Int32(inst.args@[1]->Int32_0)),
                ],
            ),
            minst(
                MachOpcode::MOVmr32,
                window_spec(st.next_slot) + seq![exop(OperandData::VReg(st.next_vreg))],
            ),
        ],
        x64_step(st, inst).st.slot_of == st.slot_of.insert(inst.id, st.next_slot),
{
}


/// Selector totality: the selector accepts an instruction exactly when
/// its opcode and operand shape match a rule the target declares — for
/// every declared combination selection never fails, and for every other
/// combination it always does.
pub proof fn lemma_selector_totality(st: LowerSt, inst: Instruction)
    ensures
        x64_step(st, inst).ok <==> match inst.opcode {
            Opcode::Alloca => inst.args@.len() == 0 && inst.ty == i32_ty(),
            Opcode::Store => inst.args@.len() == 2 && (inst.args@[1] matches Value::Inst(p)
                && st.slot_of.dom().contains(p)) && val_ok(st, inst.args@[0]),
            Opcode::Load => inst.args@.len() == 1 && inst.ty == i32_ty() && (inst.args@[0] matches
                Value::Inst(p)
                && st.slot_of.dom().contains(p)),
            Opcode::Add => inst.args@.len() == 2 && inst.ty == i32_ty() && val_ok(
                st,
                inst.args@[0],
            ) && val_ok(st, inst.args@[1]),
            Opcode::Call => (inst.callee matches Some(k) && k < st.num_funcs)
                && inst.args@.len() <= 6 && call_args_ok(st, inst.args@) && (inst.ty == i32_ty()
                || inst.ty == void_ty()),
            Opcode::Br => inst.targets@.len() == 1 && inst.targets@[0] < st.num_blocks,
            Opcode::Ret => inst.args@.len() == 0 || (inst.args@.len() == 1 && val_ok(
                st,
                inst.args@[0],
            )),
            Opcode::Phi => inst.ty == i32_ty() && inst.args@.len() == inst.targets@.len()
                && inst.args@.len() >= 1 && phi_shape_ok(st, inst.args@, inst.targets@),
        },
{
}

} // verus!
