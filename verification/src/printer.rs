//! The assembly printer: renders a machine module as Intel-syntax text.
//!
//! Each function prints a global-symbol declaration and a label, each
//! block a `.LBL<n>` label, and each instruction its mnemonic followed by
//! its explicit operands, comma-separated. A memory operand is one
//! five-element window whose sentinel is never itself printed; the
//! following four slots render as a single addressing expression. Printing
//! a window whose base is still a raw stack slot, or whose opcode declares
//! no access width, is a contract violation and fails, as does a register
//! outside the enumerated register file.

use vstd::prelude::*;

use crate::mach::MachBlock;
use crate::mach::MachFuncV;
use crate::mach::MachFunction;
use crate::mach::MachInstV;
use crate::mach::MachInstruction;
use crate::mach::MachModule;
use crate::mach::Operand;
use crate::mach::OperandData;
use crate::text::dec_of;
use crate::text::dec_of_int;
use crate::text::i32_to_string;
use crate::text::u32_to_string;
use crate::text::usize_to_string;
use crate::x64::MachOpcode;
use crate::x64::has_dword_width;
use crate::x64::mem_size;
use crate::x64::mnemonic;
use crate::x64::mnemonic_spec;
use crate::x64::reg_name;
use crate::x64::reg_name_spec;
use crate::x64::reg_valid;

verus! {

/// Failure of the printer: an internal-consistency defect, not a user
/// input error. `MalformedOperand` is an unresolved or ill-shaped memory
/// window, a label past the module's functions, a bare sentinel, or a
/// memory access through an opcode with no declared width;
/// `InvalidRegisterClass` is a register outside its class's enumerated
/// range.
#[derive(Clone, Copy, PartialEq, Eq, Structural, Debug)]
pub enum AsmError {
    MalformedOperand,
    InvalidRegisterClass,
}

/// The label of block `b`: `.LBL<b>`.
pub open spec fn label_text(b: nat) -> Seq<char> {
    ".LBL"@ + dec_of(b)
}

/// Text of one explicit operand outside a memory window.
pub open spec fn render_operand(names: Seq<Seq<char>>, d: OperandData) -> Result<
    Seq<char>,
    AsmError,
> {
    match d {
        OperandData::Reg(r) => if reg_valid(r) {
            Ok(reg_name_spec(r))
        } else {
            Err(AsmError::InvalidRegisterClass)
        },
        OperandData::VReg(v) => Ok("%"@ + dec_of(v as nat)),
        OperandData::Slot(s) => Ok("%stack."@ + dec_of(s as nat)),
        OperandData::Int32(i) => Ok(dec_of_int(i as int)),
        OperandData::Block(b) => Ok(label_text(b as nat)),
        OperandData::Label(k) => if k < names.len() {
            Ok(names[k as int])
        } else {
            Err(AsmError::MalformedOperand)
        },
        OperandData::MemStart => Err(AsmError::MalformedOperand),
        OperandData::Empty => Ok("none"@),
    }
}

/// The offset part of an addressing expression: a sign only when the
/// offset is not negative (a negative offset brings its own minus sign).
pub open spec fn offset_text(off: int) -> Seq<char> {
    if off < 0 {
        dec_of_int(off)
    } else {
        "+"@ + dec_of_int(off)
    }
}

/// Text of one memory window beginning at the sentinel position `p`:
/// the access width, then `[base+offset]` or `[base+offset+index*scale]`.
/// Reads only the window's own four slots after the sentinel.
pub open spec fn render_window(op: MachOpcode, ops: Seq<Operand>, p: int) -> Result<
    Seq<char>,
    AsmError,
> {
    if p + 5 > ops.len() {
        Err(AsmError::MalformedOperand)
    } else if !(ops[p + 1].data is Int32) {
        Err(AsmError::MalformedOperand)
    } else if !(ops[p + 2].data is Reg) {
        Err(AsmError::MalformedOperand)
    } else if !reg_valid(ops[p + 2].data->Reg_0) {
        Err(AsmError::InvalidRegisterClass)
    } else if !has_dword_width(op) {
        Err(AsmError::MalformedOperand)
    } else {
        let off = ops[p + 1].data->Int32_0 as int;
        let base = ops[p + 2].data->Reg_0;
        if ops[p + 3].data is Empty && ops[p + 4].data is Empty {
            Ok("dword ptr ["@ + reg_name_spec(base) + offset_text(off) + "]"@)
        } else if ops[p + 3].data is Reg && ops[p + 4].data is Int32 {
            if reg_valid(ops[p + 3].data->Reg_0) {
                Ok(
                    "dword ptr ["@ + reg_name_spec(base) + offset_text(off) + "+"@
                        + reg_name_spec(ops[p + 3].data->Reg_0) + "*"@ + dec_of_int(
                        ops[p + 4].data->Int32_0 as int,
                    ) + "]"@,
                )
            } else {
                Err(AsmError::InvalidRegisterClass)
            }
        } else {
            Err(AsmError::MalformedOperand)
        }
    }
}

/// Text of the operand list from position `p` on, with `first` saying
/// whether no operand has been printed yet (a comma separates every later
/// one). Implicit operands are skipped; a sentinel consumes its whole
/// five-element window. The second component counts the windows printed.
pub open spec fn render_ops(
    names: Seq<Seq<char>>,
    op: MachOpcode,
    ops: Seq<Operand>,
    p: int,
    first: bool,
) -> Result<(Seq<char>, nat), AsmError>
    decreases ops.len() - p,
    when p >= 0
{
    if p >= ops.len() {
        Ok((Seq::<char>::empty(), 0))
    } else if ops[p].implicit {
        render_ops(names, op, ops, p + 1, first)
    } else if ops[p].data is MemStart {
        match render_window(op, ops, p) {
            Err(e) => Err(e),
            Ok(t) => match render_ops(names, op, ops, p + 5, false) {
                Err(e) => Err(e),
                Ok(rest) => Ok(
                    (
                        (if first {
                            t
                        } else {
                            ", "@ + t
                        }) + rest.0,
                        (rest.1 + 1) as nat,
                    ),
                ),
            },
        }
    } else {
        match render_operand(names, ops[p].data) {
            Err(e) => Err(e),
            Ok(t) => match render_ops(names, op, ops, p + 1, false) {
                Err(e) => Err(e),
                Ok(rest) => Ok(
                    (
                        (if first {
                            t
                        } else {
                            ", "@ + t
                        }) + rest.0,
                        rest.1,
                    ),
                ),
            },
        }
    }
}

/// Text of one instruction: two spaces, the mnemonic, a space, the
/// explicit operands, a newline.
pub open spec fn render_inst(names: Seq<Seq<char>>, iv: MachInstV) -> Result<Seq<char>, AsmError> {
    match render_ops(names, iv.opcode, iv.ops, 0, true) {
        Err(e) => Err(e),
        Ok(t) => Ok("  "@ + mnemonic_spec(iv.opcode) + " "@ + t.0 + "\n"@),
    }
}

/// Text of the instructions of a block from position `j` on.
pub open spec fn render_insts(names: Seq<Seq<char>>, insts: Seq<MachInstV>, j: int) -> Result<
    Seq<char>,
    AsmError,
>
    decreases insts.len() - j,
    when j >= 0
{
    if j >= insts.len() {
        Ok(Seq::<char>::empty())
    } else {
        match render_inst(names, insts[j]) {
            Err(e) => Err(e),
            Ok(t) => match render_insts(names, insts, j + 1) {
                Err(e) => Err(e),
                Ok(rest) => Ok(t + rest),
            },
        }
    }
}

/// Text of a function's blocks from block `b` on: block `b` prints the
/// label `.LBL<b>` and then its instructions.
pub open spec fn render_blocks(
    names: Seq<Seq<char>>,
    blocks: Seq<Seq<MachInstV>>,
    b: int,
) -> Result<Seq<char>, AsmError>
    decreases blocks.len() - b,
    when b >= 0
{
    if b >= blocks.len() {
        Ok(Seq::<char>::empty())
    } else {
        match render_insts(names, blocks[b], 0) {
            Err(e) => Err(e),
            Ok(t) => match render_blocks(names, blocks, b + 1) {
                Err(e) => Err(e),
                Ok(rest) => Ok(label_text(b as nat) + ":\n"@ + t + rest),
            },
        }
    }
}

/// Text of one function: the global-symbol declaration, the function
/// label, then its blocks.
pub open spec fn render_function(names: Seq<Seq<char>>, f: MachFuncV) -> Result<
    Seq<char>,
    AsmError,
> {
    match render_blocks(names, f.blocks, 0) {
        Err(e) => Err(e),
        Ok(t) => Ok("  .globl "@ + f.name + "\n"@ + f.name + ":\n"@ + t),
    }
}

/// Text of a module's functions from index `i` on.
pub open spec fn render_functions(names: Seq<Seq<char>>, funcs: Seq<MachFuncV>, i: int) -> Result<
    Seq<char>,
    AsmError,
>
    decreases funcs.len() - i,
    when i >= 0
{
    if i >= funcs.len() {
        Ok(Seq::<char>::empty())
    } else {
        match render_function(names, funcs[i]) {
            Err(e) => Err(e),
            Ok(t) => match render_functions(names, funcs, i + 1) {
                Err(e) => Err(e),
                Ok(rest) => Ok(t + rest),
            },
        }
    }
}

/// The function names a module's label operands refer to, by index.
pub open spec fn module_names(m: Seq<MachFuncV>) -> Seq<Seq<char>> {
    m.map_values(|f: MachFuncV| f.name)
}

/// The whole module's text: the section directives, then every function.
pub open spec fn render_module_spec(m: Seq<MachFuncV>) -> Result<Seq<char>, AsmError> {
    match render_functions(module_names(m), m, 0) {
        Err(e) => Err(e),
        Ok(t) => Ok("  .text\n  .intel_syntax noprefix\n"@ + t),
    }
}


/// The views of a list of names.
pub open spec fn strs_view(names: Seq<String>) -> Seq<Seq<char>> {
    names.map_values(|s: String| s@)
}

/// Print one explicit operand outside a memory window.
fn print_operand(names: &Vec<String>, d: OperandData) -> (r: Result<String, AsmError>)
    ensures
        r is Ok <==> render_operand(strs_view(names@), d) is Ok,
        r is Ok ==> r->Ok_0@ == render_operand(strs_view(names@), d)->Ok_0,
        r is Err ==> r->Err_0 == render_operand(strs_view(names@), d)->Err_0,
{
    match d {
        OperandData::Reg(rg) => match reg_name(rg) {
            Some(n) => Ok(n.to_owned()),
            None => Err(AsmError::InvalidRegisterClass),
        },
        OperandData::VReg(v) => {
            let mut s = "%".to_owned();
            s.append(u32_to_string(v).as_str());
            Ok(s)
        },
        OperandData::Slot(sl) => {
            let mut s = "%stack.".to_owned();
            s.append(u32_to_string(sl).as_str());
            Ok(s)
        },
        OperandData::Int32(i) => Ok(i32_to_string(i)),
        OperandData::Block(b) => {
            let mut s = ".LBL".to_owned();
            s.append(u32_to_string(b).as_str());
            Ok(s)
        },
        OperandData::Label(k) => {
            if (k as usize) < names.len() {
                Ok(names[k as usize].clone())
            } else {
                Err(AsmError::MalformedOperand)
            }
        },
        OperandData::MemStart => Err(AsmError::MalformedOperand),
        OperandData::Empty => Ok("none".to_owned()),
    }
}

/// Print the memory window beginning at the sentinel position `p`.
fn print_window(op: MachOpcode, ops: &Vec<Operand>, p: usize) -> (r: Result<String, AsmError>)
    requires
        p < ops@.len(),
    ensures
        r is Ok <==> render_window(op, ops@, p as int) is Ok,
        r is Ok ==> r->Ok_0@ == render_window(op, ops@, p as int)->Ok_0,
        r is Err ==> r->Err_0 == render_window(op, ops@, p as int)->Err_0,
{
    if ops.len() - p < 5 {
        return Err(AsmError::MalformedOperand);
    }
    let off: i32 = match ops[p + 1].data {
        OperandData::Int32(i) => i,
        _ => {
            return Err(AsmError::MalformedOperand);
        },
    };
    let base = match ops[p + 2].data {
        OperandData::Reg(rg) => rg,
        _ => {
            return Err(AsmError::MalformedOperand);
        },
    };
    let base_name = match reg_name(base) {
        Some(n) => n,
        None => {
            return Err(AsmError::InvalidRegisterClass);
        },
    };
    let width = match mem_size(op) {
        Some(w) => w,
        None => {
            return Err(AsmError::MalformedOperand);
        },
    };
    let mut s = width.to_owned();
    s.append(" ptr [");
    s.append(base_name);
    if off >= 0 {
        s.append("+");
    }
    s.append(i32_to_string(off).as_str());
    proof {
        reveal_strlit("dword");
        reveal_strlit(" ptr [");
        reveal_strlit("dword ptr [");
        assert(("dword"@ + " ptr ["@) =~= "dword ptr ["@);
        assert(s@ =~= "dword ptr ["@ + reg_name_spec(base) + offset_text(off as int));
    }
    match (ops[p + 3].data, ops[p + 4].data) {
        (OperandData::Empty, OperandData::Empty) => {
            s.append("]");
            proof {
                assert(s@ =~= render_window(op, ops@, p as int)->Ok_0);
            }
            Ok(s)
        },
        (OperandData::Reg(idx), OperandData::Int32(sc)) => {
            let idx_name = match reg_name(idx) {
                Some(n) => n,
                None => {
                    return Err(AsmError::InvalidRegisterClass);
                },
            };
            s.append("+");
            s.append(idx_name);
            s.append("*");
            s.append(i32_to_string(sc).as_str());
            s.append("]");
            proof {
                assert(s@ =~= render_window(op, ops@, p as int)->Ok_0);
            }
            Ok(s)
        },
        _ => Err(AsmError::MalformedOperand),
    }
}

/// Print the operand list from position `p` on.
fn print_ops(
    names: &Vec<String>,
    op: MachOpcode,
    ops: &Vec<Operand>,
    p: usize,
    first: bool,
) -> (r: Result<String, AsmError>)
    ensures
        ({
            let res = render_ops(strs_view(names@), op, ops@, p as int, first);
            &&& r is Ok <==> res is Ok
            &&& r is Ok ==> r->Ok_0@ == res->Ok_0.0
            &&& r is Err ==> r->Err_0 == res->Err_0
        }),
    decreases ops@.len() - p,
{
    if p >= ops.len() {
        Ok(String::new())
    } else if ops[p].implicit {
        print_ops(names, op, ops, p + 1, first)
    } else {
        match ops[p].data {
            OperandData::MemStart => {
                let t = match print_window(op, ops, p) {
                    Err(e) => {
                        return Err(e);
                    },
                    Ok(t) => t,
                };
                match print_ops(names, op, ops, p + 5, false) {
                    Err(e) => Err(e),
                    Ok(rest) => {
                        let mut s = if first {
                            String::new()
                        } else {
                            ", ".to_owned()
                        };
                        s.append(t.as_str());
                        s.append(rest.as_str());
                        Ok(s)
                    },
                }
            },
            _ => {
                let t = match print_operand(names, ops[p].data) {
                    Err(e) => {
                        return Err(e);
                    },
                    Ok(t) => t,
                };
                match print_ops(names, op, ops, p + 1, false) {
                    Err(e) => Err(e),
                    Ok(rest) => {
                        let mut s = if first {
                            String::new()
                        } else {
                            ", ".to_owned()
                        };
                        s.append(t.as_str());
                        s.append(rest.as_str());
                        Ok(s)
                    },
                }
            },
        }
    }
}

/// Print one instruction line.
fn print_inst(names: &Vec<String>, inst: &MachInstruction) -> (r: Result<String, AsmError>)
    ensures
        ({
            let res = render_inst(strs_view(names@), inst@);
            &&& r is Ok <==> res is Ok
            &&& r is Ok ==> r->Ok_0@ == res->Ok_0
            &&& r is Err ==> r->Err_0 == res->Err_0
        }),
{
    match print_ops(names, inst.opcode, &inst.operands, 0, true) {
        Err(e) => Err(e),
        Ok(t) => {
            let mut s = "  ".to_owned();
            s.append(mnemonic(inst.opcode));
            s.append(" ");
            s.append(t.as_str());
            s.append("\n");
            Ok(s)
        },
    }
}

/// Print the instructions of a block from position `j` on.
fn print_insts(names: &Vec<String>, insts: &Vec<MachInstruction>, j: usize) -> (r: Result<
    String,
    AsmError,
>)
    ensures
        ({
            let res = render_insts(strs_view(names@), crate::mach::insts_view(insts@), j as int);
            &&& r is Ok <==> res is Ok
            &&& r is Ok ==> r->Ok_0@ == res->Ok_0
            &&& r is Err ==> r->Err_0 == res->Err_0
        }),
    decreases insts@.len() - j,
{
    if j >= insts.len() {
        Ok(String::new())
    } else {
        match print_inst(names, &insts[j]) {
            Err(e) => Err(e),
            Ok(t) => match print_insts(names, insts, j + 1) {
                Err(e) => Err(e),
                Ok(rest) => {
                    let mut s = t;
                    s.append(rest.as_str());
                    Ok(s)
                },
            },
        }
    }
}

/// Print a function's blocks from block `b` on, each under its label.
fn print_blocks(names: &Vec<String>, blocks: &Vec<MachBlock>, b: usize) -> (r: Result<
    String,
    AsmError,
>)
    ensures
        ({
            let res = render_blocks(
                strs_view(names@),
                blocks@.map_values(|bl: MachBlock| bl@),
                b as int,
            );
            &&& r is Ok <==> res is Ok
            &&& r is Ok ==> r->Ok_0@ == res->Ok_0
            &&& r is Err ==> r->Err_0 == res->Err_0
        }),
    decreases blocks@.len() - b,
{
    if b >= blocks.len() {
        Ok(String::new())
    } else {
        match print_insts(names, &blocks[b].insts, 0) {
            Err(e) => Err(e),
            Ok(t) => match print_blocks(names, blocks, b + 1) {
                Err(e) => Err(e),
                Ok(rest) => {
                    let mut s = ".LBL".to_owned();
                    s.append(usize_to_string(b).as_str());
                    s.append(":\n");
                    s.append(t.as_str());
                    s.append(rest.as_str());
                    proof {
                        assert(s@ =~= render_blocks(
                            strs_view(names@),
                            blocks@.map_values(|bl: MachBlock| bl@),
                            b as int,
                        )->Ok_0);
                    }
                    Ok(s)
                },
            },
        }
    }
}

/// Print one function.
fn print_function(names: &Vec<String>, f: &MachFunction) -> (r: Result<String, AsmError>)
    ensures
        ({
            let res = render_function(strs_view(names@), f@);
            &&& r is Ok <==> res is Ok
            &&& r is Ok ==> r->Ok_0@ == res->Ok_0
            &&& r is Err ==> r->Err_0 == res->Err_0
        }),
{
    match print_blocks(names, &f.blocks, 0) {
        Err(e) => Err(e),
        Ok(t) => {
            let mut s = "  .globl ".to_owned();
            s.append(f.name.as_str());
            s.append("\n");
            s.append(f.name.as_str());
            s.append(":\n");
            s.append(t.as_str());
            Ok(s)
        },
    }
}

/// Print a module's functions from index `i` on.
fn print_functions(names: &Vec<String>, m: &MachModule, i: usize) -> (r: Result<String, AsmError>)
    ensures
        ({
            let res = render_functions(strs_view(names@), m@, i as int);
            &&& r is Ok <==> res is Ok
            &&& r is Ok ==> r->Ok_0@ == res->Ok_0
            &&& r is Err ==> r->Err_0 == res->Err_0
        }),
    decreases m.functions@.len() - i,
{
    if i >= m.functions.len() {
        Ok(String::new())
    } else {
        match print_function(names, &m.functions[i]) {
            Err(e) => Err(e),
            Ok(t) => match print_functions(names, m, i + 1) {
                Err(e) => Err(e),
                Ok(rest) => {
                    let mut s = t;
                    s.append(rest.as_str());
                    Ok(s)
                },
            },
        }
    }
}

/// Print a whole machine module as Intel-syntax assembly text. Succeeds
/// exactly when every memory window is well-shaped with its base resolved
/// to a register, every register lies in the register file, and every
/// label operand names a function of the module.
pub fn print_module(m: &MachModule) -> (r: Result<String, AsmError>)
    ensures
        ({
            let res = render_module_spec(m@);
            &&& r is Ok <==> res is Ok
            &&& r is Ok ==> r->Ok_0@ == res->Ok_0
            &&& r is Err ==> r->Err_0 == res->Err_0
        }),
{
    let mut names: Vec<String> = Vec::new();
    let mut i: usize = 0;
    while i < m.functions.len()
        invariant
            i <= m.functions@.len(),
            names@.len() == i,
            forall|j: int| 0 <= j < i ==> #[trigger] names@[j]@ == m.functions@[j]@.name,
        decreases m.functions@.len() - i,
    {
        names.push(m.functions[i].name.clone());
        i = i + 1;
    }
    proof {
        assert(strs_view(names@) =~= module_names(m@));
    }
    match print_functions(&names, m, 0) {
        Err(e) => Err(e),
        Ok(t) => {
            let mut s = "  .text\n  .intel_syntax noprefix\n".to_owned();
            s.append(t.as_str());
            Ok(s)
        },
    }
}


/// Number of memory-operand sentinels among the explicit operands from
/// position `p` on.
pub open spec fn memstart_count(ops: Seq<Operand>, p: int) -> nat
    decreases ops.len() - p,
    when p >= 0
{
    if p >= ops.len() {
        0
    } else {
        (if ops[p].data is MemStart && !ops[p].implicit {
            1nat
        } else {
            0nat
        }) + memstart_count(ops, p + 1)
    }
}

/// Operand arity: when the operand list from `p` on renders, it prints
/// exactly one addressing expression per explicit memory sentinel — every
/// printed memory operand corresponds to exactly one five-element window.
pub proof fn lemma_mem_window_count(
    names: Seq<Seq<char>>,
    op: MachOpcode,
    ops: Seq<Operand>,
    p: int,
    first: bool,
)
    requires
        0 <= p,
        render_ops(names, op, ops, p, first) is Ok,
    ensures
        render_ops(names, op, ops, p, first)->Ok_0.1 == memstart_count(ops, p),
    decreases ops.len() - p,
{
    if p >= ops.len() {
    } else if ops[p].implicit {
        lemma_mem_window_count(names, op, ops, p + 1, first);
    } else if ops[p].data is MemStart {
        lemma_mem_window_count(names, op, ops, p + 5, false);
        assert(!(ops[p + 1].data is MemStart));
        assert(!(ops[p + 2].data is MemStart));
        assert(!(ops[p + 3].data is MemStart));
        assert(!(ops[p + 4].data is MemStart));
        assert(memstart_count(ops, p + 4) == memstart_count(ops, p + 5));
        assert(memstart_count(ops, p + 3) == memstart_count(ops, p + 4));
        assert(memstart_count(ops, p + 2) == memstart_count(ops, p + 3));
        assert(memstart_count(ops, p + 1) == memstart_count(ops, p + 2));
    } else {
        lemma_mem_window_count(names, op, ops, p + 1, false);
    }
}

/// The sentinel itself is never printed: an addressing expression reads
/// only the four slots after its sentinel (and the opcode), never the
/// sentinel operand.
pub proof fn lemma_window_reads_window_only(
    op: MachOpcode,
    ops1: Seq<Operand>,
    ops2: Seq<Operand>,
    p: int,
)
    requires
        0 <= p,
        p + 5 <= ops1.len(),
        p + 5 <= ops2.len(),
        forall|q: int| p + 1 <= q < p + 5 ==> ops1[q] == ops2[q],
    ensures
        render_window(op, ops1, p) == render_window(op, ops2, p),
{
    assert(ops1[p + 1] == ops2[p + 1]);
    assert(ops1[p + 2] == ops2[p + 2]);
    assert(ops1[p + 3] == ops2[p + 3]);
    assert(ops1[p + 4] == ops2[p + 4]);
}

/// Label correctness: different blocks print different labels, so a
/// machine function with N blocks prints N distinct labels
/// `.LBL0 … .LBL(N-1)` in visitation order.
pub proof fn lemma_labels_distinct(i: nat, j: nat)
    requires
        i != j,
    ensures
        label_text(i) != label_text(j),
{
    reveal_strlit(".LBL");
    if label_text(i) == label_text(j) {
        assert(label_text(i).subrange(4, label_text(i).len() as int) =~= dec_of(i));
        assert(label_text(j).subrange(4, label_text(j).len() as int) =~= dec_of(j));
        crate::text::lemma_dec_of_injective(i, j);
        assert(false);
    }
}

/// Label correctness: a jump or branch operand prints exactly the label
/// of its target block.
pub proof fn lemma_jump_prints_target(names: Seq<Seq<char>>, b: u32)
    ensures
        render_operand(names, OperandData::Block(b)) == Ok::<Seq<char>, AsmError>(
            label_text(b as nat),
        ),
{
}

/// Idempotence of printing: the text is a function of the module's
/// mathematical view alone, so printing the same machine module twice
/// yields identical text.
pub proof fn lemma_print_deterministic(m1: MachModule, m2: MachModule)
    requires
        m1@ == m2@,
    ensures
        render_module_spec(m1@) == render_module_spec(m2@),
{
}


/// Label correctness: the text of a function's blocks from block `b` on
/// begins with block `b`'s own label line, so the blocks print their
/// labels in visitation order.
pub proof fn lemma_block_text_starts_with_label(
    names: Seq<Seq<char>>,
    blocks: Seq<Seq<MachInstV>>,
    b: int,
)
    requires
        0 <= b < blocks.len(),
        render_blocks(names, blocks, b) is Ok,
    ensures
        render_blocks(names, blocks, b)->Ok_0.subrange(0, label_text(b as nat).len() + 2 as int)
            =~= label_text(b as nat) + ":\n"@,
{
    reveal_strlit(":\n");
    let t = render_blocks(names, blocks, b)->Ok_0;
    let lbl = label_text(b as nat) + ":\n"@;
    assert((":\n"@).len() == 2);
    assert(t =~= lbl + (render_insts(names, blocks[b], 0)->Ok_0 + render_blocks(
        names,
        blocks,
        b + 1,
    )->Ok_0));
    assert(t.subrange(0, lbl.len() as int) =~= lbl);
}

} // verus!
