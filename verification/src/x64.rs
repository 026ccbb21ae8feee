//! The x86-64 target contract: its opcode set, register file, canonical
//! register names and System V calling convention. Everything instruction
//! selection and printing need to know about the target is here.

use vstd::prelude::*;

verus! {

/// A physical register: a class (0 = 32-bit general, 1 = 64-bit general)
/// and an index within the class.
#[derive(Clone, Copy, PartialEq, Eq, Structural, Debug)]
pub struct Reg(pub u8, pub u8);

/// Whether a register names an enumerated (class, index) pair of the
/// register file.
pub open spec fn reg_valid(r: Reg) -> bool {
    r.0 < 2 && r.1 < 16
}

/// Canonical name of an enumerated (class, index) pair.
pub open spec fn reg_name_spec(r: Reg) -> Seq<char>
    recommends
        reg_valid(r),
{
    if r.0 == 0 {
        seq![
            "eax"@, "ecx"@, "edx"@, "ebx"@, "esp"@, "ebp"@, "esi"@, "edi"@,
            "r8d"@, "r9d"@, "r10d"@, "r11d"@, "r12d"@, "r13d"@, "r14d"@, "r15d"@,
        ][r.1 as int]
    } else {
        seq![
            "rax"@, "rcx"@, "rdx"@, "rbx"@, "rsp"@, "rbp"@, "rsi"@, "rdi"@,
            "r8"@, "r9"@, "r10"@, "r11"@, "r12"@, "r13"@, "r14"@, "r15"@,
        ][r.1 as int]
    }
}

/// Canonical name of a register, `None` when the (class, index) pair lies
/// outside the enumerated register file.
pub fn reg_name(r: Reg) -> (res: Option<&'static str>)
    ensures
        res is Some <==> reg_valid(r),
        res is Some ==> res->0@ == reg_name_spec(r),
{
    if r.0 == 0 && r.1 < 16 {
        let names: [&'static str; 16] = [
            "eax", "ecx", "edx", "ebx", "esp", "ebp", "esi", "edi",
            "r8d", "r9d", "r10d", "r11d", "r12d", "r13d", "r14d", "r15d",
        ];
        let n = names[r.1 as usize];
        assert(n@ == reg_name_spec(r));
        Some(n)
    } else if r.0 == 1 && r.1 < 16 {
        let names: [&'static str; 16] = [
            "rax", "rcx", "rdx", "rbx", "rsp", "rbp", "rsi", "rdi",
            "r8", "r9", "r10", "r11", "r12", "r13", "r14", "r15",
        ];
        let n = names[r.1 as usize];
        assert(n@ == reg_name_spec(r));
        Some(n)
    } else {
        None
    }
}

/// The opcode set of the target: every emittable machine instruction, plus
/// the reserved `Phi` pseudo-opcode that stands for an unresolved SSA merge
/// point until a downstream pass eliminates it.
#[derive(Clone, Copy, PartialEq, Eq, Structural, Debug)]
pub enum MachOpcode {
    PUSH64,
    POP64,
    ADDr64i32,
    ADDri32,
    ADDrr32,
    SUBr64i32,
    MOVrr32,
    MOVrr64,
    MOVri32,
    MOVrm32,
    MOVmi32,
    MOVmr32,
    MOVSXDr64r32,
    CMPri32,
    JMP,
    JE,
    JNE,
    JLE,
    JL,
    JGE,
    JG,
    CALL,
    RET,
    Phi,
}

/// Assembly mnemonic of an opcode.
pub open spec fn mnemonic_spec(op: MachOpcode) -> Seq<char> {
    match op {
        MachOpcode::PUSH64 => "push"@,
        MachOpcode::POP64 => "pop"@,
        MachOpcode::ADDr64i32 => "add"@,
        MachOpcode::ADDri32 => "add"@,
        MachOpcode::ADDrr32 => "add"@,
        MachOpcode::SUBr64i32 => "sub"@,
        MachOpcode::MOVrr32 => "mov"@,
        MachOpcode::MOVrr64 => "mov"@,
        MachOpcode::MOVri32 => "mov"@,
        MachOpcode::MOVrm32 => "mov"@,
        MachOpcode::MOVmi32 => "mov"@,
        MachOpcode::MOVmr32 => "mov"@,
        MachOpcode::MOVSXDr64r32 => "movsxd"@,
        MachOpcode::CMPri32 => "cmp"@,
        MachOpcode::JMP => "jmp"@,
        MachOpcode::JE => "je"@,
        MachOpcode::JNE => "jne"@,
        MachOpcode::JLE => "jle"@,
        MachOpcode::JL => "jl"@,
        MachOpcode::JGE => "jge"@,
        MachOpcode::JG => "jg"@,
        MachOpcode::CALL => "call"@,
        MachOpcode::RET => "ret"@,
        MachOpcode::Phi => "PHI"@,
    }
}

/// Assembly mnemonic of an opcode.
pub fn mnemonic(op: MachOpcode) -> (r: &'static str)
    ensures
        r@ == mnemonic_spec(op),
{
    match op {
        MachOpcode::PUSH64 => "push",
        MachOpcode::POP64 => "pop",
        MachOpcode::ADDr64i32 => "add",
        MachOpcode::ADDri32 => "add",
        MachOpcode::ADDrr32 => "add",
        MachOpcode::SUBr64i32 => "sub",
        MachOpcode::MOVrr32 => "mov",
        MachOpcode::MOVrr64 => "mov",
        MachOpcode::MOVri32 => "mov",
        MachOpcode::MOVrm32 => "mov",
        MachOpcode::MOVmi32 => "mov",
        MachOpcode::MOVmr32 => "mov",
        MachOpcode::MOVSXDr64r32 => "movsxd",
        MachOpcode::CMPri32 => "cmp",
        MachOpcode::JMP => "jmp",
        MachOpcode::JE => "je",
        MachOpcode::JNE => "jne",
        MachOpcode::JLE => "jle",
        MachOpcode::JL => "jl",
        MachOpcode::JGE => "jge",
        MachOpcode::JG => "jg",
        MachOpcode::CALL => "call",
        MachOpcode::RET => "ret",
        MachOpcode::Phi => "PHI",
    }
}

/// Whether a memory-touching opcode declares a 32-bit access width. Every
/// opcode that takes a memory operand must declare its width; the printer
/// fails fatally on one that does not.
pub open spec fn has_dword_width(op: MachOpcode) -> bool {
    op == MachOpcode::MOVrm32 || op == MachOpcode::MOVmi32 || op == MachOpcode::MOVmr32
}

/// Memory access width keyword of an opcode, when it declares one.
pub fn mem_size(op: MachOpcode) -> (r: Option<&'static str>)
    ensures
        r is Some <==> has_dword_width(op),
        r is Some ==> r->0@ == "dword"@,
{
    match op {
        MachOpcode::MOVrm32 | MachOpcode::MOVmi32 | MachOpcode::MOVmr32 => Some("dword"),
        _ => None,
    }
}

/// The System V calling convention: which register holds parameter *i* and
/// which holds a 32-bit return value.
#[derive(Clone, Copy, PartialEq, Eq, Structural, Debug)]
pub struct SystemV;

/// The 32-bit register assigned to parameter `i`, for the first six
/// parameters: edi, esi, edx, ecx, r8d, r9d.
pub open spec fn param_reg32_spec(i: nat) -> Reg
    recommends
        i < 6,
{
    seq![Reg(0, 7), Reg(0, 6), Reg(0, 2), Reg(0, 1), Reg(0, 8), Reg(0, 9)][i as int]
}

/// The 32-bit return-value register: eax.
pub open spec fn ret_reg32_spec() -> Reg {
    Reg(0, 0)
}

/// The 64-bit stack base-pointer register: rbp, the base of resolved stack
/// slots.
pub open spec fn base_reg_spec() -> Reg {
    Reg(1, 5)
}

impl SystemV {
    /// Register holding parameter `i`; `None` when parameter `i` is passed
    /// on the stack (beyond the sixth).
    pub fn param_reg32(&self, i: usize) -> (r: Option<Reg>)
        ensures
            r is Some <==> i < 6,
            r is Some ==> r->0 == param_reg32_spec(i as nat),
    {
        if i < 6 {
            let regs: [Reg; 6] = [Reg(0, 7), Reg(0, 6), Reg(0, 2), Reg(0, 1), Reg(0, 8), Reg(0, 9)];
            Some(regs[i])
        } else {
            None
        }
    }

    /// Register holding a 32-bit return value.
    pub fn ret_reg32(&self) -> (r: Reg)
        ensures
            r == ret_reg32_spec(),
    {
        Reg(0, 0)
    }
}

/// The x86-64 backend: the target contract instantiated with this target's
/// opcode set, register file and calling convention.
#[derive(Clone, Copy, PartialEq, Eq, Structural, Debug)]
pub struct X86_64 {
    pub cc: SystemV,
}

impl X86_64 {
    pub fn new(cc: SystemV) -> (r: X86_64)
        ensures
            r.cc == cc,
    {
        X86_64 { cc }
    }
}

} // verus!
