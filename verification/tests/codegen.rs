use vicis::ir::{Attribute, BlockLayout, Function, Instruction, Module, Opcode, Value};
use vicis::lower::{convert_module, Lower, LoweringContext, LoweringError};
use vicis::mach::{MachBlock, MachInstruction, MachModule, Operand, OperandData};
use vicis::printer::{print_module, AsmError};
use vicis::types::{parse, ParseError, Types};
use vicis::x64::{MachOpcode, Reg, SystemV, X86_64};

fn inst(id: u32, opcode: Opcode, ty_i32: bool, args: Vec<Value>) -> Instruction {
    let types = Types::new();
    Instruction {
        id,
        opcode,
        ty: if ty_i32 { types.int32() } else { types.void() },
        args,
        targets: Vec::new(),
        callee: None,
    }
}

fn func(name: &str, data: Vec<Instruction>, layout: Vec<Vec<u32>>) -> Function {
    let types = Types::new();
    Function {
        name: name.to_string(),
        params: Vec::new(),
        ret_ty: types.int32(),
        data,
        layout: layout
            .into_iter()
            .map(|insts| BlockLayout { insts })
            .collect(),
    }
}

fn main_func() -> Function {
    func(
        "main",
        vec![
            inst(0, Opcode::Alloca, true, vec![]),
            inst(1, Opcode::Store, true, vec![Value::Int32(2), Value::Inst(0)]),
            inst(2, Opcode::Load, true, vec![Value::Inst(0)]),
            inst(3, Opcode::Add, true, vec![Value::Inst(2), Value::Int32(1)]),
            inst(4, Opcode::Add, true, vec![Value::Inst(2), Value::Int32(2)]),
            inst(5, Opcode::Add, true, vec![Value::Inst(3), Value::Inst(4)]),
            inst(6, Opcode::Ret, true, vec![Value::Inst(5)]),
        ],
        vec![vec![0, 1, 2, 3, 4, 5, 6]],
    )
}

#[test]
fn gen() {
    let mut module = Module::new();
    module.source_filename = "asm.c".to_string();
    module.target.datalayout =
        "e-m:e-p270:32:32-p271:32:32-p272:64:64-i64:64-f80:128-n8:16:32:64-S128".to_string();
    module.target.triple = "x86_64-pc-linux-gnu".to_string();
    module.add_function(main_func());
    module.add_attributes(
        0,
        vec![
            Attribute::NoInline,
            Attribute::NoUnwind,
            Attribute::OptNone,
            Attribute::UwTable,
        ],
    );
    let mach_module = convert_module(&X86_64::new(SystemV), &module).unwrap();
    let text = print_module(&mach_module).unwrap();
    println!("{}", text);
    assert_eq!(
        text,
        "  .text\n  .intel_syntax noprefix\n  .globl main\nmain:\n.LBL0:\n\
         \x20 mov dword ptr [rbp-4], 2\n\
         \x20 mov %0, dword ptr [rbp-4]\n\
         \x20 mov dword ptr [rbp-8], %0\n\
         \x20 mov %1, dword ptr [rbp-8]\n\
         \x20 add %1, 1\n\
         \x20 mov dword ptr [rbp-12], %1\n\
         \x20 mov %2, dword ptr [rbp-8]\n\
         \x20 add %2, 2\n\
         \x20 mov dword ptr [rbp-16], %2\n\
         \x20 mov %3, dword ptr [rbp-12]\n\
         \x20 mov %4, dword ptr [rbp-16]\n\
         \x20 add %3, %4\n\
         \x20 mov dword ptr [rbp-20], %3\n\
         \x20 mov eax, dword ptr [rbp-20]\n\
         \x20 ret \n"
    );
}

#[test]
fn add_lowering_roundtrip() {
    // Lowering `add` of a slot-held value and the immediate 1 expands to a
    // load, an add with immediate, and a store, and is deterministic.
    let mut module = Module::new();
    module.add_function(main_func());
    let isa = X86_64::new(SystemV);
    let t1 = print_module(&convert_module(&isa, &module).unwrap()).unwrap();
    let t2 = print_module(&convert_module(&isa, &module).unwrap()).unwrap();
    assert_eq!(t1, t2);
    assert!(t1.contains(
        "  mov %1, dword ptr [rbp-8]\n  add %1, 1\n  mov dword ptr [rbp-12], %1\n"
    ));
}

#[test]
fn two_function_call_scenario() {
    let types = Types::new();
    let mut module = Module::new();
    let mut main_f = func(
        "main",
        vec![
            inst(0, Opcode::Alloca, true, vec![]),
            inst(1, Opcode::Alloca, true, vec![]),
            inst(2, Opcode::Alloca, true, vec![]),
            inst(3, Opcode::Store, true, vec![Value::Int32(10), Value::Inst(0)]),
            inst(4, Opcode::Store, true, vec![Value::Int32(20), Value::Inst(1)]),
            inst(5, Opcode::Store, true, vec![Value::Int32(100), Value::Inst(2)]),
            inst(6, Opcode::Load, true, vec![Value::Inst(0)]),
            inst(7, Opcode::Load, true, vec![Value::Inst(1)]),
            inst(8, Opcode::Call, true, vec![Value::Inst(6), Value::Inst(7)]),
            inst(9, Opcode::Store, true, vec![Value::Inst(8), Value::Inst(2)]),
            inst(10, Opcode::Load, true, vec![Value::Inst(2)]),
            inst(11, Opcode::Ret, false, vec![]),
        ],
        vec![vec![0, 1, 2, 3, 4, 5, 6, 7, 8, 9, 10, 11]],
    );
    main_f.ret_ty = types.void();
    main_f.data[8].callee = Some(1);
    let bar_f = func(
        "bar",
        vec![
            inst(0, Opcode::Alloca, true, vec![]),
            inst(1, Opcode::Alloca, true, vec![]),
            inst(2, Opcode::Alloca, true, vec![]),
            inst(3, Opcode::Store, true, vec![Value::Arg(0), Value::Inst(0)]),
            inst(4, Opcode::Store, true, vec![Value::Arg(1), Value::Inst(1)]),
            inst(5, Opcode::Store, true, vec![Value::Int32(200), Value::Inst(2)]),
            inst(6, Opcode::Load, true, vec![Value::Inst(0)]),
            inst(7, Opcode::Load, true, vec![Value::Inst(1)]),
            inst(8, Opcode::Add, true, vec![Value::Inst(6), Value::Inst(7)]),
            inst(9, Opcode::Store, true, vec![Value::Inst(8), Value::Inst(2)]),
            inst(10, Opcode::Load, true, vec![Value::Inst(2)]),
            inst(11, Opcode::Ret, true, vec![Value::Inst(10)]),
        ],
        vec![vec![0, 1, 2, 3, 4, 5, 6, 7, 8, 9, 10, 11]],
    );
    module.add_function(main_f);
    module.add_function(bar_f);
    let mach_module = convert_module(&X86_64::new(SystemV), &module).unwrap();
    let text = print_module(&mach_module).unwrap();
    println!("{}", text);
    // main: the two loaded arguments in parameter-register order, the call
    // referencing bar's label, and the store of the call's result into the
    // third slot.
    assert!(text.contains(
        "  mov edi, dword ptr [rbp-16]\n  mov esi, dword ptr [rbp-20]\n  call bar\n\
         \x20 mov dword ptr [rbp-24], eax\n"
    ));
    assert!(text.contains("  mov %2, dword ptr [rbp-24]\n  mov dword ptr [rbp-12], %2\n"));
    // bar: loads of its two parameter slots, an add, and a return of the
    // computed value.
    assert!(text.contains("  mov dword ptr [rbp-4], edi\n"));
    assert!(text.contains("  mov dword ptr [rbp-8], esi\n"));
    assert!(text.contains("  mov %2, dword ptr [rbp-16]\n  mov %3, dword ptr [rbp-20]\n  add %2, %3\n"));
    assert!(text.contains("  mov eax, dword ptr [rbp-28]\n  ret \n"));
}

#[test]
fn unsupported_instruction_reported() {
    // A store through a non-pointer operand matches no rule: selection
    // fails with the opcode and location, and never with a false positive.
    let mut module = Module::new();
    module.add_function(func(
        "broken",
        vec![inst(0, Opcode::Store, true, vec![Value::Int32(1), Value::Int32(2)])],
        vec![vec![0]],
    ));
    let err = convert_module(&X86_64::new(SystemV), &module).unwrap_err();
    assert_eq!(
        err,
        LoweringError::UnsupportedInstruction {
            opcode: Opcode::Store,
            func: 0,
            block: 0,
        }
    );
}

#[test]
fn unsupported_call_out_of_range() {
    let mut module = Module::new();
    let mut f = func(
        "caller",
        vec![inst(0, Opcode::Call, true, vec![])],
        vec![vec![0]],
    );
    f.data[0].callee = Some(7);
    module.add_function(f);
    let err = convert_module(&X86_64::new(SystemV), &module).unwrap_err();
    assert_eq!(
        err,
        LoweringError::UnsupportedInstruction {
            opcode: Opcode::Call,
            func: 0,
            block: 0,
        }
    );
}

#[test]
fn branch_prints_target_labels() {
    let mut module = Module::new();
    let mut f = func(
        "loopy",
        vec![inst(0, Opcode::Br, true, vec![]), inst(1, Opcode::Ret, false, vec![])],
        vec![vec![0], vec![1]],
    );
    f.data[0].targets = vec![1];
    module.add_function(f);
    let mach_module = convert_module(&X86_64::new(SystemV), &module).unwrap();
    let text = print_module(&mach_module).unwrap();
    assert!(text.contains(".LBL0:\n  jmp .LBL1\n.LBL1:\n  ret \n"));
}

#[test]
fn phi_pseudo_emitted_verbatim() {
    let mut module = Module::new();
    let mut f = func(
        "merger",
        vec![
            inst(0, Opcode::Br, true, vec![]),
            inst(1, Opcode::Phi, true, vec![Value::Int32(5)]),
            inst(2, Opcode::Ret, true, vec![Value::Inst(1)]),
        ],
        vec![vec![0], vec![1, 2]],
    );
    f.data[0].targets = vec![1];
    f.data[1].targets = vec![0];
    module.add_function(f);
    let mach_module = convert_module(&X86_64::new(SystemV), &module).unwrap();
    let text = print_module(&mach_module).unwrap();
    assert!(text.contains("  PHI %0, 5, .LBL0\n  mov dword ptr [rbp-4], %0\n"));
}

#[test]
fn print_rejects_unresolved_slot_base() {
    // A memory window whose base is still a raw stack slot signals that
    // slot elimination was skipped: printing fails fatally.
    let mach_module = MachModule {
        functions: vec![vicis::mach::MachFunction {
            name: "f".to_string(),
            blocks: vec![MachBlock {
                insts: vec![MachInstruction {
                    opcode: MachOpcode::MOVrm32,
                    operands: vec![
                        Operand { data: OperandData::VReg(0), implicit: false },
                        Operand { data: OperandData::MemStart, implicit: false },
                        Operand { data: OperandData::Int32(0), implicit: false },
                        Operand { data: OperandData::Slot(0), implicit: false },
                        Operand { data: OperandData::Empty, implicit: false },
                        Operand { data: OperandData::Empty, implicit: false },
                    ],
                }],
            }],
        }],
    };
    assert_eq!(print_module(&mach_module).unwrap_err(), AsmError::MalformedOperand);
}

#[test]
fn print_rejects_invalid_register_class() {
    let mach_module = MachModule {
        functions: vec![vicis::mach::MachFunction {
            name: "f".to_string(),
            blocks: vec![MachBlock {
                insts: vec![MachInstruction {
                    opcode: MachOpcode::MOVri32,
                    operands: vec![
                        Operand { data: OperandData::Reg(Reg(7, 0)), implicit: false },
                        Operand { data: OperandData::Int32(1), implicit: false },
                    ],
                }],
            }],
        }],
    };
    assert_eq!(print_module(&mach_module).unwrap_err(), AsmError::InvalidRegisterClass);
}

#[test]
fn print_mem_operand_with_index_and_scale() {
    let mach_module = MachModule {
        functions: vec![vicis::mach::MachFunction {
            name: "f".to_string(),
            blocks: vec![MachBlock {
                insts: vec![MachInstruction {
                    opcode: MachOpcode::MOVrm32,
                    operands: vec![
                        Operand { data: OperandData::VReg(3), implicit: false },
                        Operand { data: OperandData::MemStart, implicit: false },
                        Operand { data: OperandData::Int32(-8), implicit: false },
                        Operand { data: OperandData::Reg(Reg(1, 5)), implicit: false },
                        Operand { data: OperandData::Reg(Reg(1, 0)), implicit: false },
                        Operand { data: OperandData::Int32(4), implicit: false },
                    ],
                }],
            }],
        }],
    };
    let text = print_module(&mach_module).unwrap();
    assert!(text.contains("  mov %3, dword ptr [rbp-8+rax*4]\n"));
}

#[test]
fn printing_is_idempotent() {
    let mut module = Module::new();
    module.add_function(main_func());
    let mach_module = convert_module(&X86_64::new(SystemV), &module).unwrap();
    let t1 = print_module(&mach_module).unwrap();
    let t2 = print_module(&mach_module).unwrap();
    assert_eq!(t1, t2);
}

#[test]
fn structural_preservation_block_counts() {
    let mut module = Module::new();
    let mut f = func(
        "three",
        vec![
            inst(0, Opcode::Br, true, vec![]),
            inst(1, Opcode::Br, true, vec![]),
            inst(2, Opcode::Ret, false, vec![]),
        ],
        vec![vec![0], vec![1], vec![2]],
    );
    f.data[0].targets = vec![1];
    f.data[1].targets = vec![2];
    module.add_function(f);
    let mach_module = convert_module(&X86_64::new(SystemV), &module).unwrap();
    assert_eq!(mach_module.functions.len(), 1);
    assert_eq!(mach_module.functions[0].blocks.len(), 3);
    let text = print_module(&mach_module).unwrap();
    assert!(text.contains(".LBL0:\n"));
    assert!(text.contains(".LBL1:\n"));
    assert!(text.contains(".LBL2:\n"));
}

#[test]
fn parse_i32_after_spaces() {
    let types = Types::new();
    let (rest, ty) = parse("  i32 rest", &types).unwrap();
    assert_eq!(rest, " rest");
    assert_eq!(ty, types.int32());
    let (rest, _) = parse("\t\n i32", &types).unwrap();
    assert_eq!(rest, "");
    assert_eq!(parse("  i64", &types).unwrap_err(), ParseError::ExpectedType);
    assert_eq!(parse("", &types).unwrap_err(), ParseError::ExpectedType);
}

#[test]
fn module_text_header_and_attributes() {
    let mut module = Module::new();
    module.source_filename = "asm.c".to_string();
    module.target.datalayout = "e-m:e".to_string();
    module.target.triple = "x86_64-pc-linux-gnu".to_string();
    module.add_function(main_func());
    module.add_attributes(0, vec![Attribute::NoInline, Attribute::UwTable]);
    let text = module.to_text();
    assert_eq!(
        text,
        "source_filename = \"asm.c\"\n\
         target datalayout = \"e-m:e\"\n\
         target triple = \"x86_64-pc-linux-gnu\"\n\
         \n\
         define @main\n\
         attributes #0 = { noinline uwtable }\n"
    );
}

#[test]
fn module_accessors() {
    let module = Module::new();
    assert_eq!(module.name(), "");
    assert_eq!(module.functions().len(), 0);
    let target = vicis::ir::Target::new();
    assert_eq!(target.triple, "");
    assert_eq!(target.datalayout, "");
}

#[test]
fn decimal_rendering() {
    assert_eq!(vicis::text::u32_to_string(0), "0");
    assert_eq!(vicis::text::u32_to_string(90210), "90210");
    assert_eq!(vicis::text::i32_to_string(-4), "-4");
    assert_eq!(vicis::text::i32_to_string(i32::MIN), "-2147483648");
    assert_eq!(vicis::text::usize_to_string(17), "17");
}

#[test]
fn attribute_groups_print_in_ascending_order() {
    let mut module = Module::new();
    module.add_attributes(3, vec![Attribute::OptNone]);
    module.add_attributes(1, vec![Attribute::NoInline, Attribute::NoUnwind]);
    let text = module.to_text();
    assert_eq!(
        text,
        "source_filename = \"\"\n\
         target datalayout = \"\"\n\
         target triple = \"\"\n\
         \n\
         attributes #1 = { noinline nounwind }\n\
         attributes #3 = { optnone }\n"
    );
    // The same module prints the same text again.
    assert_eq!(module.to_text(), text);
}

#[test]
fn lower_trait_dispatch() {
    let isa = X86_64::new(SystemV);
    let mut ctx = LoweringContext::new(1, 1, 0);
    let alloca = inst(0, Opcode::Alloca, true, vec![]);
    let out = isa.lower(&mut ctx, &alloca).unwrap();
    assert_eq!(out.len(), 0);
    let store = inst(1, Opcode::Store, true, vec![Value::Int32(7), Value::Inst(0)]);
    let out = isa.lower(&mut ctx, &store).unwrap();
    assert_eq!(out.len(), 1);
    assert_eq!(out[0].opcode, MachOpcode::MOVmi32);
    let bad = inst(2, Opcode::Load, true, vec![Value::Inst(9)]);
    let err = isa.lower(&mut ctx, &bad).unwrap_err();
    assert_eq!(
        err,
        LoweringError::UnsupportedInstruction {
            opcode: Opcode::Load,
            func: 0,
            block: 0,
        }
    );
}
