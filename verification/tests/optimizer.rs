use babbelaar_compiler::ir::{
    Function, Immediate, Instruction, JumpCondition, Label, MathOperation, Operand, PrimitiveType,
    Register,
};
use babbelaar_compiler::optimization::register::RegisterInliner;
use babbelaar_compiler::optimization::FunctionOptimizer;

fn reg(number: usize) -> Register {
    Register::new(number)
}

fn imm(value: i64) -> Immediate {
    Immediate::Integer64(value)
}

fn load(value: i64, register: usize) -> Instruction {
    Instruction::LoadImmediate { immediate: imm(value), destination_reg: reg(register) }
}

fn math(operation: MathOperation, destination: usize, lhs: Operand, rhs: Operand) -> Instruction {
    Instruction::MathOperation { operation, destination: reg(destination), lhs, rhs }
}

fn optimized(instructions: Vec<Instruction>) -> Vec<Instruction> {
    let mut function = Function::new(String::from("hoofd"), 16, instructions);
    RegisterInliner::default().optimize(&mut function);
    assert_eq!(function.name(), "hoofd");
    assert_eq!(function.frame_size(), 16);
    function.instructions
}

/// A plain evaluator for functions without calls and memory: the value that
/// the function returns within `steps` instructions.
fn returned(instructions: &[Instruction], arguments: &[(usize, i64)], steps: usize) -> Option<Option<i64>> {
    let mut registers = std::collections::HashMap::new();
    for (register, value) in arguments {
        registers.insert(*register, *value);
    }
    let value_of = |registers: &std::collections::HashMap<usize, i64>, operand: &Operand| match operand {
        Operand::Register(register) => *registers.get(&register.number()).unwrap_or(&0),
        Operand::Immediate(immediate) => immediate.as_i64(),
    };
    let mut compared = (0i64, 0i64);
    let mut position = 0usize;
    for _ in 0..steps {
        if position >= instructions.len() {
            return None;
        }
        let mut next = position + 1;
        match &instructions[position] {
            Instruction::Compare { lhs, rhs } => {
                compared = (value_of(&registers, lhs), value_of(&registers, rhs));
            }
            Instruction::Increment { register } => {
                let value = *registers.get(&register.number()).unwrap_or(&0);
                registers.insert(register.number(), value.wrapping_add(1));
            }
            Instruction::Jump { location } => {
                next = instructions.iter().position(|i| *i == Instruction::Label(*location))?;
            }
            Instruction::JumpConditional { condition, location } => {
                let taken = match condition {
                    JumpCondition::Equal => compared.0 == compared.1,
                    JumpCondition::NotEqual => compared.0 != compared.1,
                    JumpCondition::Less => compared.0 < compared.1,
                    JumpCondition::LessOrEqual => compared.0 <= compared.1,
                    JumpCondition::Greater => compared.0 > compared.1,
                    JumpCondition::GreaterOrEqual => compared.0 >= compared.1,
                };
                if taken {
                    next = instructions.iter().position(|i| *i == Instruction::Label(*location))?;
                }
            }
            Instruction::LoadImmediate { immediate, destination_reg } => {
                registers.insert(destination_reg.number(), immediate.as_i64());
            }
            Instruction::Label(_) => {}
            Instruction::Move { source, destination } => {
                let value = *registers.get(&source.number()).unwrap_or(&0);
                registers.insert(destination.number(), value);
            }
            Instruction::MathOperation { operation, destination, lhs, rhs } => {
                let lhs = value_of(&registers, lhs);
                let rhs = value_of(&registers, rhs);
                let value = match operation {
                    MathOperation::Add => lhs.wrapping_add(rhs),
                    MathOperation::Subtract => lhs.wrapping_sub(rhs),
                };
                registers.insert(destination.number(), value);
            }
            Instruction::Return { value } => {
                return Some(value.as_ref().map(|operand| value_of(&registers, operand)));
            }
            other => panic!("not evaluated here: {:?}", other),
        }
        position = next;
    }
    None
}

#[test]
fn constant_expression_is_folded_to_one_load() {
    let result = optimized(vec![
        math(MathOperation::Add, 1, Operand::Immediate(imm(40)), Operand::Immediate(imm(83))),
        Instruction::Return { value: Some(Operand::Register(reg(1))) },
    ]);
    assert_eq!(
        result,
        vec![load(123, 1), Instruction::Return { value: Some(Operand::Register(reg(1))) }]
    );
    assert_eq!(returned(&result, &[], 10), Some(Some(123)));
}

#[test]
fn addition_wraps_at_64_bits() {
    let result = optimized(vec![math(
        MathOperation::Add,
        0,
        Operand::Immediate(imm(9223372036854775807)),
        Operand::Immediate(imm(1)),
    )]);
    assert_eq!(result, vec![load(-9223372036854775808, 0)]);
}

#[test]
fn subtraction_wraps_at_64_bits() {
    let result = optimized(vec![math(
        MathOperation::Subtract,
        0,
        Operand::Immediate(imm(-9223372036854775808)),
        Operand::Immediate(imm(1)),
    )]);
    assert_eq!(result, vec![load(9223372036854775807, 0)]);
    let result = optimized(vec![math(
        MathOperation::Subtract,
        0,
        Operand::Immediate(imm(10)),
        Operand::Immediate(imm(52)),
    )]);
    assert_eq!(result, vec![load(-42, 0)]);
}

#[test]
fn arithmetic_on_known_registers_is_folded() {
    let result = optimized(vec![
        load(30, 1),
        load(12, 2),
        math(MathOperation::Add, 3, Operand::Register(reg(1)), Operand::Register(reg(2))),
        math(MathOperation::Subtract, 4, Operand::Register(reg(3)), Operand::Immediate(imm(2))),
    ]);
    assert_eq!(result, vec![load(30, 1), load(12, 2), load(42, 3), load(40, 4)]);
}

#[test]
fn known_operand_of_unfolded_arithmetic_is_inlined() {
    let result = optimized(vec![
        load(5, 1),
        math(MathOperation::Add, 3, Operand::Register(reg(1)), Operand::Register(reg(2))),
        math(MathOperation::Subtract, 4, Operand::Register(reg(2)), Operand::Register(reg(1))),
    ]);
    assert_eq!(
        result,
        vec![
            load(5, 1),
            math(MathOperation::Add, 3, Operand::Immediate(imm(5)), Operand::Register(reg(2))),
            math(MathOperation::Subtract, 4, Operand::Register(reg(2)), Operand::Immediate(imm(5))),
        ]
    );
}

#[test]
fn copy_of_known_register_becomes_load_and_folds_comparison() {
    let result = optimized(vec![
        load(7, 1),
        Instruction::Move { source: reg(1), destination: reg(2) },
        Instruction::Compare { lhs: Operand::Register(reg(3)), rhs: Operand::Register(reg(2)) },
    ]);
    assert_eq!(
        result,
        vec![
            load(7, 1),
            load(7, 2),
            Instruction::Compare { lhs: Operand::Register(reg(3)), rhs: Operand::Immediate(imm(7)) },
        ]
    );
}

#[test]
fn left_side_of_comparison_is_left_alone() {
    let result = optimized(vec![
        load(7, 1),
        Instruction::Compare { lhs: Operand::Register(reg(1)), rhs: Operand::Register(reg(2)) },
    ]);
    assert_eq!(
        result,
        vec![
            load(7, 1),
            Instruction::Compare { lhs: Operand::Register(reg(1)), rhs: Operand::Register(reg(2)) },
        ]
    );
}

#[test]
fn copy_of_unknown_register_forgets_destination() {
    let result = optimized(vec![
        load(7, 2),
        Instruction::Move { source: reg(1), destination: reg(2) },
        Instruction::Move { source: reg(2), destination: reg(3) },
    ]);
    assert_eq!(
        result,
        vec![
            load(7, 2),
            Instruction::Move { source: reg(1), destination: reg(2) },
            Instruction::Move { source: reg(2), destination: reg(3) },
        ]
    );
}

#[test]
fn increment_keeps_tracked_value_in_step() {
    let result = optimized(vec![
        load(9223372036854775807, 1),
        Instruction::Increment { register: reg(1) },
        Instruction::Move { source: reg(1), destination: reg(2) },
    ]);
    assert_eq!(
        result,
        vec![
            load(9223372036854775807, 1),
            Instruction::Increment { register: reg(1) },
            load(-9223372036854775808, 2),
        ]
    );
}

#[test]
fn nothing_is_known_behind_a_jump() {
    let body = vec![
        load(0, 1),
        Instruction::Jump { location: Label::new(1) },
        Instruction::Label(Label::new(1)),
        Instruction::Move { source: reg(1), destination: reg(2) },
        Instruction::Increment { register: reg(1) },
        Instruction::Compare { lhs: Operand::Register(reg(1)), rhs: Operand::Immediate(imm(3)) },
        Instruction::JumpConditional { condition: JumpCondition::Less, location: Label::new(1) },
        math(MathOperation::Add, 3, Operand::Register(reg(1)), Operand::Register(reg(2))),
        Instruction::Return { value: Some(Operand::Register(reg(3))) },
    ];
    let result = optimized(body.clone());
    assert_eq!(result, body);
    assert_eq!(returned(&body, &[], 100), Some(Some(5)));
    assert_eq!(returned(&result, &[], 100), Some(Some(5)));
}

#[test]
fn conditional_jump_clears_knowledge_on_fall_through() {
    let result = optimized(vec![
        load(1, 1),
        Instruction::JumpConditional { condition: JumpCondition::Equal, location: Label::new(9) },
        Instruction::Move { source: reg(1), destination: reg(2) },
    ]);
    assert_eq!(
        result,
        vec![
            load(1, 1),
            Instruction::JumpConditional { condition: JumpCondition::Equal, location: Label::new(9) },
            Instruction::Move { source: reg(1), destination: reg(2) },
        ]
    );
}

#[test]
fn call_stack_and_memory_invalidate_their_destination() {
    let call = Instruction::Call { target: String::from("f"), ret_val_reg: reg(1), args: vec![reg(2)] };
    let result = optimized(vec![
        load(1, 1),
        load(2, 2),
        load(3, 3),
        call.clone(),
        Instruction::StackAlloc { dst: reg(2), size: 8 },
        Instruction::LoadPtr {
            destination: reg(3),
            base_ptr: reg(2),
            offset: Operand::Immediate(imm(0)),
            typ: PrimitiveType::Signed64,
        },
        Instruction::Move { source: reg(1), destination: reg(4) },
        Instruction::Move { source: reg(2), destination: reg(5) },
        Instruction::Move { source: reg(3), destination: reg(6) },
    ]);
    assert_eq!(result[3], call);
    assert_eq!(result[6], Instruction::Move { source: reg(1), destination: reg(4) });
    assert_eq!(result[7], Instruction::Move { source: reg(2), destination: reg(5) });
    assert_eq!(result[8], Instruction::Move { source: reg(3), destination: reg(6) });
}

#[test]
fn store_folds_offset_and_forgets_base_pointer() {
    let store = |offset: Operand| Instruction::StorePtr {
        base_ptr: reg(1),
        offset,
        value: reg(3),
        typ: PrimitiveType::Unsigned32,
    };
    let result = optimized(vec![
        load(100, 1),
        load(8, 2),
        load(5, 3),
        store(Operand::Register(reg(2))),
        Instruction::Move { source: reg(1), destination: reg(4) },
        store(Operand::Register(reg(1))),
    ]);
    assert_eq!(result[3], store(Operand::Immediate(imm(8))));
    assert_eq!(result[4], Instruction::Move { source: reg(1), destination: reg(4) });
    assert_eq!(result[5], store(Operand::Register(reg(1))));
}

#[test]
fn second_pass_changes_nothing() {
    let program = vec![
        load(30, 1),
        Instruction::Move { source: reg(1), destination: reg(2) },
        math(MathOperation::Add, 3, Operand::Register(reg(1)), Operand::Register(reg(9))),
        Instruction::Compare { lhs: Operand::Register(reg(3)), rhs: Operand::Register(reg(2)) },
        Instruction::JumpConditional { condition: JumpCondition::Less, location: Label::new(4) },
        math(MathOperation::Subtract, 4, Operand::Register(reg(2)), Operand::Immediate(imm(2))),
        Instruction::Label(Label::new(4)),
        Instruction::StorePtr {
            base_ptr: reg(5),
            offset: Operand::Register(reg(4)),
            value: reg(2),
            typ: PrimitiveType::Signed8,
        },
        Instruction::Return { value: Some(Operand::Register(reg(4))) },
    ];
    let once = optimized(program);
    let twice = optimized(once.clone());
    assert_eq!(once, twice);
}

#[test]
fn rewritten_function_returns_the_same_values() {
    let program = vec![
        load(40, 1),
        Instruction::Move { source: reg(1), destination: reg(2) },
        math(MathOperation::Add, 3, Operand::Register(reg(2)), Operand::Register(reg(10))),
        Instruction::Compare { lhs: Operand::Register(reg(3)), rhs: Operand::Register(reg(1)) },
        Instruction::JumpConditional { condition: JumpCondition::Greater, location: Label::new(1) },
        math(MathOperation::Subtract, 4, Operand::Register(reg(1)), Operand::Immediate(imm(1))),
        Instruction::Return { value: Some(Operand::Register(reg(4))) },
        Instruction::Label(Label::new(1)),
        Instruction::Increment { register: reg(3) },
        Instruction::Return { value: Some(Operand::Register(reg(3))) },
    ];
    let result = optimized(program.clone());
    assert_ne!(result, program);
    for argument in [-100i64, -1, 0, 1, 83, i64::MAX - 40] {
        let expected = returned(&program, &[(10, argument)], 100);
        assert!(expected.is_some());
        assert_eq!(returned(&result, &[(10, argument)], 100), expected);
    }
    assert_eq!(returned(&result, &[(10, 83)], 100), Some(Some(124)));
    assert_eq!(returned(&result, &[(10, -1)], 100), Some(Some(39)));
}

#[test]
fn one_instruction_at_a_time() {
    let mut inliner = RegisterInliner::new();
    assert_eq!(inliner.resolve_operand_to_immediate(&Operand::Register(reg(1))), None);
    assert_eq!(inliner.resolve_operand_to_immediate(&Operand::Immediate(imm(4))), Some(imm(4)));
    let mut instruction = load(6, 1);
    inliner.optimize_instruction(&mut instruction);
    assert_eq!(instruction, load(6, 1));
    assert_eq!(inliner.resolve_operand_to_immediate(&Operand::Register(reg(1))), Some(imm(6)));
    assert_eq!(inliner.try_inline_operand(&Operand::Register(reg(1))), Operand::Immediate(imm(6)));
    assert_eq!(inliner.try_inline_operand(&Operand::Register(reg(2))), Operand::Register(reg(2)));
    let mut jump = Instruction::Jump { location: Label::new(0) };
    inliner.optimize_instruction(&mut jump);
    assert_eq!(inliner.try_inline_operand(&Operand::Register(reg(1))), Operand::Register(reg(1)));
}

#[test]
fn pass_starts_from_nothing_each_time() {
    let mut inliner = RegisterInliner::new();
    let mut first = Function::new(String::from("a"), 0, vec![load(1, 1)]);
    inliner.optimize(&mut first);
    let mut second = Function::new(
        String::from("b"),
        0,
        vec![Instruction::Move { source: reg(1), destination: reg(2) }],
    );
    inliner.optimize(&mut second);
    assert_eq!(second.instructions, vec![Instruction::Move { source: reg(1), destination: reg(2) }]);
}

#[test]
fn unfolded_arithmetic_forgets_its_destination() {
    let result = optimized(vec![
        load(5, 1),
        math(MathOperation::Add, 1, Operand::Register(reg(1)), Operand::Register(reg(2))),
        Instruction::Move { source: reg(1), destination: reg(3) },
    ]);
    assert_eq!(
        result,
        vec![
            load(5, 1),
            math(MathOperation::Add, 1, Operand::Immediate(imm(5)), Operand::Register(reg(2))),
            Instruction::Move { source: reg(1), destination: reg(3) },
        ]
    );
    let program = vec![
        load(7, 1),
        math(MathOperation::Add, 1, Operand::Register(reg(9)), Operand::Immediate(imm(1))),
        Instruction::Move { source: reg(1), destination: reg(2) },
        Instruction::Return { value: Some(Operand::Register(reg(2))) },
    ];
    let result = optimized(program.clone());
    assert_eq!(result, program);
    assert_eq!(returned(&result, &[], 10), Some(Some(1)));
    assert_eq!(returned(&result, &[(9, 41)], 10), Some(Some(42)));
}

#[test]
fn label_keeps_what_is_known_from_above() {
    let result = optimized(vec![
        load(0, 1),
        Instruction::Label(Label::new(1)),
        Instruction::Move { source: reg(1), destination: reg(2) },
    ]);
    assert_eq!(result, vec![load(0, 1), Instruction::Label(Label::new(1)), load(0, 2)]);
}
