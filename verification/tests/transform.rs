use fmm::c_calling_convention::{CCallingConventionError, Context, transform_function_definition};
use fmm::ir::{
    AllocateStack, Block, Call, DeconstructRecord, Expression, If, Instruction, Load, Primitive,
    Return, Store, TerminalInstruction, Undefined, Variable, void_value,
};
use fmm::module::{FunctionDefinition, FunctionDefinitionOptions};
use fmm::types::{CallingConvention, Function, Pointer, Record, Type, void_type};

const WORD_BYTES: usize = 8;

fn integer64() -> Type {
    Type::Primitive(fmm::types::Primitive::Integer64)
}

fn record_type() -> Record {
    Record::new(vec![integer64(), integer64(), integer64()])
}

fn variable(name: &str) -> Expression {
    Expression::Variable(Variable::new(name.to_string()))
}

fn undefined(type_: Type) -> Expression {
    Expression::Undefined(Undefined::new(type_))
}

fn target_options() -> FunctionDefinitionOptions {
    FunctionDefinitionOptions::new().set_calling_convention(CallingConvention::Target)
}

#[test]
fn transform_compatible() {
    let definition = FunctionDefinition::new(
        "f".to_string(),
        vec![],
        integer64(),
        Block::new(
            vec![Instruction::Call(Call::new(
                Function::new(
                    vec![integer64()],
                    integer64(),
                    CallingConvention::Target,
                ),
                variable("g"),
                vec![undefined(integer64())],
                "x".to_string(),
            ))],
            TerminalInstruction::Return(Return::new(integer64(), variable("x"))),
        ),
        target_options(),
    );

    assert_eq!(
        transform_function_definition(&Context::new(WORD_BYTES), &definition),
        Ok(definition)
    );
}

#[test]
fn transform_argument() {
    assert_eq!(
        transform_function_definition(
            &Context::new(WORD_BYTES),
            &FunctionDefinition::new(
                "f".to_string(),
                vec![],
                integer64(),
                Block::new(
                    vec![Instruction::Call(Call::new(
                        Function::new(
                            vec![Type::Record(record_type())],
                            integer64(),
                            CallingConvention::Target,
                        ),
                        variable("g"),
                        vec![undefined(Type::Record(record_type()))],
                        "x".to_string(),
                    ))],
                    TerminalInstruction::Return(Return::new(integer64(), variable("x"))),
                ),
                target_options(),
            )
        ),
        Ok(FunctionDefinition::new(
            "f".to_string(),
            vec![],
            integer64(),
            Block::new(
                vec![
                    Instruction::AllocateStack(AllocateStack::new(
                        Type::Record(record_type()),
                        "x_c_0".to_string(),
                    )),
                    Instruction::Store(Store::new(
                        Type::Record(record_type()),
                        undefined(Type::Record(record_type())),
                        variable("x_c_0"),
                    )),
                    Instruction::Call(Call::new(
                        Function::new(
                            vec![Type::Pointer(Pointer::new(Type::Record(record_type())))],
                            integer64(),
                            CallingConvention::Target,
                        ),
                        variable("g"),
                        vec![variable("x_c_0")],
                        "x".to_string(),
                    )),
                ],
                TerminalInstruction::Return(Return::new(integer64(), variable("x"))),
            ),
            target_options(),
        ))
    );
}

#[test]
fn transform_result() {
    assert_eq!(
        transform_function_definition(
            &Context::new(WORD_BYTES),
            &FunctionDefinition::new(
                "f".to_string(),
                vec![],
                integer64(),
                Block::new(
                    vec![
                        Instruction::Call(Call::new(
                            Function::new(
                                vec![],
                                Type::Record(record_type()),
                                CallingConvention::Target,
                            ),
                            variable("f"),
                            vec![],
                            "x".to_string(),
                        )),
                        Instruction::DeconstructRecord(DeconstructRecord::new(
                            record_type(),
                            variable("x"),
                            0,
                            "y".to_string(),
                        )),
                    ],
                    TerminalInstruction::Return(Return::new(integer64(), variable("y"))),
                ),
                target_options(),
            )
        ),
        Ok(FunctionDefinition::new(
            "f".to_string(),
            vec![],
            integer64(),
            Block::new(
                vec![
                    Instruction::AllocateStack(AllocateStack::new(
                        Type::Record(record_type()),
                        "x_c_0".to_string(),
                    )),
                    Instruction::Call(Call::new(
                        Function::new(
                            vec![Type::Pointer(Pointer::new(Type::Record(record_type())))],
                            Type::Record(void_type()),
                            CallingConvention::Target,
                        ),
                        variable("f"),
                        vec![variable("x_c_0")],
                        "x_c_1".to_string(),
                    )),
                    Instruction::Load(Load::new(
                        Type::Record(record_type()),
                        variable("x_c_0"),
                        "x".to_string(),
                    )),
                    Instruction::DeconstructRecord(DeconstructRecord::new(
                        record_type(),
                        variable("x"),
                        0,
                        "y".to_string(),
                    )),
                ],
                TerminalInstruction::Return(Return::new(integer64(), variable("y"))),
            ),
            target_options(),
        ))
    );
}

#[test]
fn transform_result_with_argument() {
    let pointer_integer = Type::Primitive(fmm::types::Primitive::PointerInteger);
    assert_eq!(
        transform_function_definition(
            &Context::new(WORD_BYTES),
            &FunctionDefinition::new(
                "f".to_string(),
                vec![],
                integer64(),
                Block::new(
                    vec![
                        Instruction::Call(Call::new(
                            Function::new(
                                vec![pointer_integer.clone()],
                                Type::Record(record_type()),
                                CallingConvention::Target,
                            ),
                            variable("f"),
                            vec![Expression::Primitive(Primitive::PointerInteger(42))],
                            "x".to_string(),
                        )),
                        Instruction::DeconstructRecord(DeconstructRecord::new(
                            record_type(),
                            variable("x"),
                            0,
                            "y".to_string(),
                        )),
                    ],
                    TerminalInstruction::Return(Return::new(integer64(), variable("y"))),
                ),
                target_options(),
            )
        ),
        Ok(FunctionDefinition::new(
            "f".to_string(),
            vec![],
            integer64(),
            Block::new(
                vec![
                    Instruction::AllocateStack(AllocateStack::new(
                        Type::Record(record_type()),
                        "x_c_0".to_string(),
                    )),
                    Instruction::Call(Call::new(
                        Function::new(
                            vec![
                                Type::Pointer(Pointer::new(Type::Record(record_type()))),
                                pointer_integer.clone(),
                            ],
                            Type::Record(void_type()),
                            CallingConvention::Target,
                        ),
                        variable("f"),
                        vec![
                            variable("x_c_0"),
                            Expression::Primitive(Primitive::PointerInteger(42)),
                        ],
                        "x_c_1".to_string(),
                    )),
                    Instruction::Load(Load::new(
                        Type::Record(record_type()),
                        variable("x_c_0"),
                        "x".to_string(),
                    )),
                    Instruction::DeconstructRecord(DeconstructRecord::new(
                        record_type(),
                        variable("x"),
                        0,
                        "y".to_string(),
                    )),
                ],
                TerminalInstruction::Return(Return::new(integer64(), variable("y"))),
            ),
            target_options(),
        ))
    );
}

#[test]
fn transform_in_nested_block() {
    let lowered_branch = |name: &str, slot: &str| {
        Block::new(
            vec![
                Instruction::AllocateStack(AllocateStack::new(
                    Type::Record(record_type()),
                    slot.to_string(),
                )),
                Instruction::Store(Store::new(
                    Type::Record(record_type()),
                    undefined(Type::Record(record_type())),
                    variable(slot),
                )),
                Instruction::Call(Call::new(
                    Function::new(
                        vec![Type::Pointer(Pointer::new(Type::Record(record_type())))],
                        Type::Record(void_type()),
                        CallingConvention::Target,
                    ),
                    variable("g"),
                    vec![variable(slot)],
                    name.to_string(),
                )),
            ],
            TerminalInstruction::Return(Return::new(integer64(), variable(name))),
        )
    };
    let original_branch = |name: &str| {
        Block::new(
            vec![Instruction::Call(Call::new(
                Function::new(
                    vec![Type::Record(record_type())],
                    Type::Record(void_type()),
                    CallingConvention::Target,
                ),
                variable("g"),
                vec![undefined(Type::Record(record_type()))],
                name.to_string(),
            ))],
            TerminalInstruction::Return(Return::new(integer64(), variable(name))),
        )
    };

    assert_eq!(
        transform_function_definition(
            &Context::new(WORD_BYTES),
            &FunctionDefinition::new(
                "f".to_string(),
                vec![],
                Type::Record(void_type()),
                Block::new(
                    vec![Instruction::If(If::new(
                        Type::Record(void_type()),
                        Expression::Primitive(Primitive::Boolean(true)),
                        original_branch("x"),
                        original_branch("y"),
                        "".to_string(),
                    ))],
                    TerminalInstruction::Return(Return::new(
                        Type::Record(void_type()),
                        void_value(),
                    )),
                ),
                target_options(),
            )
        ),
        Ok(FunctionDefinition::new(
            "f".to_string(),
            vec![],
            Type::Record(void_type()),
            Block::new(
                vec![Instruction::If(If::new(
                    Type::Record(void_type()),
                    Expression::Primitive(Primitive::Boolean(true)),
                    lowered_branch("x", "x_c_0"),
                    lowered_branch("y", "y_c_0"),
                    "".to_string(),
                ))],
                TerminalInstruction::Return(Return::new(
                    Type::Record(void_type()),
                    void_value(),
                )),
            ),
            target_options(),
        ))
    );
}

#[test]
fn transform_reports_argument_count_mismatch() {
    let definition = FunctionDefinition::new(
        "f".to_string(),
        vec![],
        integer64(),
        Block::new(
            vec![Instruction::Call(Call::new(
                Function::new(
                    vec![integer64(), integer64()],
                    integer64(),
                    CallingConvention::Target,
                ),
                variable("g"),
                vec![undefined(integer64())],
                "x".to_string(),
            ))],
            TerminalInstruction::Return(Return::new(integer64(), variable("x"))),
        ),
        target_options(),
    );

    assert_eq!(
        transform_function_definition(&Context::new(WORD_BYTES), &definition),
        Err(CCallingConventionError::ArgumentCountMismatch)
    );
}

#[test]
fn transform_keeps_source_convention_calls() {
    let definition = FunctionDefinition::new(
        "f".to_string(),
        vec![],
        integer64(),
        Block::new(
            vec![Instruction::Call(Call::new(
                Function::new(
                    vec![Type::Record(record_type())],
                    Type::Record(record_type()),
                    CallingConvention::Source,
                ),
                variable("g"),
                vec![undefined(Type::Record(record_type()))],
                "x".to_string(),
            ))],
            TerminalInstruction::Return(Return::new(integer64(), variable("x"))),
        ),
        FunctionDefinitionOptions::new(),
    );

    assert_eq!(
        transform_function_definition(&Context::new(WORD_BYTES), &definition),
        Ok(definition)
    );
}

#[test]
fn transform_numbers_many_temporaries_in_order() {
    let argument_count = 11;
    let argument_types = vec![Type::Record(record_type()); argument_count];
    let arguments = vec![undefined(Type::Record(record_type())); argument_count];
    let definition = FunctionDefinition::new(
        "f".to_string(),
        vec![],
        integer64(),
        Block::new(
            vec![Instruction::Call(Call::new(
                Function::new(argument_types, integer64(), CallingConvention::Target),
                variable("g"),
                arguments,
                "x".to_string(),
            ))],
            TerminalInstruction::Return(Return::new(integer64(), variable("x"))),
        ),
        target_options(),
    );

    let lowered = transform_function_definition(&Context::new(WORD_BYTES), &definition).unwrap();
    let instructions = &lowered.body.instructions;
    assert_eq!(instructions.len(), 2 * argument_count + 1);
    for index in 0..argument_count {
        let slot = format!("x_c_{}", index);
        assert_eq!(
            instructions[2 * index],
            Instruction::AllocateStack(AllocateStack::new(
                Type::Record(record_type()),
                slot.clone(),
            ))
        );
        assert_eq!(
            instructions[2 * index + 1],
            Instruction::Store(Store::new(
                Type::Record(record_type()),
                undefined(Type::Record(record_type())),
                variable(&slot),
            ))
        );
    }
    match &instructions[2 * argument_count] {
        Instruction::Call(call) => {
            assert_eq!(call.name, "x".to_string());
            assert_eq!(call.arguments[10], variable("x_c_10"));
        }
        other => panic!("expected a call, found {:?}", other),
    }
}
