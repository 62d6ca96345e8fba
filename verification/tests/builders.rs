use fmm::builders::{InstructionBuilder, ModuleBuilder, ModuleState, TypedExpression};
use fmm::ir::{
    AllocateStack, Block, Expression, Instruction, Return, Store, TerminalInstruction, Variable,
};
use fmm::module::{
    Argument, FunctionDefinitionOptions, Linkage, VariableDefinitionOptions,
};
use fmm::names::NameGenerator;
use fmm::types::{CallingConvention, Function, Pointer, Primitive, Type};

fn integer64() -> Type {
    Type::Primitive(Primitive::Integer64)
}

fn variable(name: &str) -> Expression {
    Expression::Variable(Variable::new(name.to_string()))
}

#[test]
fn name_generator_counts_from_zero() {
    let mut generator = NameGenerator::new("x_c_".to_string());
    assert_eq!(generator.generate(), "x_c_0".to_string());
    assert_eq!(generator.generate(), "x_c_1".to_string());
}

#[test]
fn name_generator_writes_multiple_digit_counters() {
    let mut generator = NameGenerator::new("t".to_string());
    let mut name = generator.generate();
    for _ in 0..12 {
        name = generator.generate();
    }
    assert_eq!(name, "t12".to_string());
}

#[test]
fn instruction_builder_accumulates_in_order() {
    let mut builder = InstructionBuilder::new(NameGenerator::new("v_c_".to_string()));
    let pointer = builder.allocate_stack(integer64());
    assert_eq!(pointer.expression, variable("v_c_0"));
    assert_eq!(pointer.type_, Type::Pointer(Pointer::new(integer64())));
    let value = TypedExpression::new(variable("v"), integer64());
    builder.store(value, pointer.clone());
    assert_eq!(
        builder.into_instructions(),
        vec![
            Instruction::AllocateStack(AllocateStack::new(integer64(), "v_c_0".to_string())),
            Instruction::Store(Store::new(integer64(), variable("v"), variable("v_c_0"))),
        ]
    );
}

#[test]
fn module_builder_assembles_a_module() {
    let mut builder = ModuleBuilder::new();
    let declared = builder.declare_variable("v".to_string(), integer64());
    assert_eq!(declared.expression, variable("v"));
    assert_eq!(declared.type_, Type::Pointer(Pointer::new(integer64())));
    let function_type = Function::new(vec![], integer64(), CallingConvention::Source);
    let declared_function = builder.declare_function("g".to_string(), function_type.clone());
    assert_eq!(declared_function.type_, Type::Function(function_type));
    let body = Block::new(
        vec![],
        TerminalInstruction::Return(Return::new(integer64(), variable("a"))),
    );
    builder.define_function(
        "f".to_string(),
        vec![Argument::new("a".to_string(), integer64())],
        integer64(),
        body,
        FunctionDefinitionOptions::new(),
    );
    let module = builder.into_module();
    assert_eq!(module.variable_declarations.len(), 1);
    assert_eq!(module.function_declarations.len(), 1);
    assert_eq!(module.variable_definitions.len(), 0);
    assert_eq!(module.function_definitions.len(), 1);
    assert_eq!(module.function_definitions[0].name, "f".to_string());
    assert_eq!(
        module.function_definitions[0].arguments,
        vec![Argument::new("a".to_string(), integer64())]
    );
}

#[test]
fn module_builder_names_anonymous_variables_apart() {
    let mut builder = ModuleBuilder::new();
    let first = builder.define_anonymous_variable(
        TypedExpression::new(variable("one"), integer64()),
        VariableDefinitionOptions::new(),
    );
    let second = builder.define_anonymous_variable(
        TypedExpression::new(variable("two"), integer64()),
        VariableDefinitionOptions::new(),
    );
    assert_eq!(first.expression, variable("_fmm_0"));
    assert_eq!(second.expression, variable("_fmm_1"));
    let module = builder.into_module();
    assert_eq!(module.variable_definitions[0].options.linkage, Linkage::Internal);
}

#[test]
fn module_builder_prefixes_anonymous_functions_with_their_origin() {
    let mut builder = ModuleBuilder::new();
    let body = Block::new(
        vec![],
        TerminalInstruction::Return(Return::new(integer64(), variable("a"))),
    );
    let function = builder.define_anonymous_function(
        "origin".to_string(),
        vec![],
        integer64(),
        body,
        FunctionDefinitionOptions::new(),
    );
    assert_eq!(function.expression, variable("_fmm_0_origin"));
    let module = builder.into_module();
    assert_eq!(module.function_definitions[0].name, "_fmm_0_origin".to_string());
    assert_eq!(module.function_definitions[0].options.linkage, Linkage::Internal);
}

#[test]
fn module_state_reads_back_while_building() {
    let mut state = ModuleState::new();
    state.declare_variable("v".to_string(), integer64());
    let early = state.as_module();
    assert_eq!(early.variable_declarations.len(), 1);
    assert_eq!(early.function_definitions.len(), 0);
    let defined = state.define_variable(
        "w".to_string(),
        TypedExpression::new(variable("init"), integer64()),
        true,
        false,
    );
    assert_eq!(defined.type_, Type::Pointer(Pointer::new(integer64())));
    let module = state.as_module();
    assert_eq!(module.variable_declarations.len(), 1);
    assert_eq!(module.variable_definitions.len(), 1);
    assert_eq!(module.variable_definitions[0].options.mutable, true);
    assert_eq!(module.variable_definitions[0].options.linkage, Linkage::Internal);
}

#[test]
fn module_state_defines_anonymous_functions_internally() {
    let mut state = ModuleState::new();
    let body = Block::new(
        vec![],
        TerminalInstruction::Return(Return::new(integer64(), variable("a"))),
    );
    let function = state.define_anonymous_function(
        vec![Argument::new("a".to_string(), integer64())],
        body,
        integer64(),
    );
    assert_eq!(function.expression, variable("_fmm_0"));
    assert_eq!(
        function.type_,
        Type::Function(Function::new(
            vec![integer64()],
            integer64(),
            CallingConvention::Source,
        ))
    );
    let module = state.as_module();
    assert_eq!(module.function_definitions.len(), 1);
    assert_eq!(module.function_definitions[0].options.linkage, Linkage::Internal);
    assert_eq!(
        module.function_definitions[0].options.calling_convention,
        CallingConvention::Source
    );
}
