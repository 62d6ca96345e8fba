use fmm::c_calling_convention::{Context, is_memory_class, transform_function};
use fmm::ir::{
    AllocateStack, Block, Call, DeconstructRecord, Expression, Instruction, Return, Store,
    TerminalInstruction, Undefined, Variable,
};
use fmm::types::{CallingConvention, Function, Pointer, Primitive, Record, Type, Union, void_type};

fn integer64() -> Type {
    Type::Primitive(Primitive::Integer64)
}

fn variable(name: &str) -> Expression {
    Expression::Variable(Variable::new(name.to_string()))
}

#[test]
fn instruction_name_returns_the_binding_name() {
    let allocate = Instruction::AllocateStack(AllocateStack::new(integer64(), "a".to_string()));
    assert_eq!(allocate.name(), Some("a"));
}

#[test]
fn instruction_name_is_absent_for_stores() {
    let store = Instruction::Store(Store::new(
        integer64(),
        variable("v"),
        variable("p"),
    ));
    assert_eq!(store.name(), None);
}

#[test]
fn allocate_stack_yields_a_pointer_to_the_allocated_type() {
    let allocate = Instruction::AllocateStack(AllocateStack::new(integer64(), "a".to_string()));
    assert_eq!(
        allocate.result_type(),
        Some(Type::Pointer(Pointer::new(integer64())))
    );
}

#[test]
fn call_yields_the_callee_result_type() {
    let call = Instruction::Call(Call::new(
        Function::new(vec![], integer64(), CallingConvention::Source),
        variable("g"),
        vec![],
        "x".to_string(),
    ));
    assert_eq!(call.result_type(), Some(integer64()));
}

#[test]
fn deconstruct_record_yields_the_indexed_element_type() {
    let record = Record::new(vec![
        Type::Primitive(Primitive::Bool),
        integer64(),
    ]);
    let deconstruct = Instruction::DeconstructRecord(DeconstructRecord::new(
        record,
        variable("r"),
        1,
        "y".to_string(),
    ));
    assert_eq!(deconstruct.result_type(), Some(integer64()));
}

#[test]
fn store_has_no_result_type() {
    let store = Instruction::Store(Store::new(integer64(), variable("v"), variable("p")));
    assert_eq!(store.result_type(), None);
}

#[test]
fn block_exposes_its_instructions_and_terminal() {
    let instructions = vec![Instruction::AllocateStack(AllocateStack::new(
        integer64(),
        "a".to_string(),
    ))];
    let terminal = TerminalInstruction::Return(Return::new(integer64(), variable("a")));
    let block = Block::new(instructions.clone(), terminal.clone());
    assert_eq!(block.instructions(), &instructions);
    assert_eq!(block.terminal_instruction(), &terminal);
}

#[test]
fn small_aggregates_pass_by_value() {
    let context = Context::new(8);
    let two_words = Type::Record(Record::new(vec![integer64(), integer64()]));
    assert!(!is_memory_class(&context, &two_words));
}

#[test]
fn large_records_are_memory_class() {
    let context = Context::new(8);
    let three_words = Type::Record(Record::new(vec![
        integer64(),
        integer64(),
        integer64(),
    ]));
    assert!(is_memory_class(&context, &three_words));
}

#[test]
fn unions_are_sized_by_their_largest_member() {
    let context = Context::new(8);
    let wide_member = Type::Record(Record::new(vec![
        integer64(),
        integer64(),
        integer64(),
    ]));
    let union_ = Type::Union(Union::new(vec![integer64(), wide_member]));
    assert!(is_memory_class(&context, &union_));
    let narrow = Type::Union(Union::new(vec![integer64(), Type::Primitive(Primitive::Bool)]));
    assert!(!is_memory_class(&context, &narrow));
}

#[test]
fn primitives_and_pointers_pass_by_value() {
    let context = Context::new(8);
    assert!(!is_memory_class(&context, &integer64()));
    let huge = Type::Record(Record::new(vec![integer64(); 100]));
    assert!(!is_memory_class(&context, &Type::Pointer(Pointer::new(huge))));
}

#[test]
fn transform_function_rewrites_memory_class_types() {
    let context = Context::new(8);
    let record = Type::Record(Record::new(vec![integer64(), integer64(), integer64()]));
    let original = Function::new(
        vec![record.clone(), integer64()],
        record.clone(),
        CallingConvention::Target,
    );
    let expected = Function::new(
        vec![
            Type::Pointer(Pointer::new(record.clone())),
            Type::Pointer(Pointer::new(record.clone())),
            integer64(),
        ],
        Type::Record(void_type()),
        CallingConvention::Target,
    );
    assert_eq!(transform_function(&context, &original), expected);
}

#[test]
fn undefined_values_keep_their_type() {
    let undefined = Undefined::new(integer64());
    assert_eq!(undefined.type_, integer64());
}
