//! The instruction set and block model: the closed set of IR operations,
//! organized into blocks that end in exactly one terminal instruction.
//! Branching is structured: an `If` owns its two branch blocks; blocks never
//! reference each other by label. Every value has a mathematical model, and
//! the contracts speak of those models.

use vstd::prelude::*;
use crate::types::{FunctionTypeModel, Type, TypeModel};

verus! {

broadcast use
    vstd::std_specs::vec::group_vec_axioms,
    crate::types::lemma_model_function,
    crate::types::lemma_model_pointer,
    crate::types::lemma_model_record,
    crate::types::lemma_model_union;

/// A primitive IR value.
#[derive(Clone, Copy, Debug, PartialEq, Eq, Structural)]
pub enum Primitive {
    Boolean(bool),
    Integer8(u8),
    Integer32(u32),
    Integer64(u64),
    PointerInteger(i64),
}

/// A reference to a named value.
#[derive(Debug, PartialEq)]
pub struct Variable {
    pub name: String,
}

/// An undefined value of a given type.
#[derive(Debug, PartialEq)]
pub struct Undefined {
    pub type_: Type,
}

/// The closed set of operand expressions instructions carry.
#[derive(Debug, PartialEq)]
pub enum Expression {
    Primitive(Primitive),
    Undefined(Undefined),
    Variable(Variable),
}

/// The mathematical model of an `Expression`.
#[verifier::ext_equal]
pub enum ExpressionModel {
    Primitive(Primitive),
    Undefined(TypeModel),
    Variable(Seq<char>),
}

impl Variable {
    pub fn new(name: String) -> (variable: Self)
        ensures
            variable.name@ == name@,
    {
        Self { name }
    }
}

impl Undefined {
    pub fn new(type_: Type) -> (undefined: Self)
        ensures
            undefined.type_.model() == type_.model(),
    {
        Self { type_ }
    }
}

impl Expression {
    /// The model of this expression.
    pub open spec fn model(self) -> ExpressionModel {
        match self {
            Expression::Primitive(primitive) => ExpressionModel::Primitive(primitive),
            Expression::Undefined(undefined) => ExpressionModel::Undefined(undefined.type_.model()),
            Expression::Variable(variable) => ExpressionModel::Variable(variable.name@),
        }
    }
}

/// The models of a sequence of expressions, elementwise.
pub open spec fn expression_models(expressions: Seq<Expression>) -> Seq<ExpressionModel> {
    Seq::new(expressions.len(), |i: int| expressions[i].model())
}

impl Clone for Expression {
    fn clone(&self) -> (result: Self)
        ensures
            result.model() == self.model(),
    {
        match self {
            Expression::Primitive(primitive) => Expression::Primitive(*primitive),
            Expression::Undefined(undefined) => Expression::Undefined(Undefined {
                type_: undefined.type_.clone(),
            }),
            Expression::Variable(variable) => Expression::Variable(Variable {
                name: variable.name.clone(),
            }),
        }
    }
}

/// Clones every expression in a vector, preserving the models elementwise.
pub fn clone_expressions(expressions: &Vec<Expression>) -> (result: Vec<Expression>)
    ensures
        expression_models(result@) == expression_models(expressions@),
{
    let mut result: Vec<Expression> = Vec::new();
    let mut i: usize = 0;
    while i < expressions.len()
        invariant
            i <= expressions@.len(),
            result@.len() == i,
            expression_models(result@) =~= expression_models(expressions@).take(i as int),
        decreases expressions@.len() - i,
    {
        result.push(expressions[i].clone());
        proof {
            assert(expression_models(result@) =~= expression_models(expressions@).take(i + 1));
        }
        i = i + 1;
    }
    proof {
        assert(expression_models(expressions@).take(expressions@.len() as int) =~= expression_models(
            expressions@,
        ));
    }
    result
}

/// The ordering constraint on an atomic memory operation.
#[derive(Clone, Copy, Debug, PartialEq, Eq, Structural)]
pub enum AtomicOrdering {
    Relaxed,
    Acquire,
    Release,
    AcquireRelease,
    SequentiallyConsistent,
}

/// The operator of an atomic read-modify-write operation.
#[derive(Clone, Copy, Debug, PartialEq, Eq, Structural)]
pub enum AtomicOperator {
    Add,
    Subtract,
}

/// Heap allocation of a value of a given type.
#[derive(Debug, PartialEq)]
pub struct AllocateHeap {
    pub type_: Type,
    pub name: String,
}

/// Stack allocation of a value of a given type.
#[derive(Debug, PartialEq)]
pub struct AllocateStack {
    pub type_: Type,
    pub name: String,
}

/// An atomic load through a pointer.
#[derive(Debug, PartialEq)]
pub struct AtomicLoad {
    pub type_: Type,
    pub pointer: Expression,
    pub ordering: AtomicOrdering,
    pub name: String,
}

/// An atomic read-modify-write on a primitive value.
#[derive(Debug, PartialEq)]
pub struct AtomicOperation {
    pub operator: AtomicOperator,
    pub type_: crate::types::Primitive,
    pub pointer: Expression,
    pub value: Expression,
    pub ordering: AtomicOrdering,
    pub name: String,
}

/// An atomic store through a pointer. Yields no value.
#[derive(Debug, PartialEq)]
pub struct AtomicStore {
    pub type_: Type,
    pub value: Expression,
    pub pointer: Expression,
    pub ordering: AtomicOrdering,
}

/// A function call against a declared function type.
#[derive(Debug, PartialEq)]
pub struct Call {
    pub type_: crate::types::Function,
    pub function: Expression,
    pub arguments: Vec<Expression>,
    pub name: String,
}

/// An atomic compare-and-swap. Yields whether the swap succeeded.
#[derive(Debug, PartialEq)]
pub struct CompareAndSwap {
    pub type_: Type,
    pub pointer: Expression,
    pub old_value: Expression,
    pub new_value: Expression,
    pub success_ordering: AtomicOrdering,
    pub failure_ordering: AtomicOrdering,
    pub name: String,
}

/// Typed extraction of one element from a record value.
#[derive(Debug, PartialEq)]
pub struct DeconstructRecord {
    pub type_: crate::types::Record,
    pub record: Expression,
    pub element_index: usize,
    pub name: String,
}

/// Typed extraction of one member from a union value.
#[derive(Debug, PartialEq)]
pub struct DeconstructUnion {
    pub type_: crate::types::Union,
    pub union_: Expression,
    pub member_index: usize,
    pub name: String,
}

/// Frees a heap allocation. Yields no value.
#[derive(Debug, PartialEq)]
pub struct FreeHeap {
    pub pointer: Expression,
}

/// A structured conditional: owns its two branch blocks and yields a single
/// merged result under one name.
#[derive(Debug, PartialEq)]
pub struct If {
    pub type_: Type,
    pub condition: Expression,
    pub then_: Block,
    pub else_: Block,
    pub name: String,
}

/// A load through a pointer.
#[derive(Debug, PartialEq)]
pub struct Load {
    pub type_: Type,
    pub pointer: Expression,
    pub name: String,
}

/// A generic pass-through: rebinds a value under a new name and type.
#[derive(Debug, PartialEq)]
pub struct PassThrough {
    pub type_: Type,
    pub expression: Expression,
    pub name: String,
}

/// Pointer arithmetic: offsets a pointer by a number of elements.
#[derive(Debug, PartialEq)]
pub struct PointerAddress {
    pub type_: crate::types::Pointer,
    pub pointer: Expression,
    pub offset: Expression,
    pub name: String,
}

/// Heap reallocation of an untyped allocation to a new size.
#[derive(Debug, PartialEq)]
pub struct ReallocateHeap {
    pub pointer: Expression,
    pub size: Expression,
    pub name: String,
}

/// The address of one element inside a record in memory.
#[derive(Debug, PartialEq)]
pub struct RecordAddress {
    pub type_: crate::types::Record,
    pub pointer: Expression,
    pub element_index: usize,
    pub name: String,
}

/// A store through a pointer. Yields no value.
#[derive(Debug, PartialEq)]
pub struct Store {
    pub type_: Type,
    pub value: Expression,
    pub pointer: Expression,
}

/// The address of one member inside a union in memory.
#[derive(Debug, PartialEq)]
pub struct UnionAddress {
    pub type_: crate::types::Union,
    pub pointer: Expression,
    pub member_index: usize,
    pub name: String,
}

/// The closed, tagged variant of IR instructions.
#[derive(Debug, PartialEq)]
pub enum Instruction {
    AllocateHeap(AllocateHeap),
    AllocateStack(AllocateStack),
    AtomicLoad(AtomicLoad),
    AtomicOperation(AtomicOperation),
    AtomicStore(AtomicStore),
    Call(Call),
    CompareAndSwap(CompareAndSwap),
    DeconstructRecord(DeconstructRecord),
    DeconstructUnion(DeconstructUnion),
    FreeHeap(FreeHeap),
    If(If),
    Load(Load),
    PassThrough(PassThrough),
    PointerAddress(PointerAddress),
    ReallocateHeap(ReallocateHeap),
    RecordAddress(RecordAddress),
    Store(Store),
    UnionAddress(UnionAddress),
}

/// A terminal yielding a value to the enclosing `If`.
#[derive(Debug, PartialEq)]
pub struct Branch {
    pub type_: Type,
    pub expression: Expression,
}

/// A terminal returning a value from the function.
#[derive(Debug, PartialEq)]
pub struct Return {
    pub type_: Type,
    pub expression: Expression,
}

/// The single instruction ending a block.
#[derive(Debug, PartialEq)]
pub enum TerminalInstruction {
    Branch(Branch),
    Return(Return),
    Unreachable,
}

/// An ordered sequence of instructions followed by exactly one terminal
/// instruction.
#[derive(Debug, PartialEq)]
pub struct Block {
    pub instructions: Vec<Instruction>,
    pub terminal_instruction: TerminalInstruction,
}

/// The mathematical model of an `Instruction`.
#[verifier::ext_equal]
pub enum InstructionModel {
    AllocateHeap { type_: TypeModel, name: Seq<char> },
    AllocateStack { type_: TypeModel, name: Seq<char> },
    AtomicLoad { type_: TypeModel, pointer: ExpressionModel, ordering: AtomicOrdering, name: Seq<char> },
    AtomicOperation {
        operator: AtomicOperator,
        type_: crate::types::Primitive,
        pointer: ExpressionModel,
        value: ExpressionModel,
        ordering: AtomicOrdering,
        name: Seq<char>,
    },
    AtomicStore { type_: TypeModel, value: ExpressionModel, pointer: ExpressionModel, ordering: AtomicOrdering },
    Call { type_: FunctionTypeModel, function: ExpressionModel, arguments: Seq<ExpressionModel>, name: Seq<char> },
    CompareAndSwap {
        type_: TypeModel,
        pointer: ExpressionModel,
        old_value: ExpressionModel,
        new_value: ExpressionModel,
        success_ordering: AtomicOrdering,
        failure_ordering: AtomicOrdering,
        name: Seq<char>,
    },
    DeconstructRecord { type_: Seq<TypeModel>, record: ExpressionModel, element_index: int, name: Seq<char> },
    DeconstructUnion { type_: Seq<TypeModel>, union_: ExpressionModel, member_index: int, name: Seq<char> },
    FreeHeap { pointer: ExpressionModel },
    If { type_: TypeModel, condition: ExpressionModel, then_: BlockModel, else_: BlockModel, name: Seq<char> },
    Load { type_: TypeModel, pointer: ExpressionModel, name: Seq<char> },
    PassThrough { type_: TypeModel, expression: ExpressionModel, name: Seq<char> },
    PointerAddress { type_: TypeModel, pointer: ExpressionModel, offset: ExpressionModel, name: Seq<char> },
    ReallocateHeap { pointer: ExpressionModel, size: ExpressionModel, name: Seq<char> },
    RecordAddress { type_: Seq<TypeModel>, pointer: ExpressionModel, element_index: int, name: Seq<char> },
    Store { type_: TypeModel, value: ExpressionModel, pointer: ExpressionModel },
    UnionAddress { type_: Seq<TypeModel>, pointer: ExpressionModel, member_index: int, name: Seq<char> },
}

/// The mathematical model of a `TerminalInstruction`.
#[verifier::ext_equal]
pub enum TerminalInstructionModel {
    Branch { type_: TypeModel, expression: ExpressionModel },
    Return { type_: TypeModel, expression: ExpressionModel },
    Unreachable,
}

/// The mathematical model of a `Block`.
#[verifier::ext_equal]
pub struct BlockModel {
    pub instructions: Seq<InstructionModel>,
    pub terminal_instruction: TerminalInstructionModel,
}

impl TerminalInstruction {
    /// The model of this terminal instruction.
    pub open spec fn model(self) -> TerminalInstructionModel {
        match self {
            TerminalInstruction::Branch(branch) => TerminalInstructionModel::Branch {
                type_: branch.type_.model(),
                expression: branch.expression.model(),
            },
            TerminalInstruction::Return(return_) => TerminalInstructionModel::Return {
                type_: return_.type_.model(),
                expression: return_.expression.model(),
            },
            TerminalInstruction::Unreachable => TerminalInstructionModel::Unreachable,
        }
    }
}

impl Instruction {
    /// The model of this instruction.
    pub open spec fn model(self) -> InstructionModel
        decreases self,
    {
        match self {
            Instruction::AllocateHeap(allocate) => InstructionModel::AllocateHeap {
                type_: allocate.type_.model(),
                name: allocate.name@,
            },
            Instruction::AllocateStack(allocate) => InstructionModel::AllocateStack {
                type_: allocate.type_.model(),
                name: allocate.name@,
            },
            Instruction::AtomicLoad(load) => InstructionModel::AtomicLoad {
                type_: load.type_.model(),
                pointer: load.pointer.model(),
                ordering: load.ordering,
                name: load.name@,
            },
            Instruction::AtomicOperation(operation) => InstructionModel::AtomicOperation {
                operator: operation.operator,
                type_: operation.type_,
                pointer: operation.pointer.model(),
                value: operation.value.model(),
                ordering: operation.ordering,
                name: operation.name@,
            },
            Instruction::AtomicStore(store) => InstructionModel::AtomicStore {
                type_: store.type_.model(),
                value: store.value.model(),
                pointer: store.pointer.model(),
                ordering: store.ordering,
            },
            Instruction::Call(call) => InstructionModel::Call {
                type_: call.type_.model(),
                function: call.function.model(),
                arguments: expression_models(call.arguments@),
                name: call.name@,
            },
            Instruction::CompareAndSwap(swap) => InstructionModel::CompareAndSwap {
                type_: swap.type_.model(),
                pointer: swap.pointer.model(),
                old_value: swap.old_value.model(),
                new_value: swap.new_value.model(),
                success_ordering: swap.success_ordering,
                failure_ordering: swap.failure_ordering,
                name: swap.name@,
            },
            Instruction::DeconstructRecord(deconstruct) => InstructionModel::DeconstructRecord {
                type_: deconstruct.type_.model(),
                record: deconstruct.record.model(),
                element_index: deconstruct.element_index as int,
                name: deconstruct.name@,
            },
            Instruction::DeconstructUnion(deconstruct) => InstructionModel::DeconstructUnion {
                type_: deconstruct.type_.model(),
                union_: deconstruct.union_.model(),
                member_index: deconstruct.member_index as int,
                name: deconstruct.name@,
            },
            Instruction::FreeHeap(free) => InstructionModel::FreeHeap { pointer: free.pointer.model() },
            Instruction::If(if_) => InstructionModel::If {
                type_: if_.type_.model(),
                condition: if_.condition.model(),
                then_: if_.then_.model(),
                else_: if_.else_.model(),
                name: if_.name@,
            },
            Instruction::Load(load) => InstructionModel::Load {
                type_: load.type_.model(),
                pointer: load.pointer.model(),
                name: load.name@,
            },
            Instruction::PassThrough(pass) => InstructionModel::PassThrough {
                type_: pass.type_.model(),
                expression: pass.expression.model(),
                name: pass.name@,
            },
            Instruction::PointerAddress(address) => InstructionModel::PointerAddress {
                type_: address.type_.model(),
                pointer: address.pointer.model(),
                offset: address.offset.model(),
                name: address.name@,
            },
            Instruction::ReallocateHeap(reallocate) => InstructionModel::ReallocateHeap {
                pointer: reallocate.pointer.model(),
                size: reallocate.size.model(),
                name: reallocate.name@,
            },
            Instruction::RecordAddress(address) => InstructionModel::RecordAddress {
                type_: address.type_.model(),
                pointer: address.pointer.model(),
                element_index: address.element_index as int,
                name: address.name@,
            },
            Instruction::Store(store) => InstructionModel::Store {
                type_: store.type_.model(),
                value: store.value.model(),
                pointer: store.pointer.model(),
            },
            Instruction::UnionAddress(address) => InstructionModel::UnionAddress {
                type_: address.type_.model(),
                pointer: address.pointer.model(),
                member_index: address.member_index as int,
                name: address.name@,
            },
        }
    }
}

impl Block {
    /// The model of this block.
    pub open spec fn model(self) -> BlockModel
        decreases self,
    {
        BlockModel {
            instructions: Seq::new(
                self.instructions@.len(),
                |i: int| if 0 <= i < self.instructions@.len() {
                    self.instructions@[i].model()
                } else {
                    InstructionModel::FreeHeap {
                        pointer: ExpressionModel::Variable(Seq::<char>::empty()),
                    }
                },
            ),
            terminal_instruction: self.terminal_instruction.model(),
        }
    }
}

/// The models of a sequence of instructions, elementwise.
pub open spec fn instruction_models(instructions: Seq<Instruction>) -> Seq<InstructionModel> {
    Seq::new(instructions.len(), |i: int| instructions[i].model())
}

/// `Block::model` lists exactly the models of the block's instructions.
pub broadcast proof fn lemma_block_model(block: Block)
    ensures
        (#[trigger] block.model()).instructions == instruction_models(block.instructions@),
{
    assert(block.model().instructions =~= instruction_models(block.instructions@));
}

impl Block {
    pub fn new(instructions: Vec<Instruction>, terminal_instruction: TerminalInstruction) -> (block: Self)
        ensures
            block.model() == (BlockModel {
                instructions: instruction_models(instructions@),
                terminal_instruction: terminal_instruction.model(),
            }),
    {
        let block = Self { instructions, terminal_instruction };
        proof {
            lemma_block_model(block);
        }
        block
    }

    pub fn instructions(&self) -> (instructions: &Vec<Instruction>)
        ensures
            instruction_models(instructions@) == self.model().instructions,
    {
        proof {
            lemma_block_model(*self);
        }
        &self.instructions
    }

    pub fn terminal_instruction(&self) -> (terminal_instruction: &TerminalInstruction)
        ensures
            terminal_instruction.model() == self.model().terminal_instruction,
    {
        &self.terminal_instruction
    }
}

impl InstructionModel {
    /// The binding name of the instruction, `None` for effect-only
    /// instructions.
    pub open spec fn spec_name(self) -> Option<Seq<char>> {
        match self {
            InstructionModel::AllocateHeap { name, .. } => Some(name),
            InstructionModel::AllocateStack { name, .. } => Some(name),
            InstructionModel::AtomicLoad { name, .. } => Some(name),
            InstructionModel::AtomicOperation { name, .. } => Some(name),
            InstructionModel::Call { name, .. } => Some(name),
            InstructionModel::CompareAndSwap { name, .. } => Some(name),
            InstructionModel::DeconstructRecord { name, .. } => Some(name),
            InstructionModel::DeconstructUnion { name, .. } => Some(name),
            InstructionModel::If { name, .. } => Some(name),
            InstructionModel::Load { name, .. } => Some(name),
            InstructionModel::PassThrough { name, .. } => Some(name),
            InstructionModel::PointerAddress { name, .. } => Some(name),
            InstructionModel::ReallocateHeap { name, .. } => Some(name),
            InstructionModel::RecordAddress { name, .. } => Some(name),
            InstructionModel::UnionAddress { name, .. } => Some(name),
            InstructionModel::AtomicStore { .. } => None,
            InstructionModel::FreeHeap { .. } => None,
            InstructionModel::Store { .. } => None,
        }
    }

    /// Whether every element or member index the instruction carries is in
    /// bounds for the record or union type it indexes into.
    pub open spec fn indices_in_bounds(self) -> bool {
        match self {
            InstructionModel::DeconstructRecord { type_, element_index, .. } =>
                0 <= element_index < type_.len(),
            InstructionModel::DeconstructUnion { type_, member_index, .. } =>
                0 <= member_index < type_.len(),
            InstructionModel::RecordAddress { type_, element_index, .. } =>
                0 <= element_index < type_.len(),
            InstructionModel::UnionAddress { type_, member_index, .. } =>
                0 <= member_index < type_.len(),
            _ => true,
        }
    }

    /// The type of the value the instruction produces, derived from its
    /// operand types alone; `None` for effect-only instructions.
    pub open spec fn spec_result_type(self) -> Option<TypeModel> {
        match self {
            InstructionModel::AllocateHeap { type_, .. } => Some(TypeModel::Pointer(Box::new(type_))),
            InstructionModel::AllocateStack { type_, .. } => Some(TypeModel::Pointer(Box::new(type_))),
            InstructionModel::AtomicLoad { type_, .. } => Some(type_),
            InstructionModel::AtomicOperation { type_, .. } => Some(TypeModel::Primitive(type_)),
            InstructionModel::Call { type_, .. } => Some(*type_.result),
            InstructionModel::CompareAndSwap { .. } => Some(
                TypeModel::Primitive(crate::types::Primitive::Bool),
            ),
            InstructionModel::DeconstructRecord { type_, element_index, .. } => Some(
                type_[element_index],
            ),
            InstructionModel::DeconstructUnion { type_, member_index, .. } => Some(
                type_[member_index],
            ),
            InstructionModel::If { type_, .. } => Some(type_),
            InstructionModel::Load { type_, .. } => Some(type_),
            InstructionModel::PassThrough { type_, .. } => Some(type_),
            InstructionModel::PointerAddress { type_, .. } => Some(type_),
            InstructionModel::ReallocateHeap { .. } => Some(
                TypeModel::Pointer(Box::new(TypeModel::Primitive(crate::types::Primitive::Integer8))),
            ),
            InstructionModel::RecordAddress { type_, element_index, .. } => Some(
                TypeModel::Pointer(Box::new(type_[element_index])),
            ),
            InstructionModel::UnionAddress { type_, member_index, .. } => Some(
                TypeModel::Pointer(Box::new(type_[member_index])),
            ),
            InstructionModel::AtomicStore { .. } => None,
            InstructionModel::FreeHeap { .. } => None,
            InstructionModel::Store { .. } => None,
        }
    }
}

impl Instruction {
    /// The binding name for instructions that produce a usable value, `None`
    /// for effect-only instructions (stores, atomic stores, heap frees).
    pub fn name(&self) -> (result: Option<&str>)
        ensures
            match result {
                Some(name) => self.model().spec_name() == Some(name@),
                None => self.model().spec_name() is None,
            },
    {
        match self {
            Instruction::AllocateHeap(allocate) => Some(allocate.name.as_str()),
            Instruction::AllocateStack(allocate) => Some(allocate.name.as_str()),
            Instruction::AtomicLoad(load) => Some(load.name.as_str()),
            Instruction::AtomicOperation(operation) => Some(operation.name.as_str()),
            Instruction::Call(call) => Some(call.name.as_str()),
            Instruction::CompareAndSwap(swap) => Some(swap.name.as_str()),
            Instruction::DeconstructRecord(deconstruct) => Some(deconstruct.name.as_str()),
            Instruction::DeconstructUnion(deconstruct) => Some(deconstruct.name.as_str()),
            Instruction::If(if_) => Some(if_.name.as_str()),
            Instruction::Load(load) => Some(load.name.as_str()),
            Instruction::PassThrough(pass) => Some(pass.name.as_str()),
            Instruction::PointerAddress(address) => Some(address.name.as_str()),
            Instruction::ReallocateHeap(reallocate) => Some(reallocate.name.as_str()),
            Instruction::RecordAddress(address) => Some(address.name.as_str()),
            Instruction::UnionAddress(address) => Some(address.name.as_str()),
            Instruction::AtomicStore(_) => None,
            Instruction::FreeHeap(_) => None,
            Instruction::Store(_) => None,
        }
    }

    /// The type of the value this instruction produces, computed from its
    /// operand types; `None` for effect-only instructions.
    pub fn result_type(&self) -> (result: Option<Type>)
        requires
            self.model().indices_in_bounds(),
        ensures
            match result {
                Some(type_) => self.model().spec_result_type() == Some(type_.model()),
                None => self.model().spec_result_type() is None,
            },
    {
        match self {
            Instruction::AllocateHeap(allocate) => Some(Type::Pointer(
                crate::types::Pointer::new(allocate.type_.clone()),
            )),
            Instruction::AllocateStack(allocate) => Some(Type::Pointer(
                crate::types::Pointer::new(allocate.type_.clone()),
            )),
            Instruction::AtomicLoad(load) => Some(load.type_.clone()),
            Instruction::AtomicOperation(operation) => Some(Type::Primitive(operation.type_)),
            Instruction::Call(call) => Some((*call.type_.result).clone()),
            Instruction::CompareAndSwap(_) => Some(Type::Primitive(crate::types::Primitive::Bool)),
            Instruction::DeconstructRecord(deconstruct) => Some(
                deconstruct.type_.elements[deconstruct.element_index].clone(),
            ),
            Instruction::DeconstructUnion(deconstruct) => Some(
                deconstruct.type_.members[deconstruct.member_index].clone(),
            ),
            Instruction::If(if_) => Some(if_.type_.clone()),
            Instruction::Load(load) => Some(load.type_.clone()),
            Instruction::PassThrough(pass) => Some(pass.type_.clone()),
            Instruction::PointerAddress(address) => Some(Type::Pointer(address.type_.clone())),
            Instruction::ReallocateHeap(_) => Some(Type::Pointer(
                crate::types::Pointer::new(Type::Primitive(crate::types::Primitive::Integer8)),
            )),
            Instruction::RecordAddress(address) => Some(Type::Pointer(
                crate::types::Pointer::new(address.type_.elements[address.element_index].clone()),
            )),
            Instruction::UnionAddress(address) => Some(Type::Pointer(
                crate::types::Pointer::new(address.type_.members[address.member_index].clone()),
            )),
            Instruction::AtomicStore(_) => None,
            Instruction::FreeHeap(_) => None,
            Instruction::Store(_) => None,
        }
    }
}

impl Clone for TerminalInstruction {
    fn clone(&self) -> (result: Self)
        ensures
            result.model() == self.model(),
    {
        match self {
            TerminalInstruction::Branch(branch) => TerminalInstruction::Branch(Branch {
                type_: branch.type_.clone(),
                expression: branch.expression.clone(),
            }),
            TerminalInstruction::Return(return_) => TerminalInstruction::Return(Return {
                type_: return_.type_.clone(),
                expression: return_.expression.clone(),
            }),
            TerminalInstruction::Unreachable => TerminalInstruction::Unreachable,
        }
    }
}

/// Clones every instruction in a vector, preserving the models elementwise.
pub fn clone_instructions(instructions: &Vec<Instruction>) -> (result: Vec<Instruction>)
    ensures
        instruction_models(result@) == instruction_models(instructions@),
    decreases instructions,
{
    let mut result: Vec<Instruction> = Vec::new();
    let mut i: usize = 0;
    while i < instructions.len()
        invariant
            i <= instructions@.len(),
            result@.len() == i,
            instruction_models(result@) =~= instruction_models(instructions@).take(i as int),
        decreases instructions@.len() - i,
    {
        result.push(instructions[i].clone());
        proof {
            assert(instruction_models(result@) =~= instruction_models(instructions@).take(i + 1));
        }
        i = i + 1;
    }
    proof {
        assert(instruction_models(instructions@).take(instructions@.len() as int)
            =~= instruction_models(instructions@));
    }
    result
}

impl Clone for Instruction {
    fn clone(&self) -> (result: Self)
        ensures
            result.model() == self.model(),
        decreases self,
    {
        let result = match self {
            Instruction::AllocateHeap(allocate) => Instruction::AllocateHeap(AllocateHeap {
                type_: allocate.type_.clone(),
                name: allocate.name.clone(),
            }),
            Instruction::AllocateStack(allocate) => Instruction::AllocateStack(AllocateStack {
                type_: allocate.type_.clone(),
                name: allocate.name.clone(),
            }),
            Instruction::AtomicLoad(load) => Instruction::AtomicLoad(AtomicLoad {
                type_: load.type_.clone(),
                pointer: load.pointer.clone(),
                ordering: load.ordering,
                name: load.name.clone(),
            }),
            Instruction::AtomicOperation(operation) => Instruction::AtomicOperation(AtomicOperation {
                operator: operation.operator,
                type_: operation.type_,
                pointer: operation.pointer.clone(),
                value: operation.value.clone(),
                ordering: operation.ordering,
                name: operation.name.clone(),
            }),
            Instruction::AtomicStore(store) => Instruction::AtomicStore(AtomicStore {
                type_: store.type_.clone(),
                value: store.value.clone(),
                pointer: store.pointer.clone(),
                ordering: store.ordering,
            }),
            Instruction::Call(call) => Instruction::Call(Call {
                type_: call.type_.clone(),
                function: call.function.clone(),
                arguments: clone_expressions(&call.arguments),
                name: call.name.clone(),
            }),
            Instruction::CompareAndSwap(swap) => Instruction::CompareAndSwap(CompareAndSwap {
                type_: swap.type_.clone(),
                pointer: swap.pointer.clone(),
                old_value: swap.old_value.clone(),
                new_value: swap.new_value.clone(),
                success_ordering: swap.success_ordering,
                failure_ordering: swap.failure_ordering,
                name: swap.name.clone(),
            }),
            Instruction::DeconstructRecord(deconstruct) => Instruction::DeconstructRecord(
                DeconstructRecord {
                    type_: deconstruct.type_.clone(),
                    record: deconstruct.record.clone(),
                    element_index: deconstruct.element_index,
                    name: deconstruct.name.clone(),
                },
            ),
            Instruction::DeconstructUnion(deconstruct) => Instruction::DeconstructUnion(
                DeconstructUnion {
                    type_: deconstruct.type_.clone(),
                    union_: deconstruct.union_.clone(),
                    member_index: deconstruct.member_index,
                    name: deconstruct.name.clone(),
                },
            ),
            Instruction::FreeHeap(free) => Instruction::FreeHeap(FreeHeap {
                pointer: free.pointer.clone(),
            }),
            Instruction::If(if_) => Instruction::If(If {
                type_: if_.type_.clone(),
                condition: if_.condition.clone(),
                then_: if_.then_.clone(),
                else_: if_.else_.clone(),
                name: if_.name.clone(),
            }),
            Instruction::Load(load) => Instruction::Load(Load {
                type_: load.type_.clone(),
                pointer: load.pointer.clone(),
                name: load.name.clone(),
            }),
            Instruction::PassThrough(pass) => Instruction::PassThrough(PassThrough {
                type_: pass.type_.clone(),
                expression: pass.expression.clone(),
                name: pass.name.clone(),
            }),
            Instruction::PointerAddress(address) => Instruction::PointerAddress(PointerAddress {
                type_: address.type_.clone(),
                pointer: address.pointer.clone(),
                offset: address.offset.clone(),
                name: address.name.clone(),
            }),
            Instruction::ReallocateHeap(reallocate) => Instruction::ReallocateHeap(ReallocateHeap {
                pointer: reallocate.pointer.clone(),
                size: reallocate.size.clone(),
                name: reallocate.name.clone(),
            }),
            Instruction::RecordAddress(address) => Instruction::RecordAddress(RecordAddress {
                type_: address.type_.clone(),
                pointer: address.pointer.clone(),
                element_index: address.element_index,
                name: address.name.clone(),
            }),
            Instruction::Store(store) => Instruction::Store(Store {
                type_: store.type_.clone(),
                value: store.value.clone(),
                pointer: store.pointer.clone(),
            }),
            Instruction::UnionAddress(address) => Instruction::UnionAddress(UnionAddress {
                type_: address.type_.clone(),
                pointer: address.pointer.clone(),
                member_index: address.member_index,
                name: address.name.clone(),
            }),
        };
        result
    }
}

impl Clone for Block {
    fn clone(&self) -> (result: Self)
        ensures
            result.model() == self.model(),
        decreases self,
    {
        let result = Block {
            instructions: clone_instructions(&self.instructions),
            terminal_instruction: self.terminal_instruction.clone(),
        };
        proof {
            lemma_block_model(result);
            lemma_block_model(*self);
            assert(result.model() =~= self.model());
        }
        result
    }
}

/// The value carrying no information: an undefined value of the void type.
pub fn void_value() -> (expression: Expression)
    ensures
        expression.model() == ExpressionModel::Undefined(crate::types::void_type_model()),
{
    Expression::Undefined(Undefined::new(Type::Record(crate::types::void_type())))
}

impl AllocateHeap {
    pub fn new(type_: Type, name: String) -> (instruction: Self)
        ensures
            instruction.type_.model() == type_.model(),
            instruction.name@ == name@,
    {
        Self { type_, name }
    }
}

impl AllocateStack {
    pub fn new(type_: Type, name: String) -> (instruction: Self)
        ensures
            instruction.type_.model() == type_.model(),
            instruction.name@ == name@,
    {
        Self { type_, name }
    }
}

impl AtomicLoad {
    pub fn new(type_: Type, pointer: Expression, ordering: AtomicOrdering, name: String) -> (instruction: Self)
        ensures
            instruction.type_.model() == type_.model(),
            instruction.pointer.model() == pointer.model(),
            instruction.ordering == ordering,
            instruction.name@ == name@,
    {
        Self { type_, pointer, ordering, name }
    }
}

impl AtomicOperation {
    pub fn new(
        operator: AtomicOperator,
        type_: crate::types::Primitive,
        pointer: Expression,
        value: Expression,
        ordering: AtomicOrdering,
        name: String,
    ) -> (instruction: Self)
        ensures
            instruction.operator == operator,
            instruction.type_ == type_,
            instruction.pointer.model() == pointer.model(),
            instruction.value.model() == value.model(),
            instruction.ordering == ordering,
            instruction.name@ == name@,
    {
        Self { operator, type_, pointer, value, ordering, name }
    }
}

impl AtomicStore {
    pub fn new(type_: Type, value: Expression, pointer: Expression, ordering: AtomicOrdering) -> (instruction: Self)
        ensures
            instruction.type_.model() == type_.model(),
            instruction.value.model() == value.model(),
            instruction.pointer.model() == pointer.model(),
            instruction.ordering == ordering,
    {
        Self { type_, value, pointer, ordering }
    }
}

impl Call {
    pub fn new(
        type_: crate::types::Function,
        function: Expression,
        arguments: Vec<Expression>,
        name: String,
    ) -> (instruction: Self)
        ensures
            instruction.type_.model() == type_.model(),
            instruction.function.model() == function.model(),
            expression_models(instruction.arguments@) == expression_models(arguments@),
            instruction.name@ == name@,
    {
        Self { type_, function, arguments, name }
    }
}

impl CompareAndSwap {
    pub fn new(
        type_: Type,
        pointer: Expression,
        old_value: Expression,
        new_value: Expression,
        success_ordering: AtomicOrdering,
        failure_ordering: AtomicOrdering,
        name: String,
    ) -> (instruction: Self)
        ensures
            instruction.type_.model() == type_.model(),
            instruction.pointer.model() == pointer.model(),
            instruction.old_value.model() == old_value.model(),
            instruction.new_value.model() == new_value.model(),
            instruction.success_ordering == success_ordering,
            instruction.failure_ordering == failure_ordering,
            instruction.name@ == name@,
    {
        Self { type_, pointer, old_value, new_value, success_ordering, failure_ordering, name }
    }
}

impl DeconstructRecord {
    pub fn new(
        type_: crate::types::Record,
        record: Expression,
        element_index: usize,
        name: String,
    ) -> (instruction: Self)
        ensures
            instruction.type_.model() == type_.model(),
            instruction.record.model() == record.model(),
            instruction.element_index == element_index,
            instruction.name@ == name@,
    {
        Self { type_, record, element_index, name }
    }
}

impl DeconstructUnion {
    pub fn new(
        type_: crate::types::Union,
        union_: Expression,
        member_index: usize,
        name: String,
    ) -> (instruction: Self)
        ensures
            instruction.type_.model() == type_.model(),
            instruction.union_.model() == union_.model(),
            instruction.member_index == member_index,
            instruction.name@ == name@,
    {
        Self { type_, union_, member_index, name }
    }
}

impl FreeHeap {
    pub fn new(pointer: Expression) -> (instruction: Self)
        ensures
            instruction.pointer.model() == pointer.model(),
    {
        Self { pointer }
    }
}

impl If {
    pub fn new(
        type_: Type,
        condition: Expression,
        then_: Block,
        else_: Block,
        name: String,
    ) -> (instruction: Self)
        ensures
            instruction.type_.model() == type_.model(),
            instruction.condition.model() == condition.model(),
            instruction.then_.model() == then_.model(),
            instruction.else_.model() == else_.model(),
            instruction.name@ == name@,
    {
        Self { type_, condition, then_, else_, name }
    }
}

impl Load {
    pub fn new(type_: Type, pointer: Expression, name: String) -> (instruction: Self)
        ensures
            instruction.type_.model() == type_.model(),
            instruction.pointer.model() == pointer.model(),
            instruction.name@ == name@,
    {
        Self { type_, pointer, name }
    }
}

impl PassThrough {
    pub fn new(type_: Type, expression: Expression, name: String) -> (instruction: Self)
        ensures
            instruction.type_.model() == type_.model(),
            instruction.expression.model() == expression.model(),
            instruction.name@ == name@,
    {
        Self { type_, expression, name }
    }
}

impl PointerAddress {
    pub fn new(
        type_: crate::types::Pointer,
        pointer: Expression,
        offset: Expression,
        name: String,
    ) -> (instruction: Self)
        ensures
            instruction.type_.model() == type_.model(),
            instruction.pointer.model() == pointer.model(),
            instruction.offset.model() == offset.model(),
            instruction.name@ == name@,
    {
        Self { type_, pointer, offset, name }
    }
}

impl ReallocateHeap {
    pub fn new(pointer: Expression, size: Expression, name: String) -> (instruction: Self)
        ensures
            instruction.pointer.model() == pointer.model(),
            instruction.size.model() == size.model(),
            instruction.name@ == name@,
    {
        Self { pointer, size, name }
    }
}

impl RecordAddress {
    pub fn new(
        type_: crate::types::Record,
        pointer: Expression,
        element_index: usize,
        name: String,
    ) -> (instruction: Self)
        ensures
            instruction.type_.model() == type_.model(),
            instruction.pointer.model() == pointer.model(),
            instruction.element_index == element_index,
            instruction.name@ == name@,
    {
        Self { type_, pointer, element_index, name }
    }
}

impl Store {
    pub fn new(type_: Type, value: Expression, pointer: Expression) -> (instruction: Self)
        ensures
            instruction.type_.model() == type_.model(),
            instruction.value.model() == value.model(),
            instruction.pointer.model() == pointer.model(),
    {
        Self { type_, value, pointer }
    }
}

impl UnionAddress {
    pub fn new(
        type_: crate::types::Union,
        pointer: Expression,
        member_index: usize,
        name: String,
    ) -> (instruction: Self)
        ensures
            instruction.type_.model() == type_.model(),
            instruction.pointer.model() == pointer.model(),
            instruction.member_index == member_index,
            instruction.name@ == name@,
    {
        Self { type_, pointer, member_index, name }
    }
}

impl Branch {
    pub fn new(type_: Type, expression: Expression) -> (terminal: Self)
        ensures
            terminal.type_.model() == type_.model(),
            terminal.expression.model() == expression.model(),
    {
        Self { type_, expression }
    }
}

impl Return {
    pub fn new(type_: Type, expression: Expression) -> (terminal: Self)
        ensures
            terminal.type_.model() == type_.model(),
            terminal.expression.model() == expression.model(),
    {
        Self { type_, expression }
    }
}

} // verus!
