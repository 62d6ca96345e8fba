//! The C-calling-convention lowering pass: rewrites function definitions and
//! call sites under the `Target` calling convention so that values too large
//! to pass in machine registers are passed and returned through memory.

use vstd::prelude::*;
use crate::builders::{InstructionBuilder, TypedExpression};
use crate::ir::{
    Block, BlockModel, Call, Expression, ExpressionModel, If, Instruction, InstructionModel, Load,
    expression_models, instruction_models,
};
use crate::module::{FunctionDefinition, FunctionDefinitionModel};
use crate::names::{
    NameGenerator, generated_name, is_generated_from, lemma_generated_name_injective,
    name_separator,
};
use crate::types::{
    CallingConvention, FunctionTypeModel, Primitive, Type, TypeModel, models_of, void_type,
    void_type_model,
};

verus! {

broadcast use
    vstd::std_specs::vec::group_vec_axioms,
    crate::types::lemma_model_function,
    crate::types::lemma_model_pointer,
    crate::types::lemma_model_record,
    crate::types::lemma_model_union;

/// The error a lowering run reports instead of guessing a recovery: a call's
/// argument count disagrees with its callee type's arity.
#[derive(Clone, Copy, Debug, PartialEq, Eq, Structural)]
pub enum CCallingConventionError {
    ArgumentCountMismatch,
}

/// Target-specific parameters of the lowering: the platform's word size in
/// bytes, fixed for the duration of one compilation.
#[derive(Clone, Copy, Debug, PartialEq, Eq, Structural)]
pub struct Context {
    pub word_bytes: usize,
}

impl Context {
    pub fn new(word_bytes: usize) -> (context: Self)
        ensures
            context.word_bytes == word_bytes,
    {
        Self { word_bytes }
    }
}

/// Whether a context's word size leaves room to compute the two-word
/// register budget in a machine integer.
pub open spec fn context_fits(context: Context) -> bool {
    context.word_bytes < usize::MAX / 2
}

/// The size in bytes of a primitive type under a word size.
pub open spec fn spec_primitive_size(word_bytes: nat, primitive: Primitive) -> nat {
    match primitive {
        Primitive::Bool => 1,
        Primitive::Float32 => 4,
        Primitive::Float64 => 8,
        Primitive::Integer8 => 1,
        Primitive::Integer32 => 4,
        Primitive::Integer64 => 8,
        Primitive::PointerInteger => word_bytes,
    }
}

/// The size in bytes of a type's natural representation under a word size:
/// pointers and function references take one word, a record the sum of its
/// elements, a union its largest member.
pub open spec fn spec_type_size(word_bytes: nat, type_: TypeModel) -> nat
    decreases type_,
{
    match type_ {
        TypeModel::Function(_) => word_bytes,
        TypeModel::Primitive(primitive) => spec_primitive_size(word_bytes, primitive),
        TypeModel::Pointer(_) => word_bytes,
        TypeModel::Record(elements) => spec_total_size(word_bytes, elements),
        TypeModel::Union(members) => spec_largest_size(word_bytes, members),
    }
}

/// The sum of the sizes of a sequence of types.
pub open spec fn spec_total_size(word_bytes: nat, types: Seq<TypeModel>) -> nat
    decreases types,
{
    if types.len() == 0 {
        0
    } else {
        spec_type_size(word_bytes, types[0]) + spec_total_size(word_bytes, types.drop_first())
    }
}

/// The largest of the sizes of a sequence of types.
pub open spec fn spec_largest_size(word_bytes: nat, types: Seq<TypeModel>) -> nat
    decreases types,
{
    if types.len() == 0 {
        0
    } else {
        let head = spec_type_size(word_bytes, types[0]);
        let rest = spec_largest_size(word_bytes, types.drop_first());
        if head > rest {
            head
        } else {
            rest
        }
    }
}

/// Whether values of a type are passed through memory under the native
/// convention: aggregates whose size exceeds the two-word register budget.
/// The classification depends on the type and the word size alone.
pub open spec fn spec_is_memory_class(word_bytes: nat, type_: TypeModel) -> bool {
    match type_ {
        TypeModel::Record(_) => spec_type_size(word_bytes, type_) > 2 * word_bytes,
        TypeModel::Union(_) => spec_type_size(word_bytes, type_) > 2 * word_bytes,
        _ => false,
    }
}

/// Appending a type adds its size to a sum of sizes.
proof fn lemma_total_size_push(word_bytes: nat, types: Seq<TypeModel>, type_: TypeModel)
    ensures
        spec_total_size(word_bytes, types.push(type_)) == spec_total_size(word_bytes, types)
            + spec_type_size(word_bytes, type_),
    decreases types,
{
    if types.len() == 0 {
        assert(types.push(type_).drop_first() =~= types);
    } else {
        assert(types.push(type_).drop_first() =~= types.drop_first().push(type_));
        lemma_total_size_push(word_bytes, types.drop_first(), type_);
    }
}

/// Appending a type caps a largest-size against its size.
proof fn lemma_largest_size_push(word_bytes: nat, types: Seq<TypeModel>, type_: TypeModel)
    ensures
        spec_largest_size(word_bytes, types.push(type_)) == if spec_type_size(word_bytes, type_)
            > spec_largest_size(word_bytes, types) {
            spec_type_size(word_bytes, type_)
        } else {
            spec_largest_size(word_bytes, types)
        },
    decreases types,
{
    if types.len() == 0 {
        assert(types.push(type_).drop_first() =~= types);
    } else {
        assert(types.push(type_).drop_first() =~= types.drop_first().push(type_));
        lemma_largest_size_push(word_bytes, types.drop_first(), type_);
    }
}

/// A mathematical size capped at the largest machine integer.
pub open spec fn saturated(value: nat) -> nat {
    if value > usize::MAX {
        usize::MAX as nat
    } else {
        value
    }
}

/// The size of `type_`, saturating at the largest machine integer. A result
/// below the saturation point is exact.
#[verifier::loop_isolation(false)]
fn type_size(context: &Context, type_: &Type) -> (size: usize)
    ensures
        size == saturated(spec_type_size(context.word_bytes as nat, type_.model())),
    decreases type_,
{
    match type_ {
        Type::Function(_) => context.word_bytes,
        Type::Primitive(primitive) => match primitive {
            Primitive::Bool => 1,
            Primitive::Float32 => 4,
            Primitive::Float64 => 8,
            Primitive::Integer8 => 1,
            Primitive::Integer32 => 4,
            Primitive::Integer64 => 8,
            Primitive::PointerInteger => context.word_bytes,
        },
        Type::Pointer(_) => context.word_bytes,
        Type::Record(record) => {
            let ghost elements = record.model();
            let mut total: usize = 0;
            let mut i: usize = 0;
            while i < record.elements.len()
                invariant
                    i <= record.elements@.len(),
                    elements == models_of(record.elements@),
                    total == saturated(spec_total_size(
                        context.word_bytes as nat,
                        elements.take(i as int),
                    )),
                decreases record.elements@.len() - i,
            {
                proof {
                    assert(decreases_to!(*type_ => record.elements@[i as int]));
                }
                let element_size = type_size(context, &record.elements[i]);
                proof {
                    lemma_total_size_push(
                        context.word_bytes as nat,
                        elements.take(i as int),
                        elements[i as int],
                    );
                    assert(elements.take(i as int).push(elements[i as int]) =~= elements.take(
                        i + 1,
                    ));
                }
                if element_size > usize::MAX - total {
                    total = usize::MAX;
                } else {
                    total = total + element_size;
                }
                i = i + 1;
            }
            proof {
                assert(elements.take(elements.len() as int) =~= elements);
            }
            total
        },
        Type::Union(union_) => {
            let ghost members = union_.model();
            let mut largest: usize = 0;
            let mut i: usize = 0;
            while i < union_.members.len()
                invariant
                    i <= union_.members@.len(),
                    members == models_of(union_.members@),
                    largest == saturated(spec_largest_size(
                        context.word_bytes as nat,
                        members.take(i as int),
                    )),
                decreases union_.members@.len() - i,
            {
                proof {
                    assert(decreases_to!(*type_ => union_.members@[i as int]));
                }
                let member_size = type_size(context, &union_.members[i]);
                proof {
                    lemma_largest_size_push(
                        context.word_bytes as nat,
                        members.take(i as int),
                        members[i as int],
                    );
                    assert(members.take(i as int).push(members[i as int]) =~= members.take(i + 1));
                }
                if member_size > largest {
                    largest = member_size;
                }
                i = i + 1;
            }
            proof {
                assert(members.take(members.len() as int) =~= members);
            }
            largest
        },
    }
}

/// Whether values of `type_` are passed through memory under the native
/// convention, per `spec_is_memory_class`.
pub fn is_memory_class(context: &Context, type_: &Type) -> (memory: bool)
    requires
        context_fits(*context),
    ensures
        memory == spec_is_memory_class(context.word_bytes as nat, type_.model()),
{
    match type_ {
        Type::Record(_) => type_size(context, type_) > 2 * context.word_bytes,
        Type::Union(_) => type_size(context, type_) > 2 * context.word_bytes,
        _ => false,
    }
}

/// A memory-class argument type becomes a pointer to itself in the rewritten
/// signature; any other argument type is kept.
pub open spec fn spec_rewritten_argument(word_bytes: nat, type_: TypeModel) -> TypeModel {
    if spec_is_memory_class(word_bytes, type_) {
        TypeModel::Pointer(Box::new(type_))
    } else {
        type_
    }
}

/// The native function type of a `Target`-convention function type: each
/// memory-class argument type becomes a pointer to itself; a memory-class
/// result type moves to a leading pointer argument and the rewritten type
/// returns void instead.
pub open spec fn spec_transform_function_type(
    word_bytes: nat,
    function: FunctionTypeModel,
) -> FunctionTypeModel {
    let rewritten = Seq::new(
        function.arguments.len(),
        |i: int| spec_rewritten_argument(word_bytes, function.arguments[i]),
    );
    if spec_is_memory_class(word_bytes, *function.result) {
        FunctionTypeModel {
            arguments: seq![TypeModel::Pointer(Box::new(*function.result))] + rewritten,
            result: Box::new(void_type_model()),
            calling_convention: function.calling_convention,
        }
    } else {
        FunctionTypeModel {
            arguments: rewritten,
            result: function.result,
            calling_convention: function.calling_convention,
        }
    }
}

/// The native function type of `function`, per
/// `spec_transform_function_type`.
pub fn transform_function(context: &Context, function: &crate::types::Function) -> (result:
    crate::types::Function)
    requires
        context_fits(*context),
    ensures
        result.model() == spec_transform_function_type(
            context.word_bytes as nat,
            function.model(),
        ),
{
    let ghost word_bytes = context.word_bytes as nat;
    let ghost original = function.model();
    let ghost rewritten = Seq::new(
        original.arguments.len(),
        |i: int| spec_rewritten_argument(word_bytes, original.arguments[i]),
    );
    let result_memory = is_memory_class(context, &function.result);
    let mut arguments: Vec<Type> = Vec::new();
    if result_memory {
        arguments.push(Type::Pointer(crate::types::Pointer::new((*function.result).clone())));
    }
    let ghost lead = if result_memory {
        seq![TypeModel::Pointer(Box::new(*original.result))]
    } else {
        Seq::<TypeModel>::empty()
    };
    proof {
        assert(models_of(arguments@) =~= lead + rewritten.take(0));
    }
    let mut i: usize = 0;
    while i < function.arguments.len()
        invariant
            i <= function.arguments@.len(),
            context_fits(*context),
            word_bytes == context.word_bytes as nat,
            original == function.model(),
            rewritten == Seq::new(
                original.arguments.len(),
                |j: int| spec_rewritten_argument(word_bytes, original.arguments[j]),
            ),
            lead == if result_memory {
                seq![TypeModel::Pointer(Box::new(*original.result))]
            } else {
                Seq::<TypeModel>::empty()
            },
            models_of(arguments@) =~= lead + rewritten.take(i as int),
        decreases function.arguments@.len() - i,
    {
        let argument = &function.arguments[i];
        proof {
            assert(argument.model() == original.arguments[i as int]);
        }
        let rewritten_argument = if is_memory_class(context, argument) {
            Type::Pointer(crate::types::Pointer::new(argument.clone()))
        } else {
            argument.clone()
        };
        proof {
            assert(rewritten_argument.model() == rewritten[i as int]);
        }
        let ghost before = arguments@;
        arguments.push(rewritten_argument);
        proof {
            assert(arguments@ == before.push(rewritten_argument));
            assert(models_of(before).len() == before.len());
            assert(before.len() == lead.len() + i);
            assert forall|j: int| 0 <= j < arguments@.len() implies models_of(arguments@)[j] == (
                lead + rewritten.take(i + 1)
            )[j] by {
                if j < before.len() {
                    assert(arguments@[j] == before[j]);
                    assert(models_of(before)[j] == (lead + rewritten.take(i as int))[j]);
                } else {
                    assert(arguments@[j] == rewritten_argument);
                }
            }
            assert(models_of(arguments@) =~= lead + rewritten.take(i + 1));
        }
        i = i + 1;
    }
    let result_type = if result_memory {
        Type::Record(void_type())
    } else {
        (*function.result).clone()
    };
    let result = crate::types::Function::new(
        arguments,
        result_type,
        function.calling_convention,
    );
    proof {
        assert(rewritten.take(original.arguments.len() as int) =~= rewritten);
        assert(result.model().arguments =~= spec_transform_function_type(
            word_bytes,
            original,
        ).arguments);
        assert(result.model() =~= spec_transform_function_type(word_bytes, original));
    }
    result
}

/// What lowering one `Target` call's argument list emits, walking the
/// argument list in order with the next free counter value `counter`: the
/// allocate-and-store instructions for the memory-class arguments, the
/// argument expressions the rewritten call passes instead, and the counter
/// left for the names that follow.
pub open spec fn spec_lower_arguments(
    word_bytes: nat,
    types: Seq<TypeModel>,
    arguments: Seq<ExpressionModel>,
    seed: Seq<char>,
    counter: nat,
) -> (Seq<InstructionModel>, Seq<ExpressionModel>, nat)
    decreases types,
{
    if types.len() == 0 {
        (Seq::<InstructionModel>::empty(), Seq::<ExpressionModel>::empty(), counter)
    } else if spec_is_memory_class(word_bytes, types[0]) {
        let name = generated_name(seed, counter);
        let rest = spec_lower_arguments(
            word_bytes,
            types.drop_first(),
            arguments.drop_first(),
            seed,
            counter + 1,
        );
        (
            seq![
                InstructionModel::AllocateStack { type_: types[0], name },
                InstructionModel::Store {
                    type_: types[0],
                    value: arguments[0],
                    pointer: ExpressionModel::Variable(name),
                },
            ] + rest.0,
            seq![ExpressionModel::Variable(name)] + rest.1,
            rest.2,
        )
    } else {
        let rest = spec_lower_arguments(
            word_bytes,
            types.drop_first(),
            arguments.drop_first(),
            seed,
            counter,
        );
        (rest.0, seq![arguments[0]] + rest.1, rest.2)
    }
}

/// What lowering one `Target`-convention call emits in its place. Memory-class
/// arguments are stored into fresh stack slots and passed by pointer; a
/// memory-class result is returned through a fresh leading pointer argument
/// and loaded back under the call's original name, so later uses see the
/// original name and type.
pub open spec fn spec_lowered_call(
    word_bytes: nat,
    type_: FunctionTypeModel,
    function: ExpressionModel,
    arguments: Seq<ExpressionModel>,
    name: Seq<char>,
) -> Seq<InstructionModel> {
    let lowered = spec_lower_arguments(word_bytes, type_.arguments, arguments, name, 0);
    let native = spec_transform_function_type(word_bytes, type_);
    if spec_is_memory_class(word_bytes, *type_.result) {
        let pointer_name = generated_name(name, lowered.2);
        let call_name = generated_name(name, lowered.2 + 1);
        lowered.0 + seq![
            InstructionModel::AllocateStack { type_: *type_.result, name: pointer_name },
            InstructionModel::Call {
                type_: native,
                function,
                arguments: seq![ExpressionModel::Variable(pointer_name)] + lowered.1,
                name: call_name,
            },
            InstructionModel::Load {
                type_: *type_.result,
                pointer: ExpressionModel::Variable(pointer_name),
                name,
            },
        ]
    } else {
        lowered.0 + seq![
            InstructionModel::Call { type_: native, function, arguments: lowered.1, name },
        ]
    }
}

/// What lowering one instruction leaves in its place: a `Target`-convention
/// call with agreeing arity becomes its lowered sequence, one with a
/// disagreeing arity is the error, an `If` is rebuilt with both branches
/// lowered, and every other instruction passes through unchanged.
pub open spec fn spec_transform_instruction(
    word_bytes: nat,
    instruction: InstructionModel,
) -> Result<Seq<InstructionModel>, CCallingConventionError>
    decreases instruction,
{
    match instruction {
        InstructionModel::Call { type_, function, arguments, name } => {
            if type_.calling_convention == CallingConvention::Target {
                if arguments.len() != type_.arguments.len() {
                    Err(CCallingConventionError::ArgumentCountMismatch)
                } else {
                    Ok(spec_lowered_call(word_bytes, type_, function, arguments, name))
                }
            } else {
                Ok(seq![instruction])
            }
        },
        InstructionModel::If { type_, condition, then_, else_, name } => {
            match spec_transform_block(word_bytes, then_) {
                Ok(lowered_then) => match spec_transform_block(word_bytes, else_) {
                    Ok(lowered_else) => Ok(
                        seq![
                            InstructionModel::If {
                                type_,
                                condition,
                                then_: lowered_then,
                                else_: lowered_else,
                                name,
                            },
                        ],
                    ),
                    Err(error) => Err(error),
                },
                Err(error) => Err(error),
            }
        },
        _ => Ok(seq![instruction]),
    }
}

/// What lowering a sequence of instructions yields: each instruction's
/// replacement sequence, concatenated in order, or the first error.
pub open spec fn spec_transform_instructions(
    word_bytes: nat,
    instructions: Seq<InstructionModel>,
) -> Result<Seq<InstructionModel>, CCallingConventionError>
    decreases instructions,
{
    if instructions.len() == 0 {
        Ok(Seq::<InstructionModel>::empty())
    } else {
        match spec_transform_instruction(word_bytes, instructions[0]) {
            Ok(head) => match spec_transform_instructions(word_bytes, instructions.drop_first()) {
                Ok(tail) => Ok(head + tail),
                Err(error) => Err(error),
            },
            Err(error) => Err(error),
        }
    }
}

/// What lowering a block yields: its instructions lowered in order, its
/// terminal instruction kept, or the first error.
pub open spec fn spec_transform_block(
    word_bytes: nat,
    block: BlockModel,
) -> Result<BlockModel, CCallingConventionError>
    decreases block,
{
    match spec_transform_instructions(word_bytes, block.instructions) {
        Ok(instructions) => Ok(
            BlockModel { instructions, terminal_instruction: block.terminal_instruction },
        ),
        Err(error) => Err(error),
    }
}

/// What lowering a function definition yields: the definition with its body
/// lowered and everything else kept, or the first error.
pub open spec fn spec_transform_function_definition(
    word_bytes: nat,
    definition: FunctionDefinitionModel,
) -> Result<FunctionDefinitionModel, CCallingConventionError> {
    match spec_transform_block(word_bytes, definition.body) {
        Ok(body) => Ok(FunctionDefinitionModel { body, ..definition }),
        Err(error) => Err(error),
    }
}

/// Lowers one `Target`-convention call whose arity agrees with its callee
/// type, per `spec_lowered_call`.
#[verifier::loop_isolation(false)]
#[verifier::rlimit(60)]
fn lower_call(context: &Context, call: &Call) -> (instructions: Vec<Instruction>)
    requires
        context_fits(*context),
        call.arguments@.len() == call.type_.arguments@.len(),
    ensures
        instruction_models(instructions@) == spec_lowered_call(
            context.word_bytes as nat,
            call.type_.model(),
            call.function.model(),
            expression_models(call.arguments@),
            call.name@,
        ),
{
    let ghost word_bytes = context.word_bytes as nat;
    let ghost function_type = call.type_.model();
    let ghost argument_models = expression_models(call.arguments@);
    let ghost seed = call.name@;
    let ghost full = spec_lower_arguments(
        word_bytes,
        function_type.arguments,
        argument_models,
        seed,
        0,
    );
    let mut prefix = call.name.clone();
    prefix.append("_c_");
    proof {
        reveal_strlit("_c_");
        assert("_c_"@ =~= name_separator());
        assert(prefix@ == seed + name_separator());
    }
    let mut builder = InstructionBuilder::new(NameGenerator::new(prefix));
    let mut new_arguments: Vec<Expression> = Vec::new();
    let mut i: usize = 0;
    proof {
        assert(function_type.arguments.skip(0) =~= function_type.arguments);
        assert(argument_models.skip(0) =~= argument_models);
    }
    while i < call.arguments.len()
        invariant
            i <= call.arguments@.len(),
            call.arguments@.len() == call.type_.arguments@.len(),
            builder.name_generator.prefix@ == seed + name_separator(),
            builder.name_generator.counter <= i,
            ({
                let rest = spec_lower_arguments(
                    word_bytes,
                    function_type.arguments.skip(i as int),
                    argument_models.skip(i as int),
                    seed,
                    builder.name_generator.counter as nat,
                );
                &&& full.0 == instruction_models(builder.instructions@) + rest.0
                &&& full.1 == expression_models(new_arguments@) + rest.1
                &&& full.2 == rest.2
            }),
        decreases call.arguments@.len() - i,
    {
        let ghost counter = builder.name_generator.counter as nat;
        let ghost rest = spec_lower_arguments(
            word_bytes,
            function_type.arguments.skip(i as int),
            argument_models.skip(i as int),
            seed,
            counter,
        );
        proof {
            assert(function_type.arguments.skip(i as int)[0] == function_type.arguments[i as int]);
            assert(argument_models.skip(i as int)[0] == argument_models[i as int]);
            assert(function_type.arguments.skip(i as int).drop_first()
                =~= function_type.arguments.skip(i + 1));
            assert(argument_models.skip(i as int).drop_first() =~= argument_models.skip(
                i + 1,
            ));
        }
        let argument_type = &call.type_.arguments[i];
        proof {
            assert(argument_type.model() == function_type.arguments[i as int]);
            assert(call.arguments@[i as int].model() == argument_models[i as int]);
        }
        if is_memory_class(context, argument_type) {
            let ghost arguments_before = expression_models(new_arguments@);
            let pointer = builder.allocate_stack(argument_type.clone());
            let value = TypedExpression::new(
                call.arguments[i].clone(),
                argument_type.clone(),
            );
            builder.store(value, pointer.clone());
            new_arguments.push(pointer.expression);
            proof {
                assert(expression_models(new_arguments@) =~= arguments_before.push(
                    ExpressionModel::Variable(generated_name(seed, counter)),
                ));
                assert(full.0 == instruction_models(builder.instructions@)
                    + spec_lower_arguments(
                    word_bytes,
                    function_type.arguments.skip(i + 1),
                    argument_models.skip(i + 1),
                    seed,
                    builder.name_generator.counter as nat,
                ).0);
                assert(full.1 == expression_models(new_arguments@)
                    + spec_lower_arguments(
                    word_bytes,
                    function_type.arguments.skip(i + 1),
                    argument_models.skip(i + 1),
                    seed,
                    builder.name_generator.counter as nat,
                ).1);
            }
        } else {
            let ghost arguments_before = expression_models(new_arguments@);
            new_arguments.push(call.arguments[i].clone());
            proof {
                assert(expression_models(new_arguments@) =~= arguments_before.push(
                    argument_models[i as int],
                ));
                assert(full.1 == expression_models(new_arguments@)
                    + spec_lower_arguments(
                    word_bytes,
                    function_type.arguments.skip(i + 1),
                    argument_models.skip(i + 1),
                    seed,
                    builder.name_generator.counter as nat,
                ).1);
            }
        }
        i = i + 1;
    }
    proof {
        assert(function_type.arguments.skip(i as int)
            =~= Seq::<TypeModel>::empty());
        assert(argument_models.skip(i as int) =~= Seq::<ExpressionModel>::empty());
        assert(full.0 == instruction_models(builder.instructions@));
        assert(full.1 == expression_models(new_arguments@));
        assert(full.2 == builder.name_generator.counter as nat);
    }
    let native = transform_function(context, &call.type_);
    let ghost native_model = native.model();
    if is_memory_class(context, &(*call.type_.result)) {
        let ghost counter = builder.name_generator.counter as nat;
        let pointer = builder.allocate_stack((*call.type_.result).clone());
        let call_name = builder.name_generator.generate();
        let mut call_arguments: Vec<Expression> = Vec::new();
        call_arguments.push(pointer.expression.clone());
        call_arguments.append(&mut new_arguments);
        proof {
            assert(expression_models(call_arguments@) =~= seq![
                ExpressionModel::Variable(generated_name(seed, counter)),
            ] + full.1);
        }
        let call_instruction = Instruction::Call(Call {
            type_: native,
            function: call.function.clone(),
            arguments: call_arguments,
            name: call_name,
        });
        builder.add_instruction(call_instruction);
        builder.add_instruction(Instruction::Load(Load {
            type_: (*call.type_.result).clone(),
            pointer: pointer.expression,
            name: call.name.clone(),
        }));
        let instructions = builder.into_instructions();
        proof {
            assert(instruction_models(instructions@) =~= spec_lowered_call(
                word_bytes,
                function_type,
                call.function.model(),
                argument_models,
                seed,
            ));
        }
        instructions
    } else {
        builder.add_instruction(Instruction::Call(Call {
            type_: native,
            function: call.function.clone(),
            arguments: new_arguments,
            name: call.name.clone(),
        }));
        let instructions = builder.into_instructions();
        proof {
            assert(instruction_models(instructions@) =~= spec_lowered_call(
                word_bytes,
                function_type,
                call.function.model(),
                argument_models,
                seed,
            ));
        }
        instructions
    }
}

/// Lowers one instruction to the sequence that replaces it, per
/// `spec_transform_instruction`.
#[verifier::loop_isolation(false)]
pub fn transform_instruction(context: &Context, instruction: &Instruction) -> (result: Result<
    Vec<Instruction>,
    CCallingConventionError,
>)
    requires
        context_fits(*context),
    ensures
        match result {
            Ok(instructions) => spec_transform_instruction(
                context.word_bytes as nat,
                instruction.model(),
            ) == Ok::<_, CCallingConventionError>(instruction_models(instructions@)),
            Err(error) => spec_transform_instruction(
                context.word_bytes as nat,
                instruction.model(),
            ) == Err::<Seq<InstructionModel>, _>(error),
        },
    decreases instruction,
{
    let ghost word_bytes = context.word_bytes as nat;
    match instruction {
        Instruction::Call(call) => {
            if call.type_.calling_convention == CallingConvention::Target {
                if call.arguments.len() != call.type_.arguments.len() {
                    return Err(CCallingConventionError::ArgumentCountMismatch);
                }
                let instructions = lower_call(context, call);
                Ok(instructions)
            } else {
                let instructions = vec![instruction.clone()];
                proof {
                    assert(instruction_models(instructions@) =~= seq![instruction.model()]);
                }
                Ok(instructions)
            }
        },
        Instruction::If(if_) => {
            let lowered_then = match transform_block(context, &if_.then_) {
                Ok(block) => block,
                Err(error) => {
                    return Err(error);
                },
            };
            let lowered_else = match transform_block(context, &if_.else_) {
                Ok(block) => block,
                Err(error) => {
                    return Err(error);
                },
            };
            let lowered = Instruction::If(If {
                type_: if_.type_.clone(),
                condition: if_.condition.clone(),
                then_: lowered_then,
                else_: lowered_else,
                name: if_.name.clone(),
            });
            let instructions = vec![lowered];
            proof {
                assert(instruction_models(instructions@) =~= seq![lowered.model()]);
            }
            Ok(instructions)
        },
        _ => {
            let instructions = vec![instruction.clone()];
            proof {
                assert(instruction_models(instructions@) =~= seq![instruction.model()]);
            }
            Ok(instructions)
        },
    }
}

/// Lowers every instruction of a block in order, keeping its terminal
/// instruction, per `spec_transform_block`.
#[verifier::loop_isolation(false)]
pub fn transform_block(context: &Context, block: &Block) -> (result: Result<
    Block,
    CCallingConventionError,
>)
    requires
        context_fits(*context),
    ensures
        match result {
            Ok(lowered) => spec_transform_block(context.word_bytes as nat, block.model())
                == Ok::<_, CCallingConventionError>(lowered.model()),
            Err(error) => spec_transform_block(context.word_bytes as nat, block.model())
                == Err::<BlockModel, _>(error),
        },
    decreases block,
{
    let ghost word_bytes = context.word_bytes as nat;
    let ghost all = block.model().instructions;
    proof {
        crate::ir::lemma_block_model(*block);
        assert(all.skip(0) =~= all);
    }
    let mut instructions: Vec<Instruction> = Vec::new();
    let mut i: usize = 0;
    while i < block.instructions.len()
        invariant
            i <= block.instructions@.len(),
            spec_transform_instructions(word_bytes, all) == match spec_transform_instructions(
                word_bytes,
                all.skip(i as int),
            ) {
                Ok(tail) => Ok::<_, CCallingConventionError>(
                    instruction_models(instructions@) + tail,
                ),
                Err(error) => Err(error),
            },
        decreases block.instructions@.len() - i,
    {
        proof {
            assert(decreases_to!(*block => block.instructions@[i as int]));
            assert(all.skip(i as int)[0] == all[i as int]);
            assert(all.skip(i as int).drop_first() =~= all.skip(i + 1));
            assert(block.instructions@[i as int].model() == all[i as int]);
        }
        let ghost instructions_before = instruction_models(instructions@);
        match transform_instruction(context, &block.instructions[i]) {
            Ok(mut lowered) => {
                let ghost lowered_models = instruction_models(lowered@);
                instructions.append(&mut lowered);
                proof {
                    assert(instruction_models(instructions@) =~= instructions_before
                        + lowered_models);
                    if spec_transform_instructions(word_bytes, all.skip(i + 1)) is Ok {
                        let tail = spec_transform_instructions(
                            word_bytes,
                            all.skip(i + 1),
                        )->Ok_0;
                        assert((instructions_before + lowered_models) + tail
                            =~= instructions_before + (lowered_models + tail));
                    }
                }
            },
            Err(error) => {
                return Err(error);
            },
        }
        i = i + 1;
    }
    proof {
        assert(all.skip(i as int) =~= Seq::<InstructionModel>::empty());
        assert(instruction_models(instructions@) + Seq::<InstructionModel>::empty()
            =~= instruction_models(instructions@));
    }
    let lowered = Block::new(instructions, block.terminal_instruction.clone());
    Ok(lowered)
}

/// Lowers a function definition: its body is lowered and its name,
/// arguments, result type and options are kept, per
/// `spec_transform_function_definition`.
pub fn transform_function_definition(context: &Context, definition: &FunctionDefinition) -> (result:
    Result<FunctionDefinition, CCallingConventionError>)
    requires
        context_fits(*context),
    ensures
        match result {
            Ok(lowered) => spec_transform_function_definition(
                context.word_bytes as nat,
                definition.model(),
            ) == Ok::<_, CCallingConventionError>(lowered.model()),
            Err(error) => spec_transform_function_definition(
                context.word_bytes as nat,
                definition.model(),
            ) == Err::<FunctionDefinitionModel, _>(error),
        },
{
    match transform_block(context, &definition.body) {
        Ok(body) => {
            let lowered = FunctionDefinition::new(
                definition.name.clone(),
                crate::module::clone_arguments(&definition.arguments),
                definition.result_type.clone(),
                body,
                definition.options,
            );
            proof {
                assert(lowered.model() =~= spec_transform_function_definition(
                    context.word_bytes as nat,
                    definition.model(),
                )->Ok_0);
            }
            Ok(lowered)
        },
        Err(error) => Err(error),
    }
}

/// Whether an instruction contains no call under the `Target` calling
/// convention, recursively through structured control flow.
pub open spec fn spec_no_target_calls_instruction(instruction: InstructionModel) -> bool
    decreases instruction,
{
    match instruction {
        InstructionModel::Call { type_, .. } => type_.calling_convention
            != CallingConvention::Target,
        InstructionModel::If { then_, else_, .. } => spec_no_target_calls_block(then_)
            && spec_no_target_calls_block(else_),
        _ => true,
    }
}

/// Whether no instruction of the sequence contains a `Target`-convention
/// call.
pub open spec fn spec_no_target_calls_instructions(instructions: Seq<InstructionModel>) -> bool
    decreases instructions,
{
    if instructions.len() == 0 {
        true
    } else {
        spec_no_target_calls_instruction(instructions[0]) && spec_no_target_calls_instructions(
            instructions.drop_first(),
        )
    }
}

/// Whether a block contains no `Target`-convention call.
pub open spec fn spec_no_target_calls_block(block: BlockModel) -> bool
    decreases block,
{
    spec_no_target_calls_instructions(block.instructions)
}

/// Lowering an instruction that holds no `Target`-convention call leaves it
/// in place unchanged.
pub proof fn lemma_idempotence_instruction(word_bytes: nat, instruction: InstructionModel)
    requires
        spec_no_target_calls_instruction(instruction),
    ensures
        spec_transform_instruction(word_bytes, instruction) == Ok::<_, CCallingConventionError>(
            seq![instruction],
        ),
    decreases instruction,
{
    match instruction {
        InstructionModel::If { type_, condition, then_, else_, name } => {
            lemma_idempotence_block(word_bytes, then_);
            lemma_idempotence_block(word_bytes, else_);
            assert(spec_transform_instruction(word_bytes, instruction)->Ok_0
                =~= seq![instruction]);
        },
        _ => {},
    }
}

/// Lowering a sequence of instructions none of which holds a
/// `Target`-convention call returns the sequence unchanged.
pub proof fn lemma_idempotence_instructions(word_bytes: nat, instructions: Seq<InstructionModel>)
    requires
        spec_no_target_calls_instructions(instructions),
    ensures
        spec_transform_instructions(word_bytes, instructions) == Ok::<
            _,
            CCallingConventionError,
        >(instructions),
    decreases instructions,
{
    if instructions.len() == 0 {
        assert(spec_transform_instructions(word_bytes, instructions)->Ok_0 =~= instructions);
    } else {
        lemma_idempotence_instruction(word_bytes, instructions[0]);
        lemma_idempotence_instructions(word_bytes, instructions.drop_first());
        assert(seq![instructions[0]] + instructions.drop_first() =~= instructions);
    }
}

/// Lowering a block with no `Target`-convention call returns it unchanged.
pub proof fn lemma_idempotence_block(word_bytes: nat, block: BlockModel)
    requires
        spec_no_target_calls_block(block),
    ensures
        spec_transform_block(word_bytes, block) == Ok::<_, CCallingConventionError>(block),
    decreases block,
{
    lemma_idempotence_instructions(word_bytes, block.instructions);
    assert(spec_transform_block(word_bytes, block)->Ok_0 =~= block);
}

/// Lowering a function definition with no `Target`-convention call in its
/// body returns it unchanged, whole and structurally equal.
pub proof fn lemma_idempotence_function_definition(
    word_bytes: nat,
    definition: FunctionDefinitionModel,
)
    requires
        spec_no_target_calls_block(definition.body),
    ensures
        spec_transform_function_definition(word_bytes, definition) == Ok::<
            _,
            CCallingConventionError,
        >(definition),
{
    lemma_idempotence_block(word_bytes, definition.body);
    assert(spec_transform_function_definition(word_bytes, definition)->Ok_0 =~= definition);
}

/// Signature agreement: the rewritten function type replaces exactly the
/// memory-class argument types with pointers to them, leaves every other
/// argument type untouched in place, keeps the calling convention, and its
/// argument count grows by exactly one precisely when the result type is
/// memory class, which then moves to a leading pointer argument while the
/// rewritten type returns void.
pub proof fn lemma_signature_agreement(word_bytes: nat, function: FunctionTypeModel)
    ensures
        ({
            let native = spec_transform_function_type(word_bytes, function);
            let leading: int = if spec_is_memory_class(word_bytes, *function.result) {
                1
            } else {
                0
            };
            &&& native.arguments.len() == function.arguments.len() + leading
            &&& forall|i: int| 0 <= i < function.arguments.len()
                && spec_is_memory_class(word_bytes, #[trigger] function.arguments[i])
                ==> native.arguments[i + leading] == TypeModel::Pointer(
                    Box::new(function.arguments[i]),
                )
            &&& forall|i: int| 0 <= i < function.arguments.len()
                && !spec_is_memory_class(word_bytes, #[trigger] function.arguments[i])
                ==> native.arguments[i + leading] == function.arguments[i]
            &&& spec_is_memory_class(word_bytes, *function.result) ==> native.arguments[0]
                == TypeModel::Pointer(function.result) && *native.result == void_type_model()
            &&& !spec_is_memory_class(word_bytes, *function.result) ==> native.result
                == function.result
            &&& native.calling_convention == function.calling_convention
        }),
{
}

/// Result round-trip: lowering a call that returns a memory-class type ends
/// in a load instruction bound to the call's original result name, whose
/// result type is exactly the call's original result type, so the name and
/// type visible to later instructions are unchanged.
pub proof fn lemma_result_round_trip(
    word_bytes: nat,
    type_: FunctionTypeModel,
    function: ExpressionModel,
    arguments: Seq<ExpressionModel>,
    name: Seq<char>,
)
    requires
        spec_is_memory_class(word_bytes, *type_.result),
    ensures
        ({
            let lowered = spec_lowered_call(word_bytes, type_, function, arguments, name);
            let original = InstructionModel::Call { type_, function, arguments, name };
            &&& lowered.len() > 0
            &&& lowered.last() is Load
            &&& lowered.last().spec_name() == original.spec_name()
            &&& lowered.last().spec_result_type() == original.spec_result_type()
        }),
{
}

/// Recursive structured control flow: lowering an `If` whose branches both
/// lower successfully transforms each branch independently and preserves the
/// `If`'s own result type, condition and name.
pub proof fn lemma_structured_control_flow(
    word_bytes: nat,
    type_: TypeModel,
    condition: ExpressionModel,
    then_: BlockModel,
    else_: BlockModel,
    name: Seq<char>,
)
    requires
        spec_transform_block(word_bytes, then_) is Ok,
        spec_transform_block(word_bytes, else_) is Ok,
    ensures
        spec_transform_instruction(
            word_bytes,
            InstructionModel::If { type_, condition, then_, else_, name },
        ) == Ok::<_, CCallingConventionError>(
            seq![
                InstructionModel::If {
                    type_,
                    condition,
                    then_: spec_transform_block(word_bytes, then_)->Ok_0,
                    else_: spec_transform_block(word_bytes, else_)->Ok_0,
                    name,
                },
            ],
        ),
{
}

/// The temporaries one lowered call introduces: one stack slot per
/// memory-class argument, and a result slot and a rebound call result when
/// the result type is memory class; all named from the call's result name.
pub open spec fn spec_introduced_names(
    word_bytes: nat,
    type_: FunctionTypeModel,
    arguments: Seq<ExpressionModel>,
    name: Seq<char>,
) -> Seq<Seq<char>> {
    let counter = spec_lower_arguments(word_bytes, type_.arguments, arguments, name, 0).2;
    let total: nat = if spec_is_memory_class(word_bytes, *type_.result) {
        counter + 2
    } else {
        counter
    };
    Seq::new(total, |k: int| generated_name(name, k as nat))
}

/// Every instruction lowering one call's arguments emits is bound to a name
/// generated from the seed, with a counter at least the starting value and
/// below the value left behind.
proof fn lemma_lower_arguments_names(
    word_bytes: nat,
    types: Seq<TypeModel>,
    arguments: Seq<ExpressionModel>,
    seed: Seq<char>,
    counter: nat,
)
    ensures
        ({
            let lowered = spec_lower_arguments(word_bytes, types, arguments, seed, counter);
            &&& lowered.2 >= counter
            &&& lowered.2 <= counter + types.len()
            &&& forall|k: int| 0 <= k < lowered.0.len() ==> !((#[trigger] lowered.0[k]) is If)
            &&& forall|k: int| 0 <= k < lowered.0.len() ==> match (
                #[trigger] lowered.0[k]
            ).spec_name() {
                Some(name) => exists|c: nat|
                    counter <= c < lowered.2 && name == generated_name(seed, c),
                None => true,
            }
        }),
    decreases types,
{
    if types.len() == 0 {
    } else if spec_is_memory_class(word_bytes, types[0]) {
        lemma_lower_arguments_names(
            word_bytes,
            types.drop_first(),
            arguments.drop_first(),
            seed,
            counter + 1,
        );
        let lowered = spec_lower_arguments(word_bytes, types, arguments, seed, counter);
        let rest = spec_lower_arguments(
            word_bytes,
            types.drop_first(),
            arguments.drop_first(),
            seed,
            counter + 1,
        );
        assert forall|k: int| 0 <= k < lowered.0.len() implies match (
            #[trigger] lowered.0[k]
        ).spec_name() {
            Some(name) => exists|c: nat| counter <= c < lowered.2 && name == generated_name(
                seed,
                c,
            ),
            None => true,
        } by {
            if k == 0 {
                assert(lowered.0[k].spec_name() == Some(generated_name(seed, counter)));
                assert(counter <= counter < lowered.2 && generated_name(seed, counter)
                    == generated_name(seed, counter));
            } else if k >= 2 {
                assert(lowered.0[k] == rest.0[k - 2]);
            }
        }
    } else {
        lemma_lower_arguments_names(
            word_bytes,
            types.drop_first(),
            arguments.drop_first(),
            seed,
            counter,
        );
    }
}

/// Name freshness: the temporaries introduced by lowering one call are
/// pairwise distinct; no name that is not generated from the call's result
/// name is among them; and every binding name of the lowered sequence is
/// either the call's original result name or one of them.
pub proof fn lemma_name_freshness(
    word_bytes: nat,
    type_: FunctionTypeModel,
    function: ExpressionModel,
    arguments: Seq<ExpressionModel>,
    name: Seq<char>,
)
    ensures
        ({
            let introduced = spec_introduced_names(word_bytes, type_, arguments, name);
            let lowered = spec_lowered_call(word_bytes, type_, function, arguments, name);
            &&& forall|i: int, j: int| 0 <= i < j < introduced.len() ==> introduced[i]
                != introduced[j]
            &&& forall|other: Seq<char>| !is_generated_from(name, other)
                ==> !introduced.contains(other)
            &&& forall|k: int| 0 <= k < lowered.len() ==> !((#[trigger] lowered[k]) is If)
            &&& forall|k: int| 0 <= k < lowered.len() ==> match (
                #[trigger] lowered[k]
            ).spec_name() {
                Some(bound) => bound == name || introduced.contains(bound),
                None => true,
            }
        }),
{
    let introduced = spec_introduced_names(word_bytes, type_, arguments, name);
    let lowered = spec_lowered_call(word_bytes, type_, function, arguments, name);
    let prefix = spec_lower_arguments(word_bytes, type_.arguments, arguments, name, 0);
    lemma_lower_arguments_names(word_bytes, type_.arguments, arguments, name, 0);
    assert forall|i: int, j: int| 0 <= i < j < introduced.len() implies introduced[i]
        != introduced[j] by {
        if introduced[i] == introduced[j] {
            lemma_generated_name_injective(name, i as nat, name, j as nat);
        }
    }
    assert forall|other: Seq<char>| !is_generated_from(name, other)
        implies !introduced.contains(other) by {
        if introduced.contains(other) {
            let k = choose|k: int| 0 <= k < introduced.len() && introduced[k] == other;
            assert(other == generated_name(name, k as nat));
        }
    }
    assert forall|k: int| 0 <= k < lowered.len() implies match (
        #[trigger] lowered[k]
    ).spec_name() {
        Some(bound) => bound == name || introduced.contains(bound),
        None => true,
    } by {
        if k < prefix.0.len() {
            assert(lowered[k] == prefix.0[k]);
            match prefix.0[k].spec_name() {
                Some(bound) => {
                    let c = choose|c: nat|
                        0 <= c < prefix.2 && bound == generated_name(name, c);
                    assert(introduced[c as int] == bound);
                    assert(introduced.contains(bound));
                },
                None => {},
            }
        } else {
            if spec_is_memory_class(word_bytes, *type_.result) {
                if k == prefix.0.len() {
                    assert(lowered[k].spec_name() == Some(
                        generated_name(name, prefix.2),
                    ));
                    assert(introduced[prefix.2 as int] == generated_name(name, prefix.2));
                    assert(introduced.contains(generated_name(name, prefix.2)));
                } else if k == prefix.0.len() + 1 {
                    assert(lowered[k].spec_name() == Some(
                        generated_name(name, prefix.2 + 1),
                    ));
                    assert(introduced[prefix.2 as int + 1] == generated_name(
                        name,
                        (prefix.2 + 1) as nat,
                    ));
                    assert(introduced.contains(generated_name(name, (prefix.2 + 1) as nat)));
                } else {
                    assert(lowered[k].spec_name() == Some(name));
                }
            } else {
                assert(lowered[k].spec_name() == Some(name));
            }
        }
    }
}

/// The binding names an instruction defines, the nested blocks of an `If`
/// included.
pub open spec fn spec_binding_names_instruction(instruction: InstructionModel) -> Seq<Seq<char>>
    decreases instruction,
{
    match instruction {
        InstructionModel::If { then_, else_, name, .. } => seq![name]
            + spec_binding_names_block(then_) + spec_binding_names_block(else_),
        _ => match instruction.spec_name() {
            Some(name) => seq![name],
            None => Seq::<Seq<char>>::empty(),
        },
    }
}

/// The binding names a sequence of instructions defines, in order.
pub open spec fn spec_binding_names_instructions(
    instructions: Seq<InstructionModel>,
) -> Seq<Seq<char>>
    decreases instructions,
{
    if instructions.len() == 0 {
        Seq::<Seq<char>>::empty()
    } else {
        spec_binding_names_instruction(instructions[0]) + spec_binding_names_instructions(
            instructions.drop_first(),
        )
    }
}

/// The binding names a block defines.
pub open spec fn spec_binding_names_block(block: BlockModel) -> Seq<Seq<char>>
    decreases block,
{
    spec_binding_names_instructions(block.instructions)
}

/// The result names of the `Target`-convention calls in an instruction: the
/// seeds the lowering derives its fresh names from.
pub open spec fn spec_seed_names_instruction(instruction: InstructionModel) -> Seq<Seq<char>>
    decreases instruction,
{
    match instruction {
        InstructionModel::Call { type_, name, .. } => if type_.calling_convention
            == CallingConvention::Target {
            seq![name]
        } else {
            Seq::<Seq<char>>::empty()
        },
        InstructionModel::If { then_, else_, .. } => spec_seed_names_block(then_)
            + spec_seed_names_block(else_),
        _ => Seq::<Seq<char>>::empty(),
    }
}

/// The seed names of a sequence of instructions, in order.
pub open spec fn spec_seed_names_instructions(instructions: Seq<InstructionModel>) -> Seq<Seq<char>>
    decreases instructions,
{
    if instructions.len() == 0 {
        Seq::<Seq<char>>::empty()
    } else {
        spec_seed_names_instruction(instructions[0]) + spec_seed_names_instructions(
            instructions.drop_first(),
        )
    }
}

/// The seed names of a block.
pub open spec fn spec_seed_names_block(block: BlockModel) -> Seq<Seq<char>>
    decreases block,
{
    spec_seed_names_instructions(block.instructions)
}

/// The temporaries lowering an instruction introduces.
pub open spec fn spec_introduced_names_instruction(
    word_bytes: nat,
    instruction: InstructionModel,
) -> Seq<Seq<char>>
    decreases instruction,
{
    match instruction {
        InstructionModel::Call { type_, function, arguments, name } => if type_.calling_convention
            == CallingConvention::Target && arguments.len() == type_.arguments.len() {
            spec_introduced_names(word_bytes, type_, arguments, name)
        } else {
            Seq::<Seq<char>>::empty()
        },
        InstructionModel::If { then_, else_, .. } => spec_introduced_names_block(word_bytes, then_)
            + spec_introduced_names_block(word_bytes, else_),
        _ => Seq::<Seq<char>>::empty(),
    }
}

/// The temporaries lowering a sequence of instructions introduces, in order.
pub open spec fn spec_introduced_names_instructions(
    word_bytes: nat,
    instructions: Seq<InstructionModel>,
) -> Seq<Seq<char>>
    decreases instructions,
{
    if instructions.len() == 0 {
        Seq::<Seq<char>>::empty()
    } else {
        spec_introduced_names_instruction(word_bytes, instructions[0])
            + spec_introduced_names_instructions(word_bytes, instructions.drop_first())
    }
}

/// The temporaries lowering a block introduces.
pub open spec fn spec_introduced_names_block(word_bytes: nat, block: BlockModel) -> Seq<Seq<char>>
    decreases block,
{
    spec_introduced_names_instructions(word_bytes, block.instructions)
}

/// Whether the names of a sequence are pairwise distinct.
pub open spec fn distinct_names(names: Seq<Seq<char>>) -> bool {
    forall|i: int, j: int| 0 <= i < j < names.len() ==> names[i] != names[j]
}

/// A concatenation holds a name exactly when one of its parts does.
proof fn lemma_names_concat_contains(left: Seq<Seq<char>>, right: Seq<Seq<char>>)
    ensures
        forall|name: Seq<char>| #[trigger] (left + right).contains(name) <==> left.contains(name)
            || right.contains(name),
{
    assert forall|name: Seq<char>| #[trigger] (left + right).contains(name) implies left.contains(
        name,
    ) || right.contains(name) by {
        let k = choose|k: int| 0 <= k < (left + right).len() && (left + right)[k] == name;
        if k < left.len() {
            assert(left[k] == name);
        } else {
            assert(right[k - left.len()] == name);
        }
    }
    assert forall|name: Seq<char>| left.contains(name) || right.contains(name) implies (
        #[trigger] (left + right).contains(name)
    ) by {
        if left.contains(name) {
            let k = choose|k: int| 0 <= k < left.len() && left[k] == name;
            assert((left + right)[k] == name);
        } else {
            let k = choose|k: int| 0 <= k < right.len() && right[k] == name;
            assert((left + right)[left.len() + k] == name);
        }
    }
}

/// Pairwise distinctness carries to the parts of a concatenation, which then
/// share no name.
proof fn lemma_distinct_names_split(left: Seq<Seq<char>>, right: Seq<Seq<char>>)
    requires
        distinct_names(left + right),
    ensures
        distinct_names(left),
        distinct_names(right),
        forall|name: Seq<char>| left.contains(name) ==> !right.contains(name),
{
    assert forall|i: int, j: int| 0 <= i < j < left.len() implies left[i] != left[j] by {
        assert((left + right)[i] == left[i]);
        assert((left + right)[j] == left[j]);
    }
    assert forall|i: int, j: int| 0 <= i < j < right.len() implies right[i] != right[j] by {
        assert((left + right)[left.len() + i] == right[i]);
        assert((left + right)[left.len() + j] == right[j]);
    }
    assert forall|name: Seq<char>| left.contains(name) implies !right.contains(name) by {
        if right.contains(name) {
            let i = choose|i: int| 0 <= i < left.len() && left[i] == name;
            let j = choose|j: int| 0 <= j < right.len() && right[j] == name;
            assert((left + right)[i] == name);
            assert((left + right)[left.len() + j] == name);
        }
    }
}

/// Every seed name is a binding name: a call's seed is its own result name.
proof fn lemma_seeds_are_bindings_instruction(instruction: InstructionModel)
    ensures
        forall|name: Seq<char>| spec_seed_names_instruction(instruction).contains(name)
            ==> spec_binding_names_instruction(instruction).contains(name),
    decreases instruction,
{
    match instruction {
        InstructionModel::If { then_, else_, name, .. } => {
            lemma_seeds_are_bindings_block(then_);
            lemma_seeds_are_bindings_block(else_);
            lemma_names_concat_contains(spec_seed_names_block(then_), spec_seed_names_block(else_));
            lemma_names_concat_contains(
                spec_binding_names_block(then_),
                spec_binding_names_block(else_),
            );
            lemma_names_concat_contains(
                seq![name],
                spec_binding_names_block(then_) + spec_binding_names_block(else_),
            );
            assert(spec_binding_names_instruction(instruction) == seq![name] + (
                spec_binding_names_block(then_) + spec_binding_names_block(else_)
            ));
        },
        _ => {},
    }
}

/// Every seed name in a sequence of instructions is a binding name there.
proof fn lemma_seeds_are_bindings_instructions(instructions: Seq<InstructionModel>)
    ensures
        forall|name: Seq<char>| spec_seed_names_instructions(instructions).contains(name)
            ==> spec_binding_names_instructions(instructions).contains(name),
    decreases instructions,
{
    if instructions.len() > 0 {
        lemma_seeds_are_bindings_instruction(instructions[0]);
        lemma_seeds_are_bindings_instructions(instructions.drop_first());
        lemma_names_concat_contains(
            spec_seed_names_instruction(instructions[0]),
            spec_seed_names_instructions(instructions.drop_first()),
        );
        lemma_names_concat_contains(
            spec_binding_names_instruction(instructions[0]),
            spec_binding_names_instructions(instructions.drop_first()),
        );
    }
}

/// Every seed name of a block is a binding name of the block.
proof fn lemma_seeds_are_bindings_block(block: BlockModel)
    ensures
        forall|name: Seq<char>| spec_seed_names_block(block).contains(name)
            ==> spec_binding_names_block(block).contains(name),
    decreases block,
{
    lemma_seeds_are_bindings_instructions(block.instructions);
    assert forall|name: Seq<char>| spec_seed_names_block(block).contains(name)
        implies spec_binding_names_block(block).contains(name) by {
        assert(spec_seed_names_instructions(block.instructions).contains(name));
        assert(spec_binding_names_instructions(block.instructions).contains(name));
    }
}

/// Joining two parts whose introduced names are fresh keeps them fresh: the
/// two parts' seeds live apart among the binding names, so their generated
/// names cannot collide.
proof fn lemma_freshness_join(
    bindings_left: Seq<Seq<char>>,
    bindings_right: Seq<Seq<char>>,
    seeds_left: Seq<Seq<char>>,
    seeds_right: Seq<Seq<char>>,
    introduced_left: Seq<Seq<char>>,
    introduced_right: Seq<Seq<char>>,
    ambient: Seq<Seq<char>>,
)
    requires
        distinct_names(bindings_left + bindings_right),
        forall|name: Seq<char>| seeds_left.contains(name) ==> bindings_left.contains(name),
        forall|name: Seq<char>| seeds_right.contains(name) ==> bindings_right.contains(name),
        distinct_names(introduced_left),
        distinct_names(introduced_right),
        forall|name: Seq<char>| introduced_left.contains(name) ==> !ambient.contains(name),
        forall|name: Seq<char>| introduced_right.contains(name) ==> !ambient.contains(name),
        forall|name: Seq<char>| introduced_left.contains(name) ==> exists|seed: Seq<char>, c: nat|
            seeds_left.contains(seed) && name == #[trigger] generated_name(seed, c),
        forall|name: Seq<char>| introduced_right.contains(name) ==> exists|seed: Seq<char>, c: nat|
            seeds_right.contains(seed) && name == #[trigger] generated_name(seed, c),
    ensures
        distinct_names(introduced_left + introduced_right),
        forall|name: Seq<char>| (introduced_left + introduced_right).contains(name)
            ==> !ambient.contains(name),
        forall|name: Seq<char>| (introduced_left + introduced_right).contains(name)
            ==> exists|seed: Seq<char>, c: nat|
            (seeds_left + seeds_right).contains(seed) && name == #[trigger] generated_name(seed, c),
{
    lemma_distinct_names_split(bindings_left, bindings_right);
    lemma_names_concat_contains(introduced_left, introduced_right);
    lemma_names_concat_contains(seeds_left, seeds_right);
    assert forall|i: int, j: int| 0 <= i < j < (introduced_left + introduced_right).len() implies (
        introduced_left + introduced_right
    )[i] != (introduced_left + introduced_right)[j] by {
        if j < introduced_left.len() {
            assert((introduced_left + introduced_right)[i] == introduced_left[i]);
            assert((introduced_left + introduced_right)[j] == introduced_left[j]);
        } else if i >= introduced_left.len() {
            assert((introduced_left + introduced_right)[i] == introduced_right[i
                - introduced_left.len()]);
            assert((introduced_left + introduced_right)[j] == introduced_right[j
                - introduced_left.len()]);
        } else {
            let first = introduced_left[i];
            let second = introduced_right[j - introduced_left.len()];
            assert((introduced_left + introduced_right)[i] == first);
            assert((introduced_left + introduced_right)[j] == second);
            if first == second {
                assert(introduced_left.contains(first));
                assert(introduced_right.contains(second));
                let (seed_left, counter_left): (Seq<char>, nat) = choose|
                    seed: Seq<char>,
                    c: nat,
                |
                    seeds_left.contains(seed) && first == #[trigger] generated_name(seed, c);
                let (seed_right, counter_right): (Seq<char>, nat) = choose|
                    seed: Seq<char>,
                    c: nat,
                |
                    seeds_right.contains(seed) && second == #[trigger] generated_name(seed, c);
                lemma_generated_name_injective(
                    seed_left,
                    counter_left,
                    seed_right,
                    counter_right,
                );
                assert(bindings_left.contains(seed_left));
                assert(bindings_right.contains(seed_right));
            }
        }
    }
}

/// Name freshness over one instruction: the temporaries its lowering
/// introduces are pairwise distinct, collide with no ambient binding name,
/// and are all generated from its seeds.
proof fn lemma_freshness_instruction(
    word_bytes: nat,
    instruction: InstructionModel,
    ambient: Seq<Seq<char>>,
)
    requires
        distinct_names(spec_binding_names_instruction(instruction)),
        forall|seed: Seq<char>, name: Seq<char>|
            spec_seed_names_instruction(instruction).contains(seed) && ambient.contains(name)
                ==> !is_generated_from(seed, name),
        forall|name: Seq<char>| spec_binding_names_instruction(instruction).contains(name)
            ==> ambient.contains(name),
    ensures
        distinct_names(spec_introduced_names_instruction(word_bytes, instruction)),
        forall|name: Seq<char>|
            spec_introduced_names_instruction(word_bytes, instruction).contains(name)
                ==> !ambient.contains(name),
        forall|name: Seq<char>|
            spec_introduced_names_instruction(word_bytes, instruction).contains(name)
                ==> exists|seed: Seq<char>, c: nat|
                spec_seed_names_instruction(instruction).contains(seed) && name
                    == #[trigger] generated_name(seed, c),
    decreases instruction,
{
    match instruction {
        InstructionModel::Call { type_, function, arguments, name } => {
            if type_.calling_convention == CallingConvention::Target && arguments.len()
                == type_.arguments.len() {
                let introduced = spec_introduced_names(word_bytes, type_, arguments, name);
                lemma_name_freshness(word_bytes, type_, function, arguments, name);
                assert(spec_seed_names_instruction(instruction)[0] == name);
                assert(spec_seed_names_instruction(instruction).contains(name));
                assert forall|other: Seq<char>| introduced.contains(other)
                    implies !ambient.contains(other) by {
                    if ambient.contains(other) {
                        assert(!is_generated_from(name, other));
                    }
                }
                assert forall|other: Seq<char>| introduced.contains(other)
                    implies exists|seed: Seq<char>, c: nat|
                    spec_seed_names_instruction(instruction).contains(seed) && other
                        == #[trigger] generated_name(seed, c) by {
                    let k = choose|k: int| 0 <= k < introduced.len() && introduced[k] == other;
                    assert(other == generated_name(name, k as nat));
                }
            }
        },
        InstructionModel::If { then_, else_, name, .. } => {
            let whole = spec_binding_names_instruction(instruction);
            let bindings_then = spec_binding_names_block(then_);
            let bindings_else = spec_binding_names_block(else_);
            assert(whole == seq![name] + bindings_then + bindings_else);
            assert(whole =~= seq![name] + (bindings_then + bindings_else));
            lemma_distinct_names_split(seq![name], bindings_then + bindings_else);
            lemma_distinct_names_split(bindings_then, bindings_else);
            lemma_names_concat_contains(seq![name], bindings_then + bindings_else);
            lemma_names_concat_contains(bindings_then, bindings_else);
            lemma_names_concat_contains(
                spec_seed_names_block(then_),
                spec_seed_names_block(else_),
            );
            lemma_seeds_are_bindings_block(then_);
            lemma_seeds_are_bindings_block(else_);
            assert forall|other: Seq<char>| (bindings_then + bindings_else).contains(other)
                implies ambient.contains(other) by {
                assert((seq![name] + (bindings_then + bindings_else)).contains(other));
                assert(spec_binding_names_instruction(instruction).contains(other));
            }
            assert forall|seed: Seq<char>, other: Seq<char>|
                (spec_seed_names_block(then_) + spec_seed_names_block(else_)).contains(seed)
                    && ambient.contains(other) implies !is_generated_from(seed, other) by {
                assert(spec_seed_names_instruction(instruction).contains(seed));
            }
            lemma_freshness_block(word_bytes, then_, ambient);
            lemma_freshness_block(word_bytes, else_, ambient);
            lemma_freshness_join(
                bindings_then,
                bindings_else,
                spec_seed_names_block(then_),
                spec_seed_names_block(else_),
                spec_introduced_names_block(word_bytes, then_),
                spec_introduced_names_block(word_bytes, else_),
                ambient,
            );
        },
        _ => {},
    }
}

/// Name freshness over a sequence of instructions.
proof fn lemma_freshness_instructions(
    word_bytes: nat,
    instructions: Seq<InstructionModel>,
    ambient: Seq<Seq<char>>,
)
    requires
        distinct_names(spec_binding_names_instructions(instructions)),
        forall|seed: Seq<char>, name: Seq<char>|
            spec_seed_names_instructions(instructions).contains(seed) && ambient.contains(name)
                ==> !is_generated_from(seed, name),
        forall|name: Seq<char>| spec_binding_names_instructions(instructions).contains(name)
            ==> ambient.contains(name),
    ensures
        distinct_names(spec_introduced_names_instructions(word_bytes, instructions)),
        forall|name: Seq<char>|
            spec_introduced_names_instructions(word_bytes, instructions).contains(name)
                ==> !ambient.contains(name),
        forall|name: Seq<char>|
            spec_introduced_names_instructions(word_bytes, instructions).contains(name)
                ==> exists|seed: Seq<char>, c: nat|
                spec_seed_names_instructions(instructions).contains(seed) && name
                    == #[trigger] generated_name(seed, c),
    decreases instructions,
{
    if instructions.len() > 0 {
        lemma_names_concat_contains(
            spec_binding_names_instruction(instructions[0]),
            spec_binding_names_instructions(instructions.drop_first()),
        );
        lemma_names_concat_contains(
            spec_seed_names_instruction(instructions[0]),
            spec_seed_names_instructions(instructions.drop_first()),
        );
        lemma_distinct_names_split(
            spec_binding_names_instruction(instructions[0]),
            spec_binding_names_instructions(instructions.drop_first()),
        );
        lemma_seeds_are_bindings_instruction(instructions[0]);
        lemma_seeds_are_bindings_instructions(instructions.drop_first());
        lemma_freshness_instruction(word_bytes, instructions[0], ambient);
        lemma_freshness_instructions(word_bytes, instructions.drop_first(), ambient);
        lemma_freshness_join(
            spec_binding_names_instruction(instructions[0]),
            spec_binding_names_instructions(instructions.drop_first()),
            spec_seed_names_instruction(instructions[0]),
            spec_seed_names_instructions(instructions.drop_first()),
            spec_introduced_names_instruction(word_bytes, instructions[0]),
            spec_introduced_names_instructions(word_bytes, instructions.drop_first()),
            ambient,
        );
    }
}

/// Name freshness over a block.
proof fn lemma_freshness_block(word_bytes: nat, block: BlockModel, ambient: Seq<Seq<char>>)
    requires
        distinct_names(spec_binding_names_block(block)),
        forall|seed: Seq<char>, name: Seq<char>|
            spec_seed_names_block(block).contains(seed) && ambient.contains(name)
                ==> !is_generated_from(seed, name),
        forall|name: Seq<char>| spec_binding_names_block(block).contains(name) ==> ambient.contains(
            name,
        ),
    ensures
        distinct_names(spec_introduced_names_block(word_bytes, block)),
        forall|name: Seq<char>| spec_introduced_names_block(word_bytes, block).contains(name)
            ==> !ambient.contains(name),
        forall|name: Seq<char>| spec_introduced_names_block(word_bytes, block).contains(name)
            ==> exists|seed: Seq<char>, c: nat|
            spec_seed_names_block(block).contains(seed) && name == #[trigger] generated_name(
                seed,
                c,
            ),
    decreases block,
{
    assert forall|seed: Seq<char>, name: Seq<char>|
        spec_seed_names_instructions(block.instructions).contains(seed) && ambient.contains(name)
        implies !is_generated_from(seed, name) by {
        assert(spec_seed_names_block(block).contains(seed));
    }
    assert forall|name: Seq<char>|
        spec_binding_names_instructions(block.instructions).contains(name)
        implies ambient.contains(name) by {
        assert(spec_binding_names_block(block).contains(name));
    }
    lemma_freshness_instructions(word_bytes, block.instructions, ambient);
    assert forall|name: Seq<char>| spec_introduced_names_block(word_bytes, block).contains(name)
        implies exists|seed: Seq<char>, c: nat|
        spec_seed_names_block(block).contains(seed) && name == #[trigger] generated_name(
            seed,
            c,
        ) by {
        assert(spec_introduced_names_instructions(word_bytes, block.instructions).contains(name));
        let (seed, counter): (Seq<char>, nat) = choose|seed: Seq<char>, c: nat|
            spec_seed_names_instructions(block.instructions).contains(seed) && name
                == #[trigger] generated_name(seed, c);
        assert(spec_seed_names_block(block).contains(seed));
    }
    assert forall|name: Seq<char>| spec_introduced_names_block(word_bytes, block).contains(name)
        implies !ambient.contains(name) by {
        assert(spec_introduced_names_instructions(word_bytes, block.instructions).contains(name));
    }
}

/// Name freshness for one invocation of the pass: when a definition's
/// binding names are pairwise distinct and none of them looks like a name
/// generated from one of its `Target`-convention calls' result names, every
/// temporary the lowering introduces is distinct from every other and from
/// every pre-existing name in the definition.
pub proof fn lemma_pass_name_freshness(word_bytes: nat, definition: FunctionDefinitionModel)
    requires
        distinct_names(spec_binding_names_block(definition.body)),
        forall|seed: Seq<char>, name: Seq<char>|
            spec_seed_names_block(definition.body).contains(seed)
                && spec_binding_names_block(definition.body).contains(name)
                ==> !is_generated_from(seed, name),
    ensures
        distinct_names(spec_introduced_names_block(word_bytes, definition.body)),
        forall|name: Seq<char>|
            spec_introduced_names_block(word_bytes, definition.body).contains(name)
                ==> !spec_binding_names_block(definition.body).contains(name),
{
    lemma_freshness_block(word_bytes, definition.body, spec_binding_names_block(definition.body));
}

/// The binding names of a one-instruction sequence are the instruction's.
proof fn lemma_binding_names_singleton(instruction: InstructionModel)
    ensures
        spec_binding_names_instructions(seq![instruction]) == spec_binding_names_instruction(
            instruction,
        ),
{
    assert(seq![instruction].drop_first() =~= Seq::<InstructionModel>::empty());
    assert(spec_binding_names_instructions(seq![instruction].drop_first())
        == Seq::<Seq<char>>::empty());
    assert(seq![instruction][0] == instruction);
    assert(spec_binding_names_instructions(seq![instruction])
        =~= spec_binding_names_instruction(instruction));
}

/// For structured-control-free instructions, a binding name is exactly one
/// instruction's own name.
proof fn lemma_binding_names_flat(instructions: Seq<InstructionModel>)
    requires
        forall|k: int| 0 <= k < instructions.len() ==> !((#[trigger] instructions[k]) is If),
    ensures
        forall|name: Seq<char>| spec_binding_names_instructions(instructions).contains(name)
            ==> exists|k: int|
            0 <= k < instructions.len() && (#[trigger] instructions[k]).spec_name() == Some(name),
    decreases instructions,
{
    if instructions.len() > 0 {
        assert forall|k: int| 0 <= k < instructions.drop_first().len() implies !((
            #[trigger] instructions.drop_first()[k]
        ) is If) by {
            assert(instructions.drop_first()[k] == instructions[k + 1]);
        }
        lemma_binding_names_flat(instructions.drop_first());
        lemma_names_concat_contains(
            spec_binding_names_instruction(instructions[0]),
            spec_binding_names_instructions(instructions.drop_first()),
        );
        assert forall|name: Seq<char>|
            spec_binding_names_instructions(instructions).contains(name) implies exists|k: int|
            0 <= k < instructions.len() && (#[trigger] instructions[k]).spec_name() == Some(
                name,
            ) by {
            if spec_binding_names_instruction(instructions[0]).contains(name) {
                assert(instructions[0].spec_name() == Some(name));
            } else {
                let k = choose|k: int|
                    0 <= k < instructions.drop_first().len() && (
                    #[trigger] instructions.drop_first()[k]).spec_name() == Some(name);
                assert(instructions[k + 1].spec_name() == Some(name));
            }
        }
    }
}

/// Binding names distribute over concatenation of instruction sequences.
proof fn lemma_binding_names_concat(left: Seq<InstructionModel>, right: Seq<InstructionModel>)
    ensures
        spec_binding_names_instructions(left + right) == spec_binding_names_instructions(left)
            + spec_binding_names_instructions(right),
    decreases left,
{
    if left.len() == 0 {
        assert(left + right =~= right);
        assert(spec_binding_names_instructions(left) + spec_binding_names_instructions(right)
            =~= spec_binding_names_instructions(right));
    } else {
        assert((left + right)[0] == left[0]);
        assert((left + right).drop_first() =~= left.drop_first() + right);
        lemma_binding_names_concat(left.drop_first(), right);
        assert(spec_binding_names_instruction(left[0]) + (spec_binding_names_instructions(
            left.drop_first(),
        ) + spec_binding_names_instructions(right)) =~= (spec_binding_names_instruction(left[0])
            + spec_binding_names_instructions(left.drop_first()))
            + spec_binding_names_instructions(right));
    }
}

/// Every binding name of a lowered instruction's replacement sequence is a
/// binding name of the instruction itself or one of its introduced
/// temporaries.
proof fn lemma_transformed_names_instruction(word_bytes: nat, instruction: InstructionModel)
    requires
        spec_transform_instruction(word_bytes, instruction) is Ok,
    ensures
        forall|name: Seq<char>|
            spec_binding_names_instructions(
                spec_transform_instruction(word_bytes, instruction)->Ok_0,
            ).contains(name) ==> spec_binding_names_instruction(instruction).contains(name)
                || spec_introduced_names_instruction(word_bytes, instruction).contains(name),
    decreases instruction,
{
    let lowered = spec_transform_instruction(word_bytes, instruction)->Ok_0;
    match instruction {
        InstructionModel::Call { type_, function, arguments, name } => {
            if type_.calling_convention == CallingConvention::Target && arguments.len()
                == type_.arguments.len() {
                lemma_name_freshness(word_bytes, type_, function, arguments, name);
                lemma_binding_names_flat(lowered);
                assert forall|other: Seq<char>|
                    spec_binding_names_instructions(lowered).contains(other)
                    implies spec_binding_names_instruction(instruction).contains(other)
                        || spec_introduced_names_instruction(word_bytes, instruction).contains(
                        other,
                    ) by {
                    let k = choose|k: int|
                        0 <= k < lowered.len() && (#[trigger] lowered[k]).spec_name() == Some(
                            other,
                        );
                    if other == name {
                        assert(spec_binding_names_instruction(instruction)[0] == name);
                        assert(spec_binding_names_instruction(instruction).contains(name));
                    }
                }
            } else {
                assert(lowered =~= seq![instruction]);
                lemma_binding_names_singleton(instruction);
            }
        },
        InstructionModel::If { type_, condition, then_, else_, name } => {
            let lowered_then = spec_transform_block(word_bytes, then_)->Ok_0;
            let lowered_else = spec_transform_block(word_bytes, else_)->Ok_0;
            let lowered_if = InstructionModel::If {
                type_,
                condition,
                then_: lowered_then,
                else_: lowered_else,
                name,
            };
            lemma_transformed_names_block(word_bytes, then_);
            lemma_transformed_names_block(word_bytes, else_);
            assert(lowered =~= seq![lowered_if]);
            lemma_binding_names_singleton(lowered_if);
            lemma_names_concat_contains(
                seq![name] + spec_binding_names_block(lowered_then),
                spec_binding_names_block(lowered_else),
            );
            lemma_names_concat_contains(seq![name], spec_binding_names_block(lowered_then));
            lemma_names_concat_contains(
                seq![name] + spec_binding_names_block(then_),
                spec_binding_names_block(else_),
            );
            lemma_names_concat_contains(seq![name], spec_binding_names_block(then_));
            lemma_names_concat_contains(
                spec_introduced_names_block(word_bytes, then_),
                spec_introduced_names_block(word_bytes, else_),
            );
            assert forall|other: Seq<char>|
                spec_binding_names_instruction(lowered_if).contains(other)
                implies spec_binding_names_instruction(instruction).contains(other)
                    || spec_introduced_names_instruction(word_bytes, instruction).contains(
                    other,
                ) by {
                assert((seq![name] + spec_binding_names_block(lowered_then)
                    + spec_binding_names_block(lowered_else)).contains(other));
            }
        },
        _ => {
            assert(lowered =~= seq![instruction]);
            lemma_binding_names_singleton(instruction);
        },
    }
}

/// Every binding name of a lowered instruction sequence comes from the
/// original sequence or from its introduced temporaries.
proof fn lemma_transformed_names_instructions(
    word_bytes: nat,
    instructions: Seq<InstructionModel>,
)
    requires
        spec_transform_instructions(word_bytes, instructions) is Ok,
    ensures
        forall|name: Seq<char>|
            spec_binding_names_instructions(
                spec_transform_instructions(word_bytes, instructions)->Ok_0,
            ).contains(name) ==> spec_binding_names_instructions(instructions).contains(name)
                || spec_introduced_names_instructions(word_bytes, instructions).contains(name),
    decreases instructions,
{
    if instructions.len() > 0 {
        let head = spec_transform_instruction(word_bytes, instructions[0])->Ok_0;
        let tail = spec_transform_instructions(word_bytes, instructions.drop_first())->Ok_0;
        lemma_transformed_names_instruction(word_bytes, instructions[0]);
        lemma_transformed_names_instructions(word_bytes, instructions.drop_first());
        lemma_binding_names_concat(head, tail);
        lemma_names_concat_contains(
            spec_binding_names_instructions(head),
            spec_binding_names_instructions(tail),
        );
        lemma_names_concat_contains(
            spec_binding_names_instruction(instructions[0]),
            spec_binding_names_instructions(instructions.drop_first()),
        );
        lemma_names_concat_contains(
            spec_introduced_names_instruction(word_bytes, instructions[0]),
            spec_introduced_names_instructions(word_bytes, instructions.drop_first()),
        );
    }
}

/// Every binding name of a lowered block comes from the original block or
/// from the temporaries the lowering introduces. Together with
/// `lemma_pass_name_freshness`, this pins the lowered body's names down:
/// the original names survive, and everything new is fresh.
pub proof fn lemma_transformed_names_block(word_bytes: nat, block: BlockModel)
    requires
        spec_transform_block(word_bytes, block) is Ok,
    ensures
        forall|name: Seq<char>|
            spec_binding_names_block(spec_transform_block(word_bytes, block)->Ok_0).contains(name)
                ==> spec_binding_names_block(block).contains(name)
                || spec_introduced_names_block(word_bytes, block).contains(name),
    decreases block,
{
    lemma_transformed_names_instructions(word_bytes, block.instructions);
    let lowered_block = spec_transform_block(word_bytes, block)->Ok_0;
    assert(lowered_block.instructions == spec_transform_instructions(
        word_bytes,
        block.instructions,
    )->Ok_0);
    assert forall|name: Seq<char>|
        spec_binding_names_block(lowered_block).contains(name)
        implies spec_binding_names_block(block).contains(name) || spec_introduced_names_block(
        word_bytes,
        block,
    ).contains(name) by {
        assert(spec_binding_names_instructions(lowered_block.instructions).contains(name));
        assert(spec_binding_names_instructions(
            spec_transform_instructions(word_bytes, block.instructions)->Ok_0,
        ).contains(name));
        assert(spec_binding_names_instructions(block.instructions).contains(name)
            || spec_introduced_names_instructions(word_bytes, block.instructions).contains(name));
    }
}

/// The output contract of the rewrite: a rewritten function type has no
/// memory-class argument type and no memory-class result type left, so
/// downstream code generation may map every value directly to registers or
/// stack slots.
pub proof fn lemma_native_signature_register_compatible(
    word_bytes: nat,
    function: FunctionTypeModel,
)
    ensures
        ({
            let native = spec_transform_function_type(word_bytes, function);
            &&& forall|i: int| 0 <= i < native.arguments.len() ==> !spec_is_memory_class(
                word_bytes,
                #[trigger] native.arguments[i],
            )
            &&& !spec_is_memory_class(word_bytes, *native.result)
        }),
{
}

} // verus!
