//! The IR construction API: scoped, append-only builders that accumulate
//! instructions and declarations, produce guaranteed-fresh names, and hand
//! back immutable IR on completion.

use vstd::prelude::*;
use crate::ir::{
    AllocateStack, Block, Call, Expression, ExpressionModel, Instruction, InstructionModel, Store,
    Variable, instruction_models,
};
use crate::module::{
    Argument, FunctionDeclaration, FunctionDeclarationModel, FunctionDefinition,
    FunctionDefinitionModel, FunctionDefinitionOptions, Linkage, Module, ModuleModel,
    VariableDeclaration, VariableDeclarationModel, VariableDefinition, VariableDefinitionModel,
    VariableDefinitionOptions, argument_models, clone_function_declarations,
    clone_function_definitions, clone_variable_declarations, clone_variable_definitions,
    function_declaration_models, function_definition_models, variable_declaration_models,
    variable_definition_models,
};
use crate::names::{NameGenerator, decimal_digits};
use crate::types::{CallingConvention, FunctionTypeModel, Type, TypeModel};

verus! {

broadcast use
    vstd::std_specs::vec::group_vec_axioms,
    crate::types::lemma_model_function,
    crate::types::lemma_model_pointer,
    crate::types::lemma_model_record,
    crate::types::lemma_model_union;

/// An expression paired with its concrete type.
#[derive(Debug, PartialEq)]
pub struct TypedExpression {
    pub expression: Expression,
    pub type_: Type,
}

impl TypedExpression {
    pub fn new(expression: Expression, type_: Type) -> (typed: Self)
        ensures
            typed.expression.model() == expression.model(),
            typed.type_.model() == type_.model(),
    {
        Self { expression, type_ }
    }

    pub fn expression(&self) -> (expression: &Expression)
        ensures
            expression.model() == self.expression.model(),
    {
        &self.expression
    }

    pub fn type_(&self) -> (type_: &Type)
        ensures
            type_.model() == self.type_.model(),
    {
        &self.type_
    }
}

impl Clone for TypedExpression {
    fn clone(&self) -> (result: Self)
        ensures
            result.expression.model() == self.expression.model(),
            result.type_.model() == self.type_.model(),
    {
        TypedExpression { expression: self.expression.clone(), type_: self.type_.clone() }
    }
}

/// The instruction-level accumulation scope: appends instructions for one
/// block being built and names their results through its name generator.
#[derive(Debug)]
pub struct InstructionBuilder {
    pub name_generator: NameGenerator,
    pub instructions: Vec<Instruction>,
}

impl InstructionBuilder {
    /// A builder with no accumulated instructions, naming results through
    /// `name_generator`.
    pub fn new(name_generator: NameGenerator) -> (builder: Self)
        ensures
            builder.name_generator.prefix@ == name_generator.prefix@,
            builder.name_generator.counter == name_generator.counter,
            builder.instructions@.len() == 0,
    {
        Self { name_generator, instructions: Vec::new() }
    }

    /// Appends a stack allocation of `type_` under a fresh name and returns a
    /// typed handle to the allocated pointer.
    pub fn allocate_stack(&mut self, type_: Type) -> (pointer: TypedExpression)
        requires
            old(self).name_generator.counter < u128::MAX,
        ensures
            ({
                let name = old(self).name_generator.prefix@ + decimal_digits(
                    old(self).name_generator.counter as nat,
                );
                &&& instruction_models(final(self).instructions@) == instruction_models(
                    old(self).instructions@,
                ).push(InstructionModel::AllocateStack { type_: type_.model(), name })
                &&& pointer.expression.model() == ExpressionModel::Variable(name)
                &&& pointer.type_.model() == TypeModel::Pointer(Box::new(type_.model()))
                &&& final(self).name_generator.prefix@ == old(self).name_generator.prefix@
                &&& final(self).name_generator.counter == old(self).name_generator.counter + 1
            }),
    {
        let name = self.name_generator.generate();
        let pointer_type = Type::Pointer(crate::types::Pointer::new(type_.clone()));
        let instruction = Instruction::AllocateStack(AllocateStack {
            type_,
            name: name.clone(),
        });
        let ghost before = self.instructions@;
        self.instructions.push(instruction);
        proof {
            assert(instruction_models(self.instructions@) =~= instruction_models(before).push(
                instruction.model(),
            ));
        }
        TypedExpression::new(Expression::Variable(Variable::new(name)), pointer_type)
    }

    /// Appends a store of `value` through `pointer`.
    pub fn store(&mut self, value: TypedExpression, pointer: TypedExpression)
        ensures
            instruction_models(final(self).instructions@) == instruction_models(
                old(self).instructions@,
            ).push(InstructionModel::Store {
                type_: value.type_.model(),
                value: value.expression.model(),
                pointer: pointer.expression.model(),
            }),
            final(self).name_generator == old(self).name_generator,
    {
        let instruction = Instruction::Store(Store {
            type_: value.type_,
            value: value.expression,
            pointer: pointer.expression,
        });
        let ghost before = self.instructions@;
        self.instructions.push(instruction);
        proof {
            assert(instruction_models(self.instructions@) =~= instruction_models(before).push(
                instruction.model(),
            ));
        }
    }

    /// Appends `instruction` as it stands.
    pub fn add_instruction(&mut self, instruction: Instruction)
        ensures
            instruction_models(final(self).instructions@) == instruction_models(
                old(self).instructions@,
            ).push(instruction.model()),
            final(self).name_generator == old(self).name_generator,
    {
        let ghost before = self.instructions@;
        self.instructions.push(instruction);
        proof {
            assert(instruction_models(self.instructions@) =~= instruction_models(before).push(
                instruction.model(),
            ));
        }
    }

    /// Consumes the builder into the accumulated instruction sequence.
    pub fn into_instructions(self) -> (instructions: Vec<Instruction>)
        ensures
            instruction_models(instructions@) == instruction_models(self.instructions@),
    {
        self.instructions
    }
}

/// The module-level accumulation scope: accumulates declarations and
/// definitions and assembles a whole module, naming anonymous items through
/// its own name generator.
#[derive(Debug)]
pub struct ModuleBuilder {
    pub name_generator: NameGenerator,
    pub variable_declarations: Vec<VariableDeclaration>,
    pub function_declarations: Vec<FunctionDeclaration>,
    pub variable_definitions: Vec<VariableDefinition>,
    pub function_definitions: Vec<FunctionDefinition>,
}

impl ModuleBuilder {
    /// The model of the module this builder would produce now.
    pub open spec fn model(self) -> ModuleModel {
        ModuleModel {
            variable_declarations: variable_declaration_models(self.variable_declarations@),
            function_declarations: function_declaration_models(self.function_declarations@),
            variable_definitions: variable_definition_models(self.variable_definitions@),
            function_definitions: function_definition_models(self.function_definitions@),
        }
    }

    /// An empty builder whose generated names are namespaced apart from
    /// ordinary IR names.
    pub fn new() -> (builder: Self)
        ensures
            builder.model() =~= (ModuleModel {
                variable_declarations: Seq::<VariableDeclarationModel>::empty(),
                function_declarations: Seq::<FunctionDeclarationModel>::empty(),
                variable_definitions: Seq::<VariableDefinitionModel>::empty(),
                function_definitions: Seq::<FunctionDefinitionModel>::empty(),
            }),
            builder.name_generator.counter == 0,
    {
        Self {
            name_generator: NameGenerator::new(String::from_str("_fmm_")),
            variable_declarations: Vec::new(),
            function_declarations: Vec::new(),
            variable_definitions: Vec::new(),
            function_definitions: Vec::new(),
        }
    }

    /// Consumes the builder into the assembled, immutable module.
    pub fn into_module(self) -> (module: Module)
        ensures
            module.model() == self.model(),
    {
        Module::new(
            self.variable_declarations,
            self.function_declarations,
            self.variable_definitions,
            self.function_definitions,
        )
    }

    /// Declares an external variable and returns a typed handle to its
    /// address.
    pub fn declare_variable(&mut self, name: String, type_: Type) -> (variable: TypedExpression)
        ensures
            variable_declaration_models(final(self).variable_declarations@)
                == variable_declaration_models(old(self).variable_declarations@).push(
                VariableDeclarationModel { name: name@, type_: type_.model() },
            ),
            final(self).function_declarations == old(self).function_declarations,
            final(self).variable_definitions == old(self).variable_definitions,
            final(self).function_definitions == old(self).function_definitions,
            final(self).name_generator == old(self).name_generator,
            variable.expression.model() == ExpressionModel::Variable(name@),
            variable.type_.model() == TypeModel::Pointer(Box::new(type_.model())),
    {
        let declaration = VariableDeclaration::new(name.clone(), type_.clone());
        let ghost before = self.variable_declarations@;
        self.variable_declarations.push(declaration);
        proof {
            assert(variable_declaration_models(self.variable_declarations@)
                =~= variable_declaration_models(before).push(declaration.model()));
        }
        TypedExpression::new(
            Expression::Variable(Variable::new(name)),
            Type::Pointer(crate::types::Pointer::new(type_)),
        )
    }

    /// Declares an external function and returns a typed handle to it.
    pub fn declare_function(&mut self, name: String, type_: crate::types::Function) -> (function:
        TypedExpression)
        ensures
            function_declaration_models(final(self).function_declarations@)
                == function_declaration_models(old(self).function_declarations@).push(
                FunctionDeclarationModel { name: name@, type_: type_.model() },
            ),
            final(self).variable_declarations == old(self).variable_declarations,
            final(self).variable_definitions == old(self).variable_definitions,
            final(self).function_definitions == old(self).function_definitions,
            final(self).name_generator == old(self).name_generator,
            function.expression.model() == ExpressionModel::Variable(name@),
            function.type_.model() == TypeModel::Function(type_.model()),
    {
        let declaration = FunctionDeclaration::new(name.clone(), type_.clone());
        let ghost before = self.function_declarations@;
        self.function_declarations.push(declaration);
        proof {
            assert(function_declaration_models(self.function_declarations@)
                =~= function_declaration_models(before).push(declaration.model()));
        }
        TypedExpression::new(Expression::Variable(Variable::new(name)), Type::Function(type_))
    }

    /// Defines a global variable with the given initial value and returns a
    /// typed handle to its address.
    pub fn define_variable(
        &mut self,
        name: String,
        body: TypedExpression,
        options: VariableDefinitionOptions,
    ) -> (variable: TypedExpression)
        ensures
            variable_definition_models(final(self).variable_definitions@)
                == variable_definition_models(old(self).variable_definitions@).push(
                VariableDefinitionModel {
                    name: name@,
                    body: body.expression.model(),
                    type_: body.type_.model(),
                    options,
                },
            ),
            final(self).variable_declarations == old(self).variable_declarations,
            final(self).function_declarations == old(self).function_declarations,
            final(self).function_definitions == old(self).function_definitions,
            final(self).name_generator == old(self).name_generator,
            variable.expression.model() == ExpressionModel::Variable(name@),
            variable.type_.model() == TypeModel::Pointer(Box::new(body.type_.model())),
    {
        let pointer_type = Type::Pointer(crate::types::Pointer::new(body.type_.clone()));
        let definition = VariableDefinition::new(name.clone(), body.expression, body.type_, options);
        let ghost before = self.variable_definitions@;
        self.variable_definitions.push(definition);
        proof {
            assert(variable_definition_models(self.variable_definitions@)
                =~= variable_definition_models(before).push(definition.model()));
        }
        TypedExpression::new(Expression::Variable(Variable::new(name)), pointer_type)
    }

    /// Defines a global variable under a fresh name with internal linkage.
    pub fn define_anonymous_variable(
        &mut self,
        body: TypedExpression,
        options: VariableDefinitionOptions,
    ) -> (variable: TypedExpression)
        requires
            old(self).name_generator.counter < u128::MAX,
        ensures
            ({
                let name = old(self).name_generator.prefix@ + decimal_digits(
                    old(self).name_generator.counter as nat,
                );
                &&& variable_definition_models(final(self).variable_definitions@)
                    == variable_definition_models(old(self).variable_definitions@).push(
                    VariableDefinitionModel {
                        name,
                        body: body.expression.model(),
                        type_: body.type_.model(),
                        options: (VariableDefinitionOptions { linkage: Linkage::Internal, ..options }),
                    },
                )
                &&& final(self).variable_declarations == old(self).variable_declarations
                &&& final(self).function_declarations == old(self).function_declarations
                &&& final(self).function_definitions == old(self).function_definitions
                &&& final(self).name_generator.prefix@ == old(self).name_generator.prefix@
                &&& final(self).name_generator.counter == old(self).name_generator.counter + 1
                &&& variable.expression.model() == ExpressionModel::Variable(name)
                &&& variable.type_.model() == TypeModel::Pointer(Box::new(body.type_.model()))
            }),
    {
        let name = self.generate_name();
        self.define_variable(name, body, options.set_linkage(Linkage::Internal))
    }

    /// Defines a function with the given body and returns a typed handle to
    /// it.
    pub fn define_function(
        &mut self,
        name: String,
        arguments: Vec<Argument>,
        result_type: Type,
        body: Block,
        options: FunctionDefinitionOptions,
    ) -> (function: TypedExpression)
        ensures
            function_definition_models(final(self).function_definitions@)
                == function_definition_models(old(self).function_definitions@).push(
                FunctionDefinitionModel {
                    name: name@,
                    arguments: argument_models(arguments@),
                    result_type: result_type.model(),
                    body: body.model(),
                    options,
                },
            ),
            final(self).variable_declarations == old(self).variable_declarations,
            final(self).function_declarations == old(self).function_declarations,
            final(self).variable_definitions == old(self).variable_definitions,
            final(self).name_generator == old(self).name_generator,
            function.expression.model() == ExpressionModel::Variable(name@),
            function.type_.model() == TypeModel::Function(FunctionTypeModel {
                arguments: Seq::new(
                    argument_models(arguments@).len(),
                    |i: int| argument_models(arguments@)[i].type_,
                ),
                result: Box::new(result_type.model()),
                calling_convention: options.calling_convention,
            }),
    {
        let definition = FunctionDefinition::new(name.clone(), arguments, result_type, body, options);
        let function_type = definition.type_();
        proof {
            assert(function_type.model().arguments =~= Seq::new(
                argument_models(arguments@).len(),
                |i: int| argument_models(arguments@)[i].type_,
            ));
        }
        let ghost before = self.function_definitions@;
        self.function_definitions.push(definition);
        proof {
            assert(function_definition_models(self.function_definitions@)
                =~= function_definition_models(before).push(definition.model()));
        }
        TypedExpression::new(Expression::Variable(Variable::new(name)), Type::Function(function_type))
    }

    /// Defines a function under a fresh name derived from `origin_name`,
    /// with internal linkage.
    pub fn define_anonymous_function(
        &mut self,
        origin_name: String,
        arguments: Vec<Argument>,
        result_type: Type,
        body: Block,
        options: FunctionDefinitionOptions,
    ) -> (function: TypedExpression)
        requires
            old(self).name_generator.counter < u128::MAX,
        ensures
            ({
                let name = old(self).name_generator.prefix@ + decimal_digits(
                    old(self).name_generator.counter as nat,
                ) + seq!['_'] + origin_name@;
                &&& function_definition_models(final(self).function_definitions@)
                    == function_definition_models(old(self).function_definitions@).push(
                    FunctionDefinitionModel {
                        name,
                        arguments: argument_models(arguments@),
                        result_type: result_type.model(),
                        body: body.model(),
                        options: (FunctionDefinitionOptions { linkage: Linkage::Internal, ..options }),
                    },
                )
                &&& final(self).variable_declarations == old(self).variable_declarations
                &&& final(self).function_declarations == old(self).function_declarations
                &&& final(self).variable_definitions == old(self).variable_definitions
                &&& final(self).name_generator.prefix@ == old(self).name_generator.prefix@
                &&& final(self).name_generator.counter == old(self).name_generator.counter + 1
                &&& function.expression.model() == ExpressionModel::Variable(name)
            }),
    {
        let mut name = self.generate_name();
        name.append("_");
        name.append(origin_name.as_str());
        proof {
            reveal_strlit("_");
            assert(name@ =~= old(self).name_generator.prefix@ + decimal_digits(
                old(self).name_generator.counter as nat,
            ) + seq!['_'] + origin_name@);
        }
        self.define_function(
            name,
            arguments,
            result_type,
            body,
            options.set_linkage(Linkage::Internal),
        )
    }

    /// Hands out a fresh name from the builder's generator.
    pub fn generate_name(&mut self) -> (name: String)
        requires
            old(self).name_generator.counter < u128::MAX,
        ensures
            name@ == old(self).name_generator.prefix@ + decimal_digits(
                old(self).name_generator.counter as nat,
            ),
            final(self).name_generator.prefix@ == old(self).name_generator.prefix@,
            final(self).name_generator.counter == old(self).name_generator.counter + 1,
            final(self).variable_declarations == old(self).variable_declarations,
            final(self).function_declarations == old(self).function_declarations,
            final(self).variable_definitions == old(self).variable_definitions,
            final(self).function_definitions == old(self).function_definitions,
    {
        self.name_generator.generate()
    }
}

/// An earlier form of the module-level accumulation scope, kept for callers
/// that assemble a module piecewise and read it back while building.
#[derive(Debug)]
pub struct ModuleState {
    pub name_generator: NameGenerator,
    pub variable_declarations: Vec<VariableDeclaration>,
    pub function_declarations: Vec<FunctionDeclaration>,
    pub variable_definitions: Vec<VariableDefinition>,
    pub function_definitions: Vec<FunctionDefinition>,
}

impl ModuleState {
    /// The model of the module this state describes now.
    pub open spec fn model(self) -> ModuleModel {
        ModuleModel {
            variable_declarations: variable_declaration_models(self.variable_declarations@),
            function_declarations: function_declaration_models(self.function_declarations@),
            variable_definitions: variable_definition_models(self.variable_definitions@),
            function_definitions: function_definition_models(self.function_definitions@),
        }
    }

    /// An empty state.
    pub fn new() -> (state: Self)
        ensures
            state.model() =~= (ModuleModel {
                variable_declarations: Seq::<VariableDeclarationModel>::empty(),
                function_declarations: Seq::<FunctionDeclarationModel>::empty(),
                variable_definitions: Seq::<VariableDefinitionModel>::empty(),
                function_definitions: Seq::<FunctionDefinitionModel>::empty(),
            }),
            state.name_generator.counter == 0,
    {
        Self {
            name_generator: NameGenerator::new(String::from_str("_fmm_")),
            variable_declarations: Vec::new(),
            function_declarations: Vec::new(),
            variable_definitions: Vec::new(),
            function_definitions: Vec::new(),
        }
    }

    /// The module assembled so far, leaving the state usable.
    pub fn as_module(&self) -> (module: Module)
        ensures
            module.model() == self.model(),
    {
        Module::new(
            clone_variable_declarations(&self.variable_declarations),
            clone_function_declarations(&self.function_declarations),
            clone_variable_definitions(&self.variable_definitions),
            clone_function_definitions(&self.function_definitions),
        )
    }

    /// Declares an external variable and returns a typed handle to its
    /// address.
    pub fn declare_variable(&mut self, name: String, type_: Type) -> (variable: TypedExpression)
        ensures
            variable_declaration_models(final(self).variable_declarations@)
                == variable_declaration_models(old(self).variable_declarations@).push(
                VariableDeclarationModel { name: name@, type_: type_.model() },
            ),
            final(self).function_declarations == old(self).function_declarations,
            final(self).variable_definitions == old(self).variable_definitions,
            final(self).function_definitions == old(self).function_definitions,
            final(self).name_generator == old(self).name_generator,
            variable.expression.model() == ExpressionModel::Variable(name@),
            variable.type_.model() == TypeModel::Pointer(Box::new(type_.model())),
    {
        let declaration = VariableDeclaration::new(name.clone(), type_.clone());
        let ghost before = self.variable_declarations@;
        self.variable_declarations.push(declaration);
        proof {
            assert(variable_declaration_models(self.variable_declarations@)
                =~= variable_declaration_models(before).push(declaration.model()));
        }
        TypedExpression::new(
            Expression::Variable(Variable::new(name)),
            Type::Pointer(crate::types::Pointer::new(type_)),
        )
    }

    /// Declares an external function and returns a typed handle to it.
    pub fn declare_function(&mut self, name: String, type_: crate::types::Function) -> (function:
        TypedExpression)
        ensures
            function_declaration_models(final(self).function_declarations@)
                == function_declaration_models(old(self).function_declarations@).push(
                FunctionDeclarationModel { name: name@, type_: type_.model() },
            ),
            final(self).variable_declarations == old(self).variable_declarations,
            final(self).variable_definitions == old(self).variable_definitions,
            final(self).function_definitions == old(self).function_definitions,
            final(self).name_generator == old(self).name_generator,
            function.expression.model() == ExpressionModel::Variable(name@),
            function.type_.model() == TypeModel::Function(type_.model()),
    {
        let declaration = FunctionDeclaration::new(name.clone(), type_.clone());
        let ghost before = self.function_declarations@;
        self.function_declarations.push(declaration);
        proof {
            assert(function_declaration_models(self.function_declarations@)
                =~= function_declaration_models(before).push(declaration.model()));
        }
        TypedExpression::new(Expression::Variable(Variable::new(name)), Type::Function(type_))
    }

    /// Defines a global variable; `global` selects external linkage.
    pub fn define_variable(
        &mut self,
        name: String,
        body: TypedExpression,
        mutable: bool,
        global: bool,
    ) -> (variable: TypedExpression)
        ensures
            variable_definition_models(final(self).variable_definitions@)
                == variable_definition_models(old(self).variable_definitions@).push(
                VariableDefinitionModel {
                    name: name@,
                    body: body.expression.model(),
                    type_: body.type_.model(),
                    options: (VariableDefinitionOptions {
                        mutable,
                        linkage: if global {
                            Linkage::External
                        } else {
                            Linkage::Internal
                        },
                    }),
                },
            ),
            final(self).variable_declarations == old(self).variable_declarations,
            final(self).function_declarations == old(self).function_declarations,
            final(self).function_definitions == old(self).function_definitions,
            final(self).name_generator == old(self).name_generator,
            variable.expression.model() == ExpressionModel::Variable(name@),
            variable.type_.model() == TypeModel::Pointer(Box::new(body.type_.model())),
    {
        let linkage = if global {
            Linkage::External
        } else {
            Linkage::Internal
        };
        let options = VariableDefinitionOptions::new().set_mutable(mutable).set_linkage(linkage);
        let pointer_type = Type::Pointer(crate::types::Pointer::new(body.type_.clone()));
        let definition = VariableDefinition::new(name.clone(), body.expression, body.type_, options);
        let ghost before = self.variable_definitions@;
        self.variable_definitions.push(definition);
        proof {
            assert(variable_definition_models(self.variable_definitions@)
                =~= variable_definition_models(before).push(definition.model()));
        }
        TypedExpression::new(Expression::Variable(Variable::new(name)), pointer_type)
    }

    /// Defines a function under a fresh name with internal linkage under the
    /// IR's own calling convention, and returns a typed handle to it.
    pub fn define_anonymous_function(
        &mut self,
        arguments: Vec<Argument>,
        body: Block,
        result_type: Type,
    ) -> (function: TypedExpression)
        requires
            old(self).name_generator.counter < u128::MAX,
        ensures
            ({
                let name = old(self).name_generator.prefix@ + decimal_digits(
                    old(self).name_generator.counter as nat,
                );
                &&& function_definition_models(final(self).function_definitions@)
                    == function_definition_models(old(self).function_definitions@).push(
                    FunctionDefinitionModel {
                        name,
                        arguments: argument_models(arguments@),
                        result_type: result_type.model(),
                        body: body.model(),
                        options: (FunctionDefinitionOptions {
                            calling_convention: CallingConvention::Source,
                            linkage: Linkage::Internal,
                        }),
                    },
                )
                &&& final(self).variable_declarations == old(self).variable_declarations
                &&& final(self).function_declarations == old(self).function_declarations
                &&& final(self).variable_definitions == old(self).variable_definitions
                &&& final(self).name_generator.prefix@ == old(self).name_generator.prefix@
                &&& final(self).name_generator.counter == old(self).name_generator.counter + 1
                &&& function.expression.model() == ExpressionModel::Variable(name)
                &&& function.type_.model() == TypeModel::Function(FunctionTypeModel {
                    arguments: Seq::new(
                        argument_models(arguments@).len(),
                        |i: int| argument_models(arguments@)[i].type_,
                    ),
                    result: Box::new(result_type.model()),
                    calling_convention: CallingConvention::Source,
                })
            }),
    {
        let name = self.name_generator.generate();
        let options = FunctionDefinitionOptions::new().set_linkage(Linkage::Internal);
        let definition = FunctionDefinition::new(name.clone(), arguments, result_type, body, options);
        let function_type = definition.type_();
        proof {
            assert(function_type.model().arguments =~= Seq::new(
                argument_models(arguments@).len(),
                |i: int| argument_models(arguments@)[i].type_,
            ));
        }
        let ghost before = self.function_definitions@;
        self.function_definitions.push(definition);
        proof {
            assert(function_definition_models(self.function_definitions@)
                =~= function_definition_models(before).push(definition.model()));
        }
        TypedExpression::new(Expression::Variable(Variable::new(name)), Type::Function(function_type))
    }
}

} // verus!
