//! Named, typed functions and global variables, and the module that owns
//! them. Declarations expose externally linked symbols; definitions carry a
//! body. A module, once assembled, is immutable.

use vstd::prelude::*;
use crate::ir::{Block, BlockModel, Expression, ExpressionModel, lemma_block_model};
use crate::types::{CallingConvention, FunctionTypeModel, Type, TypeModel, models_of};

verus! {

broadcast use vstd::std_specs::vec::group_vec_axioms, lemma_block_model;

/// Whether a symbol is visible outside the module.
#[derive(Clone, Copy, Debug, PartialEq, Eq, Structural)]
pub enum Linkage {
    External,
    Internal,
}

/// Options of a function definition: its calling convention and linkage.
#[derive(Clone, Copy, Debug, PartialEq, Eq, Structural)]
pub struct FunctionDefinitionOptions {
    pub calling_convention: CallingConvention,
    pub linkage: Linkage,
}

impl FunctionDefinitionOptions {
    /// The default options: the IR's own calling convention, external linkage.
    pub fn new() -> (options: Self)
        ensures
            options.calling_convention == CallingConvention::Source,
            options.linkage == Linkage::External,
    {
        Self { calling_convention: CallingConvention::Source, linkage: Linkage::External }
    }

    pub fn set_calling_convention(self, calling_convention: CallingConvention) -> (options: Self)
        ensures
            options == (Self { calling_convention, ..self }),
    {
        Self { calling_convention, ..self }
    }

    pub fn set_linkage(self, linkage: Linkage) -> (options: Self)
        ensures
            options == (Self { linkage, ..self }),
    {
        Self { linkage, ..self }
    }
}

/// Options of a variable definition: its mutability and linkage.
#[derive(Clone, Copy, Debug, PartialEq, Eq, Structural)]
pub struct VariableDefinitionOptions {
    pub mutable: bool,
    pub linkage: Linkage,
}

impl VariableDefinitionOptions {
    /// The default options: immutable, external linkage.
    pub fn new() -> (options: Self)
        ensures
            options.mutable == false,
            options.linkage == Linkage::External,
    {
        Self { mutable: false, linkage: Linkage::External }
    }

    pub fn set_mutable(self, mutable: bool) -> (options: Self)
        ensures
            options == (Self { mutable, ..self }),
    {
        Self { mutable, ..self }
    }

    pub fn set_linkage(self, linkage: Linkage) -> (options: Self)
        ensures
            options == (Self { linkage, ..self }),
    {
        Self { linkage, ..self }
    }
}

/// A named, typed function argument.
#[derive(Debug, PartialEq)]
pub struct Argument {
    pub name: String,
    pub type_: Type,
}

/// The mathematical model of an `Argument`.
#[verifier::ext_equal]
pub struct ArgumentModel {
    pub name: Seq<char>,
    pub type_: TypeModel,
}

impl Argument {
    /// The model of this argument.
    pub open spec fn model(self) -> ArgumentModel {
        ArgumentModel { name: self.name@, type_: self.type_.model() }
    }

    pub fn new(name: String, type_: Type) -> (argument: Self)
        ensures
            argument.model() == (ArgumentModel { name: name@, type_: type_.model() }),
    {
        Self { name, type_ }
    }
}

impl Clone for Argument {
    fn clone(&self) -> (result: Self)
        ensures
            result.model() == self.model(),
    {
        Argument { name: self.name.clone(), type_: self.type_.clone() }
    }
}

/// The models of a sequence of arguments, elementwise.
pub open spec fn argument_models(arguments: Seq<Argument>) -> Seq<ArgumentModel> {
    Seq::new(arguments.len(), |i: int| arguments[i].model())
}

/// Clones every argument in a vector, preserving the models elementwise.
pub fn clone_arguments(arguments: &Vec<Argument>) -> (result: Vec<Argument>)
    ensures
        argument_models(result@) == argument_models(arguments@),
{
    let mut result: Vec<Argument> = Vec::new();
    let mut i: usize = 0;
    while i < arguments.len()
        invariant
            i <= arguments@.len(),
            result@.len() == i,
            argument_models(result@) =~= argument_models(arguments@).take(i as int),
        decreases arguments@.len() - i,
    {
        result.push(arguments[i].clone());
        proof {
            assert(argument_models(result@) =~= argument_models(arguments@).take(i + 1));
        }
        i = i + 1;
    }
    proof {
        assert(argument_models(arguments@).take(arguments@.len() as int) =~= argument_models(
            arguments@,
        ));
    }
    result
}

/// A named, typed function with a body.
#[derive(Debug, PartialEq)]
pub struct FunctionDefinition {
    pub name: String,
    pub arguments: Vec<Argument>,
    pub result_type: Type,
    pub body: Block,
    pub options: FunctionDefinitionOptions,
}

/// The mathematical model of a `FunctionDefinition`.
#[verifier::ext_equal]
pub struct FunctionDefinitionModel {
    pub name: Seq<char>,
    pub arguments: Seq<ArgumentModel>,
    pub result_type: TypeModel,
    pub body: BlockModel,
    pub options: FunctionDefinitionOptions,
}

impl FunctionDefinition {
    /// The model of this definition.
    pub open spec fn model(self) -> FunctionDefinitionModel {
        FunctionDefinitionModel {
            name: self.name@,
            arguments: argument_models(self.arguments@),
            result_type: self.result_type.model(),
            body: self.body.model(),
            options: self.options,
        }
    }

    pub fn new(
        name: String,
        arguments: Vec<Argument>,
        result_type: Type,
        body: Block,
        options: FunctionDefinitionOptions,
    ) -> (definition: Self)
        ensures
            definition.model() == (FunctionDefinitionModel {
                name: name@,
                arguments: argument_models(arguments@),
                result_type: result_type.model(),
                body: body.model(),
                options,
            }),
    {
        Self { name, arguments, result_type, body, options }
    }

    pub fn name(&self) -> (name: &str)
        ensures
            name@ == self.model().name,
    {
        self.name.as_str()
    }

    pub fn arguments(&self) -> (arguments: &Vec<Argument>)
        ensures
            argument_models(arguments@) == self.model().arguments,
    {
        &self.arguments
    }

    pub fn result_type(&self) -> (result_type: &Type)
        ensures
            result_type.model() == self.model().result_type,
    {
        &self.result_type
    }

    pub fn body(&self) -> (body: &Block)
        ensures
            body.model() == self.model().body,
    {
        &self.body
    }

    pub fn options(&self) -> (options: FunctionDefinitionOptions)
        ensures
            options == self.model().options,
    {
        self.options
    }

    /// The function type of this definition: its arguments' types, its
    /// result type, and its options' calling convention.
    pub fn type_(&self) -> (type_: crate::types::Function)
        ensures
            type_.model() == (FunctionTypeModel {
                arguments: Seq::new(
                    self.model().arguments.len(),
                    |i: int| self.model().arguments[i].type_,
                ),
                result: Box::new(self.model().result_type),
                calling_convention: self.model().options.calling_convention,
            }),
    {
        let mut types: Vec<Type> = Vec::new();
        let mut i: usize = 0;
        while i < self.arguments.len()
            invariant
                i <= self.arguments@.len(),
                types@.len() == i,
                models_of(types@) =~= Seq::new(
                    argument_models(self.arguments@).len(),
                    |j: int| argument_models(self.arguments@)[j].type_,
                ).take(i as int),
            decreases self.arguments@.len() - i,
        {
            types.push(self.arguments[i].type_.clone());
            proof {
                assert(models_of(types@) =~= Seq::new(
                    argument_models(self.arguments@).len(),
                    |j: int| argument_models(self.arguments@)[j].type_,
                ).take(i + 1));
            }
            i = i + 1;
        }
        let function = crate::types::Function::new(
            types,
            self.result_type.clone(),
            self.options.calling_convention,
        );
        proof {
            assert(models_of(types@) =~= Seq::new(
                argument_models(self.arguments@).len(),
                |j: int| argument_models(self.arguments@)[j].type_,
            ));
            assert(function.model().arguments =~= Seq::new(
                self.model().arguments.len(),
                |i: int| self.model().arguments[i].type_,
            ));
        }
        function
    }
}

/// A named, typed function declared but defined elsewhere.
#[derive(Debug, PartialEq)]
pub struct FunctionDeclaration {
    pub name: String,
    pub type_: crate::types::Function,
}

/// The mathematical model of a `FunctionDeclaration`.
#[verifier::ext_equal]
pub struct FunctionDeclarationModel {
    pub name: Seq<char>,
    pub type_: FunctionTypeModel,
}

impl FunctionDeclaration {
    /// The model of this declaration.
    pub open spec fn model(self) -> FunctionDeclarationModel {
        FunctionDeclarationModel { name: self.name@, type_: self.type_.model() }
    }

    pub fn new(name: String, type_: crate::types::Function) -> (declaration: Self)
        ensures
            declaration.model() == (FunctionDeclarationModel { name: name@, type_: type_.model() }),
    {
        Self { name, type_ }
    }
}

/// A named global variable declared but defined elsewhere.
#[derive(Debug, PartialEq)]
pub struct VariableDeclaration {
    pub name: String,
    pub type_: Type,
}

/// The mathematical model of a `VariableDeclaration`.
#[verifier::ext_equal]
pub struct VariableDeclarationModel {
    pub name: Seq<char>,
    pub type_: TypeModel,
}

impl VariableDeclaration {
    /// The model of this declaration.
    pub open spec fn model(self) -> VariableDeclarationModel {
        VariableDeclarationModel { name: self.name@, type_: self.type_.model() }
    }

    pub fn new(name: String, type_: Type) -> (declaration: Self)
        ensures
            declaration.model() == (VariableDeclarationModel { name: name@, type_: type_.model() }),
    {
        Self { name, type_ }
    }
}

/// A named global variable with an initial value.
#[derive(Debug, PartialEq)]
pub struct VariableDefinition {
    pub name: String,
    pub body: Expression,
    pub type_: Type,
    pub options: VariableDefinitionOptions,
}

/// The mathematical model of a `VariableDefinition`.
#[verifier::ext_equal]
pub struct VariableDefinitionModel {
    pub name: Seq<char>,
    pub body: ExpressionModel,
    pub type_: TypeModel,
    pub options: VariableDefinitionOptions,
}

impl VariableDefinition {
    /// The model of this definition.
    pub open spec fn model(self) -> VariableDefinitionModel {
        VariableDefinitionModel {
            name: self.name@,
            body: self.body.model(),
            type_: self.type_.model(),
            options: self.options,
        }
    }

    pub fn new(
        name: String,
        body: Expression,
        type_: Type,
        options: VariableDefinitionOptions,
    ) -> (definition: Self)
        ensures
            definition.model() == (VariableDefinitionModel {
                name: name@,
                body: body.model(),
                type_: type_.model(),
                options,
            }),
    {
        Self { name, body, type_, options }
    }
}

/// The models of a sequence of variable declarations, elementwise.
pub open spec fn variable_declaration_models(
    declarations: Seq<VariableDeclaration>,
) -> Seq<VariableDeclarationModel> {
    Seq::new(declarations.len(), |i: int| declarations[i].model())
}

/// The models of a sequence of function declarations, elementwise.
pub open spec fn function_declaration_models(
    declarations: Seq<FunctionDeclaration>,
) -> Seq<FunctionDeclarationModel> {
    Seq::new(declarations.len(), |i: int| declarations[i].model())
}

/// The models of a sequence of variable definitions, elementwise.
pub open spec fn variable_definition_models(
    definitions: Seq<VariableDefinition>,
) -> Seq<VariableDefinitionModel> {
    Seq::new(definitions.len(), |i: int| definitions[i].model())
}

/// The models of a sequence of function definitions, elementwise.
pub open spec fn function_definition_models(
    definitions: Seq<FunctionDefinition>,
) -> Seq<FunctionDefinitionModel> {
    Seq::new(definitions.len(), |i: int| definitions[i].model())
}

/// The top-level unit: the module's declarations and definitions, in order.
#[derive(Debug, PartialEq)]
pub struct Module {
    pub variable_declarations: Vec<VariableDeclaration>,
    pub function_declarations: Vec<FunctionDeclaration>,
    pub variable_definitions: Vec<VariableDefinition>,
    pub function_definitions: Vec<FunctionDefinition>,
}

/// The mathematical model of a `Module`.
#[verifier::ext_equal]
pub struct ModuleModel {
    pub variable_declarations: Seq<VariableDeclarationModel>,
    pub function_declarations: Seq<FunctionDeclarationModel>,
    pub variable_definitions: Seq<VariableDefinitionModel>,
    pub function_definitions: Seq<FunctionDefinitionModel>,
}

impl Module {
    /// The model of this module.
    pub open spec fn model(self) -> ModuleModel {
        ModuleModel {
            variable_declarations: variable_declaration_models(self.variable_declarations@),
            function_declarations: function_declaration_models(self.function_declarations@),
            variable_definitions: variable_definition_models(self.variable_definitions@),
            function_definitions: function_definition_models(self.function_definitions@),
        }
    }

    pub fn new(
        variable_declarations: Vec<VariableDeclaration>,
        function_declarations: Vec<FunctionDeclaration>,
        variable_definitions: Vec<VariableDefinition>,
        function_definitions: Vec<FunctionDefinition>,
    ) -> (module: Self)
        ensures
            module.model() == (ModuleModel {
                variable_declarations: variable_declaration_models(variable_declarations@),
                function_declarations: function_declaration_models(function_declarations@),
                variable_definitions: variable_definition_models(variable_definitions@),
                function_definitions: function_definition_models(function_definitions@),
            }),
    {
        Self {
            variable_declarations,
            function_declarations,
            variable_definitions,
            function_definitions,
        }
    }
}

impl Clone for FunctionDefinition {
    fn clone(&self) -> (result: Self)
        ensures
            result.model() == self.model(),
    {
        let result = FunctionDefinition {
            name: self.name.clone(),
            arguments: clone_arguments(&self.arguments),
            result_type: self.result_type.clone(),
            body: self.body.clone(),
            options: self.options,
        };
        proof {
            assert(result.model() =~= self.model());
        }
        result
    }
}

impl Clone for FunctionDeclaration {
    fn clone(&self) -> (result: Self)
        ensures
            result.model() == self.model(),
    {
        FunctionDeclaration { name: self.name.clone(), type_: self.type_.clone() }
    }
}

impl Clone for VariableDeclaration {
    fn clone(&self) -> (result: Self)
        ensures
            result.model() == self.model(),
    {
        VariableDeclaration { name: self.name.clone(), type_: self.type_.clone() }
    }
}

impl Clone for VariableDefinition {
    fn clone(&self) -> (result: Self)
        ensures
            result.model() == self.model(),
    {
        VariableDefinition {
            name: self.name.clone(),
            body: self.body.clone(),
            type_: self.type_.clone(),
            options: self.options,
        }
    }
}

/// Clones every variable declaration, preserving the models elementwise.
pub fn clone_variable_declarations(declarations: &Vec<VariableDeclaration>) -> (result: Vec<
    VariableDeclaration,
>)
    ensures
        variable_declaration_models(result@) == variable_declaration_models(declarations@),
{
    let mut result: Vec<VariableDeclaration> = Vec::new();
    let mut i: usize = 0;
    while i < declarations.len()
        invariant
            i <= declarations@.len(),
            result@.len() == i,
            variable_declaration_models(result@) =~= variable_declaration_models(
                declarations@,
            ).take(i as int),
        decreases declarations@.len() - i,
    {
        result.push(declarations[i].clone());
        proof {
            assert(variable_declaration_models(result@) =~= variable_declaration_models(
                declarations@,
            ).take(i + 1));
        }
        i = i + 1;
    }
    proof {
        assert(variable_declaration_models(declarations@).take(declarations@.len() as int)
            =~= variable_declaration_models(declarations@));
    }
    result
}

/// Clones every function declaration, preserving the models elementwise.
pub fn clone_function_declarations(declarations: &Vec<FunctionDeclaration>) -> (result: Vec<
    FunctionDeclaration,
>)
    ensures
        function_declaration_models(result@) == function_declaration_models(declarations@),
{
    let mut result: Vec<FunctionDeclaration> = Vec::new();
    let mut i: usize = 0;
    while i < declarations.len()
        invariant
            i <= declarations@.len(),
            result@.len() == i,
            function_declaration_models(result@) =~= function_declaration_models(
                declarations@,
            ).take(i as int),
        decreases declarations@.len() - i,
    {
        result.push(declarations[i].clone());
        proof {
            assert(function_declaration_models(result@) =~= function_declaration_models(
                declarations@,
            ).take(i + 1));
        }
        i = i + 1;
    }
    proof {
        assert(function_declaration_models(declarations@).take(declarations@.len() as int)
            =~= function_declaration_models(declarations@));
    }
    result
}

/// Clones every variable definition, preserving the models elementwise.
pub fn clone_variable_definitions(definitions: &Vec<VariableDefinition>) -> (result: Vec<
    VariableDefinition,
>)
    ensures
        variable_definition_models(result@) == variable_definition_models(definitions@),
{
    let mut result: Vec<VariableDefinition> = Vec::new();
    let mut i: usize = 0;
    while i < definitions.len()
        invariant
            i <= definitions@.len(),
            result@.len() == i,
            variable_definition_models(result@) =~= variable_definition_models(
                definitions@,
            ).take(i as int),
        decreases definitions@.len() - i,
    {
        result.push(definitions[i].clone());
        proof {
            assert(variable_definition_models(result@) =~= variable_definition_models(
                definitions@,
            ).take(i + 1));
        }
        i = i + 1;
    }
    proof {
        assert(variable_definition_models(definitions@).take(definitions@.len() as int)
            =~= variable_definition_models(definitions@));
    }
    result
}

/// Clones every function definition, preserving the models elementwise.
pub fn clone_function_definitions(definitions: &Vec<FunctionDefinition>) -> (result: Vec<
    FunctionDefinition,
>)
    ensures
        function_definition_models(result@) == function_definition_models(definitions@),
{
    let mut result: Vec<FunctionDefinition> = Vec::new();
    let mut i: usize = 0;
    while i < definitions.len()
        invariant
            i <= definitions@.len(),
            result@.len() == i,
            function_definition_models(result@) =~= function_definition_models(
                definitions@,
            ).take(i as int),
        decreases definitions@.len() - i,
    {
        result.push(definitions[i].clone());
        proof {
            assert(function_definition_models(result@) =~= function_definition_models(
                definitions@,
            ).take(i + 1));
        }
        i = i + 1;
    }
    proof {
        assert(function_definition_models(definitions@).take(definitions@.len() as int)
            =~= function_definition_models(definitions@));
    }
    result
}

} // verus!
