//! The closed set of IR types: primitives, pointers, functions with an
//! explicit calling convention, records, and unions. Every type also has a
//! mathematical model (`TypeModel`), the value the contracts speak of.

use vstd::prelude::*;

verus! {

broadcast use vstd::std_specs::vec::group_vec_axioms, vstd::seq::group_seq_axioms, vstd::seq_lib::group_seq_lib_default;

/// The calling convention a function type is declared under. `Source` is the
/// IR's own uniform convention; `Target` is the platform's native (C)
/// convention, the one the lowering pass rewrites.
#[derive(Clone, Copy, Debug, PartialEq, Eq, Hash, Structural)]
pub enum CallingConvention {
    Source,
    Target,
}

/// Primitive IR types. `PointerInteger` is a platform-word-sized integer.
#[derive(Clone, Copy, Debug, PartialEq, Eq, Hash, Structural)]
pub enum Primitive {
    Bool,
    Float32,
    Float64,
    Integer8,
    Integer32,
    Integer64,
    PointerInteger,
}

/// A pointer type: owns no data, addresses a value of the element type.
#[derive(Debug, PartialEq)]
pub struct Pointer {
    pub element: Box<Type>,
}

/// A function type. Its identity includes its calling convention: the same
/// argument and result shapes under different conventions are distinct types.
#[derive(Debug, PartialEq)]
pub struct Function {
    pub arguments: Vec<Type>,
    pub result: Box<Type>,
    pub calling_convention: CallingConvention,
}

/// A record type: an ordered sequence of element types.
#[derive(Debug, PartialEq)]
pub struct Record {
    pub elements: Vec<Type>,
}

/// A union type: a set of member types, each selectable by index.
#[derive(Debug, PartialEq)]
pub struct Union {
    pub members: Vec<Type>,
}

/// The closed, tagged variant of IR types. Equality is structural.
#[derive(Debug, PartialEq)]
pub enum Type {
    Function(Function),
    Primitive(Primitive),
    Pointer(Pointer),
    Record(Record),
    Union(Union),
}

/// The mathematical model of a function type.
#[verifier::ext_equal]
pub struct FunctionTypeModel {
    pub arguments: Seq<TypeModel>,
    pub result: Box<TypeModel>,
    pub calling_convention: CallingConvention,
}

/// The mathematical model of a `Type`: the same tree with `Seq` in place of
/// `Vec`. Contracts state structural equality as equality of models.
#[verifier::ext_equal]
pub enum TypeModel {
    Function(FunctionTypeModel),
    Primitive(Primitive),
    Pointer(Box<TypeModel>),
    Record(Seq<TypeModel>),
    Union(Seq<TypeModel>),
}

/// The models of a sequence of types, elementwise.
pub open spec fn models_of(types: Seq<Type>) -> Seq<TypeModel> {
    Seq::new(types.len(), |i: int| types[i].model())
}

impl Type {
    /// The model of this type.
    pub open spec fn model(self) -> TypeModel
        decreases self,
    {
        match self {
            Type::Function(function) => TypeModel::Function(FunctionTypeModel {
                arguments: Seq::new(
                    function.arguments@.len(),
                    |i: int| if 0 <= i < function.arguments@.len() {
                        function.arguments@[i].model()
                    } else {
                        TypeModel::Primitive(Primitive::Bool)
                    },
                ),
                result: Box::new(function.result.model()),
                calling_convention: function.calling_convention,
            }),
            Type::Primitive(primitive) => TypeModel::Primitive(primitive),
            Type::Pointer(pointer) => TypeModel::Pointer(Box::new(pointer.element.model())),
            Type::Record(record) => TypeModel::Record(
                Seq::new(
                    record.elements@.len(),
                    |i: int| if 0 <= i < record.elements@.len() {
                        record.elements@[i].model()
                    } else {
                        TypeModel::Primitive(Primitive::Bool)
                    },
                ),
            ),
            Type::Union(union_) => TypeModel::Union(
                Seq::new(
                    union_.members@.len(),
                    |i: int| if 0 <= i < union_.members@.len() {
                        union_.members@[i].model()
                    } else {
                        TypeModel::Primitive(Primitive::Bool)
                    },
                ),
            ),
        }
    }
}

impl Pointer {
    /// The model of this pointer type.
    pub open spec fn model(self) -> TypeModel {
        TypeModel::Pointer(Box::new(self.element.model()))
    }

    pub fn new(element: Type) -> (pointer: Self)
        ensures
            pointer.model() == TypeModel::Pointer(Box::new(element.model())),
    {
        Self { element: Box::new(element) }
    }

    pub fn element(&self) -> (element: &Type)
        ensures
            TypeModel::Pointer(Box::new(element.model())) == self.model(),
    {
        &self.element
    }
}

impl Function {
    /// The model of this function type.
    pub open spec fn model(self) -> FunctionTypeModel {
        FunctionTypeModel {
            arguments: models_of(self.arguments@),
            result: Box::new(self.result.model()),
            calling_convention: self.calling_convention,
        }
    }

    pub fn new(arguments: Vec<Type>, result: Type, calling_convention: CallingConvention) -> (function: Self)
        ensures
            function.model() == (FunctionTypeModel {
                arguments: models_of(arguments@),
                result: Box::new(result.model()),
                calling_convention: calling_convention,
            }),
    {
        Self { arguments, result: Box::new(result), calling_convention }
    }

    pub fn arguments(&self) -> (arguments: &Vec<Type>)
        ensures
            models_of(arguments@) == self.model().arguments,
    {
        &self.arguments
    }

    pub fn result(&self) -> (result: &Type)
        ensures
            result.model() == *self.model().result,
    {
        &self.result
    }

    pub fn calling_convention(&self) -> (calling_convention: CallingConvention)
        ensures
            calling_convention == self.model().calling_convention,
    {
        self.calling_convention
    }
}

impl Record {
    /// The models of this record type's element types.
    pub open spec fn model(self) -> Seq<TypeModel> {
        models_of(self.elements@)
    }

    pub fn new(elements: Vec<Type>) -> (record: Self)
        ensures
            record.model() == models_of(elements@),
    {
        Self { elements }
    }

    pub fn elements(&self) -> (elements: &Vec<Type>)
        ensures
            models_of(elements@) == self.model(),
    {
        &self.elements
    }
}

impl Union {
    /// The models of this union type's member types.
    pub open spec fn model(self) -> Seq<TypeModel> {
        models_of(self.members@)
    }

    pub fn new(members: Vec<Type>) -> (union_: Self)
        ensures
            union_.model() == models_of(members@),
    {
        Self { members }
    }

    pub fn members(&self) -> (members: &Vec<Type>)
        ensures
            models_of(members@) == self.model(),
    {
        &self.members
    }
}

/// Clones every type in a vector, preserving the models elementwise.
fn clone_types(types: &Vec<Type>) -> (result: Vec<Type>)
    ensures
        models_of(result@) == models_of(types@),
    decreases types,
{
    let mut result: Vec<Type> = Vec::new();
    let mut i: usize = 0;
    while i < types.len()
        invariant
            i <= types@.len(),
            models_of(result@) =~= models_of(types@).take(i as int),
        decreases types@.len() - i,
    {
        let ghost before = result@;
        let cloned = types[i].clone();
        result.push(cloned);
        proof {
            assert(result@ == before.push(cloned));
            assert(models_of(before) =~= models_of(types@).take(i as int));
            assert(models_of(before).len() == before.len());
            assert(result@.len() == i + 1);
            assert forall|j: int| 0 <= j < result@.len() implies models_of(result@)[j]
                == models_of(types@).take(i + 1)[j] by {
                assert(models_of(before) =~= models_of(types@).take(i as int));
                assert(models_of(types@).take(i as int).len() == i);
                assert(models_of(before).len() == before.len());
                if j < i {
                    assert(result@[j] == before[j]);
                    assert(before[j].model() == models_of(before)[j]);
                } else {
                    assert(before.push(cloned)[before.len() as int] == cloned);
                    assert(result@[j] == cloned);
                }
            }
            assert(models_of(result@) =~= models_of(types@).take(i + 1));
        }
        i = i + 1;
    }
    proof {
        assert(models_of(types@).take(types@.len() as int) =~= models_of(types@));
    }
    result
}

impl Clone for Pointer {
    fn clone(&self) -> (result: Self)
        ensures
            result.model() == self.model(),
        decreases self,
    {
        Pointer { element: Box::new((*self.element).clone()) }
    }
}

impl Clone for Function {
    fn clone(&self) -> (result: Self)
        ensures
            result.model() == self.model(),
        decreases self,
    {
        let arguments = clone_types(&self.arguments);
        Function {
            arguments,
            result: Box::new((*self.result).clone()),
            calling_convention: self.calling_convention,
        }
    }
}

impl Clone for Record {
    fn clone(&self) -> (result: Self)
        ensures
            result.model() == self.model(),
        decreases self,
    {
        Record { elements: clone_types(&self.elements) }
    }
}

impl Clone for Union {
    fn clone(&self) -> (result: Self)
        ensures
            result.model() == self.model(),
        decreases self,
    {
        Union { members: clone_types(&self.members) }
    }
}

impl Clone for Type {
    fn clone(&self) -> (result: Self)
        ensures
            result.model() == self.model(),
        decreases self,
    {
        proof {
            broadcast use lemma_model_function, lemma_model_pointer, lemma_model_record, lemma_model_union;
        }
        match self {
            Type::Function(function) => Type::Function(function.clone()),
            Type::Primitive(primitive) => Type::Primitive(*primitive),
            Type::Pointer(pointer) => Type::Pointer(pointer.clone()),
            Type::Record(record) => Type::Record(record.clone()),
            Type::Union(union_) => Type::Union(union_.clone()),
        }
    }
}

/// `Type::model` agrees with the wrapped function type's own model.
pub broadcast proof fn lemma_model_function(function: Function)
    ensures
        (#[trigger] Type::Function(function).model()) == TypeModel::Function(function.model()),
{
    assert(Type::Function(function).model()->Function_0.arguments =~= models_of(function.arguments@));
}

/// `Type::model` agrees with the wrapped pointer type's own model.
pub broadcast proof fn lemma_model_pointer(pointer: Pointer)
    ensures
        (#[trigger] Type::Pointer(pointer).model()) == pointer.model(),
{
}

/// `Type::model` agrees with the wrapped record type's own model.
pub broadcast proof fn lemma_model_record(record: Record)
    ensures
        (#[trigger] Type::Record(record).model()) == TypeModel::Record(record.model()),
{
    assert(Type::Record(record).model()->Record_0 =~= models_of(record.elements@));
}

/// `Type::model` agrees with the wrapped union type's own model.
pub broadcast proof fn lemma_model_union(union_: Union)
    ensures
        (#[trigger] Type::Union(union_).model()) == TypeModel::Union(union_.model()),
{
    assert(Type::Union(union_).model()->Union_0 =~= models_of(union_.members@));
}

/// The type of values carrying no information: the empty record.
pub fn void_type() -> (record: Record)
    ensures
        record.model() == Seq::<TypeModel>::empty(),
{
    let record = Record::new(Vec::new());
    proof {
        assert(models_of(Seq::<Type>::empty()) =~= Seq::<TypeModel>::empty());
    }
    record
}

/// The model of the void type.
pub open spec fn void_type_model() -> TypeModel {
    TypeModel::Record(Seq::<TypeModel>::empty())
}

} // verus!
