//! The type expression model: the closed grammar that the walker recognises.
use vstd::prelude::*;

verus! {

/// How many elements an array or sequence type holds.
#[derive(Debug, PartialEq, Eq)]
pub enum Arity {
    /// A sequence of any length, such as a slice.
    Unbounded,
    /// An array whose length is a known number.
    Fixed(usize),
    /// An array whose length is written as an expression, kept as text.
    Symbolic(String),
}

/// One entry of a leaf's angle-bracketed argument list.
#[derive(Debug, PartialEq, Eq)]
pub enum GenericArgument {
    /// A type-valued argument.
    Type(TypeExpr),
    /// A lifetime, constant or other argument that is no type, kept as text.
    Other(String),
}

/// A type expression, compared by structure alone.
#[derive(Debug, PartialEq, Eq)]
pub enum TypeExpr {
    /// A named type with its generic arguments in declared order.
    Leaf { name: String, arguments: Vec<GenericArgument> },
    /// A named type whose arguments are written as a call signature.
    Signature { name: String, inputs: Vec<TypeExpr>, output: Option<Box<TypeExpr>> },
    /// An array or sequence of one element type.
    Array { element: Box<TypeExpr>, arity: Arity },
    /// An ordered list of element types.
    Tuple { elements: Vec<TypeExpr> },
    /// A single wrapped type that adds no level of nesting.
    Group { inner: Box<TypeExpr> },
    /// A shared or exclusive reference to one type, with the lifetime that
    /// is written for it, if one is.
    Reference { exclusive: bool, lifetime: Option<String>, referent: Box<TypeExpr> },
    /// An ordered list of bounds, each written as a leaf or a signature.
    BoundList { bounds: Vec<TypeExpr> },
    /// The uninhabited type.
    Never,
    /// Any other shape, kept as text.
    Unsupported { text: String },
}

/// Mathematical model of [`Arity`].
pub enum ArityModel {
    Unbounded,
    Fixed(nat),
    Symbolic(Seq<char>),
}

/// Mathematical model of [`GenericArgument`].
pub enum ArgumentModel {
    Type(TypeModel),
    Other(Seq<char>),
}

/// Mathematical model of [`TypeExpr`].
pub enum TypeModel {
    Leaf { name: Seq<char>, arguments: Seq<ArgumentModel> },
    Signature { name: Seq<char>, inputs: Seq<TypeModel>, output: Option<Box<TypeModel>> },
    Array { element: Box<TypeModel>, arity: ArityModel },
    Tuple { elements: Seq<TypeModel> },
    Group { inner: Box<TypeModel> },
    Reference { exclusive: bool, lifetime: Option<Seq<char>>, referent: Box<TypeModel> },
    BoundList { bounds: Seq<TypeModel> },
    Never,
    Unsupported { text: Seq<char> },
}

impl View for Arity {
    type V = ArityModel;

    open spec fn view(&self) -> ArityModel {
        match self {
            Arity::Unbounded => ArityModel::Unbounded,
            Arity::Fixed(n) => ArityModel::Fixed(*n as nat),
            Arity::Symbolic(text) => ArityModel::Symbolic(text@),
        }
    }
}

/// The models of a sequence of type expressions, in order.
pub open spec fn type_models(types: Seq<TypeExpr>) -> Seq<TypeModel>
    decreases types,
{
    Seq::new(
        types.len(),
        |i: int|
            if 0 <= i < types.len() {
                types[i].model()
            } else {
                TypeModel::Never
            },
    )
}

/// The models of a sequence of generic arguments, in order.
pub open spec fn argument_models(arguments: Seq<GenericArgument>) -> Seq<ArgumentModel>
    decreases arguments,
{
    Seq::new(
        arguments.len(),
        |i: int|
            if 0 <= i < arguments.len() {
                arguments[i].model()
            } else {
                ArgumentModel::Other(Seq::empty())
            },
    )
}

impl GenericArgument {
    pub open spec fn model(self) -> ArgumentModel
        decreases self,
    {
        match self {
            GenericArgument::Type(ty) => ArgumentModel::Type(ty.model()),
            GenericArgument::Other(text) => ArgumentModel::Other(text@),
        }
    }
}

impl TypeExpr {
    pub open spec fn model(self) -> TypeModel
        decreases self,
    {
        match self {
            TypeExpr::Leaf { name, arguments } => TypeModel::Leaf {
                name: name@,
                arguments: argument_models(arguments@),
            },
            TypeExpr::Signature { name, inputs, output } => TypeModel::Signature {
                name: name@,
                inputs: type_models(inputs@),
                output: match output {
                    Some(ty) => Some(Box::new(ty.model())),
                    None => None,
                },
            },
            TypeExpr::Array { element, arity } => TypeModel::Array {
                element: Box::new(element.model()),
                arity: arity@,
            },
            TypeExpr::Tuple { elements } => TypeModel::Tuple { elements: type_models(elements@) },
            TypeExpr::Group { inner } => TypeModel::Group { inner: Box::new(inner.model()) },
            TypeExpr::Reference { exclusive, lifetime, referent } => TypeModel::Reference {
                exclusive,
                lifetime: match lifetime {
                    Some(name) => Some(name@),
                    None => None,
                },
                referent: Box::new(referent.model()),
            },
            TypeExpr::BoundList { bounds } => TypeModel::BoundList { bounds: type_models(bounds@) },
            TypeExpr::Never => TypeModel::Never,
            TypeExpr::Unsupported { text } => TypeModel::Unsupported { text: text@ },
        }
    }
}

impl View for GenericArgument {
    type V = ArgumentModel;

    open spec fn view(&self) -> ArgumentModel {
        self.model()
    }
}

impl View for TypeExpr {
    type V = TypeModel;

    open spec fn view(&self) -> TypeModel {
        self.model()
    }
}

impl Arity {
    /// Structural equality.
    pub fn same(&self, other: &Arity) -> (b: bool)
        ensures
            b == (self@ == other@),
    {
        match (self, other) {
            (Arity::Unbounded, Arity::Unbounded) => true,
            (Arity::Fixed(m), Arity::Fixed(n)) => *m == *n,
            (Arity::Symbolic(s), Arity::Symbolic(t)) => *s == *t,
            _ => false,
        }
    }
}

/// Structural equality of two lists of type expressions.
fn same_types(left: &Vec<TypeExpr>, right: &Vec<TypeExpr>) -> (b: bool)
    ensures
        b == (type_models(left@) == type_models(right@)),
    decreases left,
{
    if left.len() != right.len() {
        assert(type_models(left@).len() != type_models(right@).len());
        return false;
    }
    let mut i: usize = 0;
    while i < left.len()
        invariant
            i <= left.len(),
            left.len() == right.len(),
            forall|j: int| 0 <= j < i ==> left@[j]@ == right@[j]@,
        decreases left.len() - i,
    {
        if !left[i].same(&right[i]) {
            assert(type_models(left@)[i as int] != type_models(right@)[i as int]);
            return false;
        }
        i += 1;
    }
    assert(type_models(left@) =~= type_models(right@));
    true
}

/// Structural equality of two argument lists.
fn same_arguments(left: &Vec<GenericArgument>, right: &Vec<GenericArgument>) -> (b: bool)
    ensures
        b == (argument_models(left@) == argument_models(right@)),
    decreases left,
{
    if left.len() != right.len() {
        assert(argument_models(left@).len() != argument_models(right@).len());
        return false;
    }
    let mut i: usize = 0;
    while i < left.len()
        invariant
            i <= left.len(),
            left.len() == right.len(),
            forall|j: int| 0 <= j < i ==> left@[j]@ == right@[j]@,
        decreases left.len() - i,
    {
        if !left[i].same(&right[i]) {
            assert(argument_models(left@)[i as int] != argument_models(right@)[i as int]);
            return false;
        }
        i += 1;
    }
    assert(argument_models(left@) =~= argument_models(right@));
    true
}

impl GenericArgument {
    /// Structural equality.
    pub fn same(&self, other: &GenericArgument) -> (b: bool)
        ensures
            b == (self@ == other@),
        decreases self,
    {
        match (self, other) {
            (GenericArgument::Type(s), GenericArgument::Type(t)) => s.same(t),
            (GenericArgument::Other(s), GenericArgument::Other(t)) => *s == *t,
            _ => false,
        }
    }
}

impl TypeExpr {
    /// Structural equality: the two expressions have the same shape and the
    /// same names, arguments and texts throughout.
    pub fn same(&self, other: &TypeExpr) -> (b: bool)
        ensures
            b == (self@ == other@),
        decreases self,
    {
        match (self, other) {
            (
                TypeExpr::Leaf { name: n1, arguments: a1 },
                TypeExpr::Leaf { name: n2, arguments: a2 },
            ) => *n1 == *n2 && same_arguments(a1, a2),
            (
                TypeExpr::Signature { name: n1, inputs: i1, output: o1 },
                TypeExpr::Signature { name: n2, inputs: i2, output: o2 },
            ) => {
                let outputs = match (o1, o2) {
                    (Some(s), Some(t)) => s.same(t),
                    (None, None) => true,
                    _ => false,
                };
                *n1 == *n2 && same_types(i1, i2) && outputs
            },
            (
                TypeExpr::Array { element: e1, arity: a1 },
                TypeExpr::Array { element: e2, arity: a2 },
            ) => e1.same(e2) && a1.same(a2),
            (TypeExpr::Tuple { elements: e1 }, TypeExpr::Tuple { elements: e2 }) => same_types(
                e1,
                e2,
            ),
            (TypeExpr::Group { inner: i1 }, TypeExpr::Group { inner: i2 }) => i1.same(i2),
            (
                TypeExpr::Reference { exclusive: x1, lifetime: l1, referent: r1 },
                TypeExpr::Reference { exclusive: x2, lifetime: l2, referent: r2 },
            ) => {
                let lifetimes = match (l1, l2) {
                    (Some(s), Some(t)) => *s == *t,
                    (None, None) => true,
                    _ => false,
                };
                *x1 == *x2 && lifetimes && r1.same(r2)
            },
            (TypeExpr::BoundList { bounds: b1 }, TypeExpr::BoundList { bounds: b2 }) => same_types(
                b1,
                b2,
            ),
            (TypeExpr::Never, TypeExpr::Never) => true,
            (TypeExpr::Unsupported { text: t1 }, TypeExpr::Unsupported { text: t2 }) => *t1 == *t2,
            _ => false,
        }
    }
}

impl Clone for Arity {
    fn clone(&self) -> (copy: Self)
        ensures
            copy@ == self@,
    {
        match self {
            Arity::Unbounded => Arity::Unbounded,
            Arity::Fixed(n) => Arity::Fixed(*n),
            Arity::Symbolic(text) => Arity::Symbolic(text.clone()),
        }
    }
}

/// A copy of a list of type expressions.
fn clone_types(types: &Vec<TypeExpr>) -> (copy: Vec<TypeExpr>)
    ensures
        type_models(copy@) == type_models(types@),
    decreases types,
{
    let mut copy: Vec<TypeExpr> = Vec::new();
    let mut i: usize = 0;
    while i < types.len()
        invariant
            i <= types.len(),
            copy.len() == i,
            forall|j: int| 0 <= j < i ==> copy@[j]@ == types@[j]@,
        decreases types.len() - i,
    {
        copy.push(types[i].clone());
        i += 1;
    }
    assert(type_models(copy@) =~= type_models(types@));
    copy
}

/// A copy of an argument list.
fn clone_arguments(arguments: &Vec<GenericArgument>) -> (copy: Vec<GenericArgument>)
    ensures
        argument_models(copy@) == argument_models(arguments@),
    decreases arguments,
{
    let mut copy: Vec<GenericArgument> = Vec::new();
    let mut i: usize = 0;
    while i < arguments.len()
        invariant
            i <= arguments.len(),
            copy.len() == i,
            forall|j: int| 0 <= j < i ==> copy@[j]@ == arguments@[j]@,
        decreases arguments.len() - i,
    {
        copy.push(arguments[i].clone());
        i += 1;
    }
    assert(argument_models(copy@) =~= argument_models(arguments@));
    copy
}

impl Clone for GenericArgument {
    fn clone(&self) -> (copy: Self)
        ensures
            copy@ == self@,
        decreases self,
    {
        match self {
            GenericArgument::Type(ty) => GenericArgument::Type(ty.clone()),
            GenericArgument::Other(text) => GenericArgument::Other(text.clone()),
        }
    }
}

impl Clone for TypeExpr {
    fn clone(&self) -> (copy: Self)
        ensures
            copy@ == self@,
        decreases self,
    {
        match self {
            TypeExpr::Leaf { name, arguments } => TypeExpr::Leaf {
                name: name.clone(),
                arguments: clone_arguments(arguments),
            },
            TypeExpr::Signature { name, inputs, output } => TypeExpr::Signature {
                name: name.clone(),
                inputs: clone_types(inputs),
                output: match output {
                    Some(ty) => Some(Box::new((&**ty).clone())),
                    None => None,
                },
            },
            TypeExpr::Array { element, arity } => TypeExpr::Array {
                element: Box::new((&**element).clone()),
                arity: arity.clone(),
            },
            TypeExpr::Tuple { elements } => TypeExpr::Tuple { elements: clone_types(elements) },
            TypeExpr::Group { inner } => TypeExpr::Group { inner: Box::new((&**inner).clone()) },
            TypeExpr::Reference { exclusive, lifetime, referent } => TypeExpr::Reference {
                exclusive: *exclusive,
                lifetime: match lifetime {
                    Some(name) => Some(name.clone()),
                    None => None,
                },
                referent: Box::new((&**referent).clone()),
            },
            TypeExpr::BoundList { bounds } => TypeExpr::BoundList { bounds: clone_types(bounds) },
            TypeExpr::Never => TypeExpr::Never,
            TypeExpr::Unsupported { text } => TypeExpr::Unsupported { text: text.clone() },
        }
    }
}

} // verus!
