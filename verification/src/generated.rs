//! Accessors, generated expressions and classification errors.
use crate::types::{TypeExpr, TypeModel};
use vstd::prelude::*;

verus! {

/// How to read the datum that is being visited. The walker composes
/// accessors and never looks inside one.
#[derive(Debug, PartialEq, Eq)]
pub enum Accessor {
    /// A place named by the caller, kept as text.
    Place(String),
    /// The element that an enclosing traversal helper hands to its body.
    Element,
    /// One dereference step in front of another accessor.
    Deref(Box<Accessor>),
    /// A shared or exclusive borrow of what another accessor reads.
    Borrow { exclusive: bool, place: Box<Accessor> },
}

/// Mathematical model of [`Accessor`].
pub enum AccessorModel {
    Place(Seq<char>),
    Element,
    Deref(Box<AccessorModel>),
    Borrow { exclusive: bool, place: Box<AccessorModel> },
}

impl Accessor {
    pub open spec fn model(self) -> AccessorModel
        decreases self,
    {
        match self {
            Accessor::Place(text) => AccessorModel::Place(text@),
            Accessor::Element => AccessorModel::Element,
            Accessor::Deref(inner) => AccessorModel::Deref(Box::new(inner.model())),
            Accessor::Borrow { exclusive, place } => AccessorModel::Borrow {
                exclusive,
                place: Box::new(place.model()),
            },
        }
    }
}

impl View for Accessor {
    type V = AccessorModel;

    open spec fn view(&self) -> AccessorModel {
        self.model()
    }
}

impl Clone for Accessor {
    fn clone(&self) -> (copy: Self)
        ensures
            copy@ == self@,
        decreases self,
    {
        match self {
            Accessor::Place(text) => Accessor::Place(text.clone()),
            Accessor::Element => Accessor::Element,
            Accessor::Deref(inner) => Accessor::Deref(Box::new((&**inner).clone())),
            Accessor::Borrow { exclusive, place } => Accessor::Borrow {
                exclusive: *exclusive,
                place: Box::new((&**place).clone()),
            },
        }
    }
}

/// How a capability reaches what it reads: by shared reference, by
/// exclusive reference, or by value.
#[derive(Clone, Copy, Debug, PartialEq, Eq, Structural)]
pub enum Traversal {
    Shared,
    Exclusive,
    Consuming,
}

/// A reference to a helper operation that is declared elsewhere for one
/// argument position of a container type.
#[derive(Debug, PartialEq, Eq)]
pub struct Helper {
    /// The namespace that qualifies the reference.
    pub namespace: String,
    /// The container type that declares the helper.
    pub container: TypeExpr,
    /// The argument position that the helper is declared for.
    pub index: usize,
}

/// Mathematical model of [`Helper`].
pub struct HelperModel {
    pub namespace: Seq<char>,
    pub container: TypeModel,
    pub index: nat,
}

impl View for Helper {
    type V = HelperModel;

    open spec fn view(&self) -> HelperModel {
        HelperModel { namespace: self.namespace@, container: self.container@, index: self.index as nat }
    }
}

impl Clone for Helper {
    fn clone(&self) -> (copy: Self)
        ensures
            copy@ == self@,
    {
        Helper {
            namespace: self.namespace.clone(),
            container: self.container.clone(),
            index: self.index,
        }
    }
}

/// An expression produced by a capability. The walker combines such
/// expressions and never interprets one.
#[derive(Debug, PartialEq, Eq)]
pub enum Generated {
    /// A count that is known when the expression is written.
    Count(usize),
    /// The sum of two counts.
    Sum(Box<Generated>, Box<Generated>),
    /// The declared minimum count of a container position, times the count
    /// of each element.
    Scaled { helper: Helper, inner: Box<Generated> },
    /// An upper limit that is known when the expression is written.
    Limit(usize),
    /// The sum of two limits, unbounded if either is.
    LimitSum(Box<Generated>, Box<Generated>),
    /// The declared maximum count of a container position, times the limit
    /// of each element, unbounded if either is.
    LimitScaled { helper: Helper, inner: Box<Generated> },
    /// The sum, over the live elements of a container position, of the count
    /// of each element.
    Tally { helper: Helper, source: Accessor, inner: Box<Generated> },
    /// The sequence without elements.
    Empty,
    /// The sequence of one element, read through the accessor.
    Once(Accessor),
    /// One sequence followed by another.
    Chain(Box<Generated>, Box<Generated>),
    /// The sequences of the live elements of a container position, one after
    /// another.
    Flatten {
        traversal: Traversal,
        helper: Helper,
        element: TypeExpr,
        source: Accessor,
        inner: Box<Generated>,
    },
    /// The smaller of two counts.
    Least(Box<Generated>, Box<Generated>),
    /// The larger of two limits, unbounded if either is.
    Greatest(Box<Generated>, Box<Generated>),
    /// The type of the sequence without elements, whose items would be
    /// references of the given lifetime to the given type.
    EmptyType { traversal: Traversal, lifetime: String, item: TypeExpr },
    /// The type of the sequence of one such reference.
    OnceType { traversal: Traversal, lifetime: String, item: TypeExpr },
    /// The type of one sequence followed by another.
    ChainType(Box<Generated>, Box<Generated>),
    /// The type of the sequences of the elements of a container position,
    /// one after another.
    FlattenType {
        traversal: Traversal,
        lifetime: String,
        helper: Helper,
        element: TypeExpr,
        inner: Box<Generated>,
    },
}

/// Mathematical model of [`Generated`].
pub enum GeneratedModel {
    Count(nat),
    Sum(Box<GeneratedModel>, Box<GeneratedModel>),
    Scaled { helper: HelperModel, inner: Box<GeneratedModel> },
    Limit(nat),
    LimitSum(Box<GeneratedModel>, Box<GeneratedModel>),
    LimitScaled { helper: HelperModel, inner: Box<GeneratedModel> },
    Tally { helper: HelperModel, source: AccessorModel, inner: Box<GeneratedModel> },
    Empty,
    Once(AccessorModel),
    Chain(Box<GeneratedModel>, Box<GeneratedModel>),
    Flatten {
        traversal: Traversal,
        helper: HelperModel,
        element: TypeModel,
        source: AccessorModel,
        inner: Box<GeneratedModel>,
    },
    Least(Box<GeneratedModel>, Box<GeneratedModel>),
    Greatest(Box<GeneratedModel>, Box<GeneratedModel>),
    EmptyType { traversal: Traversal, lifetime: Seq<char>, item: TypeModel },
    OnceType { traversal: Traversal, lifetime: Seq<char>, item: TypeModel },
    ChainType(Box<GeneratedModel>, Box<GeneratedModel>),
    FlattenType {
        traversal: Traversal,
        lifetime: Seq<char>,
        helper: HelperModel,
        element: TypeModel,
        inner: Box<GeneratedModel>,
    },
}

impl Generated {
    pub open spec fn model(self) -> GeneratedModel
        decreases self,
    {
        match self {
            Generated::Count(n) => GeneratedModel::Count(n as nat),
            Generated::Sum(a, b) => GeneratedModel::Sum(Box::new(a.model()), Box::new(b.model())),
            Generated::Scaled { helper, inner } => GeneratedModel::Scaled {
                helper: helper@,
                inner: Box::new(inner.model()),
            },
            Generated::Limit(n) => GeneratedModel::Limit(n as nat),
            Generated::LimitSum(a, b) => GeneratedModel::LimitSum(
                Box::new(a.model()),
                Box::new(b.model()),
            ),
            Generated::LimitScaled { helper, inner } => GeneratedModel::LimitScaled {
                helper: helper@,
                inner: Box::new(inner.model()),
            },
            Generated::Tally { helper, source, inner } => GeneratedModel::Tally {
                helper: helper@,
                source: source@,
                inner: Box::new(inner.model()),
            },
            Generated::Empty => GeneratedModel::Empty,
            Generated::Once(accessor) => GeneratedModel::Once(accessor@),
            Generated::Chain(a, b) => GeneratedModel::Chain(
                Box::new(a.model()),
                Box::new(b.model()),
            ),
            Generated::Flatten { traversal, helper, element, source, inner } => {
                GeneratedModel::Flatten {
                    traversal,
                    helper: helper@,
                    element: element@,
                    source: source@,
                    inner: Box::new(inner.model()),
                }
            },
            Generated::Least(a, b) => GeneratedModel::Least(
                Box::new(a.model()),
                Box::new(b.model()),
            ),
            Generated::Greatest(a, b) => GeneratedModel::Greatest(
                Box::new(a.model()),
                Box::new(b.model()),
            ),
            Generated::EmptyType { traversal, lifetime, item } => GeneratedModel::EmptyType {
                traversal,
                lifetime: lifetime@,
                item: item@,
            },
            Generated::OnceType { traversal, lifetime, item } => GeneratedModel::OnceType {
                traversal,
                lifetime: lifetime@,
                item: item@,
            },
            Generated::ChainType(a, b) => GeneratedModel::ChainType(
                Box::new(a.model()),
                Box::new(b.model()),
            ),
            Generated::FlattenType { traversal, lifetime, helper, element, inner } => {
                GeneratedModel::FlattenType {
                    traversal,
                    lifetime: lifetime@,
                    helper: helper@,
                    element: element@,
                    inner: Box::new(inner.model()),
                }
            },
        }
    }
}

impl View for Generated {
    type V = GeneratedModel;

    open spec fn view(&self) -> GeneratedModel {
        self.model()
    }
}

impl Clone for Generated {
    fn clone(&self) -> (copy: Self)
        ensures
            copy@ == self@,
        decreases self,
    {
        match self {
            Generated::Count(n) => Generated::Count(*n),
            Generated::Sum(a, b) => Generated::Sum(
                Box::new((&**a).clone()),
                Box::new((&**b).clone()),
            ),
            Generated::Scaled { helper, inner } => Generated::Scaled {
                helper: helper.clone(),
                inner: Box::new((&**inner).clone()),
            },
            Generated::Limit(n) => Generated::Limit(*n),
            Generated::LimitSum(a, b) => Generated::LimitSum(
                Box::new((&**a).clone()),
                Box::new((&**b).clone()),
            ),
            Generated::LimitScaled { helper, inner } => Generated::LimitScaled {
                helper: helper.clone(),
                inner: Box::new((&**inner).clone()),
            },
            Generated::Tally { helper, source, inner } => Generated::Tally {
                helper: helper.clone(),
                source: source.clone(),
                inner: Box::new((&**inner).clone()),
            },
            Generated::Empty => Generated::Empty,
            Generated::Once(accessor) => Generated::Once(accessor.clone()),
            Generated::Chain(a, b) => Generated::Chain(
                Box::new((&**a).clone()),
                Box::new((&**b).clone()),
            ),
            Generated::Flatten { traversal, helper, element, source, inner } => Generated::Flatten {
                traversal: *traversal,
                helper: helper.clone(),
                element: element.clone(),
                source: source.clone(),
                inner: Box::new((&**inner).clone()),
            },
            Generated::Least(a, b) => Generated::Least(
                Box::new((&**a).clone()),
                Box::new((&**b).clone()),
            ),
            Generated::Greatest(a, b) => Generated::Greatest(
                Box::new((&**a).clone()),
                Box::new((&**b).clone()),
            ),
            Generated::EmptyType { traversal, lifetime, item } => Generated::EmptyType {
                traversal: *traversal,
                lifetime: lifetime.clone(),
                item: item.clone(),
            },
            Generated::OnceType { traversal, lifetime, item } => Generated::OnceType {
                traversal: *traversal,
                lifetime: lifetime.clone(),
                item: item.clone(),
            },
            Generated::ChainType(a, b) => Generated::ChainType(
                Box::new((&**a).clone()),
                Box::new((&**b).clone()),
            ),
            Generated::FlattenType { traversal, lifetime, helper, element, inner } => {
                Generated::FlattenType {
                    traversal: *traversal,
                    lifetime: lifetime.clone(),
                    helper: helper.clone(),
                    element: element.clone(),
                    inner: Box::new((&**inner).clone()),
                }
            },
        }
    }
}

/// Why a derivation was refused.
#[derive(Clone, Copy, Debug, PartialEq, Eq, Structural)]
pub enum ErrorKind {
    /// A type expression of a shape outside the recognised grammar.
    UnsupportedTypeShape,
    /// The target occurs among the inputs of a call signature.
    AmbiguousClosureParametrization,
    /// The target occurs among the arguments of a bound.
    UnsupportedBoundParametrization,
    /// The target occurs behind a reference that the capability may not
    /// cross.
    CannotDescendReference,
    /// Variants were to be combined and there was none.
    EmptyVariantSet,
}

/// A refusal, with the place of the type expression that caused it.
#[derive(Debug, PartialEq, Eq)]
pub struct ClassificationError {
    pub kind: ErrorKind,
    /// The child positions that lead from the expression handed in to the
    /// offending one.
    pub position: Vec<usize>,
}

impl Clone for ClassificationError {
    fn clone(&self) -> (copy: Self)
        ensures
            copy@ == self@,
    {
        let mut position: Vec<usize> = Vec::new();
        let mut i: usize = 0;
        while i < self.position.len()
            invariant
                i <= self.position.len(),
                position@ == self.position@.take(i as int),
            decreases self.position.len() - i,
        {
            position.push(self.position[i]);
            assert(position@ =~= self.position@.take(i + 1));
            i += 1;
        }
        assert(position@ =~= self.position@);
        ClassificationError { kind: self.kind, position }
    }
}

/// Mathematical model of [`ClassificationError`].
pub struct ErrorModel {
    pub kind: ErrorKind,
    pub position: Seq<usize>,
}

impl View for ClassificationError {
    type V = ErrorModel;

    open spec fn view(&self) -> ErrorModel {
        ErrorModel { kind: self.kind, position: self.position@ }
    }
}

/// What a derivation yields: an expression, nothing where the target does
/// not occur, or a refusal.
pub type Outcome = Result<Option<Generated>, ClassificationError>;

/// Mathematical model of [`Outcome`].
pub type OutcomeModel = Result<Option<GeneratedModel>, ErrorModel>;

/// The model of an outcome.
pub open spec fn outcome_model(outcome: Outcome) -> OutcomeModel {
    match outcome {
        Ok(Some(generated)) => Ok(Some(generated@)),
        Ok(None) => Ok(None),
        Err(error) => Err(error@),
    }
}

/// The model of a result that is either a value or a refusal.
pub open spec fn result_model<T: View>(result: Result<T, ClassificationError>) -> Result<
    T::V,
    ErrorModel,
> {
    match result {
        Ok(value) => Ok(value@),
        Err(error) => Err(error@),
    }
}

} // verus!
