//! The static bounds: what a generated minimum or maximum count amounts to,
//! given the bounds that the containers declare.
use crate::generated::{Generated, GeneratedModel, OutcomeModel};
use crate::types::{Arity, ArityModel, TypeExpr, TypeModel};
use vstd::prelude::*;

verus! {

/// The bounds that a named container declares for one of its argument
/// positions.
#[derive(Debug, PartialEq, Eq)]
pub struct DeclaredBound {
    /// The name of the container.
    pub container: String,
    /// The argument position.
    pub index: usize,
    /// The fewest elements that the position holds.
    pub min_len: usize,
    /// The most elements that the position holds, `None` if unbounded.
    pub max_len: Option<usize>,
}

/// Mathematical model of [`DeclaredBound`].
pub struct DeclaredBoundModel {
    pub container: Seq<char>,
    pub index: nat,
    pub min_len: nat,
    pub max_len: Option<nat>,
}

impl View for DeclaredBound {
    type V = DeclaredBoundModel;

    open spec fn view(&self) -> DeclaredBoundModel {
        DeclaredBoundModel {
            container: self.container@,
            index: self.index as nat,
            min_len: self.min_len as nat,
            max_len: match self.max_len {
                Some(n) => Some(n as nat),
                None => None,
            },
        }
    }
}

/// The models of a list of declared bounds, in order.
pub open spec fn bound_models(entries: Seq<DeclaredBound>) -> Seq<DeclaredBoundModel> {
    Seq::new(entries.len(), |i: int| entries[i]@)
}

/// The first of the entries `from..` that is declared for the position.
pub open spec fn declared(
    entries: Seq<DeclaredBoundModel>,
    container: Seq<char>,
    index: nat,
    from: nat,
) -> Option<DeclaredBoundModel>
    decreases entries.len() - from,
{
    if from >= entries.len() {
        None
    } else if entries[from as int].container == container && entries[from as int].index == index {
        Some(entries[from as int])
    } else {
        declared(entries, container, index, from + 1)
    }
}

/// The fewest elements that a position of a container holds: the length of
/// an array of known length; one for each position of a tuple; what is
/// declared for a named container; and none where nothing is known.
pub open spec fn declared_min(
    entries: Seq<DeclaredBoundModel>,
    container: TypeModel,
    index: nat,
) -> nat {
    match container {
        TypeModel::Array { element, arity } => match arity {
            ArityModel::Fixed(n) => n,
            _ => 0,
        },
        TypeModel::Tuple { elements } => 1,
        TypeModel::Leaf { name, arguments } => match declared(entries, name, index, 0) {
            Some(bound) => bound.min_len,
            None => 0,
        },
        _ => 0,
    }
}

/// The most elements that a position of a container holds: the length of an
/// array of known length; one for each position of a tuple; what is declared
/// for a named container; and no bound where nothing is known.
pub open spec fn declared_max(
    entries: Seq<DeclaredBoundModel>,
    container: TypeModel,
    index: nat,
) -> Option<nat> {
    match container {
        TypeModel::Array { element, arity } => match arity {
            ArityModel::Fixed(n) => Some(n),
            _ => None,
        },
        TypeModel::Tuple { elements } => Some(1),
        TypeModel::Leaf { name, arguments } => match declared(entries, name, index, 0) {
            Some(bound) => bound.max_len,
            None => None,
        },
        _ => None,
    }
}

/// The smaller of two numbers.
pub open spec fn least(a: nat, b: nat) -> nat {
    if a < b {
        a
    } else {
        b
    }
}

/// The larger of two numbers.
pub open spec fn greatest(a: nat, b: nat) -> nat {
    if a > b {
        a
    } else {
        b
    }
}

/// What a generated minimum count amounts to. An expression that is no
/// count amounts to nothing.
pub open spec fn static_min(generated: GeneratedModel, entries: Seq<DeclaredBoundModel>) -> nat
    decreases generated,
{
    match generated {
        GeneratedModel::Count(n) => n,
        GeneratedModel::Sum(a, b) => static_min(*a, entries) + static_min(*b, entries),
        GeneratedModel::Scaled { helper, inner } => declared_min(
            entries,
            helper.container,
            helper.index,
        ) * static_min(*inner, entries),
        GeneratedModel::Least(a, b) => least(static_min(*a, entries), static_min(*b, entries)),
        _ => 0,
    }
}

/// What a generated maximum count amounts to, `None` for no bound. An
/// expression that is no limit amounts to no bound.
pub open spec fn static_max(generated: GeneratedModel, entries: Seq<DeclaredBoundModel>) -> Option<
    nat,
>
    decreases generated,
{
    match generated {
        GeneratedModel::Limit(n) => Some(n),
        GeneratedModel::LimitSum(a, b) => match (
            static_max(*a, entries),
            static_max(*b, entries),
        ) {
            (Some(l), Some(r)) => Some(l + r),
            _ => None,
        },
        GeneratedModel::LimitScaled { helper, inner } => match (
            declared_max(entries, helper.container, helper.index),
            static_max(*inner, entries),
        ) {
            (Some(l), Some(r)) => Some(l * r),
            _ => None,
        },
        GeneratedModel::Greatest(a, b) => match (
            static_max(*a, entries),
            static_max(*b, entries),
        ) {
            (Some(l), Some(r)) => Some(greatest(l, r)),
            _ => None,
        },
        _ => None,
    }
}

/// The product of a declared minimum and the count of each element, where
/// there is one.
pub open spec fn scaled_min(factor: nat, inner: Option<nat>) -> Option<nat> {
    match inner {
        Some(count) => Some(factor * count),
        None => None,
    }
}

/// The product of a declared maximum and the limit of each element, where
/// there is one: unbounded if either is.
pub open spec fn scaled_max(factor: Option<nat>, inner: Option<Option<nat>>) -> Option<Option<nat>> {
    match inner {
        Some(limit) => match (factor, limit) {
            (Some(l), Some(r)) => Some(Some(l * r)),
            _ => Some(None),
        },
        None => None,
    }
}

/// What the minimum count that a walk yields amounts to, where it yields
/// one.
pub open spec fn outcome_min(outcome: OutcomeModel, entries: Seq<DeclaredBoundModel>) -> Option<
    nat,
> {
    match outcome {
        Ok(Some(generated)) => Some(static_min(generated, entries)),
        _ => None,
    }
}

/// What the maximum count that a walk yields amounts to, where it yields
/// one: the inner `None` stands for no bound.
pub open spec fn outcome_max(outcome: OutcomeModel, entries: Seq<DeclaredBoundModel>) -> Option<
    Option<nat>,
> {
    match outcome {
        Ok(Some(generated)) => Some(static_max(generated, entries)),
        _ => None,
    }
}

/// Whether a minimum count can be computed with machine numbers: the
/// expression is a count, and no step of its computation exceeds the
/// largest machine number.
pub open spec fn min_fits(generated: GeneratedModel, entries: Seq<DeclaredBoundModel>) -> bool
    decreases generated,
{
    match generated {
        GeneratedModel::Count(n) => n <= usize::MAX,
        GeneratedModel::Sum(a, b) => {
            &&& min_fits(*a, entries)
            &&& min_fits(*b, entries)
            &&& static_min(*a, entries) + static_min(*b, entries) <= usize::MAX
        },
        GeneratedModel::Scaled { helper, inner } => {
            &&& min_fits(*inner, entries)
            &&& declared_min(entries, helper.container, helper.index) <= usize::MAX
            &&& declared_min(entries, helper.container, helper.index) * static_min(*inner, entries)
                <= usize::MAX
        },
        GeneratedModel::Least(a, b) => min_fits(*a, entries) && min_fits(*b, entries),
        _ => false,
    }
}

/// Whether a maximum count can be computed with machine numbers: the
/// expression is a limit, and no step of its computation exceeds the
/// largest machine number.
pub open spec fn max_fits(generated: GeneratedModel, entries: Seq<DeclaredBoundModel>) -> bool
    decreases generated,
{
    match generated {
        GeneratedModel::Limit(n) => n <= usize::MAX,
        GeneratedModel::LimitSum(a, b) => {
            &&& max_fits(*a, entries)
            &&& max_fits(*b, entries)
            &&& match (static_max(*a, entries), static_max(*b, entries)) {
                (Some(l), Some(r)) => l + r <= usize::MAX,
                _ => true,
            }
        },
        GeneratedModel::LimitScaled { helper, inner } => {
            &&& max_fits(*inner, entries)
            &&& match (
                declared_max(entries, helper.container, helper.index),
                static_max(*inner, entries),
            ) {
                (Some(l), Some(r)) => l <= usize::MAX && l * r <= usize::MAX,
                (Some(l), None) => l <= usize::MAX,
                _ => true,
            }
        },
        GeneratedModel::Greatest(a, b) => max_fits(*a, entries) && max_fits(*b, entries),
        _ => false,
    }
}

/// What a minimum count amounts to, where it can be computed with machine
/// numbers.
pub open spec fn fitting_min(generated: GeneratedModel, entries: Seq<DeclaredBoundModel>) -> Option<
    nat,
> {
    if min_fits(generated, entries) {
        Some(static_min(generated, entries))
    } else {
        None
    }
}

/// What a maximum count amounts to, where it can be computed with machine
/// numbers: the inner `None` stands for no bound.
pub open spec fn fitting_max(generated: GeneratedModel, entries: Seq<DeclaredBoundModel>) -> Option<
    Option<nat>,
> {
    if max_fits(generated, entries) {
        Some(static_max(generated, entries))
    } else {
        None
    }
}

/// The model of a machine number that may be absent.
pub open spec fn count_model(value: Option<usize>) -> Option<nat> {
    match value {
        Some(n) => Some(n as nat),
        None => None,
    }
}

/// The model of a computed limit that may be absent.
pub open spec fn limit_model(value: Option<Option<usize>>) -> Option<Option<nat>> {
    match value {
        Some(limit) => Some(count_model(limit)),
        None => None,
    }
}

/// The bounds that named containers declare. Where a position is declared
/// twice, the first entry counts.
#[derive(Debug, PartialEq, Eq)]
pub struct DeclaredBounds {
    pub entries: Vec<DeclaredBound>,
}

impl View for DeclaredBounds {
    type V = Seq<DeclaredBoundModel>;

    open spec fn view(&self) -> Seq<DeclaredBoundModel> {
        bound_models(self.entries@)
    }
}

impl DeclaredBounds {
    /// The place of the first entry that is declared for the position.
    fn find(&self, container: &String, index: usize) -> (place: Option<usize>)
        ensures
            match place {
                Some(i) => i < self.entries.len() && declared(
                    self@,
                    container@,
                    index as nat,
                    0,
                ) == Some(self@[i as int]),
                None => declared(self@, container@, index as nat, 0) is None,
            },
    {
        let mut i: usize = 0;
        while i < self.entries.len()
            invariant
                i <= self.entries.len(),
                declared(self@, container@, index as nat, 0) == declared(
                    self@,
                    container@,
                    index as nat,
                    i as nat,
                ),
            decreases self.entries.len() - i,
        {
            if self.entries[i].container == *container && self.entries[i].index == index {
                return Some(i);
            }
            i += 1;
        }
        None
    }

    /// The fewest elements that a position of a container holds.
    pub fn min_len(&self, container: &TypeExpr, index: usize) -> (count: usize)
        ensures
            count == declared_min(self@, container@, index as nat),
    {
        match container {
            TypeExpr::Array { element, arity } => match arity {
                Arity::Fixed(n) => *n,
                _ => 0,
            },
            TypeExpr::Tuple { elements } => 1,
            TypeExpr::Leaf { name, arguments } => match self.find(name, index) {
                Some(i) => self.entries[i].min_len,
                None => 0,
            },
            _ => 0,
        }
    }

    /// The most elements that a position of a container holds, `None` for
    /// no bound.
    pub fn max_len(&self, container: &TypeExpr, index: usize) -> (limit: Option<usize>)
        ensures
            count_model(limit) == declared_max(self@, container@, index as nat),
    {
        match container {
            TypeExpr::Array { element, arity } => match arity {
                Arity::Fixed(n) => Some(*n),
                _ => None,
            },
            TypeExpr::Tuple { elements } => Some(1),
            TypeExpr::Leaf { name, arguments } => match self.find(name, index) {
                Some(i) => self.entries[i].max_len,
                None => None,
            },
            _ => None,
        }
    }
}

impl Generated {
    /// Computes what a minimum count amounts to under the declared bounds.
    /// Yields nothing where the expression is no count, or where a step of
    /// the computation exceeds the largest machine number.
    pub fn min_value(&self, bounds: &DeclaredBounds) -> (value: Option<usize>)
        ensures
            count_model(value) == fitting_min(self@, bounds@),
        decreases self,
    {
        match self {
            Generated::Count(n) => Some(*n),
            Generated::Sum(a, b) => match (a.min_value(bounds), b.min_value(bounds)) {
                (Some(x), Some(y)) => x.checked_add(y),
                _ => None,
            },
            Generated::Scaled { helper, inner } => match inner.min_value(bounds) {
                Some(x) => bounds.min_len(&helper.container, helper.index).checked_mul(x),
                None => None,
            },
            Generated::Least(a, b) => match (a.min_value(bounds), b.min_value(bounds)) {
                (Some(x), Some(y)) => Some(if x < y { x } else { y }),
                _ => None,
            },
            _ => None,
        }
    }

    /// Computes what a maximum count amounts to under the declared bounds:
    /// the inner `None` stands for no bound. Yields nothing where the
    /// expression is no limit, or where a step of the computation exceeds
    /// the largest machine number.
    pub fn max_value(&self, bounds: &DeclaredBounds) -> (value: Option<Option<usize>>)
        ensures
            limit_model(value) == fitting_max(self@, bounds@),
        decreases self,
    {
        match self {
            Generated::Limit(n) => Some(Some(*n)),
            Generated::LimitSum(a, b) => match (a.max_value(bounds), b.max_value(bounds)) {
                (Some(Some(l)), Some(Some(r))) => match l.checked_add(r) {
                    Some(sum) => Some(Some(sum)),
                    None => None,
                },
                (Some(l), Some(r)) => Some(None),
                _ => None,
            },
            Generated::LimitScaled { helper, inner } => match inner.max_value(bounds) {
                Some(limit) => match (bounds.max_len(&helper.container, helper.index), limit) {
                    (Some(l), Some(r)) => match l.checked_mul(r) {
                        Some(product) => Some(Some(product)),
                        None => None,
                    },
                    _ => Some(None),
                },
                None => None,
            },
            Generated::Greatest(a, b) => match (a.max_value(bounds), b.max_value(bounds)) {
                (Some(Some(l)), Some(Some(r))) => Some(Some(if l > r { l } else { r })),
                (Some(l), Some(r)) => Some(None),
                _ => None,
            },
            _ => None,
        }
    }
}

} // verus!
