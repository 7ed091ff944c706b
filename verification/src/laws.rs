//! What holds of every derivation.
use crate::bounds::{DeclaredBoundModel, outcome_max, outcome_min};
use crate::catalog::{EmitIter, EmitLen, EmitMaxLen, EmitMinLen, Emitter};
use crate::generated::{AccessorModel, GeneratedModel};
use crate::types::{ArgumentModel, ArityModel, TypeModel};
use crate::walker::{Derivation, yields};
use vstd::prelude::*;

pub mod absence;
pub mod counts;
pub mod limits;
pub mod live;
pub mod occurrences;
pub mod references;
pub mod shapes;
pub mod verdict;

verus! {

/// The array of known length whose elements are of the given type.
pub open spec fn fixed_array(element: TypeModel, arity: nat) -> TypeModel {
    TypeModel::Array { element: Box::new(element), arity: ArityModel::Fixed(arity) }
}

/// The reference of the given kind and lifetime to the given type.
pub open spec fn reference_to(
    exclusive: bool,
    lifetime: Option<Seq<char>>,
    referent: TypeModel,
) -> TypeModel {
    TypeModel::Reference { exclusive, lifetime, referent: Box::new(referent) }
}

/// The named container with one argument, which is a type.
pub open spec fn container_of(name: Seq<char>, argument: TypeModel) -> TypeModel {
    TypeModel::Leaf { name, arguments: seq![ArgumentModel::Type(argument)] }
}

/// One more dereference step in front of an accessor.
pub open spec fn dereferenced(accessor: AccessorModel) -> AccessorModel {
    AccessorModel::Deref(Box::new(accessor))
}

/// Where the type is the target itself, every capability yields its leaf
/// value, read through the accessor that was handed in.
pub proof fn lemma_target_yields_leaf<K: Emitter>(derivation: Derivation<K>, accessor: AccessorModel)
    ensures
        derivation.walk(derivation.target, accessor) == yields(
            derivation.kind.leaf_value(accessor),
        ),
{
}

/// Where the type is the target itself, the minimum count, the maximum
/// count and the live count are one, and the shared iteration is the one
/// element that the accessor reads.
pub proof fn lemma_target_counts_once(
    namespace: Seq<char>,
    target: TypeModel,
    accessor: AccessorModel,
    entries: Seq<DeclaredBoundModel>,
)
    ensures
        outcome_min(Derivation::new(EmitMinLen, namespace, target).walk(target, accessor), entries)
            == Some(1nat),
        outcome_max(Derivation::new(EmitMaxLen, namespace, target).walk(target, accessor), entries)
            == Some(Some(1nat)),
        Derivation::new(EmitLen, namespace, target).walk(target, accessor) == yields(
            GeneratedModel::Count(1),
        ),
        Derivation::new(EmitIter, namespace, target).walk(target, accessor) == yields(
            GeneratedModel::Once(accessor),
        ),
{
}

} // verus!
