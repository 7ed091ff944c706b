//! How references are crossed, and what the accessor is to the static
//! counts.
use crate::catalog::{EmitIntoIter, EmitIterMut, EmitMaxLen, EmitMinLen, Emitter};
use crate::generated::{AccessorModel, ErrorKind, GeneratedModel};
use crate::laws::{dereferenced, lemma_target_yields_leaf, reference_to};
use crate::types::{ArgumentModel, TypeModel};
use crate::walker::{Derivation, lifted, raised, refuses, yields_nothing};
use vstd::prelude::*;

verus! {

/// Where the target is found behind a reference that the capability may not
/// cross, the derivation is refused at that reference.
pub proof fn lemma_forbidden_reference_refuses<K: Emitter>(
    derivation: Derivation<K>,
    exclusive: bool,
    lifetime: Option<Seq<char>>,
    referent: TypeModel,
    accessor: AccessorModel,
)
    requires
        !derivation.may_cross(exclusive),
        reference_to(exclusive, lifetime, referent) != derivation.target,
        derivation.walk(referent, accessor) is Ok,
        derivation.walk(referent, accessor) != yields_nothing(),
    ensures
        derivation.walk(reference_to(exclusive, lifetime, referent), accessor) == refuses(
            raised(ErrorKind::CannotDescendReference),
        ),
{
}

/// A shared reference to the target cannot be iterated by exclusive
/// reference, nor by value.
pub proof fn lemma_shared_reference_refuses_exclusive(
    namespace: Seq<char>,
    target: TypeModel,
    lifetime: Option<Seq<char>>,
    accessor: AccessorModel,
)
    ensures
        Derivation::new(EmitIterMut, namespace, target).walk(
            reference_to(false, lifetime, target),
            accessor,
        ) == refuses(raised(ErrorKind::CannotDescendReference)),
        Derivation::new(EmitIntoIter, namespace, target).walk(
            reference_to(false, lifetime, target),
            accessor,
        ) == refuses(raised(ErrorKind::CannotDescendReference)),
{
    let exclusive = Derivation::new(EmitIterMut, namespace, target);
    let consuming = Derivation::new(EmitIntoIter, namespace, target);
    lemma_target_yields_leaf(exclusive, accessor);
    lemma_target_yields_leaf(consuming, accessor);
    lemma_forbidden_reference_refuses(exclusive, false, lifetime, target, accessor);
    lemma_forbidden_reference_refuses(consuming, false, lifetime, target, accessor);
}

/// Whether what a capability yields never holds the accessor.
pub open spec fn ignores_accessor<K: Emitter>(kind: K) -> bool {
    &&& forall|a: AccessorModel, b: AccessorModel| #[trigger]
        kind.leaf_value(a) == #[trigger] kind.leaf_value(b)
    &&& forall|
        namespace: Seq<char>,
        container: TypeModel,
        index: nat,
        element: TypeModel,
        a: AccessorModel,
        b: AccessorModel,
        inner: GeneratedModel,
    | #[trigger]
        kind.nested(namespace, container, index, element, a, inner) == #[trigger] kind.nested(
            namespace,
            container,
            index,
            element,
            b,
            inner,
        )
}

proof fn lemma_blind_pure<K: Emitter>(
    derivation: Derivation<K>,
    ty: TypeModel,
    a: AccessorModel,
    b: AccessorModel,
)
    requires
        ignores_accessor(derivation.kind),
    ensures
        derivation.pure(ty, a) == derivation.pure(ty, b),
    decreases ty,
{
    if ty != derivation.target {
        match ty {
            TypeModel::Reference { exclusive, lifetime, referent } => {
                lemma_blind_pure(derivation, *referent, dereferenced(a), dereferenced(b));
            },
            _ => {},
        }
    }
}

/// Where what a capability yields never holds the accessor, the walk gives
/// the same outcome whatever accessor it is handed.
pub proof fn lemma_blind_walk<K: Emitter>(
    derivation: Derivation<K>,
    ty: TypeModel,
    a: AccessorModel,
    b: AccessorModel,
)
    requires
        ignores_accessor(derivation.kind),
    ensures
        derivation.walk(ty, a) == derivation.walk(ty, b),
    decreases ty, 0nat,
{
    lemma_blind_pure(derivation, ty, a, b);
    match ty {
        TypeModel::Group { inner } => {
            lemma_blind_walk(derivation, *inner, a, b);
        },
        TypeModel::Leaf { name, arguments } => {
            lemma_blind_arguments(derivation, ty, arguments, 0, None, a, b);
        },
        TypeModel::Reference { exclusive, lifetime, referent } => {
            lemma_blind_walk(derivation, *referent, a, b);
        },
        TypeModel::Tuple { elements } => {
            lemma_blind_types(derivation, ty, elements, 0, None, a, b);
        },
        _ => {},
    }
}

proof fn lemma_blind_types<K: Emitter>(
    derivation: Derivation<K>,
    container: TypeModel,
    types: Seq<TypeModel>,
    from: nat,
    acc: Option<GeneratedModel>,
    a: AccessorModel,
    b: AccessorModel,
)
    requires
        ignores_accessor(derivation.kind),
    ensures
        derivation.combine_types(container, types, from, acc, a) == derivation.combine_types(
            container,
            types,
            from,
            acc,
            b,
        ),
    decreases types.len() - from,
{
    if from < types.len() {
        let found = derivation.walk(types[from as int], AccessorModel::Element);
        match derivation.merged(container, from, types[from as int], a, acc, found) {
            Ok(next) => {
                lemma_blind_types(derivation, container, types, from + 1, next, a, b);
            },
            Err(error) => {},
        }
    }
}

proof fn lemma_blind_arguments<K: Emitter>(
    derivation: Derivation<K>,
    container: TypeModel,
    arguments: Seq<ArgumentModel>,
    from: nat,
    acc: Option<GeneratedModel>,
    a: AccessorModel,
    b: AccessorModel,
)
    requires
        ignores_accessor(derivation.kind),
    ensures
        derivation.combine_arguments(container, arguments, from, acc, a)
            == derivation.combine_arguments(container, arguments, from, acc, b),
    decreases arguments.len() - from,
{
    if from < arguments.len() {
        match arguments[from as int] {
            ArgumentModel::Type(ty) => {
                let found = derivation.walk(ty, AccessorModel::Element);
                match derivation.merged(container, from, ty, a, acc, found) {
                    Ok(next) => {
                        lemma_blind_arguments(derivation, container, arguments, from + 1, next, a, b);
                    },
                    Err(error) => {},
                }
            },
            ArgumentModel::Other(text) => {
                lemma_blind_arguments(derivation, container, arguments, from + 1, acc, a, b);
            },
        }
    }
}

/// The minimum and the maximum count do not depend on the accessor.
pub proof fn lemma_static_counts_ignore_accessor(
    namespace: Seq<char>,
    target: TypeModel,
    ty: TypeModel,
    a: AccessorModel,
    b: AccessorModel,
)
    ensures
        Derivation::new(EmitMinLen, namespace, target).walk(ty, a) == Derivation::new(
            EmitMinLen,
            namespace,
            target,
        ).walk(ty, b),
        Derivation::new(EmitMaxLen, namespace, target).walk(ty, a) == Derivation::new(
            EmitMaxLen,
            namespace,
            target,
        ).walk(ty, b),
{
    lemma_blind_walk(Derivation::new(EmitMinLen, namespace, target), ty, a, b);
    lemma_blind_walk(Derivation::new(EmitMaxLen, namespace, target), ty, a, b);
}

/// The minimum count of a reference is that of its referent, read through
/// one more dereference step; a refusal below the reference lies one
/// position deeper.
pub proof fn lemma_min_count_through_reference(
    namespace: Seq<char>,
    target: TypeModel,
    exclusive: bool,
    lifetime: Option<Seq<char>>,
    referent: TypeModel,
    accessor: AccessorModel,
)
    requires
        reference_to(exclusive, lifetime, referent) != target,
    ensures
        Derivation::new(EmitMinLen, namespace, target).walk(
            reference_to(exclusive, lifetime, referent),
            accessor,
        ) == lifted(
            0,
            Derivation::new(EmitMinLen, namespace, target).walk(referent, dereferenced(accessor)),
        ),
{
    let minimum = Derivation::new(EmitMinLen, namespace, target);
    lemma_blind_walk(minimum, referent, accessor, dereferenced(accessor));
}

} // verus!
