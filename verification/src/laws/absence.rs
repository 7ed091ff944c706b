//! Where the target does not occur, nothing is yielded.
use crate::catalog::Emitter;
use crate::generated::{AccessorModel, GeneratedModel};
use crate::laws::dereferenced;
use crate::types::{ArgumentModel, TypeModel};
use crate::walker::{Derivation, passes, sees, yields_nothing};
use vstd::prelude::*;

verus! {

/// Whether the target occurs in a type expression, at a position that the
/// walk visits.
pub open spec fn occurs(target: TypeModel, ty: TypeModel) -> bool
    decreases ty, 1nat,
{
    ty == target || match ty {
        TypeModel::Array { element, arity } => occurs(target, *element),
        TypeModel::Group { inner } => occurs(target, *inner),
        TypeModel::Leaf { name, arguments } => exists|i: int|
            0 <= i < arguments.len() && occurs_in_argument(target, #[trigger] arguments[i]),
        TypeModel::Signature { name, inputs, output } => exists|i: int|
            0 <= i < inputs.len() && occurs(target, #[trigger] inputs[i]),
        TypeModel::Reference { exclusive, lifetime, referent } => occurs(target, *referent),
        TypeModel::Tuple { elements } => exists|i: int|
            0 <= i < elements.len() && occurs(target, #[trigger] elements[i]),
        TypeModel::BoundList { bounds } => exists|i: int|
            0 <= i < bounds.len() && occurs_in_bound(target, #[trigger] bounds[i]),
        TypeModel::Never => false,
        TypeModel::Unsupported { text } => false,
    }
}

/// Whether the target occurs in one entry of an argument list.
pub open spec fn occurs_in_argument(target: TypeModel, argument: ArgumentModel) -> bool
    decreases argument, 0nat,
{
    match argument {
        ArgumentModel::Type(ty) => occurs(target, ty),
        ArgumentModel::Other(text) => false,
    }
}

/// Whether the target occurs among the arguments of one bound.
pub open spec fn occurs_in_bound(target: TypeModel, bound: TypeModel) -> bool
    decreases bound, 0nat,
{
    match bound {
        TypeModel::Leaf { name, arguments } => exists|i: int|
            0 <= i < arguments.len() && occurs_in_argument(target, #[trigger] arguments[i]),
        TypeModel::Signature { name, inputs, output } => {
            ||| exists|i: int| 0 <= i < inputs.len() && occurs(target, #[trigger] inputs[i])
            ||| match output {
                Some(ty) => occurs(target, *ty),
                None => false,
            }
        },
        _ => false,
    }
}

/// Whether every shape that the walk visits in a type expression is one of
/// the grammar.
pub open spec fn recognised(ty: TypeModel) -> bool
    decreases ty, 1nat,
{
    match ty {
        TypeModel::Array { element, arity } => recognised(*element),
        TypeModel::Group { inner } => recognised(*inner),
        TypeModel::Leaf { name, arguments } => forall|i: int|
            0 <= i < arguments.len() ==> recognised_argument(#[trigger] arguments[i]),
        TypeModel::Signature { name, inputs, output } => forall|i: int|
            0 <= i < inputs.len() ==> recognised(#[trigger] inputs[i]),
        TypeModel::Reference { exclusive, lifetime, referent } => recognised(*referent),
        TypeModel::Tuple { elements } => forall|i: int|
            0 <= i < elements.len() ==> recognised(#[trigger] elements[i]),
        TypeModel::BoundList { bounds } => forall|i: int|
            0 <= i < bounds.len() ==> recognised_bound(#[trigger] bounds[i]),
        TypeModel::Never => true,
        TypeModel::Unsupported { text } => false,
    }
}

/// Whether one entry of an argument list holds shapes of the grammar only.
pub open spec fn recognised_argument(argument: ArgumentModel) -> bool
    decreases argument, 0nat,
{
    match argument {
        ArgumentModel::Type(ty) => recognised(ty),
        ArgumentModel::Other(text) => true,
    }
}

/// Whether the arguments of one bound hold shapes of the grammar only.
pub open spec fn recognised_bound(bound: TypeModel) -> bool
    decreases bound, 0nat,
{
    match bound {
        TypeModel::Leaf { name, arguments } => forall|i: int|
            0 <= i < arguments.len() ==> recognised_argument(#[trigger] arguments[i]),
        TypeModel::Signature { name, inputs, output } => {
            &&& forall|i: int| 0 <= i < inputs.len() ==> recognised(#[trigger] inputs[i])
            &&& match output {
                Some(ty) => recognised(*ty),
                None => true,
            }
        },
        _ => true,
    }
}

proof fn lemma_absent_pure<K: Emitter>(
    derivation: Derivation<K>,
    ty: TypeModel,
    accessor: AccessorModel,
)
    requires
        !occurs(derivation.target, ty),
    ensures
        derivation.pure(ty, accessor) is None,
    decreases ty,
{
    match ty {
        TypeModel::Reference { exclusive, lifetime, referent } => {
            lemma_absent_pure(derivation, *referent, dereferenced(accessor));
        },
        _ => {},
    }
}

/// Where the target occurs nowhere in a type expression of the grammar,
/// every capability yields nothing, whatever the accessor.
pub proof fn lemma_absent_yields_nothing<K: Emitter>(
    derivation: Derivation<K>,
    ty: TypeModel,
    accessor: AccessorModel,
)
    requires
        !occurs(derivation.target, ty),
        recognised(ty),
    ensures
        derivation.walk(ty, accessor) == yields_nothing(),
    decreases ty, 0nat,
{
    lemma_absent_pure(derivation, ty, accessor);
    match ty {
        TypeModel::Array { element, arity } => {
            lemma_absent_yields_nothing(derivation, *element, AccessorModel::Element);
        },
        TypeModel::Group { inner } => {
            lemma_absent_yields_nothing(derivation, *inner, accessor);
        },
        TypeModel::Leaf { name, arguments } => {
            lemma_absent_arguments(derivation, ty, arguments, 0, None, accessor);
        },
        TypeModel::Signature { name, inputs, output } => {
            lemma_absent_scan_types(derivation, inputs, 0, false);
        },
        TypeModel::Reference { exclusive, lifetime, referent } => {
            lemma_absent_yields_nothing(derivation, *referent, accessor);
        },
        TypeModel::Tuple { elements } => {
            lemma_absent_types(derivation, ty, elements, 0, None, accessor);
        },
        TypeModel::BoundList { bounds } => {
            lemma_absent_scan_bounds(derivation, bounds, 0, false);
        },
        TypeModel::Never => {},
        TypeModel::Unsupported { text } => {},
    }
}

proof fn lemma_absent_types<K: Emitter>(
    derivation: Derivation<K>,
    container: TypeModel,
    types: Seq<TypeModel>,
    from: nat,
    acc: Option<GeneratedModel>,
    accessor: AccessorModel,
)
    requires
        forall|i: int| from <= i < types.len() ==> !occurs(derivation.target, #[trigger] types[i]),
        forall|i: int| from <= i < types.len() ==> recognised(#[trigger] types[i]),
    ensures
        derivation.combine_types(container, types, from, acc, accessor) == passes(acc),
    decreases types, types.len() - from,
{
    if from < types.len() {
        lemma_absent_yields_nothing(derivation, types[from as int], AccessorModel::Element);
        lemma_absent_types(derivation, container, types, from + 1, acc, accessor);
    }
}

proof fn lemma_absent_arguments<K: Emitter>(
    derivation: Derivation<K>,
    container: TypeModel,
    arguments: Seq<ArgumentModel>,
    from: nat,
    acc: Option<GeneratedModel>,
    accessor: AccessorModel,
)
    requires
        forall|i: int|
            from <= i < arguments.len() ==> !occurs_in_argument(
                derivation.target,
                #[trigger] arguments[i],
            ),
        forall|i: int| from <= i < arguments.len() ==> recognised_argument(#[trigger] arguments[i]),
    ensures
        derivation.combine_arguments(container, arguments, from, acc, accessor) == passes(acc),
    decreases arguments, arguments.len() - from,
{
    if from < arguments.len() {
        match arguments[from as int] {
            ArgumentModel::Type(ty) => {
                assert(!occurs_in_argument(derivation.target, arguments[from as int]));
                assert(recognised_argument(arguments[from as int]));
                lemma_absent_yields_nothing(derivation, ty, AccessorModel::Element);
            },
            ArgumentModel::Other(text) => {},
        }
        lemma_absent_arguments(derivation, container, arguments, from + 1, acc, accessor);
    }
}

proof fn lemma_absent_scan_types<K: Emitter>(
    derivation: Derivation<K>,
    types: Seq<TypeModel>,
    from: nat,
    seen: bool,
)
    requires
        forall|i: int| from <= i < types.len() ==> !occurs(derivation.target, #[trigger] types[i]),
        forall|i: int| from <= i < types.len() ==> recognised(#[trigger] types[i]),
    ensures
        derivation.scan_types(types, from, seen) == sees(seen),
    decreases types, types.len() - from,
{
    if from < types.len() {
        lemma_absent_yields_nothing(derivation, types[from as int], AccessorModel::Element);
        lemma_absent_scan_types(derivation, types, from + 1, seen);
    }
}

proof fn lemma_absent_scan_arguments<K: Emitter>(
    derivation: Derivation<K>,
    arguments: Seq<ArgumentModel>,
    from: nat,
    seen: bool,
)
    requires
        forall|i: int|
            from <= i < arguments.len() ==> !occurs_in_argument(
                derivation.target,
                #[trigger] arguments[i],
            ),
        forall|i: int| from <= i < arguments.len() ==> recognised_argument(#[trigger] arguments[i]),
    ensures
        derivation.scan_arguments(arguments, from, seen) == sees(seen),
    decreases arguments, arguments.len() - from,
{
    if from < arguments.len() {
        match arguments[from as int] {
            ArgumentModel::Type(ty) => {
                assert(!occurs_in_argument(derivation.target, arguments[from as int]));
                assert(recognised_argument(arguments[from as int]));
                lemma_absent_yields_nothing(derivation, ty, AccessorModel::Element);
            },
            ArgumentModel::Other(text) => {},
        }
        lemma_absent_scan_arguments(derivation, arguments, from + 1, seen);
    }
}

proof fn lemma_absent_scan_bound<K: Emitter>(derivation: Derivation<K>, bound: TypeModel)
    requires
        !occurs_in_bound(derivation.target, bound),
        recognised_bound(bound),
    ensures
        derivation.scan_bound(bound) == sees(false),
    decreases bound, 0nat,
{
    match bound {
        TypeModel::Leaf { name, arguments } => {
            lemma_absent_scan_arguments(derivation, arguments, 0, false);
        },
        TypeModel::Signature { name, inputs, output } => {
            lemma_absent_scan_types(derivation, inputs, 0, false);
            match output {
                Some(ty) => {
                    lemma_absent_yields_nothing(derivation, *ty, AccessorModel::Element);
                },
                None => {},
            }
        },
        _ => {},
    }
}

proof fn lemma_absent_scan_bounds<K: Emitter>(
    derivation: Derivation<K>,
    bounds: Seq<TypeModel>,
    from: nat,
    seen: bool,
)
    requires
        forall|i: int|
            from <= i < bounds.len() ==> !occurs_in_bound(derivation.target, #[trigger] bounds[i]),
        forall|i: int| from <= i < bounds.len() ==> recognised_bound(#[trigger] bounds[i]),
    ensures
        derivation.scan_bounds(bounds, from, seen) == sees(seen),
    decreases bounds, bounds.len() - from,
{
    if from < bounds.len() {
        lemma_absent_scan_bound(derivation, bounds[from as int]);
        lemma_absent_scan_bounds(derivation, bounds, from + 1, seen);
    }
}

} // verus!
