//! Every occurrence of the target is held exactly once.
use crate::catalog::{
    EmitIntoIter, EmitIter, EmitIterMut, EmitIterMutTy, EmitIterTy, EmitLen, EmitMaxLen,
    EmitMinLen, Emitter,
};
use crate::generated::{AccessorModel, GeneratedModel, OutcomeModel};
use crate::laws::dereferenced;
use crate::types::{ArgumentModel, TypeModel};
use crate::walker::Derivation;
use vstd::prelude::*;

verus! {

/// How many leaf values a generated expression holds.
pub open spec fn leaves(generated: GeneratedModel) -> nat
    decreases generated,
{
    match generated {
        GeneratedModel::Count(n) => n,
        GeneratedModel::Sum(a, b) => leaves(*a) + leaves(*b),
        GeneratedModel::Scaled { helper, inner } => leaves(*inner),
        GeneratedModel::Limit(n) => n,
        GeneratedModel::LimitSum(a, b) => leaves(*a) + leaves(*b),
        GeneratedModel::LimitScaled { helper, inner } => leaves(*inner),
        GeneratedModel::Tally { helper, source, inner } => leaves(*inner),
        GeneratedModel::Empty => 0,
        GeneratedModel::Once(accessor) => 1,
        GeneratedModel::Chain(a, b) => leaves(*a) + leaves(*b),
        GeneratedModel::Flatten { traversal, helper, element, source, inner } => leaves(*inner),
        GeneratedModel::Least(a, b) => leaves(*a) + leaves(*b),
        GeneratedModel::Greatest(a, b) => leaves(*a) + leaves(*b),
        GeneratedModel::EmptyType { traversal, lifetime, item } => 0,
        GeneratedModel::OnceType { traversal, lifetime, item } => 1,
        GeneratedModel::ChainType(a, b) => leaves(*a) + leaves(*b),
        GeneratedModel::FlattenType { traversal, lifetime, helper, element, inner } => leaves(
            *inner,
        ),
    }
}

/// How many leaf values the result of a search holds.
pub open spec fn leaves_found(found: Option<GeneratedModel>) -> nat {
    match found {
        Some(generated) => leaves(generated),
        None => 0,
    }
}

/// Whether the operations of a capability keep count of the leaf values:
/// the leaf value is one, the identity holds none, a fold holds those of
/// both sides, and the contribution of a position holds those of its
/// elements.
pub open spec fn keeps_count<K: Emitter>(kind: K) -> bool {
    &&& leaves(kind.identity()) == 0
    &&& forall|accessor: AccessorModel| leaves(#[trigger] kind.leaf_value(accessor)) == 1
    &&& forall|acc: GeneratedModel, item: GeneratedModel|
        leaves(#[trigger] kind.folded(acc, item)) == leaves(acc) + leaves(item)
    &&& forall|
        namespace: Seq<char>,
        container: TypeModel,
        index: nat,
        element: TypeModel,
        accessor: AccessorModel,
        inner: GeneratedModel,
    |
        leaves(#[trigger] kind.nested(namespace, container, index, element, accessor, inner))
            == leaves(inner)
}

/// How often the target occurs in a type expression at a position where the
/// walk yields a leaf value. A match is whole: the walk does not look into
/// a type that is the target. Call signatures and bounds yield nothing.
pub open spec fn occurrences(target: TypeModel, ty: TypeModel) -> nat
    decreases ty, 0nat,
{
    if ty == target {
        1
    } else {
        match ty {
            TypeModel::Array { element, arity } => occurrences(target, *element),
            TypeModel::Group { inner } => occurrences(target, *inner),
            TypeModel::Leaf { name, arguments } => occurrences_in_arguments(target, arguments, 0),
            TypeModel::Reference { exclusive, lifetime, referent } => occurrences(target, *referent),
            TypeModel::Tuple { elements } => occurrences_in_types(target, elements, 0),
            _ => 0,
        }
    }
}

/// How often the target occurs in the positions `from..` of a list of
/// types.
pub open spec fn occurrences_in_types(target: TypeModel, types: Seq<TypeModel>, from: nat) -> nat
    decreases types, types.len() - from,
{
    if from >= types.len() {
        0
    } else {
        occurrences(target, types[from as int]) + occurrences_in_types(target, types, from + 1)
    }
}

/// How often the target occurs in the positions `from..` of an argument
/// list.
pub open spec fn occurrences_in_arguments(
    target: TypeModel,
    arguments: Seq<ArgumentModel>,
    from: nat,
) -> nat
    decreases arguments, arguments.len() - from,
{
    if from >= arguments.len() {
        0
    } else {
        match arguments[from as int] {
            ArgumentModel::Type(ty) => occurrences(target, ty) + occurrences_in_arguments(
                target,
                arguments,
                from + 1,
            ),
            ArgumentModel::Other(text) => occurrences_in_arguments(target, arguments, from + 1),
        }
    }
}

/// How often the target occurs in the fields `from..` of a shape.
pub open spec fn occurrences_in_fields(
    target: TypeModel,
    fields: Seq<(TypeModel, AccessorModel)>,
    from: nat,
) -> nat
    decreases fields.len() - from,
{
    if from >= fields.len() {
        0
    } else {
        occurrences(target, fields[from as int].0) + occurrences_in_fields(target, fields, from + 1)
    }
}

/// Whether an outcome, where it is no refusal, holds the given number of
/// leaf values.
pub open spec fn holds_leaves(outcome: OutcomeModel, count: nat) -> bool {
    match outcome {
        Ok(found) => leaves_found(found) == count,
        Err(error) => true,
    }
}

proof fn lemma_pure_is_one<K: Emitter>(
    derivation: Derivation<K>,
    ty: TypeModel,
    accessor: AccessorModel,
)
    requires
        keeps_count(derivation.kind),
    ensures
        derivation.pure(ty, accessor) matches Some(generated) ==> leaves(generated) == 1
            && occurrences(derivation.target, ty) == 1,
    decreases ty,
{
    if ty != derivation.target {
        match ty {
            TypeModel::Reference { exclusive, lifetime, referent } => {
                lemma_pure_is_one(derivation, *referent, dereferenced(accessor));
            },
            _ => {},
        }
    }
}

/// Where the walk is not refused, what it yields holds exactly one leaf
/// value for each occurrence of the target, and nothing is yielded only
/// where there is none: so for every capability whose operations keep
/// count.
pub proof fn lemma_each_occurrence_once<K: Emitter>(
    derivation: Derivation<K>,
    ty: TypeModel,
    accessor: AccessorModel,
)
    requires
        keeps_count(derivation.kind),
    ensures
        holds_leaves(derivation.walk(ty, accessor), occurrences(derivation.target, ty)),
    decreases ty, 0nat,
{
    lemma_pure_is_one(derivation, ty, accessor);
    if derivation.pure(ty, accessor) is None {
        match ty {
            TypeModel::Array { element, arity } => {
                lemma_each_occurrence_once(derivation, *element, AccessorModel::Element);
            },
            TypeModel::Group { inner } => {
                lemma_each_occurrence_once(derivation, *inner, accessor);
            },
            TypeModel::Leaf { name, arguments } => {
                lemma_once_in_arguments(derivation, ty, arguments, 0, None, accessor);
            },
            TypeModel::Reference { exclusive, lifetime, referent } => {
                lemma_each_occurrence_once(derivation, *referent, accessor);
            },
            TypeModel::Tuple { elements } => {
                lemma_once_in_types(derivation, ty, elements, 0, None, accessor);
            },
            _ => {},
        }
    }
}

proof fn lemma_once_in_types<K: Emitter>(
    derivation: Derivation<K>,
    container: TypeModel,
    types: Seq<TypeModel>,
    from: nat,
    acc: Option<GeneratedModel>,
    accessor: AccessorModel,
)
    requires
        keeps_count(derivation.kind),
    ensures
        holds_leaves(
            derivation.combine_types(container, types, from, acc, accessor),
            leaves_found(acc) + occurrences_in_types(derivation.target, types, from),
        ),
    decreases types, types.len() - from,
{
    if from < types.len() {
        let ty = types[from as int];
        lemma_each_occurrence_once(derivation, ty, AccessorModel::Element);
        let found = derivation.walk(ty, AccessorModel::Element);
        match derivation.merged(container, from, ty, accessor, acc, found) {
            Ok(next) => {
                lemma_once_in_types(derivation, container, types, from + 1, next, accessor);
            },
            Err(error) => {},
        }
    }
}

proof fn lemma_once_in_arguments<K: Emitter>(
    derivation: Derivation<K>,
    container: TypeModel,
    arguments: Seq<ArgumentModel>,
    from: nat,
    acc: Option<GeneratedModel>,
    accessor: AccessorModel,
)
    requires
        keeps_count(derivation.kind),
    ensures
        holds_leaves(
            derivation.combine_arguments(container, arguments, from, acc, accessor),
            leaves_found(acc) + occurrences_in_arguments(derivation.target, arguments, from),
        ),
    decreases arguments, arguments.len() - from,
{
    if from < arguments.len() {
        match arguments[from as int] {
            ArgumentModel::Type(ty) => {
                lemma_each_occurrence_once(derivation, ty, AccessorModel::Element);
                let found = derivation.walk(ty, AccessorModel::Element);
                match derivation.merged(container, from, ty, accessor, acc, found) {
                    Ok(next) => {
                        lemma_once_in_arguments(
                            derivation,
                            container,
                            arguments,
                            from + 1,
                            next,
                            accessor,
                        );
                    },
                    Err(error) => {},
                }
            },
            ArgumentModel::Other(text) => {
                lemma_once_in_arguments(derivation, container, arguments, from + 1, acc, accessor);
            },
        }
    }
}

proof fn lemma_once_in_fields<K: Emitter>(
    derivation: Derivation<K>,
    fields: Seq<(TypeModel, AccessorModel)>,
    from: nat,
    acc: Option<GeneratedModel>,
)
    requires
        keeps_count(derivation.kind),
    ensures
        holds_leaves(
            derivation.combine_fields(fields, from, acc),
            leaves_found(acc) + occurrences_in_fields(derivation.target, fields, from),
        ),
    decreases fields.len() - from,
{
    if from < fields.len() {
        let field = fields[from as int];
        lemma_each_occurrence_once(derivation, field.0, field.1);
        match derivation.walk(field.0, field.1) {
            Ok(Some(item)) => {
                lemma_once_in_fields(
                    derivation,
                    fields,
                    from + 1,
                    Some(derivation.joined(acc, item)),
                );
            },
            Ok(None) => {
                lemma_once_in_fields(derivation, fields, from + 1, acc);
            },
            Err(error) => {},
        }
    }
}

/// Where the fold over the fields of a shape is not refused, what it yields
/// holds exactly one leaf value for each occurrence of the target in the
/// fields.
pub proof fn lemma_each_field_occurrence_once<K: Emitter>(
    derivation: Derivation<K>,
    fields: Seq<(TypeModel, AccessorModel)>,
)
    requires
        keeps_count(derivation.kind),
    ensures
        holds_leaves(
            derivation.combine_fields(fields, 0, None),
            occurrences_in_fields(derivation.target, fields, 0),
        ),
{
    lemma_once_in_fields(derivation, fields, 0, None);
}

/// The operations of every capability of the catalog keep count.
pub proof fn lemma_catalog_keeps_count(shared: EmitIterTy, exclusive: EmitIterMutTy)
    ensures
        keeps_count(EmitMinLen),
        keeps_count(EmitMaxLen),
        keeps_count(EmitLen),
        keeps_count(EmitIter),
        keeps_count(EmitIterMut),
        keeps_count(EmitIntoIter),
        keeps_count(shared),
        keeps_count(exclusive),
{
}

} // verus!
