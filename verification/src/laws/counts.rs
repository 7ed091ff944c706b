//! What the static counts amount to.
use crate::bounds::{
    DeclaredBoundModel, declared_max, declared_min, outcome_max, outcome_min, scaled_max,
    scaled_min, static_max, static_min,
};
use crate::catalog::{EmitMaxLen, EmitMinLen};
use crate::driver::{nest_greatest, nest_least};
use crate::generated::{AccessorModel, GeneratedModel};
use crate::laws::{container_of, fixed_array, lemma_target_yields_leaf};
use crate::types::{ArgumentModel, TypeModel};
use crate::walker::Derivation;
use vstd::prelude::*;

verus! {

/// An array of known length whose elements are the target holds the target
/// exactly as often as it is long: that is its minimum and its maximum
/// count.
pub proof fn lemma_fixed_array_counts_arity(
    namespace: Seq<char>,
    target: TypeModel,
    arity: nat,
    accessor: AccessorModel,
    entries: Seq<DeclaredBoundModel>,
)
    ensures
        outcome_min(
            Derivation::new(EmitMinLen, namespace, target).walk(
                fixed_array(target, arity),
                accessor,
            ),
            entries,
        ) == Some(arity),
        outcome_max(
            Derivation::new(EmitMaxLen, namespace, target).walk(
                fixed_array(target, arity),
                accessor,
            ),
            entries,
        ) == Some(Some(arity)),
{
    let element = AccessorModel::Element;
    let array = fixed_array(target, arity);
    let minimum = Derivation::new(EmitMinLen, namespace, target);
    let maximum = Derivation::new(EmitMaxLen, namespace, target);
    lemma_target_yields_leaf(minimum, element);
    lemma_target_yields_leaf(maximum, element);
    assert(minimum.pure(array, accessor) is None);
    assert(maximum.pure(array, accessor) is None);
    assert(static_min(GeneratedModel::Count(1), entries) == 1);
    assert(static_max(GeneratedModel::Limit(1), entries) == Some(1nat));
    assert(arity * 1 == arity);
}

/// What a named container with one argument contributes is the product of
/// what the container declares for that position and of what the argument
/// yields: so for the minimum count, and so for the maximum count, which is
/// unbounded if either factor is.
pub proof fn lemma_container_scales(
    namespace: Seq<char>,
    target: TypeModel,
    name: Seq<char>,
    argument: TypeModel,
    accessor: AccessorModel,
    entries: Seq<DeclaredBoundModel>,
)
    requires
        container_of(name, argument) != target,
    ensures
        outcome_min(
            Derivation::new(EmitMinLen, namespace, target).walk(
                container_of(name, argument),
                accessor,
            ),
            entries,
        ) == scaled_min(
            declared_min(entries, container_of(name, argument), 0),
            outcome_min(
                Derivation::new(EmitMinLen, namespace, target).walk(
                    argument,
                    AccessorModel::Element,
                ),
                entries,
            ),
        ),
        outcome_max(
            Derivation::new(EmitMaxLen, namespace, target).walk(
                container_of(name, argument),
                accessor,
            ),
            entries,
        ) == scaled_max(
            declared_max(entries, container_of(name, argument), 0),
            outcome_max(
                Derivation::new(EmitMaxLen, namespace, target).walk(
                    argument,
                    AccessorModel::Element,
                ),
                entries,
            ),
        ),
{
    let container = container_of(name, argument);
    let arguments = seq![ArgumentModel::Type(argument)];
    let minimum = Derivation::new(EmitMinLen, namespace, target);
    let maximum = Derivation::new(EmitMaxLen, namespace, target);
    assert(minimum.pure(container, accessor) is None);
    assert(maximum.pure(container, accessor) is None);
    let first = minimum.merged(
        container,
        0,
        argument,
        accessor,
        None,
        minimum.walk(argument, AccessorModel::Element),
    );
    assert(minimum.combine_arguments(container, arguments, 0, None, accessor) == match first {
        Ok(next) => minimum.combine_arguments(container, arguments, 1, next, accessor),
        Err(error) => Err(error),
    });
    let second = maximum.merged(
        container,
        0,
        argument,
        accessor,
        None,
        maximum.walk(argument, AccessorModel::Element),
    );
    assert(maximum.combine_arguments(container, arguments, 0, None, accessor) == match second {
        Ok(next) => maximum.combine_arguments(container, arguments, 1, next, accessor),
        Err(error) => Err(error),
    });
}

proof fn lemma_least_from(
    outs: Seq<GeneratedModel>,
    from: nat,
    entries: Seq<DeclaredBoundModel>,
)
    requires
        from < outs.len(),
    ensures
        forall|i: int|
            from <= i < outs.len() ==> static_min(nest_least(outs, from), entries) <= static_min(
                #[trigger] outs[i],
                entries,
            ),
        exists|i: int|
            from <= i < outs.len() && static_min(nest_least(outs, from), entries) == static_min(
                #[trigger] outs[i],
                entries,
            ),
    decreases outs.len() - from,
{
    if from + 1 < outs.len() {
        lemma_least_from(outs, from + 1, entries);
        let rest = static_min(nest_least(outs, from + 1), entries);
        let witness = choose|i: int|
            from + 1 <= i < outs.len() && rest == static_min(#[trigger] outs[i], entries);
        if static_min(outs[from as int], entries) < rest {
            assert(static_min(nest_least(outs, from), entries) == static_min(
                outs[from as int],
                entries,
            ));
        } else {
            assert(static_min(nest_least(outs, from), entries) == static_min(
                outs[witness],
                entries,
            ));
        }
    } else {
        assert(nest_least(outs, from) == outs[from as int]);
    }
}

proof fn lemma_greatest_unbounded_from(
    outs: Seq<GeneratedModel>,
    from: nat,
    entries: Seq<DeclaredBoundModel>,
    unbounded: int,
)
    requires
        from <= unbounded < outs.len(),
        static_max(outs[unbounded], entries) is None,
    ensures
        static_max(nest_greatest(outs, from), entries) is None,
    decreases outs.len() - from,
{
    if from + 1 < outs.len() {
        if from < unbounded {
            lemma_greatest_unbounded_from(outs, from + 1, entries, unbounded);
        }
    }
}

proof fn lemma_greatest_from(
    outs: Seq<GeneratedModel>,
    from: nat,
    entries: Seq<DeclaredBoundModel>,
)
    requires
        from < outs.len(),
        forall|i: int|
            from <= i < outs.len() ==> static_max(#[trigger] outs[i], entries) is Some,
    ensures
        static_max(nest_greatest(outs, from), entries) is Some,
        forall|i: int|
            from <= i < outs.len() ==> static_max(#[trigger] outs[i], entries)->0 <= static_max(
                nest_greatest(outs, from),
                entries,
            )->0,
        exists|i: int|
            from <= i < outs.len() && static_max(#[trigger] outs[i], entries) == static_max(
                nest_greatest(outs, from),
                entries,
            ),
    decreases outs.len() - from,
{
    if from + 1 < outs.len() {
        lemma_greatest_from(outs, from + 1, entries);
        let rest = static_max(nest_greatest(outs, from + 1), entries);
        let witness = choose|i: int|
            from + 1 <= i < outs.len() && static_max(#[trigger] outs[i], entries) == rest;
        assert(static_max(outs[from as int], entries) is Some);
        if static_max(outs[from as int], entries)->0 > rest->0 {
            assert(static_max(nest_greatest(outs, from), entries) == static_max(
                outs[from as int],
                entries,
            ));
        } else {
            assert(static_max(nest_greatest(outs, from), entries) == static_max(
                outs[witness],
                entries,
            ));
        }
    } else {
        assert(nest_greatest(outs, from) == outs[from as int]);
    }
}

/// The minimum count of a tagged type amounts to the least of the minimum
/// counts of its variants: it exceeds none of them and equals one of them.
pub proof fn lemma_squashed_minimum(outs: Seq<GeneratedModel>, entries: Seq<DeclaredBoundModel>)
    requires
        outs.len() > 0,
    ensures
        forall|i: int|
            0 <= i < outs.len() ==> static_min(nest_least(outs, 0), entries) <= static_min(
                #[trigger] outs[i],
                entries,
            ),
        exists|i: int|
            0 <= i < outs.len() && static_min(nest_least(outs, 0), entries) == static_min(
                #[trigger] outs[i],
                entries,
            ),
{
    lemma_least_from(outs, 0, entries);
}

/// The maximum count of a tagged type is unbounded where that of one of its
/// variants is.
pub proof fn lemma_squashed_maximum_unbounded(
    outs: Seq<GeneratedModel>,
    entries: Seq<DeclaredBoundModel>,
    unbounded: int,
)
    requires
        0 <= unbounded < outs.len(),
        static_max(outs[unbounded], entries) is None,
    ensures
        static_max(nest_greatest(outs, 0), entries) is None,
{
    lemma_greatest_unbounded_from(outs, 0, entries, unbounded);
}

/// Where the maximum count of every variant is bounded, that of the tagged
/// type amounts to the greatest of them: none of them exceeds it and it
/// equals one of them.
pub proof fn lemma_squashed_maximum(outs: Seq<GeneratedModel>, entries: Seq<DeclaredBoundModel>)
    requires
        outs.len() > 0,
        forall|i: int| 0 <= i < outs.len() ==> static_max(#[trigger] outs[i], entries) is Some,
    ensures
        static_max(nest_greatest(outs, 0), entries) is Some,
        forall|i: int|
            0 <= i < outs.len() ==> static_max(#[trigger] outs[i], entries)->0 <= static_max(
                nest_greatest(outs, 0),
                entries,
            )->0,
        exists|i: int|
            0 <= i < outs.len() && static_max(#[trigger] outs[i], entries) == static_max(
                nest_greatest(outs, 0),
                entries,
            ),
{
    lemma_greatest_from(outs, 0, entries);
}

} // verus!
