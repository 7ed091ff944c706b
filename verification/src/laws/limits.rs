//! The static counts bound the number of values that a live value holds.
use crate::bounds::{DeclaredBoundModel, declared_max, declared_min, static_max, static_min};
use crate::catalog::{EmitIter, EmitMaxLen, EmitMinLen, Emitter};
use crate::generated::{AccessorModel, GeneratedModel, OutcomeModel};
use crate::laws::dereferenced;
use crate::laws::live::lemma_iteration_yields_each_item;
use crate::laws::verdict::{lemma_same_policy_same_verdict, same_policy};
use crate::live::{
    LiveModel, abides, argument_abides, elements_at, held_abides, items_in_arguments,
    items_in_elements, items_in_types, items_of,
};
use crate::types::{ArgumentModel, TypeModel};
use crate::walker::{Derivation, yields_nothing};
use vstd::prelude::*;

verus! {

/// Whether the minimum count that an outcome holds, where it holds one,
/// amounts to no more than the given number.
pub open spec fn at_most_count(
    outcome: OutcomeModel,
    entries: Seq<DeclaredBoundModel>,
    count: nat,
) -> bool {
    match outcome {
        Ok(Some(generated)) => static_min(generated, entries) <= count,
        _ => true,
    }
}

/// Whether the maximum count that an outcome holds, where it holds one that
/// is bounded, amounts to no less than the given number.
pub open spec fn at_least_count(
    outcome: OutcomeModel,
    entries: Seq<DeclaredBoundModel>,
    count: nat,
) -> bool {
    match outcome {
        Ok(Some(generated)) => match static_max(generated, entries) {
            Some(limit) => count <= limit,
            None => true,
        },
        _ => true,
    }
}

/// What the minimum found so far amounts to.
pub open spec fn min_found(found: Option<GeneratedModel>, entries: Seq<DeclaredBoundModel>) -> nat {
    match found {
        Some(generated) => static_min(generated, entries),
        None => 0,
    }
}

/// What the maximum found so far amounts to, `None` for no bound.
pub open spec fn max_found(found: Option<GeneratedModel>, entries: Seq<DeclaredBoundModel>) -> Option<
    nat,
> {
    match found {
        Some(generated) => static_max(generated, entries),
        None => Some(0),
    }
}

/// Where a walk finds nothing, no value of the type holds a value of the
/// target: so for every capability that may cross every reference.
pub proof fn lemma_nothing_found_holds_nothing<K: Emitter>(
    derivation: Derivation<K>,
    ty: TypeModel,
    accessor: AccessorModel,
    value: LiveModel,
)
    requires
        same_policy(derivation.kind, EmitIter),
        derivation.walk(ty, accessor) == yields_nothing(),
    ensures
        items_of(derivation.target, ty, value).len() == 0,
{
    let iteration = Derivation::new(EmitIter, derivation.namespace, derivation.target);
    lemma_same_policy_same_verdict(derivation, iteration, ty, accessor, AccessorModel::Element);
    lemma_iteration_yields_each_item(iteration, ty, AccessorModel::Element, Map::empty(), value);
}

proof fn lemma_pure_holds_one<K: Emitter>(
    derivation: Derivation<K>,
    ty: TypeModel,
    accessor: AccessorModel,
    value: LiveModel,
)
    requires
        derivation.pure(ty, accessor) is Some,
    ensures
        items_of(derivation.target, ty, value) == seq![value],
    decreases ty,
{
    if ty != derivation.target {
        match ty {
            TypeModel::Reference { exclusive, lifetime, referent } => {
                lemma_pure_holds_one(derivation, *referent, dereferenced(accessor), value);
            },
            _ => {},
        }
    }
}

proof fn lemma_pure_minimum_is_one(
    namespace: Seq<char>,
    target: TypeModel,
    ty: TypeModel,
    accessor: AccessorModel,
)
    ensures
        Derivation::new(EmitMinLen, namespace, target).pure(ty, accessor) matches Some(generated)
            ==> generated == GeneratedModel::Count(1),
    decreases ty,
{
    if ty != target {
        match ty {
            TypeModel::Reference { exclusive, lifetime, referent } => {
                lemma_pure_minimum_is_one(namespace, target, *referent, dereferenced(accessor));
            },
            _ => {},
        }
    }
}

/// The minimum count is a lower bound: a value that keeps to the declared
/// bounds holds at least as many values of the target as the minimum count
/// of its type amounts to.
pub proof fn lemma_minimum_is_lower_bound(
    namespace: Seq<char>,
    target: TypeModel,
    ty: TypeModel,
    accessor: AccessorModel,
    entries: Seq<DeclaredBoundModel>,
    value: LiveModel,
)
    requires
        abides(entries, target, ty, value),
    ensures
        at_most_count(
            Derivation::new(EmitMinLen, namespace, target).walk(ty, accessor),
            entries,
            items_of(target, ty, value).len(),
        ),
    decreases ty, 0nat, 0nat,
{
    let minimum = Derivation::new(EmitMinLen, namespace, target);
    if minimum.pure(ty, accessor) is Some {
        lemma_pure_holds_one(minimum, ty, accessor, value);
        lemma_pure_minimum_is_one(namespace, target, ty, accessor);
    } else {
        match ty {
            TypeModel::Array { element, arity } => {
                lemma_min_position(namespace, target, ty, 0, *element, None, accessor, entries, value);
                assert(items_of(target, ty, value) == items_in_elements(
                    target,
                    *element,
                    elements_at(value, 0),
                    0,
                ));
            },
            TypeModel::Group { inner } => {
                lemma_minimum_is_lower_bound(namespace, target, *inner, accessor, entries, value);
            },
            TypeModel::Leaf { name, arguments } => {
                lemma_min_arguments(
                    namespace,
                    target,
                    ty,
                    arguments,
                    0,
                    None,
                    accessor,
                    entries,
                    value,
                );
            },
            TypeModel::Reference { exclusive, lifetime, referent } => {
                lemma_minimum_is_lower_bound(namespace, target, *referent, accessor, entries, value);
            },
            TypeModel::Tuple { elements } => {
                lemma_min_types(namespace, target, ty, elements, 0, None, accessor, entries, value);
            },
            _ => {},
        }
    }
}

proof fn lemma_min_elements(
    namespace: Seq<char>,
    target: TypeModel,
    ty: TypeModel,
    entries: Seq<DeclaredBoundModel>,
    held: Seq<LiveModel>,
    from: nat,
)
    requires
        forall|j: int| 0 <= j < held.len() ==> abides(entries, target, ty, #[trigger] held[j]),
        from <= held.len(),
    ensures
        Derivation::new(EmitMinLen, namespace, target).walk(ty, AccessorModel::Element) matches Ok(
            Some(inner),
        ) ==> (held.len() - from) * static_min(inner, entries) <= items_in_elements(
            target,
            ty,
            held,
            from,
        ).len(),
    decreases ty, 1nat, held.len() - from,
{
    let minimum = Derivation::new(EmitMinLen, namespace, target);
    if from < held.len() {
        lemma_minimum_is_lower_bound(
            namespace,
            target,
            ty,
            AccessorModel::Element,
            entries,
            held[from as int],
        );
        lemma_min_elements(namespace, target, ty, entries, held, from + 1);
        match minimum.walk(ty, AccessorModel::Element) {
            Ok(Some(inner)) => {
                let each = static_min(inner, entries);
                let rest = held.len() - from - 1;
                assert((held.len() - from) * each == each + rest * each) by (nonlinear_arith)
                    requires
                        rest == held.len() - from - 1,
                ;
            },
            _ => {},
        }
    } else {
        match minimum.walk(ty, AccessorModel::Element) {
            Ok(Some(inner)) => {
                assert((held.len() - from) * static_min(inner, entries) == 0) by (nonlinear_arith)
                    requires
                        held.len() - from == 0,
                ;
            },
            _ => {},
        }
    }
}

proof fn lemma_min_position(
    namespace: Seq<char>,
    target: TypeModel,
    container: TypeModel,
    index: nat,
    ty: TypeModel,
    acc: Option<GeneratedModel>,
    accessor: AccessorModel,
    entries: Seq<DeclaredBoundModel>,
    value: LiveModel,
)
    requires
        held_abides(entries, target, container, index, ty, elements_at(value, index)),
    ensures
        ({
            let minimum = Derivation::new(EmitMinLen, namespace, target);
            let outcome = minimum.merged(
                container,
                index,
                ty,
                accessor,
                acc,
                minimum.walk(ty, AccessorModel::Element),
            );
            outcome matches Ok(found) ==> min_found(found, entries) <= min_found(acc, entries)
                + items_in_elements(target, ty, elements_at(value, index), 0).len()
        }),
    decreases ty, 2nat, 0nat,
{
    let minimum = Derivation::new(EmitMinLen, namespace, target);
    let held = elements_at(value, index);
    lemma_min_elements(namespace, target, ty, entries, held, 0);
    match minimum.walk(ty, AccessorModel::Element) {
        Ok(Some(inner)) => {
            let each = static_min(inner, entries);
            let declared = declared_min(entries, container, index);
            let item = minimum.kind.nested(namespace, container, index, ty, accessor, inner);
            assert(static_min(item, entries) == declared * each);
            assert(declared * each <= held.len() * each) by (nonlinear_arith)
                requires
                    declared <= held.len(),
                    0 <= each,
            ;
            assert(min_found(Some(minimum.joined(acc, item)), entries) == min_found(acc, entries)
                + static_min(item, entries));
        },
        _ => {},
    }
}

proof fn lemma_min_types(
    namespace: Seq<char>,
    target: TypeModel,
    container: TypeModel,
    types: Seq<TypeModel>,
    from: nat,
    acc: Option<GeneratedModel>,
    accessor: AccessorModel,
    entries: Seq<DeclaredBoundModel>,
    value: LiveModel,
)
    requires
        forall|i: int|
            0 <= i < types.len() ==> held_abides(
                entries,
                target,
                container,
                i as nat,
                #[trigger] types[i],
                elements_at(value, i as nat),
            ),
    ensures
        Derivation::new(EmitMinLen, namespace, target).combine_types(
            container,
            types,
            from,
            acc,
            accessor,
        ) matches Ok(found) ==> min_found(found, entries) <= min_found(acc, entries)
            + items_in_types(target, types, value, from).len(),
    decreases types, types.len() - from, 0nat,
{
    let minimum = Derivation::new(EmitMinLen, namespace, target);
    if from < types.len() {
        let ty = types[from as int];
        lemma_min_position(namespace, target, container, from, ty, acc, accessor, entries, value);
        match minimum.merged(
            container,
            from,
            ty,
            accessor,
            acc,
            minimum.walk(ty, AccessorModel::Element),
        ) {
            Ok(next) => {
                lemma_min_types(
                    namespace,
                    target,
                    container,
                    types,
                    from + 1,
                    next,
                    accessor,
                    entries,
                    value,
                );
            },
            Err(error) => {},
        }
    }
}

proof fn lemma_min_arguments(
    namespace: Seq<char>,
    target: TypeModel,
    container: TypeModel,
    arguments: Seq<ArgumentModel>,
    from: nat,
    acc: Option<GeneratedModel>,
    accessor: AccessorModel,
    entries: Seq<DeclaredBoundModel>,
    value: LiveModel,
)
    requires
        forall|i: int|
            0 <= i < arguments.len() ==> argument_abides(
                entries,
                target,
                container,
                i as nat,
                #[trigger] arguments[i],
                elements_at(value, i as nat),
            ),
    ensures
        Derivation::new(EmitMinLen, namespace, target).combine_arguments(
            container,
            arguments,
            from,
            acc,
            accessor,
        ) matches Ok(found) ==> min_found(found, entries) <= min_found(acc, entries)
            + items_in_arguments(target, arguments, value, from).len(),
    decreases arguments, arguments.len() - from, 0nat,
{
    let minimum = Derivation::new(EmitMinLen, namespace, target);
    if from < arguments.len() {
        match arguments[from as int] {
            ArgumentModel::Type(ty) => {
                assert(argument_abides(
                    entries,
                    target,
                    container,
                    from,
                    arguments[from as int],
                    elements_at(value, from),
                ));
                lemma_min_position(
                    namespace,
                    target,
                    container,
                    from,
                    ty,
                    acc,
                    accessor,
                    entries,
                    value,
                );
                match minimum.merged(
                    container,
                    from,
                    ty,
                    accessor,
                    acc,
                    minimum.walk(ty, AccessorModel::Element),
                ) {
                    Ok(next) => {
                        lemma_min_arguments(
                            namespace,
                            target,
                            container,
                            arguments,
                            from + 1,
                            next,
                            accessor,
                            entries,
                            value,
                        );
                    },
                    Err(error) => {},
                }
            },
            ArgumentModel::Other(text) => {
                lemma_min_arguments(
                    namespace,
                    target,
                    container,
                    arguments,
                    from + 1,
                    acc,
                    accessor,
                    entries,
                    value,
                );
            },
        }
    }
}

/// Whether a limit found after a step, where it is bounded, leaves room for
/// the limit found before it and for the given number besides.
pub open spec fn leaves_room(
    found: Option<GeneratedModel>,
    acc: Option<GeneratedModel>,
    entries: Seq<DeclaredBoundModel>,
    count: nat,
) -> bool {
    match max_found(found, entries) {
        Some(limit) => match max_found(acc, entries) {
            Some(before) => before + count <= limit,
            None => false,
        },
        None => true,
    }
}

proof fn lemma_pure_maximum_is_one(
    namespace: Seq<char>,
    target: TypeModel,
    ty: TypeModel,
    accessor: AccessorModel,
)
    ensures
        Derivation::new(EmitMaxLen, namespace, target).pure(ty, accessor) matches Some(generated)
            ==> generated == GeneratedModel::Limit(1),
    decreases ty,
{
    if ty != target {
        match ty {
            TypeModel::Reference { exclusive, lifetime, referent } => {
                lemma_pure_maximum_is_one(namespace, target, *referent, dereferenced(accessor));
            },
            _ => {},
        }
    }
}

/// The maximum count is an upper bound: a value that keeps to the declared
/// bounds holds at most as many values of the target as the maximum count
/// of its type amounts to, where that is bounded.
pub proof fn lemma_maximum_is_upper_bound(
    namespace: Seq<char>,
    target: TypeModel,
    ty: TypeModel,
    accessor: AccessorModel,
    entries: Seq<DeclaredBoundModel>,
    value: LiveModel,
)
    requires
        abides(entries, target, ty, value),
    ensures
        at_least_count(
            Derivation::new(EmitMaxLen, namespace, target).walk(ty, accessor),
            entries,
            items_of(target, ty, value).len(),
        ),
    decreases ty, 0nat, 0nat,
{
    let maximum = Derivation::new(EmitMaxLen, namespace, target);
    if maximum.pure(ty, accessor) is Some {
        lemma_pure_holds_one(maximum, ty, accessor, value);
        lemma_pure_maximum_is_one(namespace, target, ty, accessor);
    } else {
        match ty {
            TypeModel::Array { element, arity } => {
                lemma_max_position(namespace, target, ty, 0, *element, None, accessor, entries, value);
            },
            TypeModel::Group { inner } => {
                lemma_maximum_is_upper_bound(namespace, target, *inner, accessor, entries, value);
            },
            TypeModel::Leaf { name, arguments } => {
                lemma_max_arguments(
                    namespace,
                    target,
                    ty,
                    arguments,
                    0,
                    None,
                    accessor,
                    entries,
                    value,
                );
            },
            TypeModel::Reference { exclusive, lifetime, referent } => {
                lemma_maximum_is_upper_bound(namespace, target, *referent, accessor, entries, value);
            },
            TypeModel::Tuple { elements } => {
                lemma_max_types(namespace, target, ty, elements, 0, None, accessor, entries, value);
            },
            _ => {},
        }
    }
}

proof fn lemma_max_elements(
    namespace: Seq<char>,
    target: TypeModel,
    ty: TypeModel,
    entries: Seq<DeclaredBoundModel>,
    held: Seq<LiveModel>,
    from: nat,
)
    requires
        forall|j: int| 0 <= j < held.len() ==> abides(entries, target, ty, #[trigger] held[j]),
        from <= held.len(),
    ensures
        match Derivation::new(EmitMaxLen, namespace, target).walk(ty, AccessorModel::Element) {
            Ok(Some(inner)) => match static_max(inner, entries) {
                Some(each) => items_in_elements(target, ty, held, from).len() <= (held.len()
                    - from) * each,
                None => true,
            },
            Ok(None) => items_in_elements(target, ty, held, from).len() == 0,
            Err(error) => true,
        },
    decreases ty, 1nat, held.len() - from,
{
    let maximum = Derivation::new(EmitMaxLen, namespace, target);
    if from < held.len() {
        lemma_maximum_is_upper_bound(
            namespace,
            target,
            ty,
            AccessorModel::Element,
            entries,
            held[from as int],
        );
        lemma_max_elements(namespace, target, ty, entries, held, from + 1);
        match maximum.walk(ty, AccessorModel::Element) {
            Ok(Some(inner)) => {
                match static_max(inner, entries) {
                    Some(each) => {
                        let rest = held.len() - from - 1;
                        assert((held.len() - from) * each == each + rest * each)
                            by (nonlinear_arith)
                            requires
                                rest == held.len() - from - 1,
                        ;
                    },
                    None => {},
                }
            },
            Ok(None) => {
                lemma_nothing_found_holds_nothing(
                    maximum,
                    ty,
                    AccessorModel::Element,
                    held[from as int],
                );
            },
            Err(error) => {},
        }
    } else {
        match maximum.walk(ty, AccessorModel::Element) {
            Ok(Some(inner)) => {
                match static_max(inner, entries) {
                    Some(each) => {
                        assert((held.len() - from) * each == 0) by (nonlinear_arith)
                            requires
                                held.len() - from == 0,
                        ;
                    },
                    None => {},
                }
            },
            _ => {},
        }
    }
}

proof fn lemma_max_position(
    namespace: Seq<char>,
    target: TypeModel,
    container: TypeModel,
    index: nat,
    ty: TypeModel,
    acc: Option<GeneratedModel>,
    accessor: AccessorModel,
    entries: Seq<DeclaredBoundModel>,
    value: LiveModel,
)
    requires
        held_abides(entries, target, container, index, ty, elements_at(value, index)),
    ensures
        ({
            let maximum = Derivation::new(EmitMaxLen, namespace, target);
            let outcome = maximum.merged(
                container,
                index,
                ty,
                accessor,
                acc,
                maximum.walk(ty, AccessorModel::Element),
            );
            outcome matches Ok(found) ==> leaves_room(
                found,
                acc,
                entries,
                items_in_elements(target, ty, elements_at(value, index), 0).len(),
            )
        }),
    decreases ty, 2nat, 0nat,
{
    let maximum = Derivation::new(EmitMaxLen, namespace, target);
    let held = elements_at(value, index);
    lemma_max_elements(namespace, target, ty, entries, held, 0);
    match maximum.walk(ty, AccessorModel::Element) {
        Ok(Some(inner)) => {
            let item = maximum.kind.nested(namespace, container, index, ty, accessor, inner);
            let declared = declared_max(entries, container, index);
            assert(static_max(item, entries) == match (declared, static_max(inner, entries)) {
                (Some(l), Some(r)) => Some(l * r),
                _ => None,
            });
            assert(max_found(Some(maximum.joined(acc, item)), entries) == match (
                max_found(acc, entries),
                static_max(item, entries),
            ) {
                (Some(l), Some(r)) => Some(l + r),
                _ => None,
            });
            match (declared, static_max(inner, entries)) {
                (Some(l), Some(each)) => {
                    assert(held.len() * each <= l * each) by (nonlinear_arith)
                        requires
                            held.len() <= l,
                            0 <= each,
                    ;
                },
                _ => {},
            }
        },
        _ => {},
    }
}

proof fn lemma_max_types(
    namespace: Seq<char>,
    target: TypeModel,
    container: TypeModel,
    types: Seq<TypeModel>,
    from: nat,
    acc: Option<GeneratedModel>,
    accessor: AccessorModel,
    entries: Seq<DeclaredBoundModel>,
    value: LiveModel,
)
    requires
        forall|i: int|
            0 <= i < types.len() ==> held_abides(
                entries,
                target,
                container,
                i as nat,
                #[trigger] types[i],
                elements_at(value, i as nat),
            ),
    ensures
        Derivation::new(EmitMaxLen, namespace, target).combine_types(
            container,
            types,
            from,
            acc,
            accessor,
        ) matches Ok(found) ==> leaves_room(
            found,
            acc,
            entries,
            items_in_types(target, types, value, from).len(),
        ),
    decreases types, types.len() - from, 0nat,
{
    let maximum = Derivation::new(EmitMaxLen, namespace, target);
    if from < types.len() {
        let ty = types[from as int];
        lemma_max_position(namespace, target, container, from, ty, acc, accessor, entries, value);
        match maximum.merged(
            container,
            from,
            ty,
            accessor,
            acc,
            maximum.walk(ty, AccessorModel::Element),
        ) {
            Ok(next) => {
                lemma_max_types(
                    namespace,
                    target,
                    container,
                    types,
                    from + 1,
                    next,
                    accessor,
                    entries,
                    value,
                );
            },
            Err(error) => {},
        }
    }
}

proof fn lemma_max_arguments(
    namespace: Seq<char>,
    target: TypeModel,
    container: TypeModel,
    arguments: Seq<ArgumentModel>,
    from: nat,
    acc: Option<GeneratedModel>,
    accessor: AccessorModel,
    entries: Seq<DeclaredBoundModel>,
    value: LiveModel,
)
    requires
        forall|i: int|
            0 <= i < arguments.len() ==> argument_abides(
                entries,
                target,
                container,
                i as nat,
                #[trigger] arguments[i],
                elements_at(value, i as nat),
            ),
    ensures
        Derivation::new(EmitMaxLen, namespace, target).combine_arguments(
            container,
            arguments,
            from,
            acc,
            accessor,
        ) matches Ok(found) ==> leaves_room(
            found,
            acc,
            entries,
            items_in_arguments(target, arguments, value, from).len(),
        ),
    decreases arguments, arguments.len() - from, 0nat,
{
    let maximum = Derivation::new(EmitMaxLen, namespace, target);
    if from < arguments.len() {
        match arguments[from as int] {
            ArgumentModel::Type(ty) => {
                assert(argument_abides(
                    entries,
                    target,
                    container,
                    from,
                    arguments[from as int],
                    elements_at(value, from),
                ));
                lemma_max_position(
                    namespace,
                    target,
                    container,
                    from,
                    ty,
                    acc,
                    accessor,
                    entries,
                    value,
                );
                match maximum.merged(
                    container,
                    from,
                    ty,
                    accessor,
                    acc,
                    maximum.walk(ty, AccessorModel::Element),
                ) {
                    Ok(next) => {
                        lemma_max_arguments(
                            namespace,
                            target,
                            container,
                            arguments,
                            from + 1,
                            next,
                            accessor,
                            entries,
                            value,
                        );
                    },
                    Err(error) => {},
                }
            },
            ArgumentModel::Other(text) => {
                lemma_max_arguments(
                    namespace,
                    target,
                    container,
                    arguments,
                    from + 1,
                    acc,
                    accessor,
                    entries,
                    value,
                );
            },
        }
    }
}

} // verus!
