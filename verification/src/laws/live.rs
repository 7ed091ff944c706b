//! What the generated sequences and live counts amount to on a live value.
use crate::catalog::{EmitIntoIter, EmitIter, EmitIterMut, EmitLen, Emitter};
use crate::generated::{AccessorModel, GeneratedModel, OutcomeModel};
use crate::laws::dereferenced;
use crate::live::{
    LiveModel, Places, elements_at, flattened, items_in_arguments, items_in_elements,
    items_in_types, items_of, live_count, live_items, reads, tallied,
};
use crate::types::{ArgumentModel, TypeModel};
use crate::walker::Derivation;
use vstd::prelude::*;

verus! {

/// Whether a capability iterates: its identity yields nothing, its leaf
/// value yields the value that the accessor reads, its fold yields one side after the other, and what a
/// position contributes yields what each element of the position yields,
/// element by element.
pub open spec fn iterates<K: Emitter>(kind: K) -> bool {
    &&& forall|places: Places, element: LiveModel| #[trigger]
        live_items(kind.identity(), places, element) == Seq::<LiveModel>::empty()
    &&& forall|accessor: AccessorModel, places: Places, element: LiveModel| #[trigger]
        live_items(kind.leaf_value(accessor), places, element) == seq![
            reads(accessor, places, element),
        ]
    &&& forall|acc: GeneratedModel, item: GeneratedModel, places: Places, element: LiveModel|
     #[trigger]
        live_items(kind.folded(acc, item), places, element) == live_items(acc, places, element)
            + live_items(item, places, element)
    &&& forall|
        namespace: Seq<char>,
        container: TypeModel,
        index: nat,
        ty: TypeModel,
        accessor: AccessorModel,
        inner: GeneratedModel,
        places: Places,
        element: LiveModel,
    | #[trigger]
        live_items(kind.nested(namespace, container, index, ty, accessor, inner), places, element)
            == flattened(inner, places, elements_at(reads(accessor, places, element), index), 0)
}

/// The values that the result of a search yields.
pub open spec fn items_found(
    found: Option<GeneratedModel>,
    places: Places,
    element: LiveModel,
) -> Seq<LiveModel> {
    match found {
        Some(generated) => live_items(generated, places, element),
        None => Seq::empty(),
    }
}

/// Whether an outcome, where it is no refusal, yields the given values in
/// the given order.
pub open spec fn yields_items(
    outcome: OutcomeModel,
    places: Places,
    element: LiveModel,
    items: Seq<LiveModel>,
) -> bool {
    match outcome {
        Ok(found) => items_found(found, places, element) == items,
        Err(error) => true,
    }
}

proof fn lemma_pure_item<K: Emitter>(
    derivation: Derivation<K>,
    ty: TypeModel,
    accessor: AccessorModel,
    places: Places,
    element: LiveModel,
)
    requires
        iterates(derivation.kind),
    ensures
        derivation.pure(ty, accessor) matches Some(generated) ==> live_items(
            generated,
            places,
            element,
        ) == items_of(derivation.target, ty, reads(accessor, places, element)),
    decreases ty,
{
    if ty != derivation.target {
        match ty {
            TypeModel::Reference { exclusive, lifetime, referent } => {
                lemma_pure_item(derivation, *referent, dereferenced(accessor), places, element);
            },
            _ => {},
        }
    }
}

/// Where the walk for an iteration is not refused, the sequence that it
/// generates yields exactly the values of the target that the value read
/// holds, each once and in the order of the traversal; and it generates
/// nothing only where the value can hold none.
pub proof fn lemma_iteration_yields_each_item<K: Emitter>(
    derivation: Derivation<K>,
    ty: TypeModel,
    accessor: AccessorModel,
    places: Places,
    element: LiveModel,
)
    requires
        iterates(derivation.kind),
    ensures
        yields_items(
            derivation.walk(ty, accessor),
            places,
            element,
            items_of(derivation.target, ty, reads(accessor, places, element)),
        ),
    decreases ty, 0nat, 0nat,
{
    lemma_pure_item(derivation, ty, accessor, places, element);
    if derivation.pure(ty, accessor) is None {
        let value = reads(accessor, places, element);
        match ty {
            TypeModel::Array { element: inner, arity } => {
                lemma_flattened_elements(derivation, *inner, places, elements_at(value, 0), 0);
            },
            TypeModel::Group { inner } => {
                lemma_iteration_yields_each_item(derivation, *inner, accessor, places, element);
            },
            TypeModel::Leaf { name, arguments } => {
                lemma_items_in_arguments(
                    derivation,
                    ty,
                    arguments,
                    0,
                    None,
                    accessor,
                    places,
                    element,
                );
                assert(Seq::<LiveModel>::empty() + items_in_arguments(
                    derivation.target,
                    arguments,
                    value,
                    0,
                ) =~= items_in_arguments(derivation.target, arguments, value, 0));
            },
            TypeModel::Reference { exclusive, lifetime, referent } => {
                lemma_iteration_yields_each_item(derivation, *referent, accessor, places, element);
            },
            TypeModel::Tuple { elements } => {
                lemma_items_in_types(derivation, ty, elements, 0, None, accessor, places, element);
                assert(Seq::<LiveModel>::empty() + items_in_types(
                    derivation.target,
                    elements,
                    value,
                    0,
                ) =~= items_in_types(derivation.target, elements, value, 0));
            },
            _ => {},
        }
    }
}

proof fn lemma_flattened_elements<K: Emitter>(
    derivation: Derivation<K>,
    ty: TypeModel,
    places: Places,
    elements: Seq<LiveModel>,
    from: nat,
)
    requires
        iterates(derivation.kind),
    ensures
        match derivation.walk(ty, AccessorModel::Element) {
            Ok(Some(inner)) => flattened(inner, places, elements, from) == items_in_elements(
                derivation.target,
                ty,
                elements,
                from,
            ),
            Ok(None) => items_in_elements(derivation.target, ty, elements, from)
                == Seq::<LiveModel>::empty(),
            Err(error) => true,
        },
    decreases ty, 1nat, elements.len() - from,
{
    if from < elements.len() {
        let element = elements[from as int];
        lemma_iteration_yields_each_item(derivation, ty, AccessorModel::Element, places, element);
        lemma_flattened_elements(derivation, ty, places, elements, from + 1);
        match derivation.walk(ty, AccessorModel::Element) {
            Ok(Some(inner)) => {},
            Ok(None) => {
                assert(items_in_elements(derivation.target, ty, elements, from)
                    =~= Seq::<LiveModel>::empty());
            },
            Err(error) => {},
        }
    }
}

proof fn lemma_merged_items<K: Emitter>(
    derivation: Derivation<K>,
    container: TypeModel,
    index: nat,
    ty: TypeModel,
    acc: Option<GeneratedModel>,
    accessor: AccessorModel,
    places: Places,
    element: LiveModel,
)
    requires
        iterates(derivation.kind),
    ensures
        yields_items(
            derivation.merged(
                container,
                index,
                ty,
                accessor,
                acc,
                derivation.walk(ty, AccessorModel::Element),
            ),
            places,
            element,
            items_found(acc, places, element) + items_in_elements(
                derivation.target,
                ty,
                elements_at(reads(accessor, places, element), index),
                0,
            ),
        ),
    decreases ty, 2nat, 0nat,
{
    let elements = elements_at(reads(accessor, places, element), index);
    lemma_flattened_elements(derivation, ty, places, elements, 0);
    let before = items_found(acc, places, element);
    match derivation.walk(ty, AccessorModel::Element) {
        Ok(Some(inner)) => {
            if acc is None {
                assert(before + flattened(inner, places, elements, 0) =~= flattened(
                    inner,
                    places,
                    elements,
                    0,
                ));
            }
        },
        Ok(None) => {
            assert(before + Seq::<LiveModel>::empty() =~= before);
        },
        Err(error) => {},
    }
}

proof fn lemma_items_in_types<K: Emitter>(
    derivation: Derivation<K>,
    container: TypeModel,
    types: Seq<TypeModel>,
    from: nat,
    acc: Option<GeneratedModel>,
    accessor: AccessorModel,
    places: Places,
    element: LiveModel,
)
    requires
        iterates(derivation.kind),
    ensures
        yields_items(
            derivation.combine_types(container, types, from, acc, accessor),
            places,
            element,
            items_found(acc, places, element) + items_in_types(
                derivation.target,
                types,
                reads(accessor, places, element),
                from,
            ),
        ),
    decreases types, types.len() - from, 0nat,
{
    let value = reads(accessor, places, element);
    let before = items_found(acc, places, element);
    if from < types.len() {
        let ty = types[from as int];
        lemma_merged_items(derivation, container, from, ty, acc, accessor, places, element);
        let here = items_in_elements(derivation.target, ty, elements_at(value, from), 0);
        let rest = items_in_types(derivation.target, types, value, from + 1);
        match derivation.merged(
            container,
            from,
            ty,
            accessor,
            acc,
            derivation.walk(ty, AccessorModel::Element),
        ) {
            Ok(next) => {
                lemma_items_in_types(
                    derivation,
                    container,
                    types,
                    from + 1,
                    next,
                    accessor,
                    places,
                    element,
                );
                assert((before + here) + rest =~= before + (here + rest));
            },
            Err(error) => {},
        }
    } else {
        assert(before + Seq::<LiveModel>::empty() =~= before);
    }
}

proof fn lemma_items_in_arguments<K: Emitter>(
    derivation: Derivation<K>,
    container: TypeModel,
    arguments: Seq<ArgumentModel>,
    from: nat,
    acc: Option<GeneratedModel>,
    accessor: AccessorModel,
    places: Places,
    element: LiveModel,
)
    requires
        iterates(derivation.kind),
    ensures
        yields_items(
            derivation.combine_arguments(container, arguments, from, acc, accessor),
            places,
            element,
            items_found(acc, places, element) + items_in_arguments(
                derivation.target,
                arguments,
                reads(accessor, places, element),
                from,
            ),
        ),
    decreases arguments, arguments.len() - from, 0nat,
{
    let value = reads(accessor, places, element);
    let before = items_found(acc, places, element);
    if from < arguments.len() {
        match arguments[from as int] {
            ArgumentModel::Type(ty) => {
                lemma_merged_items(derivation, container, from, ty, acc, accessor, places, element);
                let here = items_in_elements(derivation.target, ty, elements_at(value, from), 0);
                let rest = items_in_arguments(derivation.target, arguments, value, from + 1);
                match derivation.merged(
                    container,
                    from,
                    ty,
                    accessor,
                    acc,
                    derivation.walk(ty, AccessorModel::Element),
                ) {
                    Ok(next) => {
                        lemma_items_in_arguments(
                            derivation,
                            container,
                            arguments,
                            from + 1,
                            next,
                            accessor,
                            places,
                            element,
                        );
                        assert((before + here) + rest =~= before + (here + rest));
                    },
                    Err(error) => {},
                }
            },
            ArgumentModel::Other(text) => {
                lemma_items_in_arguments(
                    derivation,
                    container,
                    arguments,
                    from + 1,
                    acc,
                    accessor,
                    places,
                    element,
                );
            },
        }
    } else {
        assert(before + Seq::<LiveModel>::empty() =~= before);
    }
}

/// The three iterations of the catalog iterate.
pub proof fn lemma_catalog_iterates()
    ensures
        iterates(EmitIter),
        iterates(EmitIterMut),
        iterates(EmitIntoIter),
{
}

/// Whether a capability counts live values: its identity counts none, its
/// leaf value counts one, its fold adds both sides, and what a position contributes is the sum of what
/// each element of the position counts.
pub open spec fn tallies<K: Emitter>(kind: K) -> bool {
    &&& forall|places: Places, element: LiveModel| #[trigger]
        live_count(kind.identity(), places, element) == 0
    &&& forall|accessor: AccessorModel, places: Places, element: LiveModel| #[trigger]
        live_count(kind.leaf_value(accessor), places, element) == 1
    &&& forall|acc: GeneratedModel, item: GeneratedModel, places: Places, element: LiveModel|
     #[trigger]
        live_count(kind.folded(acc, item), places, element) == live_count(acc, places, element)
            + live_count(item, places, element)
    &&& forall|
        namespace: Seq<char>,
        container: TypeModel,
        index: nat,
        ty: TypeModel,
        accessor: AccessorModel,
        inner: GeneratedModel,
        places: Places,
        element: LiveModel,
    | #[trigger]
        live_count(kind.nested(namespace, container, index, ty, accessor, inner), places, element)
            == tallied(inner, places, elements_at(reads(accessor, places, element), index), 0)
}

/// What the result of a search counts.
pub open spec fn count_found(found: Option<GeneratedModel>, places: Places, element: LiveModel) -> nat {
    match found {
        Some(generated) => live_count(generated, places, element),
        None => 0,
    }
}

/// Whether an outcome, where it is no refusal, counts the given number.
pub open spec fn counts_items(
    outcome: OutcomeModel,
    places: Places,
    element: LiveModel,
    count: nat,
) -> bool {
    match outcome {
        Ok(found) => count_found(found, places, element) == count,
        Err(error) => true,
    }
}

proof fn lemma_pure_count<K: Emitter>(
    derivation: Derivation<K>,
    ty: TypeModel,
    accessor: AccessorModel,
    places: Places,
    element: LiveModel,
)
    requires
        tallies(derivation.kind),
    ensures
        derivation.pure(ty, accessor) matches Some(generated) ==> live_count(
            generated,
            places,
            element,
        ) == items_of(derivation.target, ty, reads(accessor, places, element)).len(),
    decreases ty,
{
    if ty != derivation.target {
        match ty {
            TypeModel::Reference { exclusive, lifetime, referent } => {
                lemma_pure_count(derivation, *referent, dereferenced(accessor), places, element);
            },
            _ => {},
        }
    }
}

/// Where the walk for a live count is not refused, the count that it
/// generates amounts to the number of values of the target that the value
/// read holds.
pub proof fn lemma_live_count_is_number_of_items<K: Emitter>(
    derivation: Derivation<K>,
    ty: TypeModel,
    accessor: AccessorModel,
    places: Places,
    element: LiveModel,
)
    requires
        tallies(derivation.kind),
    ensures
        counts_items(
            derivation.walk(ty, accessor),
            places,
            element,
            items_of(derivation.target, ty, reads(accessor, places, element)).len(),
        ),
    decreases ty, 0nat, 0nat,
{
    lemma_pure_count(derivation, ty, accessor, places, element);
    if derivation.pure(ty, accessor) is None {
        let value = reads(accessor, places, element);
        match ty {
            TypeModel::Array { element: inner, arity } => {
                lemma_tallied_elements(derivation, *inner, places, elements_at(value, 0), 0);
            },
            TypeModel::Group { inner } => {
                lemma_live_count_is_number_of_items(derivation, *inner, accessor, places, element);
            },
            TypeModel::Leaf { name, arguments } => {
                lemma_count_in_arguments(
                    derivation,
                    ty,
                    arguments,
                    0,
                    None,
                    accessor,
                    places,
                    element,
                );
            },
            TypeModel::Reference { exclusive, lifetime, referent } => {
                lemma_live_count_is_number_of_items(
                    derivation,
                    *referent,
                    accessor,
                    places,
                    element,
                );
            },
            TypeModel::Tuple { elements } => {
                lemma_count_in_types(derivation, ty, elements, 0, None, accessor, places, element);
            },
            _ => {},
        }
    }
}

proof fn lemma_tallied_elements<K: Emitter>(
    derivation: Derivation<K>,
    ty: TypeModel,
    places: Places,
    elements: Seq<LiveModel>,
    from: nat,
)
    requires
        tallies(derivation.kind),
    ensures
        match derivation.walk(ty, AccessorModel::Element) {
            Ok(Some(inner)) => tallied(inner, places, elements, from) == items_in_elements(
                derivation.target,
                ty,
                elements,
                from,
            ).len(),
            Ok(None) => items_in_elements(derivation.target, ty, elements, from).len() == 0,
            Err(error) => true,
        },
    decreases ty, 1nat, elements.len() - from,
{
    if from < elements.len() {
        let element = elements[from as int];
        lemma_live_count_is_number_of_items(
            derivation,
            ty,
            AccessorModel::Element,
            places,
            element,
        );
        lemma_tallied_elements(derivation, ty, places, elements, from + 1);
    }
}

proof fn lemma_merged_count<K: Emitter>(
    derivation: Derivation<K>,
    container: TypeModel,
    index: nat,
    ty: TypeModel,
    acc: Option<GeneratedModel>,
    accessor: AccessorModel,
    places: Places,
    element: LiveModel,
)
    requires
        tallies(derivation.kind),
    ensures
        counts_items(
            derivation.merged(
                container,
                index,
                ty,
                accessor,
                acc,
                derivation.walk(ty, AccessorModel::Element),
            ),
            places,
            element,
            count_found(acc, places, element) + items_in_elements(
                derivation.target,
                ty,
                elements_at(reads(accessor, places, element), index),
                0,
            ).len(),
        ),
    decreases ty, 2nat, 0nat,
{
    let elements = elements_at(reads(accessor, places, element), index);
    lemma_tallied_elements(derivation, ty, places, elements, 0);
}

proof fn lemma_count_in_types<K: Emitter>(
    derivation: Derivation<K>,
    container: TypeModel,
    types: Seq<TypeModel>,
    from: nat,
    acc: Option<GeneratedModel>,
    accessor: AccessorModel,
    places: Places,
    element: LiveModel,
)
    requires
        tallies(derivation.kind),
    ensures
        counts_items(
            derivation.combine_types(container, types, from, acc, accessor),
            places,
            element,
            count_found(acc, places, element) + items_in_types(
                derivation.target,
                types,
                reads(accessor, places, element),
                from,
            ).len(),
        ),
    decreases types, types.len() - from, 0nat,
{
    if from < types.len() {
        let ty = types[from as int];
        lemma_merged_count(derivation, container, from, ty, acc, accessor, places, element);
        match derivation.merged(
            container,
            from,
            ty,
            accessor,
            acc,
            derivation.walk(ty, AccessorModel::Element),
        ) {
            Ok(next) => {
                lemma_count_in_types(
                    derivation,
                    container,
                    types,
                    from + 1,
                    next,
                    accessor,
                    places,
                    element,
                );
            },
            Err(error) => {},
        }
    }
}

proof fn lemma_count_in_arguments<K: Emitter>(
    derivation: Derivation<K>,
    container: TypeModel,
    arguments: Seq<ArgumentModel>,
    from: nat,
    acc: Option<GeneratedModel>,
    accessor: AccessorModel,
    places: Places,
    element: LiveModel,
)
    requires
        tallies(derivation.kind),
    ensures
        counts_items(
            derivation.combine_arguments(container, arguments, from, acc, accessor),
            places,
            element,
            count_found(acc, places, element) + items_in_arguments(
                derivation.target,
                arguments,
                reads(accessor, places, element),
                from,
            ).len(),
        ),
    decreases arguments, arguments.len() - from, 0nat,
{
    if from < arguments.len() {
        match arguments[from as int] {
            ArgumentModel::Type(ty) => {
                lemma_merged_count(derivation, container, from, ty, acc, accessor, places, element);
                match derivation.merged(
                    container,
                    from,
                    ty,
                    accessor,
                    acc,
                    derivation.walk(ty, AccessorModel::Element),
                ) {
                    Ok(next) => {
                        lemma_count_in_arguments(
                            derivation,
                            container,
                            arguments,
                            from + 1,
                            next,
                            accessor,
                            places,
                            element,
                        );
                    },
                    Err(error) => {},
                }
            },
            ArgumentModel::Other(text) => {
                lemma_count_in_arguments(
                    derivation,
                    container,
                    arguments,
                    from + 1,
                    acc,
                    accessor,
                    places,
                    element,
                );
            },
        }
    }
}

/// The live count of the catalog counts live values.
pub proof fn lemma_catalog_tallies()
    ensures
        tallies(EmitLen),
{
}

} // verus!
