//! What is derived for a record or for a tagged type is sound: the sequence
//! yields the values of the target that the fields hold, the live count is
//! their number, and the static counts bound it.
use crate::bounds::{DeclaredBoundModel, static_max, static_min};
use crate::catalog::{EmitLen, EmitMaxLen, EmitMinLen, Emitter};
use crate::driver::{
    FieldModels, arm, first_refusal, reached, reached_fields, shape_model, variants_model,
};
use crate::generated::{GeneratedModel, Traversal};
use crate::laws::counts::{
    lemma_squashed_maximum, lemma_squashed_maximum_unbounded, lemma_squashed_minimum,
};
use crate::laws::limits::{
    leaves_room, lemma_maximum_is_upper_bound, lemma_minimum_is_lower_bound,
    lemma_nothing_found_holds_nothing, max_found, min_found,
};
use crate::laws::live::{
    count_found, counts_items, items_found, iterates, lemma_catalog_tallies,
    lemma_iteration_yields_each_item, lemma_live_count_is_number_of_items, tallies, yields_items,
};
use crate::live::{
    LiveModel, Places, fields_abide, items_in_fields, items_of, live_count, live_items, reads,
};
use crate::types::TypeModel;
use crate::walker::Derivation;
use vstd::prelude::*;

verus! {

/// Whether what is derived for one shape is sound for given values: the
/// sequence yields the items, the live count is their number, and, where
/// the values keep to the declared bounds, the minimum count does not
/// exceed that number and the maximum count, where it is bounded, is not
/// exceeded by it.
pub open spec fn sound(
    min_len: GeneratedModel,
    max_len: GeneratedModel,
    iter: GeneratedModel,
    len: GeneratedModel,
    entries: Seq<DeclaredBoundModel>,
    places: Places,
    element: LiveModel,
    items: Seq<LiveModel>,
    abiding: bool,
) -> bool {
    &&& live_items(iter, places, element) == items
    &&& live_count(len, places, element) == items.len()
    &&& abiding ==> static_min(min_len, entries) <= items.len()
    &&& abiding ==> match static_max(max_len, entries) {
        Some(limit) => items.len() <= limit,
        None => true,
    }
}

proof fn lemma_fields_items<K: Emitter>(
    derivation: Derivation<K>,
    fields: FieldModels,
    from: nat,
    acc: Option<GeneratedModel>,
    places: Places,
    element: LiveModel,
)
    requires
        iterates(derivation.kind),
    ensures
        yields_items(
            derivation.combine_fields(fields, from, acc),
            places,
            element,
            items_found(acc, places, element) + items_in_fields(
                derivation.target,
                fields,
                places,
                element,
                from,
            ),
        ),
    decreases fields.len() - from,
{
    let before = items_found(acc, places, element);
    if from < fields.len() {
        let field = fields[from as int];
        lemma_iteration_yields_each_item(derivation, field.0, field.1, places, element);
        let here = items_of(derivation.target, field.0, reads(field.1, places, element));
        let rest = items_in_fields(derivation.target, fields, places, element, from + 1);
        match derivation.walk(field.0, field.1) {
            Ok(Some(item)) => {
                let next = Some(derivation.joined(acc, item));
                lemma_fields_items(derivation, fields, from + 1, next, places, element);
                if acc is None {
                    assert(before + here =~= here);
                }
                assert((before + here) + rest =~= before + (here + rest));
            },
            Ok(None) => {
                lemma_fields_items(derivation, fields, from + 1, acc, places, element);
                assert(before + (here + rest) =~= before + rest);
            },
            Err(error) => {},
        }
    } else {
        assert(before + Seq::<LiveModel>::empty() =~= before);
    }
}

proof fn lemma_fields_count<K: Emitter>(
    derivation: Derivation<K>,
    fields: FieldModels,
    from: nat,
    acc: Option<GeneratedModel>,
    places: Places,
    element: LiveModel,
)
    requires
        tallies(derivation.kind),
    ensures
        counts_items(
            derivation.combine_fields(fields, from, acc),
            places,
            element,
            count_found(acc, places, element) + items_in_fields(
                derivation.target,
                fields,
                places,
                element,
                from,
            ).len(),
        ),
    decreases fields.len() - from,
{
    if from < fields.len() {
        let field = fields[from as int];
        lemma_live_count_is_number_of_items(derivation, field.0, field.1, places, element);
        match derivation.walk(field.0, field.1) {
            Ok(Some(item)) => {
                let next = Some(derivation.joined(acc, item));
                lemma_fields_count(derivation, fields, from + 1, next, places, element);
            },
            Ok(None) => {
                lemma_fields_count(derivation, fields, from + 1, acc, places, element);
            },
            Err(error) => {},
        }
    }
}

proof fn lemma_fields_min(
    namespace: Seq<char>,
    target: TypeModel,
    fields: FieldModels,
    from: nat,
    acc: Option<GeneratedModel>,
    entries: Seq<DeclaredBoundModel>,
    places: Places,
    element: LiveModel,
)
    requires
        fields_abide(entries, target, fields, places, element),
    ensures
        Derivation::new(EmitMinLen, namespace, target).combine_fields(fields, from, acc) matches Ok(
            found,
        ) ==> min_found(found, entries) <= min_found(acc, entries) + items_in_fields(
            target,
            fields,
            places,
            element,
            from,
        ).len(),
    decreases fields.len() - from,
{
    let minimum = Derivation::new(EmitMinLen, namespace, target);
    if from < fields.len() {
        let field = fields[from as int];
        let value = reads(field.1, places, element);
        lemma_minimum_is_lower_bound(namespace, target, field.0, field.1, entries, value);
        match minimum.walk(field.0, field.1) {
            Ok(Some(item)) => {
                let next = Some(minimum.joined(acc, item));
                assert(min_found(next, entries) == min_found(acc, entries) + static_min(
                    item,
                    entries,
                ));
                lemma_fields_min(namespace, target, fields, from + 1, next, entries, places, element);
            },
            Ok(None) => {
                lemma_fields_min(namespace, target, fields, from + 1, acc, entries, places, element);
            },
            Err(error) => {},
        }
    }
}

proof fn lemma_fields_max(
    namespace: Seq<char>,
    target: TypeModel,
    fields: FieldModels,
    from: nat,
    acc: Option<GeneratedModel>,
    entries: Seq<DeclaredBoundModel>,
    places: Places,
    element: LiveModel,
)
    requires
        fields_abide(entries, target, fields, places, element),
    ensures
        Derivation::new(EmitMaxLen, namespace, target).combine_fields(fields, from, acc) matches Ok(
            found,
        ) ==> leaves_room(
            found,
            acc,
            entries,
            items_in_fields(target, fields, places, element, from).len(),
        ),
    decreases fields.len() - from,
{
    let maximum = Derivation::new(EmitMaxLen, namespace, target);
    if from < fields.len() {
        let field = fields[from as int];
        let value = reads(field.1, places, element);
        lemma_maximum_is_upper_bound(namespace, target, field.0, field.1, entries, value);
        match maximum.walk(field.0, field.1) {
            Ok(Some(item)) => {
                let next = Some(maximum.joined(acc, item));
                assert(max_found(next, entries) == match (
                    max_found(acc, entries),
                    static_max(item, entries),
                ) {
                    (Some(l), Some(r)) => Some(l + r),
                    _ => None,
                });
                lemma_fields_max(namespace, target, fields, from + 1, next, entries, places, element);
            },
            Ok(None) => {
                lemma_nothing_found_holds_nothing(
                    maximum,
                    field.0,
                    field.1,
                    value,
                );
                lemma_fields_max(namespace, target, fields, from + 1, acc, entries, places, element);
            },
            Err(error) => {},
        }
    }
}

proof fn lemma_reached_fields(
    target: TypeModel,
    traversal: Traversal,
    fields: FieldModels,
    entries: Seq<DeclaredBoundModel>,
    places: Places,
    element: LiveModel,
    from: nat,
)
    ensures
        items_in_fields(target, reached_fields(traversal, fields), places, element, from)
            == items_in_fields(target, fields, places, element, from),
        fields_abide(entries, target, fields, places, element) ==> fields_abide(
            entries,
            target,
            reached_fields(traversal, fields),
            places,
            element,
        ),
    decreases fields.len() - from,
{
    let moved = reached_fields(traversal, fields);
    assert forall|i: int| 0 <= i < fields.len() implies reads(
        (#[trigger] moved[i]).1,
        places,
        element,
    ) == reads(fields[i].1, places, element) && moved[i].0 == fields[i].0 by {
        assert(moved[i].1 == reached(traversal, fields[i].1));
    }
    if from < fields.len() {
        lemma_reached_fields(target, traversal, fields, entries, places, element, from + 1);
    }
}

/// What is derived for a shape is sound: whatever values the places of the
/// shape hold, the sequence yields exactly the values of the target that
/// the fields hold, field by field; the live count is their number; and
/// where the values keep to the declared bounds, that number lies between
/// the minimum count and the maximum count.
pub proof fn lemma_shape_is_sound<K: Emitter>(
    kind: K,
    namespace: Seq<char>,
    target: TypeModel,
    fields: FieldModels,
    entries: Seq<DeclaredBoundModel>,
    places: Places,
    element: LiveModel,
)
    requires
        iterates(kind),
        shape_model(kind, namespace, target, fields) is Ok,
    ensures
        sound(
            shape_model(kind, namespace, target, fields)->Ok_0.min_len,
            shape_model(kind, namespace, target, fields)->Ok_0.max_len,
            shape_model(kind, namespace, target, fields)->Ok_0.iter,
            shape_model(kind, namespace, target, fields)->Ok_0.len,
            entries,
            places,
            element,
            items_in_fields(target, fields, places, element, 0),
            fields_abide(entries, target, fields, places, element),
        ),
{
    let items = items_in_fields(target, fields, places, element, 0);
    let minimum = Derivation::new(EmitMinLen, namespace, target);
    let maximum = Derivation::new(EmitMaxLen, namespace, target);
    let iteration = Derivation::new(kind, namespace, target);
    let count = Derivation::new(EmitLen, namespace, target);
    lemma_catalog_tallies();
    lemma_reached_fields(target, minimum.kind.reach(), fields, entries, places, element, 0);
    lemma_reached_fields(target, iteration.kind.reach(), fields, entries, places, element, 0);
    lemma_fields_items(
        iteration,
        reached_fields(iteration.kind.reach(), fields),
        0,
        None,
        places,
        element,
    );
    assert(Seq::<LiveModel>::empty() + items =~= items);
    lemma_fields_count(count, reached_fields(count.kind.reach(), fields), 0, None, places, element);
    if fields_abide(entries, target, fields, places, element) {
        lemma_fields_min(
            namespace,
            target,
            reached_fields(minimum.kind.reach(), fields),
            0,
            None,
            entries,
            places,
            element,
        );
        lemma_fields_max(
            namespace,
            target,
            reached_fields(maximum.kind.reach(), fields),
            0,
            None,
            entries,
            places,
            element,
        );
    }
}

proof fn lemma_no_refusal<K: Emitter>(
    kind: K,
    namespace: Seq<char>,
    target: TypeModel,
    variants: Seq<FieldModels>,
    from: nat,
    index: int,
)
    requires
        first_refusal(kind, namespace, target, variants, from) is None,
        from <= index < variants.len(),
    ensures
        shape_model(kind, namespace, target, variants[index]) is Ok,
    decreases variants.len() - from,
{
    if from < index {
        lemma_no_refusal(kind, namespace, target, variants, from + 1, index);
    }
}

/// What is derived for a tagged type is sound for each of its variants:
/// whatever values the places of the variant hold, the sequence of the
/// variant yields exactly the values of the target that its fields hold,
/// field by field; the live count of the variant is their number; and where
/// the values keep to the declared bounds, that number lies between the
/// minimum count and the maximum count of the type.
pub proof fn lemma_variant_is_sound<K: Emitter>(
    kind: K,
    namespace: Seq<char>,
    target: TypeModel,
    variants: Seq<FieldModels>,
    index: int,
    entries: Seq<DeclaredBoundModel>,
    places: Places,
    element: LiveModel,
)
    requires
        iterates(kind),
        variants_model(kind, namespace, target, variants) is Ok,
        0 <= index < variants.len(),
    ensures
        sound(
            variants_model(kind, namespace, target, variants)->Ok_0.min_len,
            variants_model(kind, namespace, target, variants)->Ok_0.max_len,
            variants_model(kind, namespace, target, variants)->Ok_0.iters[index],
            variants_model(kind, namespace, target, variants)->Ok_0.lens[index],
            entries,
            places,
            element,
            items_in_fields(target, variants[index], places, element, 0),
            fields_abide(entries, target, variants[index], places, element),
        ),
{
    let derived = variants_model(kind, namespace, target, variants)->Ok_0;
    let mins = Seq::new(variants.len(), |i: int| arm(kind, namespace, target, variants, i).min_len);
    let maxs = Seq::new(variants.len(), |i: int| arm(kind, namespace, target, variants, i).max_len);
    lemma_no_refusal(kind, namespace, target, variants, 0, index);
    lemma_shape_is_sound(kind, namespace, target, variants[index], entries, places, element);
    lemma_squashed_minimum(mins, entries);
    assert(mins[index] == arm(kind, namespace, target, variants, index).min_len);
    assert(maxs[index] == arm(kind, namespace, target, variants, index).max_len);
    if static_max(derived.max_len, entries) is Some {
        if exists|i: int| 0 <= i < maxs.len() && static_max(#[trigger] maxs[i], entries) is None {
            let unbounded = choose|i: int|
                0 <= i < maxs.len() && static_max(#[trigger] maxs[i], entries) is None;
            lemma_squashed_maximum_unbounded(maxs, entries, unbounded);
        }
        lemma_squashed_maximum(maxs, entries);
    }
}

} // verus!
