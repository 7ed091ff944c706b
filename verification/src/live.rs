//! The live values: what a generated count or sequence amounts to when it is
//! evaluated on a value, and which values of the target a value holds.
use crate::bounds::{DeclaredBoundModel, declared_max, declared_min};
use crate::generated::{AccessorModel, GeneratedModel};
use crate::types::{ArgumentModel, TypeModel};
use vstd::prelude::*;

verus! {

/// A live value, as far as a traversal can tell: a value that holds nothing
/// to traverse, or a container that holds, for each of its argument
/// positions, the elements of that position in order.
pub enum LiveModel {
    Atom(int),
    Holds(Seq<Seq<LiveModel>>),
}

/// The values that the places of a shape hold, by the text of the place.
pub type Places = Map<Seq<char>, LiveModel>;

/// The value that an accessor reads. A borrow and a dereference read the
/// value that lies behind them.
pub open spec fn reads(accessor: AccessorModel, places: Places, element: LiveModel) -> LiveModel
    decreases accessor,
{
    match accessor {
        AccessorModel::Place(text) => places[text],
        AccessorModel::Element => element,
        AccessorModel::Deref(inner) => reads(*inner, places, element),
        AccessorModel::Borrow { exclusive, place } => reads(*place, places, element),
    }
}

/// The elements that a value holds at one argument position, in order.
pub open spec fn elements_at(value: LiveModel, index: nat) -> Seq<LiveModel> {
    match value {
        LiveModel::Holds(parts) => if index < parts.len() {
            parts[index as int]
        } else {
            Seq::empty()
        },
        LiveModel::Atom(id) => Seq::empty(),
    }
}

/// What a generated live count amounts to, `element` being the element at
/// hand where the count is that of an element.
pub open spec fn live_count(generated: GeneratedModel, places: Places, element: LiveModel) -> nat
    decreases generated, 0nat, 0nat,
{
    match generated {
        GeneratedModel::Count(n) => n,
        GeneratedModel::Sum(a, b) => live_count(*a, places, element) + live_count(
            *b,
            places,
            element,
        ),
        GeneratedModel::Tally { helper, source, inner } => tallied(
            *inner,
            places,
            elements_at(reads(source, places, element), helper.index),
            0,
        ),
        _ => 0,
    }
}

/// The sum of the counts of the elements `from..`.
pub open spec fn tallied(
    inner: GeneratedModel,
    places: Places,
    elements: Seq<LiveModel>,
    from: nat,
) -> nat
    decreases inner, 1nat, elements.len() - from,
{
    if from >= elements.len() {
        0
    } else {
        live_count(inner, places, elements[from as int]) + tallied(
            inner,
            places,
            elements,
            from + 1,
        )
    }
}

/// The values that a generated sequence yields, in order.
pub open spec fn live_items(generated: GeneratedModel, places: Places, element: LiveModel) -> Seq<
    LiveModel,
>
    decreases generated, 0nat, 0nat,
{
    match generated {
        GeneratedModel::Once(accessor) => seq![reads(accessor, places, element)],
        GeneratedModel::Chain(a, b) => live_items(*a, places, element) + live_items(
            *b,
            places,
            element,
        ),
        GeneratedModel::Flatten { traversal, helper, element: ty, source, inner } => flattened(
            *inner,
            places,
            elements_at(reads(source, places, element), helper.index),
            0,
        ),
        _ => Seq::empty(),
    }
}

/// The sequences of the elements `from..`, one after another.
pub open spec fn flattened(
    inner: GeneratedModel,
    places: Places,
    elements: Seq<LiveModel>,
    from: nat,
) -> Seq<LiveModel>
    decreases inner, 1nat, elements.len() - from,
{
    if from >= elements.len() {
        Seq::empty()
    } else {
        live_items(inner, places, elements[from as int]) + flattened(
            inner,
            places,
            elements,
            from + 1,
        )
    }
}

/// The values of the target that a value of the given type holds, in the
/// order of the traversal: the value itself where the type is the target;
/// else those of the elements of each position, position by position.
pub open spec fn items_of(target: TypeModel, ty: TypeModel, value: LiveModel) -> Seq<LiveModel>
    decreases ty, 0nat, 0nat,
{
    if ty == target {
        seq![value]
    } else {
        match ty {
            TypeModel::Array { element, arity } => items_in_elements(
                target,
                *element,
                elements_at(value, 0),
                0,
            ),
            TypeModel::Group { inner } => items_of(target, *inner, value),
            TypeModel::Leaf { name, arguments } => items_in_arguments(target, arguments, value, 0),
            TypeModel::Reference { exclusive, lifetime, referent } => items_of(
                target,
                *referent,
                value,
            ),
            TypeModel::Tuple { elements } => items_in_types(target, elements, value, 0),
            _ => Seq::empty(),
        }
    }
}

/// The values of the target that the elements `from..`, each of the given
/// type, hold.
pub open spec fn items_in_elements(
    target: TypeModel,
    ty: TypeModel,
    elements: Seq<LiveModel>,
    from: nat,
) -> Seq<LiveModel>
    decreases ty, 1nat, elements.len() - from,
{
    if from >= elements.len() {
        Seq::empty()
    } else {
        items_of(target, ty, elements[from as int]) + items_in_elements(
            target,
            ty,
            elements,
            from + 1,
        )
    }
}

/// The values of the target that a value holds at the positions `from..` of
/// a list of types.
pub open spec fn items_in_types(
    target: TypeModel,
    types: Seq<TypeModel>,
    value: LiveModel,
    from: nat,
) -> Seq<LiveModel>
    decreases types, types.len() - from, 0nat,
{
    if from >= types.len() {
        Seq::empty()
    } else {
        items_in_elements(target, types[from as int], elements_at(value, from), 0)
            + items_in_types(target, types, value, from + 1)
    }
}

/// The values of the target that a value holds at the type-valued positions
/// `from..` of an argument list.
pub open spec fn items_in_arguments(
    target: TypeModel,
    arguments: Seq<ArgumentModel>,
    value: LiveModel,
    from: nat,
) -> Seq<LiveModel>
    decreases arguments, arguments.len() - from, 0nat,
{
    if from >= arguments.len() {
        Seq::empty()
    } else {
        match arguments[from as int] {
            ArgumentModel::Type(ty) => items_in_elements(target, ty, elements_at(value, from), 0)
                + items_in_arguments(target, arguments, value, from + 1),
            ArgumentModel::Other(text) => items_in_arguments(target, arguments, value, from + 1),
        }
    }
}

/// The values of the target that the fields `from..` of a shape hold, field
/// by field.
pub open spec fn items_in_fields(
    target: TypeModel,
    fields: Seq<(TypeModel, AccessorModel)>,
    places: Places,
    element: LiveModel,
    from: nat,
) -> Seq<LiveModel>
    decreases fields.len() - from,
{
    if from >= fields.len() {
        Seq::empty()
    } else {
        items_of(
            target,
            fields[from as int].0,
            reads(fields[from as int].1, places, element),
        ) + items_in_fields(target, fields, places, element, from + 1)
    }
}

/// Whether a number of elements lies within what a container declares for
/// one of its positions.
pub open spec fn within(
    entries: Seq<DeclaredBoundModel>,
    container: TypeModel,
    index: nat,
    count: nat,
) -> bool {
    &&& declared_min(entries, container, index) <= count
    &&& match declared_max(entries, container, index) {
        Some(limit) => count <= limit,
        None => true,
    }
}

/// Whether a value of the given type keeps to the declared bounds: at every
/// position that the traversal visits, the number of elements lies within
/// what the container declares, and so for every element in turn. Nothing
/// is asked of a value of the target itself.
pub open spec fn abides(
    entries: Seq<DeclaredBoundModel>,
    target: TypeModel,
    ty: TypeModel,
    value: LiveModel,
) -> bool
    decreases ty, 0nat,
{
    if ty == target {
        true
    } else {
        match ty {
            TypeModel::Array { element, arity } => held_abides(
                entries,
                target,
                ty,
                0,
                *element,
                elements_at(value, 0),
            ),
            TypeModel::Group { inner } => abides(entries, target, *inner, value),
            TypeModel::Leaf { name, arguments } => forall|i: int|
                0 <= i < arguments.len() ==> argument_abides(
                    entries,
                    target,
                    ty,
                    i as nat,
                    #[trigger] arguments[i],
                    elements_at(value, i as nat),
                ),
            TypeModel::Reference { exclusive, lifetime, referent } => abides(
                entries,
                target,
                *referent,
                value,
            ),
            TypeModel::Tuple { elements } => forall|i: int|
                0 <= i < elements.len() ==> held_abides(
                    entries,
                    target,
                    ty,
                    i as nat,
                    #[trigger] elements[i],
                    elements_at(value, i as nat),
                ),
            _ => true,
        }
    }
}

/// Whether the elements that a container holds at one position keep to the
/// declared bounds: their number, and each of them.
pub open spec fn held_abides(
    entries: Seq<DeclaredBoundModel>,
    target: TypeModel,
    container: TypeModel,
    index: nat,
    ty: TypeModel,
    held: Seq<LiveModel>,
) -> bool
    decreases ty, 1nat,
{
    &&& within(entries, container, index, held.len())
    &&& forall|j: int| 0 <= j < held.len() ==> abides(entries, target, ty, #[trigger] held[j])
}

/// Whether the elements that a container holds at one entry of its argument
/// list keep to the declared bounds. Nothing is asked where the entry is no
/// type.
pub open spec fn argument_abides(
    entries: Seq<DeclaredBoundModel>,
    target: TypeModel,
    container: TypeModel,
    index: nat,
    argument: ArgumentModel,
    held: Seq<LiveModel>,
) -> bool
    decreases argument, 2nat,
{
    match argument {
        ArgumentModel::Type(ty) => held_abides(entries, target, container, index, ty, held),
        ArgumentModel::Other(text) => true,
    }
}

/// Whether the value of every field of a shape keeps to the declared
/// bounds.
pub open spec fn fields_abide(
    entries: Seq<DeclaredBoundModel>,
    target: TypeModel,
    fields: Seq<(TypeModel, AccessorModel)>,
    places: Places,
    element: LiveModel,
) -> bool {
    forall|i: int|
        0 <= i < fields.len() ==> abides(
            entries,
            target,
            (#[trigger] fields[i]).0,
            reads(fields[i].1, places, element),
        )
}

} // verus!
