use parametric_core::catalog::{
    EmitIntoIter, EmitIter, EmitIterMut, EmitLen, EmitMaxLen, EmitMinLen, Emitter,
};
use parametric_core::generated::{
    Accessor, ClassificationError, ErrorKind, Generated, Helper, Outcome, Traversal,
};
use parametric_core::types::{Arity, GenericArgument, TypeExpr};
use parametric_core::walker::EmitContext;

const KRATE: &str = "::parametric_type";

fn leaf(name: &str) -> TypeExpr {
    TypeExpr::Leaf { name: name.to_string(), arguments: Vec::new() }
}

fn generic(name: &str, arguments: Vec<GenericArgument>) -> TypeExpr {
    TypeExpr::Leaf { name: name.to_string(), arguments }
}

fn vec_of(element: TypeExpr) -> TypeExpr {
    generic("Vec", vec![GenericArgument::Type(element)])
}

fn tuple(elements: Vec<TypeExpr>) -> TypeExpr {
    TypeExpr::Tuple { elements }
}

fn array(element: TypeExpr, arity: usize) -> TypeExpr {
    TypeExpr::Array { element: Box::new(element), arity: Arity::Fixed(arity) }
}

fn slice(element: TypeExpr) -> TypeExpr {
    TypeExpr::Array { element: Box::new(element), arity: Arity::Unbounded }
}

fn group(inner: TypeExpr) -> TypeExpr {
    TypeExpr::Group { inner: Box::new(inner) }
}

fn reference(exclusive: bool, referent: TypeExpr) -> TypeExpr {
    TypeExpr::Reference { exclusive, lifetime: None, referent: Box::new(referent) }
}

fn signature(name: &str, inputs: Vec<TypeExpr>, output: Option<TypeExpr>) -> TypeExpr {
    TypeExpr::Signature { name: name.to_string(), inputs, output: output.map(Box::new) }
}

fn bounds(list: Vec<TypeExpr>) -> TypeExpr {
    TypeExpr::BoundList { bounds: list }
}

fn unsupported() -> TypeExpr {
    TypeExpr::Unsupported { text: "*const u8".to_string() }
}

fn place(text: &str) -> Accessor {
    Accessor::Place(text.to_string())
}

fn deref(inner: Accessor) -> Accessor {
    Accessor::Deref(Box::new(inner))
}

fn helper(container: &TypeExpr, index: usize) -> Helper {
    Helper { namespace: KRATE.to_string(), container: container.clone(), index }
}

fn context<K: Emitter>(kind: K, target: TypeExpr) -> EmitContext<K> {
    EmitContext { kind, krate: KRATE.to_string(), replacing_ty: target }
}

fn walk<K: Emitter>(kind: K, ty: &TypeExpr) -> Outcome {
    context(kind, leaf("T")).emit(ty, &place("self.0"))
}

fn scaled(container: &TypeExpr, index: usize, inner: Generated) -> Generated {
    Generated::Scaled { helper: helper(container, index), inner: Box::new(inner) }
}

fn limit_scaled(container: &TypeExpr, index: usize, inner: Generated) -> Generated {
    Generated::LimitScaled { helper: helper(container, index), inner: Box::new(inner) }
}

fn tally(container: &TypeExpr, index: usize, source: Accessor, inner: Generated) -> Generated {
    Generated::Tally { helper: helper(container, index), source, inner: Box::new(inner) }
}

fn flatten(
    traversal: Traversal,
    container: &TypeExpr,
    index: usize,
    element: TypeExpr,
    source: Accessor,
    inner: Generated,
) -> Generated {
    Generated::Flatten {
        traversal,
        helper: helper(container, index),
        element,
        source,
        inner: Box::new(inner),
    }
}

fn sum(a: Generated, b: Generated) -> Generated {
    Generated::Sum(Box::new(a), Box::new(b))
}

fn chain(a: Generated, b: Generated) -> Generated {
    Generated::Chain(Box::new(a), Box::new(b))
}

fn refusal(kind: ErrorKind, position: Vec<usize>) -> Outcome {
    Err(ClassificationError { kind, position })
}

#[test]
fn target_itself_counts_once() {
    let found = walk(EmitMinLen, &leaf("T"));
    assert_eq!(found, Ok(Some(Generated::Count(1))));
}

#[test]
fn target_itself_yields_the_leaf_value_of_each_capability() {
    let t = leaf("T");
    assert_eq!(walk(EmitMinLen, &t), Ok(Some(Generated::Count(1))));
    assert_eq!(walk(EmitMaxLen, &t), Ok(Some(Generated::Limit(1))));
    assert_eq!(walk(EmitLen, &t), Ok(Some(Generated::Count(1))));
    assert_eq!(walk(EmitIter, &t), Ok(Some(Generated::Once(place("self.0")))));
    assert_eq!(walk(EmitIterMut, &t), Ok(Some(Generated::Once(place("self.0")))));
    assert_eq!(walk(EmitIntoIter, &t), Ok(Some(Generated::Once(place("self.0")))));
}

#[test]
fn shared_iteration_of_the_target_holds_the_accessor_handed_in() {
    let found = context(EmitIter, leaf("T")).emit(&leaf("T"), &deref(place("field")));
    assert_eq!(found, Ok(Some(Generated::Once(deref(place("field"))))));
}

#[test]
fn unrelated_type_yields_nothing_for_every_capability() {
    for ty in [
        leaf("u8"),
        vec_of(leaf("u8")),
        tuple(vec![leaf("u8"), array(leaf("String"), 4)]),
        reference(false, slice(leaf("u8"))),
        signature("Fn", vec![leaf("u8")], Some(leaf("u8"))),
        bounds(vec![generic("Iterator", vec![GenericArgument::Type(leaf("u8"))])]),
        group(leaf("u8")),
        TypeExpr::Never,
        tuple(vec![]),
    ] {
        assert_eq!(walk(EmitMinLen, &ty), Ok(None), "{:?}", ty);
        assert_eq!(walk(EmitMaxLen, &ty), Ok(None), "{:?}", ty);
        assert_eq!(walk(EmitLen, &ty), Ok(None), "{:?}", ty);
        assert_eq!(walk(EmitIter, &ty), Ok(None), "{:?}", ty);
        assert_eq!(walk(EmitIterMut, &ty), Ok(None), "{:?}", ty);
        assert_eq!(walk(EmitIntoIter, &ty), Ok(None), "{:?}", ty);
    }
}

#[test]
fn match_is_exact_and_never_partial() {
    let target = vec_of(leaf("T"));
    let ctx = context(EmitMinLen, target.clone());
    assert_eq!(ctx.emit(&vec_of(leaf("T")), &place("x")), Ok(Some(Generated::Count(1))));
    assert_eq!(ctx.emit(&vec_of(leaf("U")), &place("x")), Ok(None));
    assert_eq!(ctx.emit(&leaf("T"), &place("x")), Ok(None));
    assert_eq!(ctx.emit(&leaf("Vec"), &place("x")), Ok(None));
    let nested = vec_of(vec_of(leaf("T")));
    assert_eq!(
        ctx.emit(&nested, &place("x")),
        Ok(Some(scaled(&nested, 0, Generated::Count(1))))
    );
}

#[test]
fn tuple_counts_each_occurrence_left_to_right() {
    let ty = tuple(vec![leaf("T"), leaf("U"), leaf("T")]);
    let expected = sum(
        tally(&ty, 0, place("self.0"), Generated::Count(1)),
        tally(&ty, 2, place("self.0"), Generated::Count(1)),
    );
    assert_eq!(walk(EmitLen, &ty), Ok(Some(expected)));
}

#[test]
fn tuple_iterates_its_projections_in_order() {
    let ty = tuple(vec![leaf("T"), leaf("U"), leaf("T")]);
    let expected = chain(
        flatten(
            Traversal::Shared,
            &ty,
            0,
            leaf("T"),
            place("self.0"),
            Generated::Once(Accessor::Element),
        ),
        flatten(
            Traversal::Shared,
            &ty,
            2,
            leaf("T"),
            place("self.0"),
            Generated::Once(Accessor::Element),
        ),
    );
    assert_eq!(walk(EmitIter, &ty), Ok(Some(expected)));
}

#[test]
fn single_result_is_passed_through_unchanged() {
    let ty = tuple(vec![leaf("U"), leaf("T"), leaf("u8")]);
    assert_eq!(walk(EmitMinLen, &ty), Ok(Some(scaled(&ty, 1, Generated::Count(1)))));
    assert_eq!(walk(EmitMaxLen, &ty), Ok(Some(limit_scaled(&ty, 1, Generated::Limit(1)))));
}

#[test]
fn three_results_fold_pairwise_from_the_left() {
    let ty = tuple(vec![leaf("T"), leaf("T"), leaf("T")]);
    let item = |index: usize| scaled(&ty, index, Generated::Count(1));
    assert_eq!(walk(EmitMinLen, &ty), Ok(Some(sum(sum(item(0), item(1)), item(2)))));
    let limit = |index: usize| limit_scaled(&ty, index, Generated::Limit(1));
    assert_eq!(
        walk(EmitMaxLen, &ty),
        Ok(Some(Generated::LimitSum(
            Box::new(Generated::LimitSum(Box::new(limit(0)), Box::new(limit(1)))),
            Box::new(limit(2)),
        )))
    );
}

#[test]
fn array_and_slice_have_one_position() {
    let fixed = array(leaf("T"), 3);
    assert_eq!(walk(EmitMinLen, &fixed), Ok(Some(scaled(&fixed, 0, Generated::Count(1)))));
    let open = slice(leaf("T"));
    assert_eq!(
        walk(EmitLen, &open),
        Ok(Some(tally(&open, 0, place("self.0"), Generated::Count(1))))
    );
    assert_eq!(
        walk(EmitIntoIter, &open),
        Ok(Some(flatten(
            Traversal::Consuming,
            &open,
            0,
            leaf("T"),
            place("self.0"),
            Generated::Once(Accessor::Element),
        )))
    );
}

#[test]
fn group_adds_no_level() {
    assert_eq!(walk(EmitMinLen, &group(leaf("T"))), Ok(Some(Generated::Count(1))));
    assert_eq!(walk(EmitIter, &group(leaf("T"))), Ok(Some(Generated::Once(place("self.0")))));
    let inner = vec_of(leaf("T"));
    assert_eq!(walk(EmitMinLen, &group(inner.clone())), walk(EmitMinLen, &inner));
    assert_eq!(walk(EmitIter, &group(group(inner.clone()))), walk(EmitIter, &inner));
}

#[test]
fn lifetime_and_constant_arguments_keep_their_position_and_are_skipped() {
    let ty = generic(
        "Table",
        vec![
            GenericArgument::Other("'a".to_string()),
            GenericArgument::Type(leaf("T")),
            GenericArgument::Other("16".to_string()),
            GenericArgument::Type(leaf("u8")),
            GenericArgument::Type(leaf("T")),
        ],
    );
    let expected = sum(scaled(&ty, 1, Generated::Count(1)), scaled(&ty, 4, Generated::Count(1)));
    assert_eq!(walk(EmitMinLen, &ty), Ok(Some(expected)));
}

#[test]
fn nested_containers_nest_their_contributions() {
    let option = generic("Option", vec![GenericArgument::Type(array(leaf("T"), 2))]);
    let ty = vec_of(option.clone());
    let innermost = scaled(&array(leaf("T"), 2), 0, Generated::Count(1));
    let expected = scaled(&ty, 0, scaled(&option, 0, innermost));
    assert_eq!(walk(EmitMinLen, &ty), Ok(Some(expected)));
    let elements = flatten(
        Traversal::Exclusive,
        &array(leaf("T"), 2),
        0,
        leaf("T"),
        Accessor::Element,
        Generated::Once(Accessor::Element),
    );
    let options = flatten(
        Traversal::Exclusive,
        &option,
        0,
        array(leaf("T"), 2),
        Accessor::Element,
        elements,
    );
    let expected = flatten(Traversal::Exclusive, &ty, 0, option.clone(), place("self.0"), options);
    assert_eq!(walk(EmitIterMut, &ty), Ok(Some(expected)));
}

#[test]
fn reference_to_the_target_adds_one_dereference() {
    let shared = reference(false, leaf("T"));
    assert_eq!(walk(EmitMinLen, &shared), Ok(Some(Generated::Count(1))));
    assert_eq!(walk(EmitIter, &shared), Ok(Some(Generated::Once(deref(place("self.0"))))));
    let exclusive = reference(true, leaf("T"));
    assert_eq!(walk(EmitIterMut, &exclusive), Ok(Some(Generated::Once(deref(place("self.0"))))));
    let twice = reference(false, reference(true, leaf("T")));
    assert_eq!(walk(EmitIter, &twice), Ok(Some(Generated::Once(deref(deref(place("self.0")))))));
}

#[test]
fn min_count_of_reference_equals_that_of_referent_behind_a_dereference() {
    for referent in [leaf("T"), vec_of(leaf("T")), tuple(vec![leaf("T"), leaf("T")]), leaf("u8")] {
        for exclusive in [false, true] {
            let through = walk(EmitMinLen, &reference(exclusive, referent.clone()));
            let direct = context(EmitMinLen, leaf("T")).emit(&referent, &deref(place("self.0")));
            assert_eq!(through, direct);
        }
    }
}

#[test]
fn shared_reference_refuses_exclusive_iteration() {
    let ty = reference(false, leaf("T"));
    assert_eq!(walk(EmitIterMut, &ty), refusal(ErrorKind::CannotDescendReference, vec![]));
    assert_eq!(walk(EmitIntoIter, &ty), refusal(ErrorKind::CannotDescendReference, vec![]));
}

#[test]
fn exclusive_reference_refuses_consuming_iteration_only() {
    let ty = reference(true, vec_of(leaf("T")));
    assert!(matches!(walk(EmitIter, &ty), Ok(Some(_))));
    assert!(matches!(walk(EmitIterMut, &ty), Ok(Some(_))));
    assert_eq!(walk(EmitIntoIter, &ty), refusal(ErrorKind::CannotDescendReference, vec![]));
}

#[test]
fn lifetime_of_a_reference_does_not_change_the_walk() {
    let named = TypeExpr::Reference {
        exclusive: true,
        lifetime: Some("'a".to_string()),
        referent: Box::new(leaf("T")),
    };
    assert_eq!(walk(EmitIterMut, &named), walk(EmitIterMut, &reference(true, leaf("T"))));
    assert_eq!(walk(EmitIntoIter, &named), refusal(ErrorKind::CannotDescendReference, vec![]));
    let ctx = context(EmitMinLen, reference(false, leaf("T")));
    let other = TypeExpr::Reference {
        exclusive: false,
        lifetime: Some("'a".to_string()),
        referent: Box::new(leaf("T")),
    };
    assert_eq!(ctx.emit(&reference(false, leaf("T")), &place("x")), Ok(Some(Generated::Count(1))));
    assert_eq!(ctx.emit(&other, &place("x")), Ok(None));
}

#[test]
fn reference_without_occurrence_is_never_refused() {
    for ty in [reference(false, leaf("u8")), reference(true, vec_of(leaf("u8")))] {
        assert_eq!(walk(EmitIterMut, &ty), Ok(None));
        assert_eq!(walk(EmitIntoIter, &ty), Ok(None));
    }
}

#[test]
fn reference_to_a_container_keeps_the_accessor() {
    let inner = vec_of(leaf("T"));
    let ty = reference(false, inner.clone());
    let expected = flatten(
        Traversal::Shared,
        &inner,
        0,
        leaf("T"),
        place("self.0"),
        Generated::Once(Accessor::Element),
    );
    assert_eq!(walk(EmitIter, &ty), Ok(Some(expected)));
    assert_eq!(walk(EmitIterMut, &ty), refusal(ErrorKind::CannotDescendReference, vec![]));
}

#[test]
fn refusal_below_a_position_carries_the_way_to_it() {
    let ty = tuple(vec![leaf("u8"), vec_of(reference(false, leaf("T")))]);
    assert_eq!(walk(EmitIntoIter, &ty), refusal(ErrorKind::CannotDescendReference, vec![1, 0]));
    let deep = group(reference(true, array(tuple(vec![leaf("T"), unsupported()]), 2)));
    assert_eq!(walk(EmitMinLen, &deep), refusal(ErrorKind::UnsupportedTypeShape, vec![0, 0, 0, 1]));
}

#[test]
fn unsupported_shape_is_refused_where_it_stands() {
    assert_eq!(walk(EmitMinLen, &unsupported()), refusal(ErrorKind::UnsupportedTypeShape, vec![]));
    assert_eq!(
        walk(EmitIter, &vec_of(unsupported())),
        refusal(ErrorKind::UnsupportedTypeShape, vec![0])
    );
}

#[test]
fn unsupported_shape_that_is_the_target_is_a_leaf() {
    let ctx = context(EmitMinLen, unsupported());
    assert_eq!(ctx.emit(&unsupported(), &place("x")), Ok(Some(Generated::Count(1))));
}

#[test]
fn signature_is_refused_only_with_an_occurrence_among_its_inputs() {
    let with = signature("Fn", vec![leaf("u8"), leaf("T")], None);
    assert_eq!(walk(EmitMinLen, &with), refusal(ErrorKind::AmbiguousClosureParametrization, vec![]));
    assert_eq!(walk(EmitIntoIter, &with), refusal(ErrorKind::AmbiguousClosureParametrization, vec![]));
    let nested = signature("Fn", vec![vec_of(leaf("T"))], None);
    assert_eq!(walk(EmitLen, &nested), refusal(ErrorKind::AmbiguousClosureParametrization, vec![]));
    let without = signature("Fn", vec![leaf("u8")], Some(leaf("u16")));
    assert_eq!(walk(EmitMinLen, &without), Ok(None));
    let output_only = signature("Fn", vec![leaf("u8")], Some(leaf("T")));
    assert_eq!(walk(EmitMinLen, &output_only), Ok(None));
    let empty = signature("Fn", vec![], None);
    assert_eq!(walk(EmitMinLen, &empty), Ok(None));
}

#[test]
fn refusal_among_the_inputs_of_a_signature_comes_first() {
    let ty = signature("Fn", vec![leaf("T"), unsupported()], None);
    assert_eq!(walk(EmitMinLen, &ty), refusal(ErrorKind::UnsupportedTypeShape, vec![1]));
    let inner = signature("Fn", vec![signature("Fn", vec![leaf("T")], None)], None);
    assert_eq!(
        walk(EmitMinLen, &inner),
        refusal(ErrorKind::AmbiguousClosureParametrization, vec![0])
    );
}

#[test]
fn bound_list_is_refused_only_with_an_occurrence_among_its_arguments() {
    let with = bounds(vec![leaf("Clone"), generic("Iterator", vec![GenericArgument::Type(leaf("T"))])]);
    assert_eq!(walk(EmitMinLen, &with), refusal(ErrorKind::UnsupportedBoundParametrization, vec![]));
    assert_eq!(walk(EmitIter, &with), refusal(ErrorKind::UnsupportedBoundParametrization, vec![]));
    let in_output = bounds(vec![signature("Fn", vec![leaf("u8")], Some(leaf("T")))]);
    assert_eq!(
        walk(EmitMinLen, &in_output),
        refusal(ErrorKind::UnsupportedBoundParametrization, vec![])
    );
    let in_input = bounds(vec![signature("Fn", vec![leaf("T")], None)]);
    assert_eq!(
        walk(EmitMinLen, &in_input),
        refusal(ErrorKind::UnsupportedBoundParametrization, vec![])
    );
    let without = bounds(vec![
        leaf("Clone"),
        generic("Iterator", vec![GenericArgument::Type(leaf("u8"))]),
        signature("Fn", vec![leaf("u8")], Some(leaf("u8"))),
        TypeExpr::Unsupported { text: "'static".to_string() },
    ]);
    assert_eq!(walk(EmitMinLen, &without), Ok(None));
    assert_eq!(walk(EmitMinLen, &bounds(vec![])), Ok(None));
}

#[test]
fn the_name_of_a_bound_is_no_occurrence() {
    let ty = bounds(vec![leaf("T")]);
    assert_eq!(walk(EmitMinLen, &ty), Ok(None));
}

#[test]
fn refusal_among_the_arguments_of_a_bound_carries_the_way_to_it() {
    let ty = bounds(vec![
        leaf("Clone"),
        generic("Iterator", vec![GenericArgument::Type(leaf("T")), GenericArgument::Type(unsupported())]),
    ]);
    assert_eq!(walk(EmitMinLen, &ty), refusal(ErrorKind::UnsupportedTypeShape, vec![1, 1]));
    let ty = bounds(vec![signature("Fn", vec![leaf("u8")], Some(unsupported()))]);
    assert_eq!(walk(EmitMinLen, &ty), refusal(ErrorKind::UnsupportedTypeShape, vec![0, 1]));
}

#[test]
fn never_yields_nothing() {
    assert_eq!(walk(EmitMinLen, &TypeExpr::Never), Ok(None));
    assert_eq!(walk(EmitIntoIter, &TypeExpr::Never), Ok(None));
}

#[test]
fn the_first_refusal_in_traversal_order_wins() {
    let first = tuple(vec![unsupported(), signature("Fn", vec![leaf("T")], None)]);
    assert_eq!(walk(EmitMinLen, &first), refusal(ErrorKind::UnsupportedTypeShape, vec![0]));
    let second = tuple(vec![signature("Fn", vec![leaf("T")], None), unsupported()]);
    assert_eq!(
        walk(EmitMinLen, &second),
        refusal(ErrorKind::AmbiguousClosureParametrization, vec![0])
    );
    let after_found = tuple(vec![leaf("T"), unsupported()]);
    assert_eq!(walk(EmitMinLen, &after_found), refusal(ErrorKind::UnsupportedTypeShape, vec![1]));
}

#[test]
fn capabilities_with_one_policy_agree_on_what_is_refused() {
    let samples = [
        leaf("T"),
        leaf("u8"),
        tuple(vec![leaf("T"), unsupported()]),
        reference(false, vec_of(leaf("T"))),
        signature("Fn", vec![leaf("T")], None),
        bounds(vec![generic("Iterator", vec![GenericArgument::Type(leaf("T"))])]),
        vec_of(tuple(vec![leaf("u8"), reference(true, leaf("T"))])),
    ];
    for ty in samples.iter() {
        let min = walk(EmitMinLen, ty);
        let max = walk(EmitMaxLen, ty);
        let len = walk(EmitLen, ty);
        let iter = walk(EmitIter, ty);
        assert_eq!(min.clone().err(), max.clone().err());
        assert_eq!(min.clone().err(), len.clone().err());
        assert_eq!(min.clone().err(), iter.clone().err());
        assert_eq!(min.clone().map(|found| found.is_some()).ok(), max.map(|found| found.is_some()).ok());
        assert_eq!(min.clone().map(|found| found.is_some()).ok(), len.map(|found| found.is_some()).ok());
        assert_eq!(min.map(|found| found.is_some()).ok(), iter.map(|found| found.is_some()).ok());
    }
}

#[test]
fn fields_fold_left_to_right_and_pass_a_single_result_through() {
    let ctx = context(EmitMinLen, leaf("T"));
    let none: Vec<(TypeExpr, Accessor)> = vec![(leaf("u8"), place("self.a"))];
    assert_eq!(ctx.emit_for_tys_exprs(&none), Ok(None));
    assert_eq!(ctx.emit_for_tys_exprs(&Vec::new()), Ok(None));
    let one = vec![(leaf("u8"), place("self.a")), (leaf("T"), place("self.b"))];
    assert_eq!(ctx.emit_for_tys_exprs(&one), Ok(Some(Generated::Count(1))));
    let three = vec![
        (leaf("T"), place("self.a")),
        (leaf("u8"), place("self.b")),
        (vec_of(leaf("T")), place("self.c")),
        (leaf("T"), place("self.d")),
    ];
    let expected = sum(
        sum(Generated::Count(1), scaled(&vec_of(leaf("T")), 0, Generated::Count(1))),
        Generated::Count(1),
    );
    assert_eq!(ctx.emit_for_tys_exprs(&three), Ok(Some(expected)));
}

#[test]
fn each_field_is_read_through_its_own_accessor() {
    let ctx = context(EmitIter, leaf("T"));
    let fields = vec![
        (leaf("T"), place("self.a")),
        (vec_of(leaf("T")), place("self.b")),
    ];
    let expected = chain(
        Generated::Once(place("self.a")),
        flatten(
            Traversal::Shared,
            &vec_of(leaf("T")),
            0,
            leaf("T"),
            place("self.b"),
            Generated::Once(Accessor::Element),
        ),
    );
    assert_eq!(ctx.emit_for_tys_exprs(&fields), Ok(Some(expected)));
}

#[test]
fn refusal_in_a_field_carries_the_field_and_the_way_below_it() {
    let ctx = context(EmitIntoIter, leaf("T"));
    let fields = vec![
        (leaf("T"), place("self.a")),
        (tuple(vec![leaf("u8"), reference(false, leaf("T"))]), place("self.b")),
        (unsupported(), place("self.c")),
    ];
    assert_eq!(
        ctx.emit_for_tys_exprs(&fields),
        refusal(ErrorKind::CannotDescendReference, vec![1, 1])
    );
}
