use parametric_core::bounds::{DeclaredBound, DeclaredBounds};
use parametric_core::catalog::{EmitMaxLen, EmitMinLen};
use parametric_core::driver::{generate_for_variants, squash_maxlens, squash_minlens};
use parametric_core::catalog::EmitIter;
use parametric_core::generated::{Accessor, Generated, Helper};
use parametric_core::types::{Arity, GenericArgument, TypeExpr};
use parametric_core::walker::EmitContext;

fn krate() -> String {
    "::parametric_type".to_string()
}

fn leaf(name: &str) -> TypeExpr {
    TypeExpr::Leaf { name: name.to_string(), arguments: Vec::new() }
}

fn container(name: &str, element: TypeExpr) -> TypeExpr {
    TypeExpr::Leaf { name: name.to_string(), arguments: vec![GenericArgument::Type(element)] }
}

fn tuple(elements: Vec<TypeExpr>) -> TypeExpr {
    TypeExpr::Tuple { elements }
}

fn array(element: TypeExpr, arity: Arity) -> TypeExpr {
    TypeExpr::Array { element: Box::new(element), arity }
}

fn place(text: &str) -> Accessor {
    Accessor::Place(text.to_string())
}

fn declare(name: &str, index: usize, min_len: usize, max_len: Option<usize>) -> DeclaredBound {
    DeclaredBound { container: name.to_string(), index, min_len, max_len }
}

fn declared() -> DeclaredBounds {
    DeclaredBounds {
        entries: vec![
            declare("Vec", 0, 0, None),
            declare("Option", 0, 0, Some(1)),
            declare("Box", 0, 1, Some(1)),
            declare("Triple", 0, 3, Some(3)),
            declare("Pair", 0, 1, Some(2)),
            declare("Pair", 1, 2, Some(4)),
            declare("Box", 0, 9, Some(9)),
        ],
    }
}

fn helper(container: &TypeExpr, index: usize) -> Helper {
    Helper { namespace: krate(), container: container.clone(), index }
}

fn min_of(ty: &TypeExpr) -> Option<usize> {
    let context = EmitContext { kind: EmitMinLen, krate: krate(), replacing_ty: leaf("T") };
    context.emit(ty, &place("self.0")).unwrap().unwrap().min_value(&declared())
}

fn max_of(ty: &TypeExpr) -> Option<Option<usize>> {
    let context = EmitContext { kind: EmitMaxLen, krate: krate(), replacing_ty: leaf("T") };
    context.emit(ty, &place("self.0")).unwrap().unwrap().max_value(&declared())
}

#[test]
fn declared_bounds_of_named_containers_come_from_the_first_entry() {
    let bounds = declared();
    assert_eq!(bounds.min_len(&container("Box", leaf("T")), 0), 1);
    assert_eq!(bounds.max_len(&container("Box", leaf("T")), 0), Some(1));
    assert_eq!(bounds.min_len(&container("Pair", leaf("T")), 1), 2);
    assert_eq!(bounds.max_len(&container("Pair", leaf("T")), 1), Some(4));
    assert_eq!(bounds.min_len(&container("Vec", leaf("T")), 0), 0);
    assert_eq!(bounds.max_len(&container("Vec", leaf("T")), 0), None);
}

#[test]
fn undeclared_position_has_no_minimum_and_no_bound() {
    let bounds = declared();
    assert_eq!(bounds.min_len(&container("Unknown", leaf("T")), 0), 0);
    assert_eq!(bounds.max_len(&container("Unknown", leaf("T")), 0), None);
    assert_eq!(bounds.min_len(&container("Box", leaf("T")), 1), 0);
    assert_eq!(bounds.max_len(&container("Box", leaf("T")), 1), None);
    assert_eq!(bounds.min_len(&TypeExpr::Never, 0), 0);
    assert_eq!(bounds.max_len(&TypeExpr::Never, 0), None);
}

#[test]
fn array_declares_its_length_and_tuple_one_for_each_position() {
    let bounds = DeclaredBounds { entries: Vec::new() };
    assert_eq!(bounds.min_len(&array(leaf("T"), Arity::Fixed(5)), 0), 5);
    assert_eq!(bounds.max_len(&array(leaf("T"), Arity::Fixed(5)), 0), Some(5));
    assert_eq!(bounds.min_len(&array(leaf("T"), Arity::Unbounded), 0), 0);
    assert_eq!(bounds.max_len(&array(leaf("T"), Arity::Unbounded), 0), None);
    assert_eq!(bounds.min_len(&array(leaf("T"), Arity::Symbolic("N".to_string())), 0), 0);
    assert_eq!(bounds.max_len(&array(leaf("T"), Arity::Symbolic("N".to_string())), 0), None);
    assert_eq!(bounds.min_len(&tuple(vec![leaf("T"), leaf("U")]), 1), 1);
    assert_eq!(bounds.max_len(&tuple(vec![leaf("T"), leaf("U")]), 1), Some(1));
}

#[test]
fn target_itself_amounts_to_one() {
    assert_eq!(min_of(&leaf("T")), Some(1));
    assert_eq!(max_of(&leaf("T")), Some(Some(1)));
}

#[test]
fn fixed_array_of_the_target_amounts_to_its_length() {
    for arity in [0usize, 1, 4, 1000] {
        let ty = array(leaf("T"), Arity::Fixed(arity));
        assert_eq!(min_of(&ty), Some(arity));
        assert_eq!(max_of(&ty), Some(Some(arity)));
    }
}

#[test]
fn slice_of_the_target_has_no_minimum_and_no_bound() {
    let ty = array(leaf("T"), Arity::Unbounded);
    assert_eq!(min_of(&ty), Some(0));
    assert_eq!(max_of(&ty), Some(None));
}

#[test]
fn container_scales_what_its_argument_yields() {
    let ty = container("Triple", tuple(vec![leaf("T"), leaf("T")]));
    assert_eq!(min_of(&ty), Some(6));
    assert_eq!(max_of(&ty), Some(Some(6)));
    let ty = container("Option", array(leaf("T"), Arity::Fixed(4)));
    assert_eq!(min_of(&ty), Some(0));
    assert_eq!(max_of(&ty), Some(Some(4)));
    let ty = container("Vec", leaf("T"));
    assert_eq!(min_of(&ty), Some(0));
    assert_eq!(max_of(&ty), Some(None));
}

#[test]
fn positions_of_one_container_are_summed() {
    let ty = TypeExpr::Leaf {
        name: "Pair".to_string(),
        arguments: vec![
            GenericArgument::Type(leaf("T")),
            GenericArgument::Type(array(leaf("T"), Arity::Fixed(3))),
        ],
    };
    assert_eq!(min_of(&ty), Some(1 + 2 * 3));
    assert_eq!(max_of(&ty), Some(Some(2 + 4 * 3)));
}

#[test]
fn tuple_of_three_with_two_targets_amounts_to_two() {
    let ty = tuple(vec![leaf("T"), leaf("U"), leaf("T")]);
    assert_eq!(min_of(&ty), Some(2));
    assert_eq!(max_of(&ty), Some(Some(2)));
}

#[test]
fn unbounded_factor_makes_the_maximum_unbounded() {
    let ty = tuple(vec![leaf("T"), container("Vec", leaf("T"))]);
    assert_eq!(min_of(&ty), Some(1));
    assert_eq!(max_of(&ty), Some(None));
    let ty = container("Unknown", leaf("T"));
    assert_eq!(max_of(&ty), Some(None));
}

#[test]
fn least_and_greatest_amount_to_minimum_and_maximum() {
    let bounds = declared();
    let least = squash_minlens(vec![
        Generated::Count(5),
        Generated::Count(2),
        Generated::Count(7),
    ])
    .unwrap();
    assert_eq!(least.min_value(&bounds), Some(2));
    let greatest = squash_maxlens(vec![
        Generated::Limit(5),
        Generated::Limit(2),
        Generated::Limit(7),
    ])
    .unwrap();
    assert_eq!(greatest.max_value(&bounds), Some(Some(7)));
    let first = squash_minlens(vec![Generated::Count(1), Generated::Count(2), Generated::Count(3)]);
    assert_eq!(first.unwrap().min_value(&bounds), Some(1));
    let last = squash_maxlens(vec![Generated::Limit(1), Generated::Limit(2), Generated::Limit(3)]);
    assert_eq!(last.unwrap().max_value(&bounds), Some(Some(3)));
}

#[test]
fn greatest_is_unbounded_where_one_variant_is() {
    let bounds = declared();
    let vec_of_t = container("Vec", leaf("T"));
    let unbounded = Generated::LimitScaled {
        helper: helper(&vec_of_t, 0),
        inner: Box::new(Generated::Limit(1)),
    };
    let greatest = squash_maxlens(vec![Generated::Limit(5), unbounded, Generated::Limit(7)]);
    assert_eq!(greatest.unwrap().max_value(&bounds), Some(None));
}

#[test]
fn tagged_type_with_arms_of_two_and_none_has_minimum_zero() {
    let twice = vec![(leaf("T"), place("a")), (leaf("T"), place("b"))];
    let never = vec![(leaf("u8"), place("c"))];
    let output =
        generate_for_variants(EmitIter, &krate(), &leaf("T"), &vec![twice, never]).unwrap();
    let bounds = declared();
    assert_eq!(output.lens[0].min_value(&bounds), Some(2));
    assert_eq!(output.lens[1].min_value(&bounds), Some(0));
    assert_eq!(output.min_len.min_value(&bounds), Some(0));
    assert_eq!(output.max_len.max_value(&bounds), Some(Some(2)));
}

#[test]
fn evaluation_that_exceeds_the_machine_number_yields_nothing() {
    let bounds = declared();
    let huge = Generated::Sum(
        Box::new(Generated::Count(usize::MAX)),
        Box::new(Generated::Count(1)),
    );
    assert_eq!(huge.min_value(&bounds), None);
    let edge = Generated::Sum(
        Box::new(Generated::Count(usize::MAX - 1)),
        Box::new(Generated::Count(1)),
    );
    assert_eq!(edge.min_value(&bounds), Some(usize::MAX));
    let triple = container("Triple", leaf("T"));
    let product = Generated::Scaled {
        helper: helper(&triple, 0),
        inner: Box::new(Generated::Count(usize::MAX / 2)),
    };
    assert_eq!(product.min_value(&bounds), None);
    let limit = Generated::LimitSum(
        Box::new(Generated::Limit(usize::MAX)),
        Box::new(Generated::Limit(1)),
    );
    assert_eq!(limit.max_value(&bounds), None);
    let limit_product = Generated::LimitScaled {
        helper: helper(&triple, 0),
        inner: Box::new(Generated::Limit(usize::MAX / 2)),
    };
    assert_eq!(limit_product.max_value(&bounds), None);
    let inside = Generated::Least(Box::new(huge), Box::new(Generated::Count(0)));
    assert_eq!(inside.min_value(&bounds), None);
}

#[test]
fn expression_of_another_kind_has_no_static_value() {
    let bounds = declared();
    assert_eq!(Generated::Empty.min_value(&bounds), None);
    assert_eq!(Generated::Limit(1).min_value(&bounds), None);
    assert_eq!(Generated::Once(place("a")).max_value(&bounds), None);
    assert_eq!(Generated::Count(1).max_value(&bounds), None);
    let mixed = Generated::Sum(Box::new(Generated::Count(1)), Box::new(Generated::Empty));
    assert_eq!(mixed.min_value(&bounds), None);
}
