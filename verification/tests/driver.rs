use parametric_core::catalog::{EmitIntoIter, EmitIter, EmitIterMut};
use parametric_core::driver::{
    generate_for_variants, generate_with_generator, squash_maxlens, squash_minlens, ShapeOutput,
    VariantsOutput,
};
use parametric_core::generated::{
    Accessor, ClassificationError, ErrorKind, Generated, Helper, Traversal,
};
use parametric_core::types::{GenericArgument, TypeExpr};

fn krate() -> String {
    "::parametric_type".to_string()
}

fn leaf(name: &str) -> TypeExpr {
    TypeExpr::Leaf { name: name.to_string(), arguments: Vec::new() }
}

fn vec_of(element: TypeExpr) -> TypeExpr {
    TypeExpr::Leaf { name: "Vec".to_string(), arguments: vec![GenericArgument::Type(element)] }
}

fn reference(exclusive: bool, referent: TypeExpr) -> TypeExpr {
    TypeExpr::Reference { exclusive, lifetime: None, referent: Box::new(referent) }
}

fn place(text: &str) -> Accessor {
    Accessor::Place(text.to_string())
}

fn shared(text: &str) -> Accessor {
    Accessor::Borrow { exclusive: false, place: Box::new(place(text)) }
}

fn exclusive(text: &str) -> Accessor {
    Accessor::Borrow { exclusive: true, place: Box::new(place(text)) }
}

fn helper(container: &TypeExpr, index: usize) -> Helper {
    Helper { namespace: krate(), container: container.clone(), index }
}

fn least(a: Generated, b: Generated) -> Generated {
    Generated::Least(Box::new(a), Box::new(b))
}

fn greatest(a: Generated, b: Generated) -> Generated {
    Generated::Greatest(Box::new(a), Box::new(b))
}

fn sum(a: Generated, b: Generated) -> Generated {
    Generated::Sum(Box::new(a), Box::new(b))
}

fn limit_sum(a: Generated, b: Generated) -> Generated {
    Generated::LimitSum(Box::new(a), Box::new(b))
}

fn chain(a: Generated, b: Generated) -> Generated {
    Generated::Chain(Box::new(a), Box::new(b))
}

fn empty_set() -> ClassificationError {
    ClassificationError { kind: ErrorKind::EmptyVariantSet, position: Vec::new() }
}

#[test]
fn shape_without_the_target_yields_the_identities() {
    let fields = vec![(leaf("u8"), place("self.a")), (vec_of(leaf("String")), place("self.b"))];
    let output = generate_with_generator(EmitIter, &krate(), &leaf("T"), &fields);
    assert_eq!(
        output,
        Ok(ShapeOutput {
            min_len: Generated::Count(0),
            max_len: Generated::Limit(0),
            iter: Generated::Empty,
            len: Generated::Count(0),
        })
    );
    let nothing = generate_with_generator(EmitIntoIter, &krate(), &leaf("T"), &Vec::new());
    assert_eq!(
        nothing,
        Ok(ShapeOutput {
            min_len: Generated::Count(0),
            max_len: Generated::Limit(0),
            iter: Generated::Empty,
            len: Generated::Count(0),
        })
    );
}

#[test]
fn shape_with_one_field_of_the_target_yields_the_leaf_values() {
    let fields = vec![(leaf("u8"), place("self.a")), (leaf("T"), place("self.b"))];
    let output = generate_with_generator(EmitIterMut, &krate(), &leaf("T"), &fields);
    assert_eq!(
        output,
        Ok(ShapeOutput {
            min_len: Generated::Count(1),
            max_len: Generated::Limit(1),
            iter: Generated::Once(exclusive("self.b")),
            len: Generated::Count(1),
        })
    );
}

#[test]
fn shape_folds_its_fields_for_each_capability() {
    let container = vec_of(leaf("T"));
    let fields = vec![(leaf("T"), place("self.0")), (container.clone(), place("self.1"))];
    let output = generate_with_generator(EmitIter, &krate(), &leaf("T"), &fields);
    let expected = ShapeOutput {
        min_len: sum(
            Generated::Count(1),
            Generated::Scaled { helper: helper(&container, 0), inner: Box::new(Generated::Count(1)) },
        ),
        max_len: limit_sum(
            Generated::Limit(1),
            Generated::LimitScaled {
                helper: helper(&container, 0),
                inner: Box::new(Generated::Limit(1)),
            },
        ),
        iter: chain(
            Generated::Once(shared("self.0")),
            Generated::Flatten {
                traversal: Traversal::Shared,
                helper: helper(&container, 0),
                element: leaf("T"),
                source: shared("self.1"),
                inner: Box::new(Generated::Once(Accessor::Element)),
            },
        ),
        len: sum(
            Generated::Count(1),
            Generated::Tally {
                helper: helper(&container, 0),
                source: shared("self.1"),
                inner: Box::new(Generated::Count(1)),
            },
        ),
    };
    assert_eq!(output, Ok(expected));
}

#[test]
fn each_capability_reaches_the_fields_in_its_own_way() {
    let container = vec_of(leaf("T"));
    let fields = vec![(container.clone(), place("self.0"))];
    let by_value = generate_with_generator(EmitIntoIter, &krate(), &leaf("T"), &fields).unwrap();
    assert_eq!(
        by_value.iter,
        Generated::Flatten {
            traversal: Traversal::Consuming,
            helper: helper(&container, 0),
            element: leaf("T"),
            source: place("self.0"),
            inner: Box::new(Generated::Once(Accessor::Element)),
        }
    );
    assert_eq!(
        by_value.len,
        Generated::Tally {
            helper: helper(&container, 0),
            source: shared("self.0"),
            inner: Box::new(Generated::Count(1)),
        }
    );
    let by_exclusive = generate_with_generator(EmitIterMut, &krate(), &leaf("T"), &fields).unwrap();
    assert_eq!(
        by_exclusive.iter,
        Generated::Flatten {
            traversal: Traversal::Exclusive,
            helper: helper(&container, 0),
            element: leaf("T"),
            source: exclusive("self.0"),
            inner: Box::new(Generated::Once(Accessor::Element)),
        }
    );
    let reference = vec![(reference(false, leaf("T")), place("self.0"))];
    let through = generate_with_generator(EmitIter, &krate(), &leaf("T"), &reference).unwrap();
    assert_eq!(through.iter, Generated::Once(Accessor::Deref(Box::new(shared("self.0")))));
}

#[test]
fn shape_is_refused_where_one_capability_is() {
    let fields = vec![(leaf("T"), place("self.a")), (reference(false, leaf("T")), place("self.b"))];
    assert!(generate_with_generator(EmitIter, &krate(), &leaf("T"), &fields).is_ok());
    assert_eq!(
        generate_with_generator(EmitIterMut, &krate(), &leaf("T"), &fields),
        Err(ClassificationError { kind: ErrorKind::CannotDescendReference, position: vec![1] })
    );
    let unsupported = vec![
        (reference(false, leaf("T")), place("self.a")),
        (TypeExpr::Unsupported { text: "*const T".to_string() }, place("self.b")),
    ];
    assert_eq!(
        generate_with_generator(EmitIntoIter, &krate(), &leaf("T"), &unsupported),
        Err(ClassificationError { kind: ErrorKind::UnsupportedTypeShape, position: vec![1] })
    );
}

#[test]
fn squash_of_no_variant_is_refused() {
    assert_eq!(squash_minlens(Vec::new()), Err(empty_set()));
    assert_eq!(squash_maxlens(Vec::new()), Err(empty_set()));
}

#[test]
fn squash_of_one_variant_is_that_variant() {
    assert_eq!(squash_minlens(vec![Generated::Count(4)]), Ok(Generated::Count(4)));
    assert_eq!(squash_maxlens(vec![Generated::Limit(4)]), Ok(Generated::Limit(4)));
}

#[test]
fn squash_of_two_variants_holds_both() {
    assert_eq!(
        squash_minlens(vec![Generated::Count(2), Generated::Count(0)]),
        Ok(least(Generated::Count(2), Generated::Count(0)))
    );
    assert_eq!(
        squash_maxlens(vec![Generated::Limit(2), Generated::Limit(0)]),
        Ok(greatest(Generated::Limit(2), Generated::Limit(0)))
    );
}

#[test]
fn squash_of_three_and_four_variants_holds_each_once() {
    assert_eq!(
        squash_minlens(vec![Generated::Count(5), Generated::Count(3), Generated::Count(7)]),
        Ok(least(Generated::Count(5), least(Generated::Count(3), Generated::Count(7))))
    );
    assert_eq!(
        squash_maxlens(vec![
            Generated::Limit(5),
            Generated::Limit(3),
            Generated::Limit(7),
            Generated::Limit(1),
        ]),
        Ok(greatest(
            Generated::Limit(5),
            greatest(Generated::Limit(3), greatest(Generated::Limit(7), Generated::Limit(1))),
        ))
    );
}

#[test]
fn tagged_type_takes_the_least_minimum_and_keeps_a_sequence_for_each_variant() {
    let twice = vec![(leaf("T"), place("a")), (leaf("T"), place("b"))];
    let never = vec![(leaf("u8"), place("c"))];
    let output = generate_for_variants(EmitIter, &krate(), &leaf("T"), &vec![twice, never]);
    let expected = VariantsOutput {
        min_len: least(sum(Generated::Count(1), Generated::Count(1)), Generated::Count(0)),
        max_len: greatest(limit_sum(Generated::Limit(1), Generated::Limit(1)), Generated::Limit(0)),
        iters: vec![
            chain(Generated::Once(shared("a")), Generated::Once(shared("b"))),
            Generated::Empty,
        ],
        lens: vec![sum(Generated::Count(1), Generated::Count(1)), Generated::Count(0)],
    };
    assert_eq!(output, Ok(expected));
}

#[test]
fn tagged_type_with_one_variant_is_that_variant() {
    let only = vec![(leaf("T"), place("a"))];
    let output = generate_for_variants(EmitIntoIter, &krate(), &leaf("T"), &vec![only]);
    let expected = VariantsOutput {
        min_len: Generated::Count(1),
        max_len: Generated::Limit(1),
        iters: vec![Generated::Once(place("a"))],
        lens: vec![Generated::Count(1)],
    };
    assert_eq!(output, Ok(expected));
}

#[test]
fn tagged_type_with_three_variants_holds_each_once() {
    let unit: Vec<(TypeExpr, Accessor)> = Vec::new();
    let one = vec![(leaf("T"), place("a"))];
    let two = vec![(leaf("T"), place("a")), (leaf("T"), place("b"))];
    let output = generate_for_variants(EmitIter, &krate(), &leaf("T"), &vec![one, unit, two]);
    let output = output.unwrap();
    assert_eq!(
        output.min_len,
        least(
            Generated::Count(1),
            least(Generated::Count(0), sum(Generated::Count(1), Generated::Count(1))),
        )
    );
    assert_eq!(
        output.max_len,
        greatest(
            Generated::Limit(1),
            greatest(Generated::Limit(0), limit_sum(Generated::Limit(1), Generated::Limit(1))),
        )
    );
    assert_eq!(output.iters.len(), 3);
    assert_eq!(output.lens.len(), 3);
}

#[test]
fn tagged_type_without_variants_is_refused() {
    let output = generate_for_variants(EmitIter, &krate(), &leaf("T"), &Vec::new());
    assert_eq!(output, Err(empty_set()));
}

#[test]
fn refusal_in_a_variant_carries_the_variant_the_field_and_the_way_below() {
    let fine = vec![(leaf("T"), place("a"))];
    let refused = vec![
        (leaf("u8"), place("b")),
        (vec_of(reference(true, leaf("T"))), place("c")),
    ];
    let later = vec![(TypeExpr::Unsupported { text: "dyn Any".to_string() }, place("d"))];
    let output = generate_for_variants(
        EmitIntoIter,
        &krate(),
        &leaf("T"),
        &vec![fine, refused, later],
    );
    assert_eq!(
        output,
        Err(ClassificationError {
            kind: ErrorKind::CannotDescendReference,
            position: vec![1, 1, 0],
        })
    );
}
