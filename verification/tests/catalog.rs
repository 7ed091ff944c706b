use parametric_core::catalog::{
    EmitIntoIter, EmitIter, EmitIterMut, EmitIterMutTy, EmitIterTy, EmitLen, EmitMaxLen,
    EmitMinLen, Emitter,
};
use parametric_core::generated::{
    Accessor, ClassificationError, ErrorKind, Generated, Helper, Traversal,
};
use parametric_core::types::{GenericArgument, TypeExpr};
use parametric_core::walker::EmitContext;

fn krate() -> String {
    "::parametric_type".to_string()
}

fn leaf(name: &str) -> TypeExpr {
    TypeExpr::Leaf { name: name.to_string(), arguments: Vec::new() }
}

fn vec_of(element: TypeExpr) -> TypeExpr {
    TypeExpr::Leaf { name: "Vec".to_string(), arguments: vec![GenericArgument::Type(element)] }
}

fn place(text: &str) -> Accessor {
    Accessor::Place(text.to_string())
}

fn helper(container: &TypeExpr, index: usize) -> Helper {
    Helper { namespace: krate(), container: container.clone(), index }
}

#[test]
fn reference_policy_of_each_capability() {
    assert_eq!((EmitMinLen.access_over_ref(), EmitMinLen.access_over_ref_mut()), (true, true));
    assert_eq!((EmitMaxLen.access_over_ref(), EmitMaxLen.access_over_ref_mut()), (true, true));
    assert_eq!((EmitLen.access_over_ref(), EmitLen.access_over_ref_mut()), (true, true));
    assert_eq!((EmitIter.access_over_ref(), EmitIter.access_over_ref_mut()), (true, true));
    assert_eq!((EmitIterMut.access_over_ref(), EmitIterMut.access_over_ref_mut()), (false, true));
    assert_eq!((EmitIntoIter.access_over_ref(), EmitIntoIter.access_over_ref_mut()), (false, false));
    let shared = EmitIterTy("'a".to_string(), leaf("T"));
    assert_eq!((shared.access_over_ref(), shared.access_over_ref_mut()), (true, true));
    let exclusive = EmitIterMutTy("'a".to_string(), leaf("T"));
    assert_eq!((exclusive.access_over_ref(), exclusive.access_over_ref_mut()), (false, true));
}

#[test]
fn reach_of_each_capability() {
    assert_eq!(EmitMinLen.native_reference(), Traversal::Shared);
    assert_eq!(EmitMaxLen.native_reference(), Traversal::Shared);
    assert_eq!(EmitLen.native_reference(), Traversal::Shared);
    assert_eq!(EmitIter.native_reference(), Traversal::Shared);
    assert_eq!(EmitIterMut.native_reference(), Traversal::Exclusive);
    assert_eq!(EmitIntoIter.native_reference(), Traversal::Consuming);
    assert_eq!(EmitIterTy("'a".to_string(), leaf("T")).native_reference(), Traversal::Consuming);
    assert_eq!(EmitIterMutTy("'a".to_string(), leaf("T")).native_reference(), Traversal::Consuming);
}

#[test]
fn identity_of_each_capability() {
    assert_eq!(EmitMinLen.fold_initializer(), Generated::Count(0));
    assert_eq!(EmitMaxLen.fold_initializer(), Generated::Limit(0));
    assert_eq!(EmitLen.fold_initializer(), Generated::Count(0));
    assert_eq!(EmitIter.fold_initializer(), Generated::Empty);
    assert_eq!(EmitIterMut.fold_initializer(), Generated::Empty);
    assert_eq!(EmitIntoIter.fold_initializer(), Generated::Empty);
}

#[test]
fn leaf_value_of_each_capability() {
    let t = leaf("T");
    let x = place("x");
    assert_eq!(EmitMinLen.emit_pure(&t, &x), Generated::Count(1));
    assert_eq!(EmitMaxLen.emit_pure(&t, &x), Generated::Limit(1));
    assert_eq!(EmitLen.emit_pure(&t, &x), Generated::Count(1));
    assert_eq!(EmitIter.emit_pure(&t, &x), Generated::Once(place("x")));
    assert_eq!(EmitIterMut.emit_pure(&t, &x), Generated::Once(place("x")));
    assert_eq!(EmitIntoIter.emit_pure(&t, &x), Generated::Once(place("x")));
}

#[test]
fn fold_of_each_capability_keeps_the_order_of_its_operands() {
    let a = || Generated::Count(3);
    let b = || Generated::Count(4);
    assert_eq!(EmitMinLen.fold(a(), b()), Generated::Sum(Box::new(a()), Box::new(b())));
    assert_eq!(EmitLen.fold(a(), b()), Generated::Sum(Box::new(a()), Box::new(b())));
    let l = || Generated::Limit(3);
    let r = || Generated::Limit(4);
    assert_eq!(EmitMaxLen.fold(l(), r()), Generated::LimitSum(Box::new(l()), Box::new(r())));
    let p = || Generated::Once(place("p"));
    let q = || Generated::Once(place("q"));
    assert_eq!(EmitIter.fold(p(), q()), Generated::Chain(Box::new(p()), Box::new(q())));
    assert_eq!(EmitIterMut.fold(p(), q()), Generated::Chain(Box::new(p()), Box::new(q())));
    assert_eq!(EmitIntoIter.fold(p(), q()), Generated::Chain(Box::new(p()), Box::new(q())));
}

#[test]
fn item_of_each_capability_names_the_helper_of_the_position() {
    let base = vec_of(leaf("T"));
    let x = place("x");
    assert_eq!(
        EmitMinLen.item(&krate(), &base, 2, &leaf("T"), &x, Generated::Count(1)),
        Generated::Scaled { helper: helper(&base, 2), inner: Box::new(Generated::Count(1)) }
    );
    assert_eq!(
        EmitMaxLen.item(&krate(), &base, 2, &leaf("T"), &x, Generated::Limit(1)),
        Generated::LimitScaled { helper: helper(&base, 2), inner: Box::new(Generated::Limit(1)) }
    );
    assert_eq!(
        EmitLen.item(&krate(), &base, 2, &leaf("T"), &x, Generated::Count(1)),
        Generated::Tally {
            helper: helper(&base, 2),
            source: place("x"),
            inner: Box::new(Generated::Count(1)),
        }
    );
    for (found, traversal) in [
        (
            EmitIter.item(&krate(), &base, 2, &leaf("T"), &x, Generated::Empty),
            Traversal::Shared,
        ),
        (
            EmitIterMut.item(&krate(), &base, 2, &leaf("T"), &x, Generated::Empty),
            Traversal::Exclusive,
        ),
        (
            EmitIntoIter.item(&krate(), &base, 2, &leaf("T"), &x, Generated::Empty),
            Traversal::Consuming,
        ),
    ] {
        assert_eq!(
            found,
            Generated::Flatten {
                traversal,
                helper: helper(&base, 2),
                element: leaf("T"),
                source: place("x"),
                inner: Box::new(Generated::Empty),
            }
        );
    }
}

#[test]
fn type_of_shared_iteration_follows_the_walk() {
    let kind = EmitIterTy("'a".to_string(), leaf("T"));
    let context = EmitContext { kind, krate: krate(), replacing_ty: leaf("T") };
    let once = Generated::OnceType {
        traversal: Traversal::Shared,
        lifetime: "'a".to_string(),
        item: leaf("T"),
    };
    assert_eq!(context.emit(&leaf("T"), &place("x")), Ok(Some(once.clone())));
    let container = vec_of(leaf("T"));
    let flattened = Generated::FlattenType {
        traversal: Traversal::Shared,
        lifetime: "'a".to_string(),
        helper: helper(&container, 0),
        element: leaf("T"),
        inner: Box::new(once.clone()),
    };
    assert_eq!(context.emit(&container, &place("x")), Ok(Some(flattened.clone())));
    let fields = vec![(leaf("T"), place("a")), (container.clone(), place("b"))];
    assert_eq!(
        context.emit_for_tys_exprs(&fields),
        Ok(Some(Generated::ChainType(Box::new(once), Box::new(flattened))))
    );
    assert_eq!(
        context.kind.fold_initializer(),
        Generated::EmptyType {
            traversal: Traversal::Shared,
            lifetime: "'a".to_string(),
            item: leaf("T"),
        }
    );
}

#[test]
fn type_of_exclusive_iteration_stops_at_a_shared_reference() {
    let kind = EmitIterMutTy("'a".to_string(), leaf("T"));
    let context = EmitContext { kind, krate: krate(), replacing_ty: leaf("T") };
    let shared = TypeExpr::Reference { exclusive: false, lifetime: None, referent: Box::new(leaf("T")) };
    assert_eq!(
        context.emit(&shared, &place("x")),
        Err(ClassificationError { kind: ErrorKind::CannotDescendReference, position: vec![] })
    );
    let exclusive = TypeExpr::Reference { exclusive: true, lifetime: None, referent: Box::new(leaf("T")) };
    assert_eq!(
        context.emit(&exclusive, &place("x")),
        Ok(Some(Generated::OnceType {
            traversal: Traversal::Exclusive,
            lifetime: "'a".to_string(),
            item: leaf("T"),
        }))
    );
}

#[test]
fn clone_of_a_generated_expression_is_equal() {
    let container = vec_of(leaf("T"));
    let context = EmitContext { kind: EmitIter, krate: krate(), replacing_ty: leaf("T") };
    let found = context.emit(&container, &place("x")).unwrap().unwrap();
    assert_eq!(found.clone(), found);
    let error = ClassificationError { kind: ErrorKind::UnsupportedTypeShape, position: vec![3, 1, 4] };
    assert_eq!(error.clone(), error);
    let borrowed = Accessor::Borrow { exclusive: true, place: Box::new(place("x")) };
    assert_eq!(borrowed.clone(), borrowed);
    let accessor = Accessor::Deref(Box::new(Accessor::Deref(Box::new(place("x")))));
    assert_eq!(accessor.clone(), accessor);
    assert_eq!(helper(&container, 7).clone(), helper(&container, 7));
}
