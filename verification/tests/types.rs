use parametric_core::types::{Arity, GenericArgument, TypeExpr};

fn leaf(name: &str) -> TypeExpr {
    TypeExpr::Leaf { name: name.to_string(), arguments: Vec::new() }
}

fn generic(name: &str, arguments: Vec<GenericArgument>) -> TypeExpr {
    TypeExpr::Leaf { name: name.to_string(), arguments }
}

fn ty(expr: TypeExpr) -> GenericArgument {
    GenericArgument::Type(expr)
}

fn other(text: &str) -> GenericArgument {
    GenericArgument::Other(text.to_string())
}

fn tuple(elements: Vec<TypeExpr>) -> TypeExpr {
    TypeExpr::Tuple { elements }
}

fn array(element: TypeExpr, arity: Arity) -> TypeExpr {
    TypeExpr::Array { element: Box::new(element), arity }
}

fn reference(exclusive: bool, referent: TypeExpr) -> TypeExpr {
    TypeExpr::Reference { exclusive, lifetime: None, referent: Box::new(referent) }
}

fn signature(name: &str, inputs: Vec<TypeExpr>, output: Option<TypeExpr>) -> TypeExpr {
    TypeExpr::Signature { name: name.to_string(), inputs, output: output.map(Box::new) }
}

/// One expression of every shape of the grammar.
fn samples() -> Vec<TypeExpr> {
    vec![
        leaf("T"),
        leaf("U"),
        generic("Vec", vec![ty(leaf("T"))]),
        generic("Vec", vec![ty(leaf("U"))]),
        generic("Map", vec![other("'a"), ty(leaf("T"))]),
        generic("Map", vec![other("'b"), ty(leaf("T"))]),
        generic("Map", vec![ty(leaf("T")), other("'a")]),
        signature("Fn", vec![leaf("T")], None),
        signature("Fn", vec![leaf("T")], Some(leaf("T"))),
        signature("Fn", vec![leaf("T")], Some(leaf("U"))),
        signature("FnMut", vec![leaf("T")], None),
        signature("Fn", vec![], None),
        array(leaf("T"), Arity::Unbounded),
        array(leaf("T"), Arity::Fixed(3)),
        array(leaf("T"), Arity::Fixed(4)),
        array(leaf("T"), Arity::Symbolic("N".to_string())),
        array(leaf("T"), Arity::Symbolic("M".to_string())),
        array(leaf("U"), Arity::Fixed(3)),
        tuple(vec![]),
        tuple(vec![leaf("T")]),
        tuple(vec![leaf("T"), leaf("U")]),
        tuple(vec![leaf("U"), leaf("T")]),
        TypeExpr::Group { inner: Box::new(leaf("T")) },
        TypeExpr::Group { inner: Box::new(leaf("U")) },
        reference(false, leaf("T")),
        reference(true, leaf("T")),
        reference(false, leaf("U")),
        TypeExpr::Reference {
            exclusive: false,
            lifetime: Some("'a".to_string()),
            referent: Box::new(leaf("T")),
        },
        TypeExpr::Reference {
            exclusive: false,
            lifetime: Some("'b".to_string()),
            referent: Box::new(leaf("T")),
        },
        TypeExpr::BoundList { bounds: vec![] },
        TypeExpr::BoundList { bounds: vec![generic("Iterator", vec![ty(leaf("T"))])] },
        TypeExpr::BoundList { bounds: vec![generic("Iterator", vec![ty(leaf("U"))])] },
        TypeExpr::Never,
        TypeExpr::Unsupported { text: "*const T".to_string() },
        TypeExpr::Unsupported { text: "*mut T".to_string() },
    ]
}

#[test]
fn same_holds_of_every_expression_and_itself() {
    for sample in samples() {
        assert!(sample.same(&sample), "{:?}", sample);
    }
}

#[test]
fn same_tells_distinct_expressions_apart() {
    let all = samples();
    for (i, left) in all.iter().enumerate() {
        for (j, right) in all.iter().enumerate() {
            assert_eq!(left.same(right), i == j, "{:?} against {:?}", left, right);
        }
    }
}

#[test]
fn same_agrees_with_the_derived_equality() {
    let all = samples();
    for left in all.iter() {
        for right in all.iter() {
            assert_eq!(left.same(right), left == right);
        }
    }
}

#[test]
fn same_looks_below_the_first_level() {
    let left = generic("Vec", vec![ty(tuple(vec![leaf("T"), array(leaf("U"), Arity::Fixed(2))]))]);
    let right = generic("Vec", vec![ty(tuple(vec![leaf("T"), array(leaf("U"), Arity::Fixed(2))]))]);
    let other = generic("Vec", vec![ty(tuple(vec![leaf("T"), array(leaf("U"), Arity::Fixed(5))]))]);
    assert!(left.same(&right));
    assert!(!left.same(&other));
}

#[test]
fn same_of_lists_of_different_length_is_false() {
    let short = tuple(vec![leaf("T")]);
    let long = tuple(vec![leaf("T"), leaf("T")]);
    assert!(!short.same(&long));
    assert!(!long.same(&short));
}

#[test]
fn arity_same_compares_kind_and_content() {
    assert!(Arity::Unbounded.same(&Arity::Unbounded));
    assert!(Arity::Fixed(7).same(&Arity::Fixed(7)));
    assert!(!Arity::Fixed(7).same(&Arity::Fixed(8)));
    assert!(!Arity::Fixed(7).same(&Arity::Unbounded));
    assert!(Arity::Symbolic("N".to_string()).same(&Arity::Symbolic("N".to_string())));
    assert!(!Arity::Symbolic("N".to_string()).same(&Arity::Symbolic("M".to_string())));
    assert!(!Arity::Symbolic("7".to_string()).same(&Arity::Fixed(7)));
}

#[test]
fn argument_same_compares_kind_and_content() {
    assert!(ty(leaf("T")).same(&ty(leaf("T"))));
    assert!(!ty(leaf("T")).same(&ty(leaf("U"))));
    assert!(other("'a").same(&other("'a")));
    assert!(!other("'a").same(&other("'b")));
    assert!(!other("T").same(&ty(leaf("T"))));
}

#[test]
fn clone_gives_an_equal_expression() {
    for sample in samples() {
        let copy = sample.clone();
        assert_eq!(copy, sample);
        assert!(copy.same(&sample));
    }
}

#[test]
fn clone_of_arity_and_argument_is_equal() {
    let arity = Arity::Symbolic("N".to_string());
    assert_eq!(arity.clone(), arity);
    assert_eq!(Arity::Fixed(9).clone(), Arity::Fixed(9));
    let argument = ty(generic("Vec", vec![other("'a"), ty(leaf("T"))]));
    assert_eq!(argument.clone(), argument);
}
