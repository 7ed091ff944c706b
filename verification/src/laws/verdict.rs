//! Capabilities with one reference policy agree on what is legal.
use crate::catalog::Emitter;
use crate::generated::{AccessorModel, ErrorModel, GeneratedModel, OutcomeModel};
use crate::laws::dereferenced;
use crate::types::{ArgumentModel, TypeModel};
use crate::walker::Derivation;
use vstd::prelude::*;

verus! {

/// What a walk decides, apart from what it generates: that the target
/// occurs, that it does not, or the refusal.
pub open spec fn verdict(outcome: OutcomeModel) -> Result<bool, ErrorModel> {
    match outcome {
        Ok(found) => Ok(found is Some),
        Err(error) => Err(error),
    }
}

/// Whether two capabilities may cross the same references.
pub open spec fn same_policy<K: Emitter, L: Emitter>(first: K, second: L) -> bool {
    &&& first.descends_shared() == second.descends_shared()
    &&& first.descends_exclusive() == second.descends_exclusive()
}

/// Whether two derivations look for the same target under the same
/// reference policy.
pub open spec fn alike<K: Emitter, L: Emitter>(first: Derivation<K>, second: Derivation<L>) -> bool {
    first.target == second.target && same_policy(first.kind, second.kind)
}

proof fn lemma_alike_pure<K: Emitter, L: Emitter>(
    first: Derivation<K>,
    second: Derivation<L>,
    ty: TypeModel,
    a: AccessorModel,
    b: AccessorModel,
)
    requires
        alike(first, second),
    ensures
        first.pure(ty, a) is Some == second.pure(ty, b) is Some,
    decreases ty,
{
    if ty != first.target {
        match ty {
            TypeModel::Reference { exclusive, lifetime, referent } => {
                lemma_alike_pure(first, second, *referent, dereferenced(a), dereferenced(b));
            },
            _ => {},
        }
    }
}

/// Two capabilities that may cross the same references decide alike on
/// every type expression, whatever the accessors and the namespaces: both
/// find the target, or both find nothing, or both refuse, for the same
/// reason and at the same place.
pub proof fn lemma_same_policy_same_verdict<K: Emitter, L: Emitter>(
    first: Derivation<K>,
    second: Derivation<L>,
    ty: TypeModel,
    a: AccessorModel,
    b: AccessorModel,
)
    requires
        alike(first, second),
    ensures
        verdict(first.walk(ty, a)) == verdict(second.walk(ty, b)),
    decreases ty, 0nat,
{
    lemma_alike_pure(first, second, ty, a, b);
    let element = AccessorModel::Element;
    match ty {
        TypeModel::Array { element: inner, arity } => {
            lemma_same_policy_same_verdict(first, second, *inner, element, element);
        },
        TypeModel::Group { inner } => {
            lemma_same_policy_same_verdict(first, second, *inner, a, b);
        },
        TypeModel::Leaf { name, arguments } => {
            lemma_alike_arguments(first, second, ty, arguments, 0, None, None, a, b);
        },
        TypeModel::Signature { name, inputs, output } => {
            lemma_alike_scan_types(first, second, inputs, 0, false);
        },
        TypeModel::Reference { exclusive, lifetime, referent } => {
            lemma_same_policy_same_verdict(first, second, *referent, a, b);
        },
        TypeModel::Tuple { elements } => {
            lemma_alike_types(first, second, ty, elements, 0, None, None, a, b);
        },
        TypeModel::BoundList { bounds } => {
            lemma_alike_scan_bounds(first, second, bounds, 0, false);
        },
        TypeModel::Never => {},
        TypeModel::Unsupported { text } => {},
    }
}

proof fn lemma_alike_types<K: Emitter, L: Emitter>(
    first: Derivation<K>,
    second: Derivation<L>,
    container: TypeModel,
    types: Seq<TypeModel>,
    from: nat,
    left: Option<GeneratedModel>,
    right: Option<GeneratedModel>,
    a: AccessorModel,
    b: AccessorModel,
)
    requires
        alike(first, second),
        left is Some == right is Some,
    ensures
        verdict(first.combine_types(container, types, from, left, a)) == verdict(
            second.combine_types(container, types, from, right, b),
        ),
    decreases types, types.len() - from,
{
    if from < types.len() {
        let element = AccessorModel::Element;
        let ty = types[from as int];
        lemma_same_policy_same_verdict(first, second, ty, element, element);
        let one = first.merged(container, from, ty, a, left, first.walk(ty, element));
        let other = second.merged(container, from, ty, b, right, second.walk(ty, element));
        match (one, other) {
            (Ok(next), Ok(after)) => {
                lemma_alike_types(first, second, container, types, from + 1, next, after, a, b);
            },
            _ => {},
        }
    }
}

proof fn lemma_alike_arguments<K: Emitter, L: Emitter>(
    first: Derivation<K>,
    second: Derivation<L>,
    container: TypeModel,
    arguments: Seq<ArgumentModel>,
    from: nat,
    left: Option<GeneratedModel>,
    right: Option<GeneratedModel>,
    a: AccessorModel,
    b: AccessorModel,
)
    requires
        alike(first, second),
        left is Some == right is Some,
    ensures
        verdict(first.combine_arguments(container, arguments, from, left, a)) == verdict(
            second.combine_arguments(container, arguments, from, right, b),
        ),
    decreases arguments, arguments.len() - from,
{
    if from < arguments.len() {
        let element = AccessorModel::Element;
        match arguments[from as int] {
            ArgumentModel::Type(ty) => {
                lemma_same_policy_same_verdict(first, second, ty, element, element);
                let one = first.merged(container, from, ty, a, left, first.walk(ty, element));
                let other = second.merged(container, from, ty, b, right, second.walk(ty, element));
                match (one, other) {
                    (Ok(next), Ok(after)) => {
                        lemma_alike_arguments(
                            first,
                            second,
                            container,
                            arguments,
                            from + 1,
                            next,
                            after,
                            a,
                            b,
                        );
                    },
                    _ => {},
                }
            },
            ArgumentModel::Other(text) => {
                lemma_alike_arguments(
                    first,
                    second,
                    container,
                    arguments,
                    from + 1,
                    left,
                    right,
                    a,
                    b,
                );
            },
        }
    }
}

proof fn lemma_alike_scan_types<K: Emitter, L: Emitter>(
    first: Derivation<K>,
    second: Derivation<L>,
    types: Seq<TypeModel>,
    from: nat,
    seen: bool,
)
    requires
        alike(first, second),
    ensures
        first.scan_types(types, from, seen) == second.scan_types(types, from, seen),
    decreases types, types.len() - from,
{
    if from < types.len() {
        let element = AccessorModel::Element;
        let ty = types[from as int];
        lemma_same_policy_same_verdict(first, second, ty, element, element);
        match first.walk(ty, element) {
            Ok(found) => {
                lemma_alike_scan_types(first, second, types, from + 1, seen || found is Some);
            },
            Err(error) => {},
        }
    }
}

proof fn lemma_alike_scan_arguments<K: Emitter, L: Emitter>(
    first: Derivation<K>,
    second: Derivation<L>,
    arguments: Seq<ArgumentModel>,
    from: nat,
    seen: bool,
)
    requires
        alike(first, second),
    ensures
        first.scan_arguments(arguments, from, seen) == second.scan_arguments(
            arguments,
            from,
            seen,
        ),
    decreases arguments, arguments.len() - from,
{
    if from < arguments.len() {
        let element = AccessorModel::Element;
        match arguments[from as int] {
            ArgumentModel::Type(ty) => {
                lemma_same_policy_same_verdict(first, second, ty, element, element);
                match first.walk(ty, element) {
                    Ok(found) => {
                        lemma_alike_scan_arguments(
                            first,
                            second,
                            arguments,
                            from + 1,
                            seen || found is Some,
                        );
                    },
                    Err(error) => {},
                }
            },
            ArgumentModel::Other(text) => {
                lemma_alike_scan_arguments(first, second, arguments, from + 1, seen);
            },
        }
    }
}

proof fn lemma_alike_scan_bound<K: Emitter, L: Emitter>(
    first: Derivation<K>,
    second: Derivation<L>,
    bound: TypeModel,
)
    requires
        alike(first, second),
    ensures
        first.scan_bound(bound) == second.scan_bound(bound),
    decreases bound, 0nat,
{
    match bound {
        TypeModel::Leaf { name, arguments } => {
            lemma_alike_scan_arguments(first, second, arguments, 0, false);
        },
        TypeModel::Signature { name, inputs, output } => {
            lemma_alike_scan_types(first, second, inputs, 0, false);
            match output {
                Some(ty) => {
                    let element = AccessorModel::Element;
                    lemma_same_policy_same_verdict(first, second, *ty, element, element);
                },
                None => {},
            }
        },
        _ => {},
    }
}

proof fn lemma_alike_scan_bounds<K: Emitter, L: Emitter>(
    first: Derivation<K>,
    second: Derivation<L>,
    bounds: Seq<TypeModel>,
    from: nat,
    seen: bool,
)
    requires
        alike(first, second),
    ensures
        first.scan_bounds(bounds, from, seen) == second.scan_bounds(bounds, from, seen),
    decreases bounds, bounds.len() - from,
{
    if from < bounds.len() {
        lemma_alike_scan_bound(first, second, bounds[from as int]);
        match first.scan_bound(bounds[from as int]) {
            Ok(found) => {
                lemma_alike_scan_bounds(first, second, bounds, from + 1, seen || found);
            },
            Err(error) => {},
        }
    }
}

} // verus!
