//! The aggregate driver: the walker applied to every field of a shape for
//! the four capabilities that a derived implementation needs, and the
//! combination of the variants of a tagged type.
use crate::catalog::{EmitLen, EmitMaxLen, EmitMinLen, Emitter};
use crate::generated::{
    Accessor, AccessorModel, ClassificationError, ErrorKind, ErrorModel, Generated, GeneratedModel,
    Traversal, result_model,
};
use crate::types::{TypeExpr, TypeModel};
use crate::walker::{Derivation, EmitContext, below, field_models, raise, raised, relocate};
use vstd::prelude::*;

verus! {

/// What the four capabilities yield for one shape: a record, or one variant
/// of a tagged type.
#[derive(Debug, PartialEq, Eq)]
pub struct ShapeOutput {
    pub min_len: Generated,
    pub max_len: Generated,
    pub iter: Generated,
    pub len: Generated,
}

/// Mathematical model of [`ShapeOutput`].
pub struct ShapeModel {
    pub min_len: GeneratedModel,
    pub max_len: GeneratedModel,
    pub iter: GeneratedModel,
    pub len: GeneratedModel,
}

impl View for ShapeOutput {
    type V = ShapeModel;

    open spec fn view(&self) -> ShapeModel {
        ShapeModel {
            min_len: self.min_len@,
            max_len: self.max_len@,
            iter: self.iter@,
            len: self.len@,
        }
    }
}

/// What the four capabilities yield for a tagged type: one bound of each
/// kind for the type, and one sequence and one count for each variant, to be
/// chosen by the variant of the live value.
#[derive(Debug, PartialEq, Eq)]
pub struct VariantsOutput {
    pub min_len: Generated,
    pub max_len: Generated,
    pub iters: Vec<Generated>,
    pub lens: Vec<Generated>,
}

/// Mathematical model of [`VariantsOutput`].
pub struct VariantsModel {
    pub min_len: GeneratedModel,
    pub max_len: GeneratedModel,
    pub iters: Seq<GeneratedModel>,
    pub lens: Seq<GeneratedModel>,
}

/// The models of a list of generated expressions, in order.
pub open spec fn generated_models(outs: Seq<Generated>) -> Seq<GeneratedModel> {
    Seq::new(outs.len(), |i: int| outs[i]@)
}

impl View for VariantsOutput {
    type V = VariantsModel;

    open spec fn view(&self) -> VariantsModel {
        VariantsModel {
            min_len: self.min_len@,
            max_len: self.max_len@,
            iters: generated_models(self.iters@),
            lens: generated_models(self.lens@),
        }
    }
}

/// The fields of a shape: each a type with the accessor that reads it.
pub type Fields = Vec<(TypeExpr, Accessor)>;

/// Mathematical model of [`Fields`].
pub type FieldModels = Seq<(TypeModel, AccessorModel)>;

/// The models of the field lists of the variants, in order.
pub open spec fn variant_models(variants: Seq<Fields>) -> Seq<FieldModels> {
    Seq::new(variants.len(), |i: int| field_models(variants[i]@))
}

/// The accessor of a field as a capability reaches it: borrowed, or as it
/// is where the capability takes the field by value.
pub open spec fn reached(traversal: Traversal, accessor: AccessorModel) -> AccessorModel {
    match traversal {
        Traversal::Shared => AccessorModel::Borrow { exclusive: false, place: Box::new(accessor) },
        Traversal::Exclusive => AccessorModel::Borrow { exclusive: true, place: Box::new(accessor) },
        Traversal::Consuming => accessor,
    }
}

/// The fields of a shape as a capability reaches them.
pub open spec fn reached_fields(traversal: Traversal, fields: FieldModels) -> FieldModels {
    Seq::new(fields.len(), |i: int| (fields[i].0, reached(traversal, fields[i].1)))
}

/// What one capability yields for a shape: the fold over its fields, each
/// reached as the capability reaches it, and the capability's identity
/// where no field holds the target.
pub open spec fn settled<K: Emitter>(derivation: Derivation<K>, fields: FieldModels) -> Result<
    GeneratedModel,
    ErrorModel,
> {
    match derivation.combine_fields(reached_fields(derivation.kind.reach(), fields), 0, None) {
        Ok(Some(generated)) => Ok(generated),
        Ok(None) => Ok(derivation.kind.identity()),
        Err(error) => Err(error),
    }
}

/// What the four capabilities yield for a shape, the iteration being of the
/// given kind. A refusal is that of the first capability that refuses, in
/// the order minimum, maximum, iteration, count.
pub open spec fn shape_model<K: Emitter>(
    kind: K,
    namespace: Seq<char>,
    target: TypeModel,
    fields: FieldModels,
) -> Result<ShapeModel, ErrorModel> {
    match settled(Derivation { kind: EmitMinLen, namespace, target }, fields) {
        Err(error) => Err(error),
        Ok(min_len) => match settled(Derivation { kind: EmitMaxLen, namespace, target }, fields) {
            Err(error) => Err(error),
            Ok(max_len) => match settled(Derivation { kind, namespace, target }, fields) {
                Err(error) => Err(error),
                Ok(iter) => match settled(Derivation { kind: EmitLen, namespace, target }, fields) {
                    Err(error) => Err(error),
                    Ok(len) => Ok(ShapeModel { min_len, max_len, iter, len }),
                },
            },
        },
    }
}

/// The smallest of the counts `from..`, written as nested comparisons that
/// hold each of them once.
pub open spec fn nest_least(outs: Seq<GeneratedModel>, from: nat) -> GeneratedModel
    decreases outs.len() - from,
{
    if from + 1 >= outs.len() {
        outs[outs.len() - 1]
    } else {
        GeneratedModel::Least(Box::new(outs[from as int]), Box::new(nest_least(outs, from + 1)))
    }
}

/// The largest of the limits `from..`, written as nested comparisons that
/// hold each of them once.
pub open spec fn nest_greatest(outs: Seq<GeneratedModel>, from: nat) -> GeneratedModel
    decreases outs.len() - from,
{
    if from + 1 >= outs.len() {
        outs[outs.len() - 1]
    } else {
        GeneratedModel::Greatest(
            Box::new(outs[from as int]),
            Box::new(nest_greatest(outs, from + 1)),
        )
    }
}

/// The minimum count of a type from those of its variants: a refusal where
/// there is no variant.
pub open spec fn least_of(outs: Seq<GeneratedModel>) -> Result<GeneratedModel, ErrorModel> {
    if outs.len() == 0 {
        Err(raised(ErrorKind::EmptyVariantSet))
    } else {
        Ok(nest_least(outs, 0))
    }
}

/// The maximum count of a type from those of its variants: a refusal where
/// there is no variant.
pub open spec fn greatest_of(outs: Seq<GeneratedModel>) -> Result<GeneratedModel, ErrorModel> {
    if outs.len() == 0 {
        Err(raised(ErrorKind::EmptyVariantSet))
    } else {
        Ok(nest_greatest(outs, 0))
    }
}

/// The refusal of the first variant, from `from` on, that is refused.
pub open spec fn first_refusal<K: Emitter>(
    kind: K,
    namespace: Seq<char>,
    target: TypeModel,
    variants: Seq<FieldModels>,
    from: nat,
) -> Option<ErrorModel>
    decreases variants.len() - from,
{
    if from >= variants.len() {
        None
    } else {
        match shape_model(kind, namespace, target, variants[from as int]) {
            Err(error) => Some(below(from, error)),
            Ok(shape) => first_refusal(kind, namespace, target, variants, from + 1),
        }
    }
}

/// What the variant at `index` yields, where it is not refused.
pub open spec fn arm<K: Emitter>(
    kind: K,
    namespace: Seq<char>,
    target: TypeModel,
    variants: Seq<FieldModels>,
    index: int,
) -> ShapeModel {
    shape_model(kind, namespace, target, variants[index])->Ok_0
}

/// What the four capabilities yield for a tagged type: the refusal of the
/// first variant that is refused; else, with no variant, the refusal of an
/// empty set; else the least minimum and the greatest maximum of the
/// variants, and the sequence and the count of each variant.
pub open spec fn variants_model<K: Emitter>(
    kind: K,
    namespace: Seq<char>,
    target: TypeModel,
    variants: Seq<FieldModels>,
) -> Result<VariantsModel, ErrorModel> {
    match first_refusal(kind, namespace, target, variants, 0) {
        Some(error) => Err(error),
        None => match least_of(
            Seq::new(variants.len(), |i: int| arm(kind, namespace, target, variants, i).min_len),
        ) {
            Err(error) => Err(error),
            Ok(min_len) => match greatest_of(
                Seq::new(
                    variants.len(),
                    |i: int| arm(kind, namespace, target, variants, i).max_len,
                ),
            ) {
                Err(error) => Err(error),
                Ok(max_len) => Ok(
                    VariantsModel {
                        min_len,
                        max_len,
                        iters: Seq::new(
                            variants.len(),
                            |i: int| arm(kind, namespace, target, variants, i).iter,
                        ),
                        lens: Seq::new(
                            variants.len(),
                            |i: int| arm(kind, namespace, target, variants, i).len,
                        ),
                    },
                ),
            },
        },
    }
}

/// The accessor of a field as a capability reaches it.
fn reach(traversal: Traversal, accessor: &Accessor) -> (reached_accessor: Accessor)
    ensures
        reached_accessor@ == reached(traversal, accessor@),
{
    match traversal {
        Traversal::Shared => Accessor::Borrow { exclusive: false, place: Box::new(accessor.clone()) },
        Traversal::Exclusive => Accessor::Borrow {
            exclusive: true,
            place: Box::new(accessor.clone()),
        },
        Traversal::Consuming => accessor.clone(),
    }
}

/// What one capability yields for a shape.
fn settle<K: Emitter>(context: &EmitContext<K>, items: &Fields) -> (generated: Result<
    Generated,
    ClassificationError,
>)
    ensures
        result_model(generated) == settled(context@, field_models(items@)),
{
    let traversal = context.kind.native_reference();
    let mut reached_items: Fields = Vec::new();
    let mut i: usize = 0;
    while i < items.len()
        invariant
            i <= items.len(),
            traversal == context.kind.reach(),
            reached_items.len() == i,
            forall|j: int|
                0 <= j < i ==> {
                    &&& reached_items@[j].0@ == items@[j].0@
                    &&& reached_items@[j].1@ == reached(traversal, items@[j].1@)
                },
        decreases items.len() - i,
    {
        reached_items.push((items[i].0.clone(), reach(traversal, &items[i].1)));
        i += 1;
    }
    assert(field_models(reached_items@) =~= reached_fields(traversal, field_models(items@)));
    match context.emit_for_tys_exprs(&reached_items) {
        Ok(Some(generated)) => Ok(generated),
        Ok(None) => Ok(context.kind.fold_initializer()),
        Err(error) => Err(error),
    }
}

/// Derives, for one shape, the minimum count, the maximum count, the
/// iteration of the given kind and the live count of the target.
pub fn generate_with_generator<K: Emitter>(
    kind: K,
    krate: &String,
    replacing_ty: &TypeExpr,
    items: &Fields,
) -> (output: Result<ShapeOutput, ClassificationError>)
    ensures
        result_model(output) == shape_model(kind, krate@, replacing_ty@, field_models(items@)),
{
    let minimum = EmitContext {
        kind: EmitMinLen,
        krate: krate.clone(),
        replacing_ty: replacing_ty.clone(),
    };
    let min_len = match settle(&minimum, items) {
        Ok(generated) => generated,
        Err(error) => {
            return Err(error);
        },
    };
    let maximum = EmitContext {
        kind: EmitMaxLen,
        krate: krate.clone(),
        replacing_ty: replacing_ty.clone(),
    };
    let max_len = match settle(&maximum, items) {
        Ok(generated) => generated,
        Err(error) => {
            return Err(error);
        },
    };
    let iteration = EmitContext { kind, krate: krate.clone(), replacing_ty: replacing_ty.clone() };
    let iter = match settle(&iteration, items) {
        Ok(generated) => generated,
        Err(error) => {
            return Err(error);
        },
    };
    let count = EmitContext {
        kind: EmitLen,
        krate: krate.clone(),
        replacing_ty: replacing_ty.clone(),
    };
    let len = match settle(&count, items) {
        Ok(generated) => generated,
        Err(error) => {
            return Err(error);
        },
    };
    Ok(ShapeOutput { min_len, max_len, iter, len })
}

/// Combines the minimum counts of the variants into the minimum count of
/// the type: every variant is held once. With no variant there is nothing
/// to combine.
pub fn squash_minlens(outs: Vec<Generated>) -> (squashed: Result<Generated, ClassificationError>)
    ensures
        result_model(squashed) == least_of(generated_models(outs@)),
{
    let ghost all = generated_models(outs@);
    let mut rest = outs;
    match rest.pop() {
        None => Err(raise(ErrorKind::EmptyVariantSet)),
        Some(last) => {
            let mut acc = last;
            while rest.len() > 0
                invariant
                    rest.len() < all.len(),
                    generated_models(rest@) == all.take(rest.len() as int),
                    acc@ == nest_least(all, rest.len() as nat),
                decreases rest.len(),
            {
                let ghost before = rest@;
                match rest.pop() {
                    Some(out) => {
                        assert(out@ == all[rest.len() as int]) by {
                            assert(generated_models(before)[rest.len() as int] == out@);
                        }
                        assert(generated_models(rest@) =~= all.take(rest.len() as int));
                        acc = Generated::Least(Box::new(out), Box::new(acc));
                    },
                    None => {},
                }
            }
            Ok(acc)
        },
    }
}

/// Combines the maximum counts of the variants into the maximum count of
/// the type: every variant is held once. With no variant there is nothing
/// to combine.
pub fn squash_maxlens(outs: Vec<Generated>) -> (squashed: Result<Generated, ClassificationError>)
    ensures
        result_model(squashed) == greatest_of(generated_models(outs@)),
{
    let ghost all = generated_models(outs@);
    let mut rest = outs;
    match rest.pop() {
        None => Err(raise(ErrorKind::EmptyVariantSet)),
        Some(last) => {
            let mut acc = last;
            while rest.len() > 0
                invariant
                    rest.len() < all.len(),
                    generated_models(rest@) == all.take(rest.len() as int),
                    acc@ == nest_greatest(all, rest.len() as nat),
                decreases rest.len(),
            {
                let ghost before = rest@;
                match rest.pop() {
                    Some(out) => {
                        assert(out@ == all[rest.len() as int]) by {
                            assert(generated_models(before)[rest.len() as int] == out@);
                        }
                        assert(generated_models(rest@) =~= all.take(rest.len() as int));
                        acc = Generated::Greatest(Box::new(out), Box::new(acc));
                    },
                    None => {},
                }
            }
            Ok(acc)
        },
    }
}

/// Derives the four capabilities for a tagged type: each variant as a shape
/// of its own, then the bounds of the variants combined into those of the
/// type. The sequences and the counts stay one for each variant.
pub fn generate_for_variants<K: Emitter + Copy>(
    kind: K,
    krate: &String,
    replacing_ty: &TypeExpr,
    variants: &Vec<Fields>,
) -> (output: Result<VariantsOutput, ClassificationError>)
    ensures
        result_model(output) == variants_model(
            kind,
            krate@,
            replacing_ty@,
            variant_models(variants@),
        ),
{
    let ghost models = variant_models(variants@);
    let mut min_lens: Vec<Generated> = Vec::new();
    let mut max_lens: Vec<Generated> = Vec::new();
    let mut iters: Vec<Generated> = Vec::new();
    let mut lens: Vec<Generated> = Vec::new();
    let mut i: usize = 0;
    while i < variants.len()
        invariant
            i <= variants.len(),
            models == variant_models(variants@),
            min_lens.len() == i,
            max_lens.len() == i,
            iters.len() == i,
            lens.len() == i,
            first_refusal(kind, krate@, replacing_ty@, models, 0) == first_refusal(
                kind,
                krate@,
                replacing_ty@,
                models,
                i as nat,
            ),
            forall|j: int|
                0 <= j < i ==> {
                    &&& min_lens@[j]@ == arm(kind, krate@, replacing_ty@, models, j).min_len
                    &&& max_lens@[j]@ == arm(kind, krate@, replacing_ty@, models, j).max_len
                    &&& iters@[j]@ == arm(kind, krate@, replacing_ty@, models, j).iter
                    &&& lens@[j]@ == arm(kind, krate@, replacing_ty@, models, j).len
                },
        decreases variants.len() - i,
    {
        match generate_with_generator(kind, krate, replacing_ty, &variants[i]) {
            Ok(shape) => {
                min_lens.push(shape.min_len);
                max_lens.push(shape.max_len);
                iters.push(shape.iter);
                lens.push(shape.len);
            },
            Err(error) => {
                return Err(relocate(i, error));
            },
        }
        i += 1;
    }
    proof {
        let n = models.len();
        assert(generated_models(min_lens@) =~= Seq::new(
            n,
            |i: int| arm(kind, krate@, replacing_ty@, models, i).min_len,
        ));
        assert(generated_models(max_lens@) =~= Seq::new(
            n,
            |i: int| arm(kind, krate@, replacing_ty@, models, i).max_len,
        ));
        assert(generated_models(iters@) =~= Seq::new(
            n,
            |i: int| arm(kind, krate@, replacing_ty@, models, i).iter,
        ));
        assert(generated_models(lens@) =~= Seq::new(
            n,
            |i: int| arm(kind, krate@, replacing_ty@, models, i).len,
        ));
    }
    let min_len = match squash_minlens(min_lens) {
        Ok(generated) => generated,
        Err(error) => {
            return Err(error);
        },
    };
    let max_len = match squash_maxlens(max_lens) {
        Ok(generated) => generated,
        Err(error) => {
            return Err(error);
        },
    };
    Ok(VariantsOutput { min_len, max_len, iters, lens })
}

} // verus!
