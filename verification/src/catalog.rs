//! The capability catalog: what each capability yields at an occurrence of
//! the target, how it combines two results, and which references it may
//! cross.
use crate::generated::{Accessor, AccessorModel, Generated, GeneratedModel, Helper, HelperModel, Traversal};
use crate::types::{TypeExpr, TypeModel};
use vstd::prelude::*;

verus! {

/// A capability: the operations that the walker combines, each with the
/// mathematical function that it computes.
pub trait Emitter {
    /// What the capability yields where the type is the target itself.
    spec fn leaf_value(&self, accessor: AccessorModel) -> GeneratedModel;

    /// What the capability yields where the target does not occur at all.
    spec fn identity(&self) -> GeneratedModel;

    /// How two results found side by side combine.
    spec fn folded(&self, acc: GeneratedModel, item: GeneratedModel) -> GeneratedModel;

    /// What one argument position of a container contributes, given what
    /// each element of that position yields.
    spec fn nested(
        &self,
        namespace: Seq<char>,
        container: TypeModel,
        index: nat,
        element: TypeModel,
        accessor: AccessorModel,
        inner: GeneratedModel,
    ) -> GeneratedModel;

    /// How the capability reaches the fields of a shape.
    spec fn reach(&self) -> Traversal;

    /// Whether the capability may cross a shared reference.
    spec fn descends_shared(&self) -> bool;

    /// Whether the capability may cross an exclusive reference.
    spec fn descends_exclusive(&self) -> bool;

    fn fold_initializer(&self) -> (generated: Generated)
        ensures
            generated@ == self.identity(),
    ;

    fn item(
        &self,
        krate: &String,
        base_ty: &TypeExpr,
        index: usize,
        ty: &TypeExpr,
        expr: &Accessor,
        inner: Generated,
    ) -> (generated: Generated)
        ensures
            generated@ == self.nested(krate@, base_ty@, index as nat, ty@, expr@, inner@),
    ;

    fn fold(&self, acc: Generated, item: Generated) -> (generated: Generated)
        ensures
            generated@ == self.folded(acc@, item@),
    ;

    fn emit_pure(&self, ty: &TypeExpr, expr: &Accessor) -> (generated: Generated)
        ensures
            generated@ == self.leaf_value(expr@),
    ;

    fn native_reference(&self) -> (traversal: Traversal)
        ensures
            traversal == self.reach(),
    ;

    fn access_over_ref(&self) -> (allowed: bool)
        ensures
            allowed == self.descends_shared(),
    ;

    fn access_over_ref_mut(&self) -> (allowed: bool)
        ensures
            allowed == self.descends_exclusive(),
    ;
}

/// The helper of one argument position of a container.
pub open spec fn helper_model(namespace: Seq<char>, container: TypeModel, index: nat) -> HelperModel {
    HelperModel { namespace, container, index }
}

/// A reference to the helper of one argument position of a container.
fn helper(krate: &String, base_ty: &TypeExpr, index: usize) -> (helper: Helper)
    ensures
        helper@ == helper_model(krate@, base_ty@, index as nat),
{
    Helper { namespace: krate.clone(), container: base_ty.clone(), index }
}

/// The most occurrences that any value can hold, where that is bounded.
#[derive(Clone, Copy, Debug, PartialEq, Eq, Hash)]
pub struct EmitMaxLen;

impl Emitter for EmitMaxLen {
    open spec fn leaf_value(&self, accessor: AccessorModel) -> GeneratedModel {
        GeneratedModel::Limit(1)
    }

    open spec fn identity(&self) -> GeneratedModel {
        GeneratedModel::Limit(0)
    }

    open spec fn folded(&self, acc: GeneratedModel, item: GeneratedModel) -> GeneratedModel {
        GeneratedModel::LimitSum(Box::new(acc), Box::new(item))
    }

    open spec fn nested(
        &self,
        namespace: Seq<char>,
        container: TypeModel,
        index: nat,
        element: TypeModel,
        accessor: AccessorModel,
        inner: GeneratedModel,
    ) -> GeneratedModel {
        GeneratedModel::LimitScaled {
            helper: helper_model(namespace, container, index),
            inner: Box::new(inner),
        }
    }

    open spec fn reach(&self) -> Traversal {
        Traversal::Shared
    }

    open spec fn descends_shared(&self) -> bool {
        true
    }

    open spec fn descends_exclusive(&self) -> bool {
        true
    }

    fn fold_initializer(&self) -> (generated: Generated) {
        Generated::Limit(0)
    }

    fn item(
        &self,
        krate: &String,
        base_ty: &TypeExpr,
        index: usize,
        ty: &TypeExpr,
        expr: &Accessor,
        inner: Generated,
    ) -> (generated: Generated) {
        Generated::LimitScaled { helper: helper(krate, base_ty, index), inner: Box::new(inner) }
    }

    fn fold(&self, acc: Generated, item: Generated) -> (generated: Generated) {
        Generated::LimitSum(Box::new(acc), Box::new(item))
    }

    fn emit_pure(&self, ty: &TypeExpr, expr: &Accessor) -> (generated: Generated) {
        Generated::Limit(1)
    }

    fn native_reference(&self) -> (traversal: Traversal) {
        Traversal::Shared
    }

    fn access_over_ref(&self) -> (allowed: bool) {
        true
    }

    fn access_over_ref_mut(&self) -> (allowed: bool) {
        true
    }
}

/// The fewest occurrences that any value can hold.
#[derive(Clone, Copy, Debug, PartialEq, Eq, Hash)]
pub struct EmitMinLen;

impl Emitter for EmitMinLen {
    open spec fn leaf_value(&self, accessor: AccessorModel) -> GeneratedModel {
        GeneratedModel::Count(1)
    }

    open spec fn identity(&self) -> GeneratedModel {
        GeneratedModel::Count(0)
    }

    open spec fn folded(&self, acc: GeneratedModel, item: GeneratedModel) -> GeneratedModel {
        GeneratedModel::Sum(Box::new(acc), Box::new(item))
    }

    open spec fn nested(
        &self,
        namespace: Seq<char>,
        container: TypeModel,
        index: nat,
        element: TypeModel,
        accessor: AccessorModel,
        inner: GeneratedModel,
    ) -> GeneratedModel {
        GeneratedModel::Scaled {
            helper: helper_model(namespace, container, index),
            inner: Box::new(inner),
        }
    }

    open spec fn reach(&self) -> Traversal {
        Traversal::Shared
    }

    open spec fn descends_shared(&self) -> bool {
        true
    }

    open spec fn descends_exclusive(&self) -> bool {
        true
    }

    fn fold_initializer(&self) -> (generated: Generated) {
        Generated::Count(0)
    }

    fn item(
        &self,
        krate: &String,
        base_ty: &TypeExpr,
        index: usize,
        ty: &TypeExpr,
        expr: &Accessor,
        inner: Generated,
    ) -> (generated: Generated) {
        Generated::Scaled { helper: helper(krate, base_ty, index), inner: Box::new(inner) }
    }

    fn fold(&self, acc: Generated, item: Generated) -> (generated: Generated) {
        Generated::Sum(Box::new(acc), Box::new(item))
    }

    fn emit_pure(&self, ty: &TypeExpr, expr: &Accessor) -> (generated: Generated) {
        Generated::Count(1)
    }

    fn native_reference(&self) -> (traversal: Traversal) {
        Traversal::Shared
    }

    fn access_over_ref(&self) -> (allowed: bool) {
        true
    }

    fn access_over_ref_mut(&self) -> (allowed: bool) {
        true
    }
}

/// The occurrences that a live value holds.
#[derive(Clone, Copy, Debug, PartialEq, Eq, Hash)]
pub struct EmitLen;

impl Emitter for EmitLen {
    open spec fn leaf_value(&self, accessor: AccessorModel) -> GeneratedModel {
        GeneratedModel::Count(1)
    }

    open spec fn identity(&self) -> GeneratedModel {
        GeneratedModel::Count(0)
    }

    open spec fn folded(&self, acc: GeneratedModel, item: GeneratedModel) -> GeneratedModel {
        GeneratedModel::Sum(Box::new(acc), Box::new(item))
    }

    open spec fn nested(
        &self,
        namespace: Seq<char>,
        container: TypeModel,
        index: nat,
        element: TypeModel,
        accessor: AccessorModel,
        inner: GeneratedModel,
    ) -> GeneratedModel {
        GeneratedModel::Tally {
            helper: helper_model(namespace, container, index),
            source: accessor,
            inner: Box::new(inner),
        }
    }

    open spec fn reach(&self) -> Traversal {
        Traversal::Shared
    }

    open spec fn descends_shared(&self) -> bool {
        true
    }

    open spec fn descends_exclusive(&self) -> bool {
        true
    }

    fn fold_initializer(&self) -> (generated: Generated) {
        Generated::Count(0)
    }

    fn item(
        &self,
        krate: &String,
        base_ty: &TypeExpr,
        index: usize,
        ty: &TypeExpr,
        expr: &Accessor,
        inner: Generated,
    ) -> (generated: Generated) {
        Generated::Tally {
            helper: helper(krate, base_ty, index),
            source: expr.clone(),
            inner: Box::new(inner),
        }
    }

    fn fold(&self, acc: Generated, item: Generated) -> (generated: Generated) {
        Generated::Sum(Box::new(acc), Box::new(item))
    }

    fn emit_pure(&self, ty: &TypeExpr, expr: &Accessor) -> (generated: Generated) {
        Generated::Count(1)
    }

    fn native_reference(&self) -> (traversal: Traversal) {
        Traversal::Shared
    }

    fn access_over_ref(&self) -> (allowed: bool) {
        true
    }

    fn access_over_ref_mut(&self) -> (allowed: bool) {
        true
    }
}

/// The occurrences of a live value, each by shared reference.
#[derive(Clone, Copy, Debug, PartialEq, Eq, Hash)]
pub struct EmitIter;

impl Emitter for EmitIter {
    open spec fn leaf_value(&self, accessor: AccessorModel) -> GeneratedModel {
        GeneratedModel::Once(accessor)
    }

    open spec fn identity(&self) -> GeneratedModel {
        GeneratedModel::Empty
    }

    open spec fn folded(&self, acc: GeneratedModel, item: GeneratedModel) -> GeneratedModel {
        GeneratedModel::Chain(Box::new(acc), Box::new(item))
    }

    open spec fn nested(
        &self,
        namespace: Seq<char>,
        container: TypeModel,
        index: nat,
        element: TypeModel,
        accessor: AccessorModel,
        inner: GeneratedModel,
    ) -> GeneratedModel {
        GeneratedModel::Flatten {
            traversal: Traversal::Shared,
            helper: helper_model(namespace, container, index),
            element,
            source: accessor,
            inner: Box::new(inner),
        }
    }

    open spec fn reach(&self) -> Traversal {
        Traversal::Shared
    }

    open spec fn descends_shared(&self) -> bool {
        true
    }

    open spec fn descends_exclusive(&self) -> bool {
        true
    }

    fn fold_initializer(&self) -> (generated: Generated) {
        Generated::Empty
    }

    fn item(
        &self,
        krate: &String,
        base_ty: &TypeExpr,
        index: usize,
        ty: &TypeExpr,
        expr: &Accessor,
        inner: Generated,
    ) -> (generated: Generated) {
        Generated::Flatten {
            traversal: Traversal::Shared,
            helper: helper(krate, base_ty, index),
            element: ty.clone(),
            source: expr.clone(),
            inner: Box::new(inner),
        }
    }

    fn fold(&self, acc: Generated, item: Generated) -> (generated: Generated) {
        Generated::Chain(Box::new(acc), Box::new(item))
    }

    fn emit_pure(&self, ty: &TypeExpr, expr: &Accessor) -> (generated: Generated) {
        Generated::Once(expr.clone())
    }

    fn native_reference(&self) -> (traversal: Traversal) {
        Traversal::Shared
    }

    fn access_over_ref(&self) -> (allowed: bool) {
        true
    }

    fn access_over_ref_mut(&self) -> (allowed: bool) {
        true
    }
}

/// The occurrences of a live value, each by exclusive reference.
#[derive(Clone, Copy, Debug, PartialEq, Eq, Hash)]
pub struct EmitIterMut;

impl Emitter for EmitIterMut {
    open spec fn leaf_value(&self, accessor: AccessorModel) -> GeneratedModel {
        GeneratedModel::Once(accessor)
    }

    open spec fn identity(&self) -> GeneratedModel {
        GeneratedModel::Empty
    }

    open spec fn folded(&self, acc: GeneratedModel, item: GeneratedModel) -> GeneratedModel {
        GeneratedModel::Chain(Box::new(acc), Box::new(item))
    }

    open spec fn nested(
        &self,
        namespace: Seq<char>,
        container: TypeModel,
        index: nat,
        element: TypeModel,
        accessor: AccessorModel,
        inner: GeneratedModel,
    ) -> GeneratedModel {
        GeneratedModel::Flatten {
            traversal: Traversal::Exclusive,
            helper: helper_model(namespace, container, index),
            element,
            source: accessor,
            inner: Box::new(inner),
        }
    }

    open spec fn reach(&self) -> Traversal {
        Traversal::Exclusive
    }

    open spec fn descends_shared(&self) -> bool {
        false
    }

    open spec fn descends_exclusive(&self) -> bool {
        true
    }

    fn fold_initializer(&self) -> (generated: Generated) {
        Generated::Empty
    }

    fn item(
        &self,
        krate: &String,
        base_ty: &TypeExpr,
        index: usize,
        ty: &TypeExpr,
        expr: &Accessor,
        inner: Generated,
    ) -> (generated: Generated) {
        Generated::Flatten {
            traversal: Traversal::Exclusive,
            helper: helper(krate, base_ty, index),
            element: ty.clone(),
            source: expr.clone(),
            inner: Box::new(inner),
        }
    }

    fn fold(&self, acc: Generated, item: Generated) -> (generated: Generated) {
        Generated::Chain(Box::new(acc), Box::new(item))
    }

    fn emit_pure(&self, ty: &TypeExpr, expr: &Accessor) -> (generated: Generated) {
        Generated::Once(expr.clone())
    }

    fn native_reference(&self) -> (traversal: Traversal) {
        Traversal::Exclusive
    }

    fn access_over_ref(&self) -> (allowed: bool) {
        false
    }

    fn access_over_ref_mut(&self) -> (allowed: bool) {
        true
    }
}

/// The occurrences of a live value, each by value.
#[derive(Clone, Copy, Debug, PartialEq, Eq, Hash)]
pub struct EmitIntoIter;

impl Emitter for EmitIntoIter {
    open spec fn leaf_value(&self, accessor: AccessorModel) -> GeneratedModel {
        GeneratedModel::Once(accessor)
    }

    open spec fn identity(&self) -> GeneratedModel {
        GeneratedModel::Empty
    }

    open spec fn folded(&self, acc: GeneratedModel, item: GeneratedModel) -> GeneratedModel {
        GeneratedModel::Chain(Box::new(acc), Box::new(item))
    }

    open spec fn nested(
        &self,
        namespace: Seq<char>,
        container: TypeModel,
        index: nat,
        element: TypeModel,
        accessor: AccessorModel,
        inner: GeneratedModel,
    ) -> GeneratedModel {
        GeneratedModel::Flatten {
            traversal: Traversal::Consuming,
            helper: helper_model(namespace, container, index),
            element,
            source: accessor,
            inner: Box::new(inner),
        }
    }

    open spec fn reach(&self) -> Traversal {
        Traversal::Consuming
    }

    open spec fn descends_shared(&self) -> bool {
        false
    }

    open spec fn descends_exclusive(&self) -> bool {
        false
    }

    fn fold_initializer(&self) -> (generated: Generated) {
        Generated::Empty
    }

    fn item(
        &self,
        krate: &String,
        base_ty: &TypeExpr,
        index: usize,
        ty: &TypeExpr,
        expr: &Accessor,
        inner: Generated,
    ) -> (generated: Generated) {
        Generated::Flatten {
            traversal: Traversal::Consuming,
            helper: helper(krate, base_ty, index),
            element: ty.clone(),
            source: expr.clone(),
            inner: Box::new(inner),
        }
    }

    fn fold(&self, acc: Generated, item: Generated) -> (generated: Generated) {
        Generated::Chain(Box::new(acc), Box::new(item))
    }

    fn emit_pure(&self, ty: &TypeExpr, expr: &Accessor) -> (generated: Generated) {
        Generated::Once(expr.clone())
    }

    fn native_reference(&self) -> (traversal: Traversal) {
        Traversal::Consuming
    }

    fn access_over_ref(&self) -> (allowed: bool) {
        false
    }

    fn access_over_ref_mut(&self) -> (allowed: bool) {
        false
    }
}

/// The type of the iteration by shared reference. It holds the lifetime of the
/// references and the type that they refer to.
#[derive(Debug, PartialEq, Eq)]
pub struct EmitIterTy(pub String, pub TypeExpr);

impl Emitter for EmitIterTy {
    open spec fn leaf_value(&self, accessor: AccessorModel) -> GeneratedModel {
        GeneratedModel::OnceType { traversal: Traversal::Shared, lifetime: self.0@, item: self.1@ }
    }

    open spec fn identity(&self) -> GeneratedModel {
        GeneratedModel::EmptyType { traversal: Traversal::Shared, lifetime: self.0@, item: self.1@ }
    }

    open spec fn folded(&self, acc: GeneratedModel, item: GeneratedModel) -> GeneratedModel {
        GeneratedModel::ChainType(Box::new(acc), Box::new(item))
    }

    open spec fn nested(
        &self,
        namespace: Seq<char>,
        container: TypeModel,
        index: nat,
        element: TypeModel,
        accessor: AccessorModel,
        inner: GeneratedModel,
    ) -> GeneratedModel {
        GeneratedModel::FlattenType {
            traversal: Traversal::Shared,
            lifetime: self.0@,
            helper: helper_model(namespace, container, index),
            element,
            inner: Box::new(inner),
        }
    }

    open spec fn reach(&self) -> Traversal {
        Traversal::Consuming
    }

    open spec fn descends_shared(&self) -> bool {
        true
    }

    open spec fn descends_exclusive(&self) -> bool {
        true
    }

    fn fold_initializer(&self) -> (generated: Generated) {
        Generated::EmptyType {
            traversal: Traversal::Shared,
            lifetime: self.0.clone(),
            item: self.1.clone(),
        }
    }

    fn item(
        &self,
        krate: &String,
        base_ty: &TypeExpr,
        index: usize,
        ty: &TypeExpr,
        expr: &Accessor,
        inner: Generated,
    ) -> (generated: Generated) {
        Generated::FlattenType {
            traversal: Traversal::Shared,
            lifetime: self.0.clone(),
            helper: helper(krate, base_ty, index),
            element: ty.clone(),
            inner: Box::new(inner),
        }
    }

    fn fold(&self, acc: Generated, item: Generated) -> (generated: Generated) {
        Generated::ChainType(Box::new(acc), Box::new(item))
    }

    fn emit_pure(&self, ty: &TypeExpr, expr: &Accessor) -> (generated: Generated) {
        Generated::OnceType {
            traversal: Traversal::Shared,
            lifetime: self.0.clone(),
            item: self.1.clone(),
        }
    }

    fn native_reference(&self) -> (traversal: Traversal) {
        Traversal::Consuming
    }

    fn access_over_ref(&self) -> (allowed: bool) {
        true
    }

    fn access_over_ref_mut(&self) -> (allowed: bool) {
        true
    }
}

/// The type of the iteration by exclusive reference. It holds the lifetime of
/// the references and the type that they refer to.
#[derive(Debug, PartialEq, Eq)]
pub struct EmitIterMutTy(pub String, pub TypeExpr);

impl Emitter for EmitIterMutTy {
    open spec fn leaf_value(&self, accessor: AccessorModel) -> GeneratedModel {
        GeneratedModel::OnceType { traversal: Traversal::Exclusive, lifetime: self.0@, item: self.1@ }
    }

    open spec fn identity(&self) -> GeneratedModel {
        GeneratedModel::EmptyType { traversal: Traversal::Exclusive, lifetime: self.0@, item: self.1@ }
    }

    open spec fn folded(&self, acc: GeneratedModel, item: GeneratedModel) -> GeneratedModel {
        GeneratedModel::ChainType(Box::new(acc), Box::new(item))
    }

    open spec fn nested(
        &self,
        namespace: Seq<char>,
        container: TypeModel,
        index: nat,
        element: TypeModel,
        accessor: AccessorModel,
        inner: GeneratedModel,
    ) -> GeneratedModel {
        GeneratedModel::FlattenType {
            traversal: Traversal::Exclusive,
            lifetime: self.0@,
            helper: helper_model(namespace, container, index),
            element,
            inner: Box::new(inner),
        }
    }

    open spec fn reach(&self) -> Traversal {
        Traversal::Consuming
    }

    open spec fn descends_shared(&self) -> bool {
        false
    }

    open spec fn descends_exclusive(&self) -> bool {
        true
    }

    fn fold_initializer(&self) -> (generated: Generated) {
        Generated::EmptyType {
            traversal: Traversal::Exclusive,
            lifetime: self.0.clone(),
            item: self.1.clone(),
        }
    }

    fn item(
        &self,
        krate: &String,
        base_ty: &TypeExpr,
        index: usize,
        ty: &TypeExpr,
        expr: &Accessor,
        inner: Generated,
    ) -> (generated: Generated) {
        Generated::FlattenType {
            traversal: Traversal::Exclusive,
            lifetime: self.0.clone(),
            helper: helper(krate, base_ty, index),
            element: ty.clone(),
            inner: Box::new(inner),
        }
    }

    fn fold(&self, acc: Generated, item: Generated) -> (generated: Generated) {
        Generated::ChainType(Box::new(acc), Box::new(item))
    }

    fn emit_pure(&self, ty: &TypeExpr, expr: &Accessor) -> (generated: Generated) {
        Generated::OnceType {
            traversal: Traversal::Exclusive,
            lifetime: self.0.clone(),
            item: self.1.clone(),
        }
    }

    fn native_reference(&self) -> (traversal: Traversal) {
        Traversal::Consuming
    }

    fn access_over_ref(&self) -> (allowed: bool) {
        false
    }

    fn access_over_ref_mut(&self) -> (allowed: bool) {
        true
    }
}

} // verus!
