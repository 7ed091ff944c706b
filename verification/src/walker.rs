//! The walker: the recursive traversal of one type expression for one
//! capability and one target.
//!
//! The positions of a type expression are numbered as follows. The element
//! of an array, the type inside a group and the referent of a reference are
//! position 0. The elements of a tuple, the entries of an argument list and
//! the inputs of a call signature are numbered from 0 in the order in which
//! they are written; an entry that is no type keeps its number. The output
//! of a call signature follows its inputs. The bounds of a bound list are
//! numbered from 0, and below a bound its arguments as for a leaf or a
//! signature. A refusal carries the positions that lead to the expression
//! that caused it.
use crate::catalog::Emitter;
use crate::generated::{
    Accessor, AccessorModel, ClassificationError, ErrorKind, ErrorModel, Generated, GeneratedModel,
    Outcome, OutcomeModel, outcome_model,
};
use crate::types::{
    ArgumentModel, GenericArgument, TypeExpr, TypeModel, argument_models, type_models,
};
use vstd::prelude::*;

verus! {

/// What a derivation is made for: a capability, the namespace of the helper
/// operations, and the target.
pub struct EmitContext<K> {
    pub kind: K,
    pub krate: String,
    pub replacing_ty: TypeExpr,
}

/// Mathematical model of [`EmitContext`].
pub struct Derivation<K> {
    pub kind: K,
    pub namespace: Seq<char>,
    pub target: TypeModel,
}

impl<K> View for EmitContext<K> {
    type V = Derivation<K>;

    open spec fn view(&self) -> Derivation<K> {
        Derivation { kind: self.kind, namespace: self.krate@, target: self.replacing_ty@ }
    }
}

/// The outcome that holds an expression.
pub open spec fn yields(generated: GeneratedModel) -> OutcomeModel {
    Ok(Some(generated))
}

/// The outcome of a walk that met no occurrence.
pub open spec fn yields_nothing() -> OutcomeModel {
    Ok(None)
}

/// The outcome of a walk that met no refusal.
pub open spec fn passes(found: Option<GeneratedModel>) -> OutcomeModel {
    Ok(found)
}

/// The outcome of a search that met no refusal.
pub open spec fn sees(seen: bool) -> Result<bool, ErrorModel> {
    Ok(seen)
}

/// The outcome that is a refusal.
pub open spec fn refuses(error: ErrorModel) -> OutcomeModel {
    Err(error)
}

/// A refusal raised at the expression that is being visited.
pub open spec fn raised(kind: ErrorKind) -> ErrorModel {
    ErrorModel { kind, position: Seq::empty() }
}

/// A refusal raised below the child at `index`, as seen from the parent.
pub open spec fn below(index: nat, error: ErrorModel) -> ErrorModel {
    ErrorModel { kind: error.kind, position: seq![index as usize] + error.position }
}

/// The outcome of a child at `index`, as seen from the parent.
pub open spec fn lifted(index: nat, outcome: OutcomeModel) -> OutcomeModel {
    match outcome {
        Ok(found) => Ok(found),
        Err(error) => Err(below(index, error)),
    }
}

/// One step of looking for an occurrence without building an expression:
/// `seen` says whether one was found before, `outcome` is what the child at
/// `index` gave.
pub open spec fn noticed(index: nat, seen: bool, outcome: OutcomeModel) -> Result<bool, ErrorModel> {
    match outcome {
        Ok(found) => Ok(seen || found is Some),
        Err(error) => Err(below(index, error)),
    }
}

/// The model of what a search found.
pub open spec fn found_model(found: Option<Generated>) -> Option<GeneratedModel> {
    match found {
        Some(generated) => Some(generated@),
        None => None,
    }
}

/// The models of a list of fields, each a type with the accessor that reads
/// it.
pub open spec fn field_models(fields: Seq<(TypeExpr, Accessor)>) -> Seq<(TypeModel, AccessorModel)> {
    Seq::new(fields.len(), |i: int| (fields[i].0@, fields[i].1@))
}

impl<K> Derivation<K> {
    /// The derivation of one capability for one target.
    pub open spec fn new(kind: K, namespace: Seq<char>, target: TypeModel) -> Derivation<K> {
        Derivation { kind, namespace, target }
    }
}

impl<K: Emitter> Derivation<K> {
    /// Whether the capability may cross a reference of the given kind.
    pub open spec fn may_cross(self, exclusive: bool) -> bool {
        if exclusive {
            self.kind.descends_exclusive()
        } else {
            self.kind.descends_shared()
        }
    }

    /// The pure check: the leaf value where the type is the target, or is
    /// the target behind references that the capability may cross, each of
    /// them adding one dereference step to the accessor.
    pub open spec fn pure(self, ty: TypeModel, accessor: AccessorModel) -> Option<GeneratedModel>
        decreases ty,
    {
        if ty == self.target {
            Some(self.kind.leaf_value(accessor))
        } else {
            match ty {
                TypeModel::Reference { exclusive, lifetime, referent } => {
                    if self.may_cross(exclusive) {
                        self.pure(*referent, AccessorModel::Deref(Box::new(accessor)))
                    } else {
                        None
                    }
                },
                _ => None,
            }
        }
    }

    /// The result so far joined with one more: a result that is absent is
    /// passed over, a single one is kept as it is, two are folded.
    pub open spec fn joined(self, acc: Option<GeneratedModel>, item: GeneratedModel) -> GeneratedModel {
        match acc {
            Some(before) => self.kind.folded(before, item),
            None => item,
        }
    }

    /// One position of a container added to the result so far: `outcome` is
    /// what the walk of the position's type gave.
    pub open spec fn merged(
        self,
        container: TypeModel,
        index: nat,
        element: TypeModel,
        accessor: AccessorModel,
        acc: Option<GeneratedModel>,
        outcome: OutcomeModel,
    ) -> OutcomeModel {
        match outcome {
            Ok(Some(inner)) => Ok(
                Some(
                    self.joined(
                        acc,
                        self.kind.nested(self.namespace, container, index, element, accessor, inner),
                    ),
                ),
            ),
            Ok(None) => Ok(acc),
            Err(error) => Err(below(index, error)),
        }
    }

    /// What the walk yields for one type expression read through one
    /// accessor.
    ///
    /// The pure check comes first. Else the shape decides. An array
    /// contributes its one position. A group and a reference yield what the
    /// type inside them yields, read through the same accessor; a reference
    /// that the capability may not cross is refused if the target was found
    /// behind it, and only then. A leaf and a tuple combine their positions
    /// from left to right. A call signature is refused if the target occurs
    /// among its inputs, and a bound list if it occurs among the arguments
    /// of its bounds; either yields nothing otherwise. The uninhabited type
    /// yields nothing, and any other shape is refused. A refusal below ends
    /// the walk.
    pub open spec fn walk(self, ty: TypeModel, accessor: AccessorModel) -> OutcomeModel
        decreases ty, 0nat,
    {
        match self.pure(ty, accessor) {
            Some(generated) => Ok(Some(generated)),
            None => match ty {
                TypeModel::Array { element, arity } => self.merged(
                    ty,
                    0,
                    *element,
                    accessor,
                    None,
                    self.walk(*element, AccessorModel::Element),
                ),
                TypeModel::Group { inner } => lifted(0, self.walk(*inner, accessor)),
                TypeModel::Leaf { name, arguments } => self.combine_arguments(
                    ty,
                    arguments,
                    0,
                    None,
                    accessor,
                ),
                TypeModel::Signature { name, inputs, output } => match self.scan_types(
                    inputs,
                    0,
                    false,
                ) {
                    Ok(true) => Err(raised(ErrorKind::AmbiguousClosureParametrization)),
                    Ok(false) => Ok(None),
                    Err(error) => Err(error),
                },
                TypeModel::Reference { exclusive, lifetime, referent } => match self.walk(
                    *referent,
                    accessor,
                ) {
                    Ok(Some(generated)) => if self.may_cross(exclusive) {
                        Ok(Some(generated))
                    } else {
                        Err(raised(ErrorKind::CannotDescendReference))
                    },
                    Ok(None) => Ok(None),
                    Err(error) => Err(below(0, error)),
                },
                TypeModel::Tuple { elements } => self.combine_types(ty, elements, 0, None, accessor),
                TypeModel::Never => Ok(None),
                TypeModel::BoundList { bounds } => match self.scan_bounds(bounds, 0, false) {
                    Ok(true) => Err(raised(ErrorKind::UnsupportedBoundParametrization)),
                    Ok(false) => Ok(None),
                    Err(error) => Err(error),
                },
                TypeModel::Unsupported { text } => Err(raised(ErrorKind::UnsupportedTypeShape)),
            },
        }
    }

    /// The positions `from..` of a list of types, left to right, added to
    /// the result so far. The first refusal ends the walk.
    pub open spec fn combine_types(
        self,
        container: TypeModel,
        types: Seq<TypeModel>,
        from: nat,
        acc: Option<GeneratedModel>,
        accessor: AccessorModel,
    ) -> OutcomeModel
        decreases types, types.len() - from,
    {
        if from >= types.len() {
            Ok(acc)
        } else {
            match self.merged(
                container,
                from,
                types[from as int],
                accessor,
                acc,
                self.walk(types[from as int], AccessorModel::Element),
            ) {
                Ok(next) => self.combine_types(container, types, from + 1, next, accessor),
                Err(error) => Err(error),
            }
        }
    }

    /// The positions `from..` of an argument list, left to right, added to
    /// the result so far. Arguments that are no types keep their position
    /// and are passed over.
    pub open spec fn combine_arguments(
        self,
        container: TypeModel,
        arguments: Seq<ArgumentModel>,
        from: nat,
        acc: Option<GeneratedModel>,
        accessor: AccessorModel,
    ) -> OutcomeModel
        decreases arguments, arguments.len() - from,
    {
        if from >= arguments.len() {
            Ok(acc)
        } else {
            match arguments[from as int] {
                ArgumentModel::Type(ty) => match self.merged(
                    container,
                    from,
                    ty,
                    accessor,
                    acc,
                    self.walk(ty, AccessorModel::Element),
                ) {
                    Ok(next) => self.combine_arguments(container, arguments, from + 1, next, accessor),
                    Err(error) => Err(error),
                },
                ArgumentModel::Other(text) => self.combine_arguments(
                    container,
                    arguments,
                    from + 1,
                    acc,
                    accessor,
                ),
            }
        }
    }

    /// Whether the target occurs in the positions `from..` of a list of
    /// types, or was seen before; the first refusal ends the search.
    pub open spec fn scan_types(self, types: Seq<TypeModel>, from: nat, seen: bool) -> Result<
        bool,
        ErrorModel,
    >
        decreases types, types.len() - from,
    {
        if from >= types.len() {
            Ok(seen)
        } else {
            match noticed(from, seen, self.walk(types[from as int], AccessorModel::Element)) {
                Ok(next) => self.scan_types(types, from + 1, next),
                Err(error) => Err(error),
            }
        }
    }

    /// Whether the target occurs in the positions `from..` of an argument
    /// list, or was seen before.
    pub open spec fn scan_arguments(
        self,
        arguments: Seq<ArgumentModel>,
        from: nat,
        seen: bool,
    ) -> Result<bool, ErrorModel>
        decreases arguments, arguments.len() - from,
    {
        if from >= arguments.len() {
            Ok(seen)
        } else {
            match arguments[from as int] {
                ArgumentModel::Type(ty) => match noticed(
                    from,
                    seen,
                    self.walk(ty, AccessorModel::Element),
                ) {
                    Ok(next) => self.scan_arguments(arguments, from + 1, next),
                    Err(error) => Err(error),
                },
                ArgumentModel::Other(text) => self.scan_arguments(arguments, from + 1, seen),
            }
        }
    }

    /// Whether the target occurs among the arguments of one bound: the
    /// type-valued arguments of a leaf; the inputs of a signature and then
    /// its output.
    pub open spec fn scan_bound(self, bound: TypeModel) -> Result<bool, ErrorModel>
        decreases bound, 0nat,
    {
        match bound {
            TypeModel::Leaf { name, arguments } => self.scan_arguments(arguments, 0, false),
            TypeModel::Signature { name, inputs, output } => match self.scan_types(inputs, 0, false) {
                Ok(seen) => match output {
                    Some(ty) => noticed(inputs.len(), seen, self.walk(*ty, AccessorModel::Element)),
                    None => Ok(seen),
                },
                Err(error) => Err(error),
            },
            _ => Ok(false),
        }
    }

    /// Whether the target occurs among the arguments of the bounds `from..`,
    /// or was seen before.
    pub open spec fn scan_bounds(self, bounds: Seq<TypeModel>, from: nat, seen: bool) -> Result<
        bool,
        ErrorModel,
    >
        decreases bounds, bounds.len() - from,
    {
        if from >= bounds.len() {
            Ok(seen)
        } else {
            match self.scan_bound(bounds[from as int]) {
                Ok(found) => self.scan_bounds(bounds, from + 1, seen || found),
                Err(error) => Err(below(from, error)),
            }
        }
    }

    /// The fields `from..` of a shape, left to right, added to the result so
    /// far: each field is walked with its own accessor, and what it yields
    /// is joined as it is.
    pub open spec fn combine_fields(
        self,
        fields: Seq<(TypeModel, AccessorModel)>,
        from: nat,
        acc: Option<GeneratedModel>,
    ) -> OutcomeModel
        decreases fields.len() - from,
    {
        if from >= fields.len() {
            Ok(acc)
        } else {
            match self.walk(fields[from as int].0, fields[from as int].1) {
                Ok(Some(item)) => self.combine_fields(fields, from + 1, Some(self.joined(acc, item))),
                Ok(None) => self.combine_fields(fields, from + 1, acc),
                Err(error) => Err(below(from, error)),
            }
        }
    }
}

/// The model of what a search for an occurrence gave.
pub open spec fn seen_model(seen: Result<bool, ClassificationError>) -> Result<bool, ErrorModel> {
    match seen {
        Ok(found) => Ok(found),
        Err(error) => Err(error@),
    }
}

/// A refusal raised at the expression that is being visited.
pub(crate) fn raise(kind: ErrorKind) -> (error: ClassificationError)
    ensures
        error@ == raised(kind),
{
    ClassificationError { kind, position: Vec::new() }
}

/// The refusal of the child at `index`, as seen from the parent.
pub(crate) fn relocate(index: usize, error: ClassificationError) -> (moved: ClassificationError)
    ensures
        moved@ == below(index as nat, error@),
{
    let ClassificationError { kind, mut position } = error;
    position.insert(0, index);
    assert(position@ =~= seq![index] + error.position@);
    ClassificationError { kind, position }
}

impl<K: Emitter> EmitContext<K> {
    /// Whether the capability may cross a reference of the given kind.
    fn may_cross(&self, exclusive: bool) -> (allowed: bool)
        ensures
            allowed == self@.may_cross(exclusive),
    {
        if exclusive {
            self.kind.access_over_ref_mut()
        } else {
            self.kind.access_over_ref()
        }
    }

    /// The pure check: the leaf value, if the type is the target or is the
    /// target behind references that the capability may cross.
    fn check_pure_and_emit(&self, ty: &TypeExpr, expr: &Accessor) -> (found: Option<Generated>)
        ensures
            found_model(found) == self@.pure(ty@, expr@),
        decreases ty,
    {
        if self.replacing_ty.same(ty) {
            Some(self.kind.emit_pure(ty, expr))
        } else {
            match ty {
                TypeExpr::Reference { exclusive, lifetime, referent } => {
                    if self.may_cross(*exclusive) {
                        let inner = Accessor::Deref(Box::new(expr.clone()));
                        self.check_pure_and_emit(referent, &inner)
                    } else {
                        None
                    }
                },
                _ => None,
            }
        }
    }

    /// The result so far joined with one more.
    fn join(&self, acc: Option<Generated>, item: Generated) -> (generated: Generated)
        ensures
            generated@ == self@.joined(found_model(acc), item@),
    {
        match acc {
            Some(before) => self.kind.fold(before, item),
            None => item,
        }
    }

    /// Walks one type expression read through one accessor: yields the
    /// expression that aggregates over every occurrence of the target in it,
    /// nothing where the target does not occur, or the first refusal in
    /// traversal order.
    pub fn emit(&self, ty: &TypeExpr, expr: &Accessor) -> (outcome: Outcome)
        ensures
            outcome_model(outcome) == self@.walk(ty@, expr@),
        decreases ty, 0nat,
    {
        if let Some(generated) = self.check_pure_and_emit(ty, expr) {
            return Ok(Some(generated));
        }
        match ty {
            TypeExpr::Array { element, arity } => self.emit_position(ty, 0, element, expr, None),
            TypeExpr::Group { inner } => match self.emit(inner, expr) {
                Ok(found) => Ok(found),
                Err(error) => Err(relocate(0, error)),
            },
            TypeExpr::Leaf { name, arguments } => self.emit_with_arguments(ty, arguments, expr),
            TypeExpr::Signature { name, inputs, output } => match self.scan_tys(inputs) {
                Ok(true) => Err(raise(ErrorKind::AmbiguousClosureParametrization)),
                Ok(false) => Ok(None),
                Err(error) => Err(error),
            },
            TypeExpr::Reference { exclusive, lifetime, referent } => match self.emit(referent, expr) {
                Ok(Some(generated)) => if self.may_cross(*exclusive) {
                    Ok(Some(generated))
                } else {
                    Err(raise(ErrorKind::CannotDescendReference))
                },
                Ok(None) => Ok(None),
                Err(error) => Err(relocate(0, error)),
            },
            TypeExpr::Tuple { elements } => self.emit_with_tys(ty, elements, expr),
            TypeExpr::Never => Ok(None),
            TypeExpr::BoundList { bounds } => match self.scan_bounds(bounds) {
                Ok(true) => Err(raise(ErrorKind::UnsupportedBoundParametrization)),
                Ok(false) => Ok(None),
                Err(error) => Err(error),
            },
            TypeExpr::Unsupported { text } => Err(raise(ErrorKind::UnsupportedTypeShape)),
        }
    }

    /// Walks the type at one position of a container and adds what it
    /// contributes to the result so far.
    fn emit_position(
        &self,
        base_ty: &TypeExpr,
        index: usize,
        ty: &TypeExpr,
        expr: &Accessor,
        acc: Option<Generated>,
    ) -> (outcome: Outcome)
        ensures
            outcome_model(outcome) == self@.merged(
                base_ty@,
                index as nat,
                ty@,
                expr@,
                found_model(acc),
                self@.walk(ty@, AccessorModel::Element),
            ),
        decreases ty, 1nat,
    {
        match self.emit(ty, &Accessor::Element) {
            Ok(Some(inner)) => {
                let item = self.kind.item(&self.krate, base_ty, index, ty, expr, inner);
                Ok(Some(self.join(acc, item)))
            },
            Ok(None) => Ok(acc),
            Err(error) => Err(relocate(index, error)),
        }
    }

    /// Walks the positions of a list of types, left to right.
    fn emit_with_tys(&self, base_ty: &TypeExpr, tys: &Vec<TypeExpr>, expr: &Accessor) -> (outcome:
        Outcome)
        ensures
            outcome_model(outcome) == self@.combine_types(
                base_ty@,
                type_models(tys@),
                0,
                None,
                expr@,
            ),
        decreases tys,
    {
        let mut acc: Option<Generated> = None;
        let mut i: usize = 0;
        while i < tys.len()
            invariant
                i <= tys.len(),
                self@.combine_types(base_ty@, type_models(tys@), 0, None, expr@)
                    == self@.combine_types(
                    base_ty@,
                    type_models(tys@),
                    i as nat,
                    found_model(acc),
                    expr@,
                ),
            decreases tys.len() - i,
        {
            match self.emit_position(base_ty, i, &tys[i], expr, acc) {
                Ok(next) => {
                    acc = next;
                },
                Err(error) => {
                    return Err(error);
                },
            }
            i += 1;
        }
        Ok(acc)
    }

    /// Walks the type-valued positions of an argument list, left to right.
    fn emit_with_arguments(
        &self,
        base_ty: &TypeExpr,
        arguments: &Vec<GenericArgument>,
        expr: &Accessor,
    ) -> (outcome: Outcome)
        ensures
            outcome_model(outcome) == self@.combine_arguments(
                base_ty@,
                argument_models(arguments@),
                0,
                None,
                expr@,
            ),
        decreases arguments,
    {
        let mut acc: Option<Generated> = None;
        let mut i: usize = 0;
        while i < arguments.len()
            invariant
                i <= arguments.len(),
                self@.combine_arguments(base_ty@, argument_models(arguments@), 0, None, expr@)
                    == self@.combine_arguments(
                    base_ty@,
                    argument_models(arguments@),
                    i as nat,
                    found_model(acc),
                    expr@,
                ),
            decreases arguments.len() - i,
        {
            match &arguments[i] {
                GenericArgument::Type(ty) => {
                    match self.emit_position(base_ty, i, ty, expr, acc) {
                        Ok(next) => {
                            acc = next;
                        },
                        Err(error) => {
                            return Err(error);
                        },
                    }
                },
                GenericArgument::Other(text) => {},
            }
            i += 1;
        }
        Ok(acc)
    }

    /// Looks at the type at one position for an occurrence.
    fn notice(&self, index: usize, ty: &TypeExpr, seen: bool) -> (next: Result<
        bool,
        ClassificationError,
    >)
        ensures
            seen_model(next) == noticed(
                index as nat,
                seen,
                self@.walk(ty@, AccessorModel::Element),
            ),
        decreases ty, 1nat,
    {
        match self.emit(ty, &Accessor::Element) {
            Ok(found) => Ok(seen || found.is_some()),
            Err(error) => Err(relocate(index, error)),
        }
    }

    /// Looks through a list of types for an occurrence.
    fn scan_tys(&self, tys: &Vec<TypeExpr>) -> (seen: Result<bool, ClassificationError>)
        ensures
            seen_model(seen) == self@.scan_types(type_models(tys@), 0, false),
        decreases tys,
    {
        let mut seen = false;
        let mut i: usize = 0;
        while i < tys.len()
            invariant
                i <= tys.len(),
                self@.scan_types(type_models(tys@), 0, false) == self@.scan_types(
                    type_models(tys@),
                    i as nat,
                    seen,
                ),
            decreases tys.len() - i,
        {
            match self.notice(i, &tys[i], seen) {
                Ok(next) => {
                    seen = next;
                },
                Err(error) => {
                    return Err(error);
                },
            }
            i += 1;
        }
        Ok(seen)
    }

    /// Looks through the type-valued entries of an argument list for an
    /// occurrence.
    fn scan_arguments(&self, arguments: &Vec<GenericArgument>) -> (seen: Result<
        bool,
        ClassificationError,
    >)
        ensures
            seen_model(seen) == self@.scan_arguments(argument_models(arguments@), 0, false),
        decreases arguments,
    {
        let mut seen = false;
        let mut i: usize = 0;
        while i < arguments.len()
            invariant
                i <= arguments.len(),
                self@.scan_arguments(argument_models(arguments@), 0, false)
                    == self@.scan_arguments(argument_models(arguments@), i as nat, seen),
            decreases arguments.len() - i,
        {
            match &arguments[i] {
                GenericArgument::Type(ty) => {
                    match self.notice(i, ty, seen) {
                        Ok(next) => {
                            seen = next;
                        },
                        Err(error) => {
                            return Err(error);
                        },
                    }
                },
                GenericArgument::Other(text) => {},
            }
            i += 1;
        }
        Ok(seen)
    }

    /// Looks through the arguments of one bound for an occurrence.
    fn scan_bound(&self, bound: &TypeExpr) -> (seen: Result<bool, ClassificationError>)
        ensures
            seen_model(seen) == self@.scan_bound(bound@),
        decreases bound, 0nat,
    {
        match bound {
            TypeExpr::Leaf { name, arguments } => self.scan_arguments(arguments),
            TypeExpr::Signature { name, inputs, output } => match self.scan_tys(inputs) {
                Ok(seen) => match output {
                    Some(ty) => self.notice(inputs.len(), ty, seen),
                    None => Ok(seen),
                },
                Err(error) => Err(error),
            },
            _ => Ok(false),
        }
    }

    /// Looks through the arguments of every bound for an occurrence.
    fn scan_bounds(&self, bounds: &Vec<TypeExpr>) -> (seen: Result<bool, ClassificationError>)
        ensures
            seen_model(seen) == self@.scan_bounds(type_models(bounds@), 0, false),
        decreases bounds,
    {
        let mut seen = false;
        let mut i: usize = 0;
        while i < bounds.len()
            invariant
                i <= bounds.len(),
                self@.scan_bounds(type_models(bounds@), 0, false) == self@.scan_bounds(
                    type_models(bounds@),
                    i as nat,
                    seen,
                ),
            decreases bounds.len() - i,
        {
            match self.scan_bound(&bounds[i]) {
                Ok(found) => {
                    seen = seen || found;
                },
                Err(error) => {
                    return Err(relocate(i, error));
                },
            }
            i += 1;
        }
        Ok(seen)
    }

    /// Walks every field of a shape with its own accessor and folds what
    /// the fields yield, left to right: nothing where no field holds the
    /// target, the single result as it is where one does.
    pub fn emit_for_tys_exprs(&self, tys_exprs: &Vec<(TypeExpr, Accessor)>) -> (outcome: Outcome)
        ensures
            outcome_model(outcome) == self@.combine_fields(field_models(tys_exprs@), 0, None),
    {
        let mut acc: Option<Generated> = None;
        let mut i: usize = 0;
        while i < tys_exprs.len()
            invariant
                i <= tys_exprs.len(),
                self@.combine_fields(field_models(tys_exprs@), 0, None) == self@.combine_fields(
                    field_models(tys_exprs@),
                    i as nat,
                    found_model(acc),
                ),
            decreases tys_exprs.len() - i,
        {
            match self.emit(&tys_exprs[i].0, &tys_exprs[i].1) {
                Ok(Some(item)) => {
                    acc = Some(self.join(acc, item));
                },
                Ok(None) => {},
                Err(error) => {
                    return Err(relocate(i, error));
                },
            }
            i += 1;
        }
        Ok(acc)
    }
}

} // verus!
