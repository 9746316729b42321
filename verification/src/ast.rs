//! Models of the pieces of a trait declaration that the rewriter inspects.
//!
//! The rewriter never needs a full syntax tree: of each construct it reads a
//! handful of plain facts (identifiers, which variant a node is, whether a
//! segment carries arguments).  The types here hold exactly those facts, so
//! that the rewriting rules can be stated and proved over them.  A thin
//! unverified layer turns a real trait declaration into these models and
//! applies the rewriter's output back to it.
use vstd::prelude::*;

verus! {

/// What the rewriter reads of a path: its last segment's identifier, and
/// whether the path is a single bare identifier (one segment, no leading
/// path separator, no arguments on the segment).
#[derive(Debug, PartialEq, Eq)]
pub struct PathModel {
    /// The path starts with a leading path separator.
    pub leading_colon: bool,
    /// The path has exactly one segment.
    pub single_segment: bool,
    /// The identifier of the last segment.  Paths are never empty.
    pub last_ident: String,
    /// The last segment carries angle-bracketed or parenthesized arguments.
    pub last_args: bool,
}

/// A path that is nothing but the given identifier: one segment, no leading
/// separator, no arguments.
pub open spec fn path_is_ident(p: PathModel, name: Seq<char>) -> bool {
    &&& !p.leading_colon
    &&& p.single_segment
    &&& !p.last_args
    &&& p.last_ident@ == name
}

/// One bound of a bound list, as in `impl Iterator + Send` or a
/// `where` predicate.
#[derive(Debug, PartialEq, Eq)]
pub enum BoundModel {
    /// A trait bound, holding the model of its trait path.
    TraitBoundOf(PathModel),
    /// A lifetime or any other kind of bound.
    OtherBound,
}

/// A trait bound on a trait whose path ends in the identifier `Iterator`.
pub open spec fn is_iterator_bound(b: BoundModel) -> bool {
    b matches BoundModel::TraitBoundOf(p) && p.last_ident@ == "Iterator"@
}

/// A trait bound on the bare identifier `Sized`.
pub open spec fn is_sized_bound(b: BoundModel) -> bool {
    b matches BoundModel::TraitBoundOf(p) && path_is_ident(p, "Sized"@)
}

/// An attribute, by the shape of its meta item.
#[derive(Debug, PartialEq, Eq)]
pub enum AttrModel {
    /// A bare path: `#[name]`.
    PathAttr(PathModel),
    /// A path followed by a delimited group: `#[name(...)]`.  Besides the
    /// path, the model holds the tokens inside the delimiters when they
    /// form a single bare identifier, and nothing otherwise.
    ListAttr { path: PathModel, tokens_ident: Option<String> },
    /// A name-value pair: `#[name = value]`.
    NameValueAttr(PathModel),
}

/// The path of an attribute, whatever its shape.
pub open spec fn attr_path(a: AttrModel) -> PathModel {
    match a {
        AttrModel::PathAttr(p) => p,
        AttrModel::ListAttr { path, .. } => path,
        AttrModel::NameValueAttr(p) => p,
    }
}

/// The shape `#[cfg(test)]`, which exempts a method from duplication: a
/// delimited group whose path is the bare identifier `cfg` and whose
/// tokens are the single identifier `test`.
pub open spec fn is_cfg_test_attr(a: AttrModel) -> bool {
    &&& path_is_ident(attr_path(a), "cfg"@)
    &&& a matches AttrModel::ListAttr { tokens_ident: Some(t), .. }
    &&& t@ == "test"@
}

/// The type a `where` predicate constrains, as far as the rewriter looks.
#[derive(Debug, PartialEq, Eq)]
pub enum BoundedTyModel {
    /// A path type: whether it has a qualified-self prefix, and its path.
    PathBoundedTy { qself: bool, path: PathModel },
    /// Any other kind of type.
    OtherBoundedTy,
}

/// One predicate of a `where` clause.
#[derive(Debug, PartialEq, Eq)]
pub enum WherePredModel {
    /// A type predicate: a bounded type and its bound list.
    TypePred { bounded: BoundedTyModel, bounds: Vec<BoundModel> },
    /// A lifetime predicate or any other kind.
    OtherPred,
}

/// A generic argument inside angle brackets.
#[derive(Debug, PartialEq, Eq)]
pub enum GenArgModel {
    /// A type argument.
    TyArg(Box<TyModel>),
    /// A lifetime, const expression, associated-type binding, or any other
    /// kind of argument.
    OtherArg,
}

/// The arguments of a path's last segment.
#[derive(Debug, PartialEq, Eq)]
pub enum PathArgsModel {
    /// Angle-bracketed arguments, as in `Option<T>`.
    AngledArgs(Vec<GenArgModel>),
    /// No arguments, or parenthesized ones as in `Fn(T) -> U`.
    PlainArgs,
}

/// What the rewriter reads of a return type when it synthesizes a
/// placeholder body.
#[derive(Debug, PartialEq, Eq)]
pub enum TyModel {
    /// An `impl Trait` type, with the models of its bounds.
    ImplTraitTy { bounds: Vec<BoundModel> },
    /// A path type: the identifier of its last segment and that segment's
    /// arguments.
    PathTy { last_ident: String, args: PathArgsModel },
    /// A tuple type, with the models of its element types.
    TupleTy { elems: TyTuple },
    /// Any other kind of type.
    OtherTy,
}

/// The element types of a tuple type, in order.
#[derive(Debug, PartialEq, Eq)]
pub enum TyTuple {
    /// No further elements.
    EmptyTys,
    /// The next element type, followed by the remaining ones.
    ConsTys(Box<TyModel>, Box<TyTuple>),
}

/// The return type of a trait method.
#[derive(Debug, PartialEq, Eq)]
pub enum RetModel {
    /// No `->` at all: the method returns the unit type.
    DefaultRet,
    /// An explicit `-> T`.
    TypedRet(TyModel),
}

/// What the rewriter reads of a method's first input.
#[derive(Debug, PartialEq, Eq)]
pub enum FirstInputModel {
    /// The method has no inputs.
    NoInputs,
    /// The first input is a receiver; `by_reference` tells `&self` or
    /// `&mut self` apart from a by-value `self`.
    ReceiverInput { by_reference: bool },
    /// The first input is an ordinary typed argument.
    TypedInput,
}

/// What the rewriter reads of one trait method.
#[derive(Debug, PartialEq, Eq)]
pub struct MethodModel {
    /// The method's name; every failing leaf of a body synthesized for
    /// the method carries it.
    pub name: String,
    /// The method already has a default body.
    pub has_default: bool,
    /// The method's attributes.
    pub attrs: Vec<AttrModel>,
    /// The method's first input, if any.
    pub first_input: FirstInputModel,
    /// The predicates of the method's `where` clause, in order.
    pub where_preds: Vec<WherePredModel>,
    /// The method's return type.
    pub ret: RetModel,
}

/// One item of a trait declaration.
#[derive(Debug, PartialEq, Eq)]
pub enum TraitItemModel {
    /// A method.
    FnItem(MethodModel),
    /// An associated type, constant, or any other kind of item.
    OtherItem,
}

/// Position `k` holds the first type argument of the list: it is a type
/// argument, and no earlier position is one.
pub open spec fn first_ty_arg_at(args: Seq<GenArgModel>, k: int) -> bool {
    &&& 0 <= k < args.len()
    &&& args[k] is TyArg
    &&& forall|j: int| 0 <= j < k ==> !(args[j] is TyArg)
}

/// The type held by a type argument.
pub open spec fn arg_ty(g: GenArgModel) -> TyModel
    recommends
        g is TyArg,
{
    match g {
        GenArgModel::TyArg(t) => *t,
        GenArgModel::OtherArg => TyModel::OtherTy,
    }
}

/// The inputs on which placeholder synthesis is defined.  Angle-bracketed
/// argument lists that hold no type argument are left out: on those the
/// synthesizer has nothing to recurse into, and the rewriter rejects the
/// whole trait instead.
pub open spec fn wf_ty(ty: TyModel) -> bool
    decreases ty,
{
    match ty {
        TyModel::ImplTraitTy { .. } => true,
        TyModel::PathTy { last_ident, args } => match args {
            PathArgsModel::AngledArgs(gargs) => {
                &&& (exists|k: int| first_ty_arg_at(gargs@, k))
                &&& (forall|k: int| first_ty_arg_at(gargs@, k) ==> wf_ty(arg_ty(gargs@[k])))
            },
            PathArgsModel::PlainArgs => true,
        },
        TyModel::TupleTy { elems } => wf_tys(elems),
        TyModel::OtherTy => true,
    }
}

/// Whether synthesis is defined on every element type of a tuple.
pub open spec fn wf_tys(tys: TyTuple) -> bool
    decreases tys,
{
    match tys {
        TyTuple::EmptyTys => true,
        TyTuple::ConsTys(hd, tl) => wf_ty(*hd) && wf_tys(*tl),
    }
}

/// Whether the string holds exactly the characters of the slice.
pub fn str_eq(s: &String, t: &str) -> (r: bool)
    ensures
        r == (s@ == t@),
{
    let u: String = t.to_owned();
    *s == u
}

/// Whether `p` is nothing but the identifier `name`.
pub fn check_path_is_ident(p: &PathModel, name: &str) -> (r: bool)
    ensures
        r == path_is_ident(*p, name@),
{
    !p.leading_colon && p.single_segment && !p.last_args && str_eq(&p.last_ident, name)
}

/// Whether `a` is the attribute shape `#[cfg(test)]` that exempts a
/// method from duplication.
pub fn check_is_cfg_test_attr(a: &AttrModel) -> (r: bool)
    ensures
        r == is_cfg_test_attr(*a),
{
    let path = match a {
        AttrModel::PathAttr(p) => p,
        AttrModel::ListAttr { path, .. } => path,
        AttrModel::NameValueAttr(p) => p,
    };
    if !check_path_is_ident(path, "cfg") {
        return false;
    }
    match a {
        AttrModel::ListAttr { tokens_ident: Some(t), .. } => str_eq(t, "test"),
        _ => false,
    }
}

} // verus!
