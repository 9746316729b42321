//! Synthesis of a placeholder expression from a method's return type.
//!
//! A bodiless method duplicated into its test-only variant receives a body
//! that fails with the method's name.  A bare failing expression does not
//! satisfy type inference for every return type, so the synthesizer walks
//! the return type and wraps the failing expression in just enough
//! structure: an empty-iterator cast for `impl Iterator` bounds, the
//! evident constructor for `Box`, `Option` and `Result`, and a tuple of
//! placeholders for a tuple.  Every failing leaf carries the method's
//! name, so that whatever path a caller takes through the placeholder,
//! the failure reports which method was left unimplemented.
use vstd::prelude::*;

use crate::ast::BoundModel;
use crate::ast::GenArgModel;
use crate::ast::PathArgsModel;
use crate::ast::TyModel;
use crate::ast::TyTuple;
use crate::ast::arg_ty;
use crate::ast::first_ty_arg_at;
use crate::ast::is_iterator_bound;
use crate::ast::str_eq;
use crate::ast::wf_ty;
use crate::ast::wf_tys;

verus! {

/// A synthesized placeholder body.  Every `Fail` leaf is a failing
/// expression that reports the method name it holds; the other variants
/// wrap placeholders in constructors that type inference accepts.
#[derive(Debug, PartialEq, Eq)]
pub enum StubExpr {
    /// A bare failing expression reporting the held method name.
    FailExpr(String),
    /// A failing expression reporting the held method name, cast to an
    /// empty iterator.
    FailAsEmptyIter(String),
    /// A placeholder wrapped in a box allocation.
    BoxNewExpr(Box<StubExpr>),
    /// A placeholder wrapped in the present variant of an optional value.
    SomeExpr(Box<StubExpr>),
    /// A placeholder wrapped in the success variant of a fallible value.
    OkExpr(Box<StubExpr>),
    /// A tuple of placeholders, one per element type.
    TupleExpr(StubTuple),
}

/// The elements of a tuple placeholder, in order.
#[derive(Debug, PartialEq, Eq)]
pub enum StubTuple {
    /// No further elements.
    EmptyStubs,
    /// The next element, followed by the remaining ones.
    ConsStubs(Box<StubExpr>, Box<StubTuple>),
}

/// The synthesis relation: `e` is the placeholder expression for the
/// return type `ty` of a method named `name`.
///
/// An `impl Trait` type with an `Iterator` bound takes the empty-iterator
/// cast; a path type `Box<..>`, `Option<..>` or `Result<..>` wraps the
/// placeholder of its first type argument in the matching constructor,
/// while any other path type with angle-bracketed arguments falls back to
/// a bare failure; a non-empty tuple pairs its element types with
/// placeholder elements one by one; the empty tuple, the unit type, takes
/// the bare failure, since a placeholder that is the silent value `()`
/// could never fail; everything else is a bare failure.  Every failing
/// leaf carries `name`.  On an angle-bracketed argument list without a
/// type argument the relation leaves `e` unconstrained: synthesis is not
/// defined there, and [`wf_ty`] rules those types out.
pub open spec fn is_stub_for(ty: TyModel, name: String, e: StubExpr) -> bool
    decreases ty,
{
    match ty {
        TyModel::ImplTraitTy { bounds } => {
            if exists|i: int| 0 <= i < bounds@.len() && is_iterator_bound(#[trigger] bounds@[i]) {
                e == StubExpr::FailAsEmptyIter(name)
            } else {
                e == StubExpr::FailExpr(name)
            }
        },
        TyModel::PathTy { last_ident, args } => match args {
            PathArgsModel::AngledArgs(gargs) => {
                forall|k: int| #[trigger] first_ty_arg_at(gargs@, k) ==> {
                    if last_ident@ == "Box"@ {
                        e matches StubExpr::BoxNewExpr(s) && is_stub_for(arg_ty(gargs@[k]), name, *s)
                    } else if last_ident@ == "Option"@ {
                        e matches StubExpr::SomeExpr(s) && is_stub_for(arg_ty(gargs@[k]), name, *s)
                    } else if last_ident@ == "Result"@ {
                        e matches StubExpr::OkExpr(s) && is_stub_for(arg_ty(gargs@[k]), name, *s)
                    } else {
                        e == StubExpr::FailExpr(name)
                    }
                }
            },
            PathArgsModel::PlainArgs => e == StubExpr::FailExpr(name),
        },
        TyModel::TupleTy { elems } => match elems {
            TyTuple::EmptyTys => e == StubExpr::FailExpr(name),
            TyTuple::ConsTys(..) => e matches StubExpr::TupleExpr(es) && are_stubs_for(
                elems,
                name,
                es,
            ),
        },
        TyModel::OtherTy => e == StubExpr::FailExpr(name),
    }
}

/// The elementwise synthesis relation between the element types of a
/// tuple and the elements of its placeholder.
pub open spec fn are_stubs_for(tys: TyTuple, name: String, es: StubTuple) -> bool
    decreases tys,
{
    match tys {
        TyTuple::EmptyTys => es == StubTuple::EmptyStubs,
        TyTuple::ConsTys(hd, tl) => {
            &&& es matches StubTuple::ConsStubs(e, rest)
            &&& is_stub_for(*hd, name, *e)
            &&& are_stubs_for(*tl, name, *rest)
        },
    }
}

/// On a return type that admits synthesis, the relation [`is_stub_for`]
/// determines the placeholder expression completely: any two expressions
/// it relates to the same type are equal.
pub proof fn lemma_stub_for_unique(ty: TyModel, name: String, e1: StubExpr, e2: StubExpr)
    requires
        wf_ty(ty),
        is_stub_for(ty, name, e1),
        is_stub_for(ty, name, e2),
    ensures
        e1 == e2,
    decreases ty,
{
    match ty {
        TyModel::ImplTraitTy { .. } => {},
        TyModel::PathTy { last_ident, args } => match args {
            PathArgsModel::AngledArgs(gargs) => {
                let k = choose|k: int| first_ty_arg_at(gargs@, k);
                if last_ident@ == "Box"@ {
                    let s1 = e1->BoxNewExpr_0;
                    let s2 = e2->BoxNewExpr_0;
                    lemma_stub_for_unique(arg_ty(gargs@[k]), name, *s1, *s2);
                } else if last_ident@ == "Option"@ {
                    let s1 = e1->SomeExpr_0;
                    let s2 = e2->SomeExpr_0;
                    lemma_stub_for_unique(arg_ty(gargs@[k]), name, *s1, *s2);
                } else if last_ident@ == "Result"@ {
                    let s1 = e1->OkExpr_0;
                    let s2 = e2->OkExpr_0;
                    lemma_stub_for_unique(arg_ty(gargs@[k]), name, *s1, *s2);
                }
            },
            PathArgsModel::PlainArgs => {},
        },
        TyModel::TupleTy { elems } => match elems {
            TyTuple::EmptyTys => {},
            TyTuple::ConsTys(..) => {
                lemma_stubs_for_unique(elems, name, e1->TupleExpr_0, e2->TupleExpr_0);
            },
        },
        TyModel::OtherTy => {},
    }
}

/// Elementwise form of [`lemma_stub_for_unique`], for the element lists
/// of a tuple placeholder.
pub proof fn lemma_stubs_for_unique(tys: TyTuple, name: String, es1: StubTuple, es2: StubTuple)
    requires
        wf_tys(tys),
        are_stubs_for(tys, name, es1),
        are_stubs_for(tys, name, es2),
    ensures
        es1 == es2,
    decreases tys,
{
    match tys {
        TyTuple::EmptyTys => {},
        TyTuple::ConsTys(hd, tl) => {
            lemma_stub_for_unique(*hd, name, *es1->ConsStubs_0, *es2->ConsStubs_0);
            lemma_stubs_for_unique(*tl, name, *es1->ConsStubs_1, *es2->ConsStubs_1);
        },
    }
}

/// Whether `b` is a trait bound whose path ends in `Iterator`.
pub fn check_is_iterator_bound(b: &BoundModel) -> (r: bool)
    ensures
        r == is_iterator_bound(*b),
{
    match b {
        BoundModel::TraitBoundOf(p) => str_eq(&p.last_ident, "Iterator"),
        BoundModel::OtherBound => false,
    }
}

/// The first type argument of an angle-bracketed argument list, skipping
/// lifetimes and every other kind of argument, or nothing when the list
/// holds no type argument.
pub fn first_ty_arg(gargs: &Vec<GenArgModel>) -> (r: Option<&TyModel>)
    ensures
        match r {
            Some(t) => exists|k: int| #[trigger] first_ty_arg_at(gargs@, k) && arg_ty(gargs@[k]) == *t,
            None => forall|k: int| !first_ty_arg_at(gargs@, k),
        },
{
    let n = gargs.len();
    let mut k: usize = 0;
    while k < n
        invariant
            n == gargs@.len(),
            k <= n,
            forall|j: int| 0 <= j < k ==> !((#[trigger] gargs@[j]) is TyArg),
        decreases n - k,
    {
        match &gargs[k] {
            GenArgModel::TyArg(t) => {
                proof {
                    assert(first_ty_arg_at(gargs@, k as int));
                }
                return Some(&**t);
            },
            GenArgModel::OtherArg => {
                k = k + 1;
            },
        }
    }
    None
}

/// Synthesize the placeholder expression for the return type `ty` of a
/// method named `name`.
#[verifier::loop_isolation(false)]
pub fn stub_expr_for_ty(ty: &TyModel, name: &String) -> (r: StubExpr)
    requires
        wf_ty(*ty),
    ensures
        is_stub_for(*ty, *name, r),
    decreases *ty,
{
    match ty {
        TyModel::ImplTraitTy { bounds } => {
            let n = bounds.len();
            let mut i: usize = 0;
            let mut found = false;
            while i < n
                invariant
                    i <= n,
                    found == exists|j: int| 0 <= j < i && is_iterator_bound(#[trigger] bounds@[j]),
                decreases n - i,
            {
                if check_is_iterator_bound(&bounds[i]) {
                    found = true;
                }
                i = i + 1;
            }
            if found {
                StubExpr::FailAsEmptyIter(name.clone())
            } else {
                StubExpr::FailExpr(name.clone())
            }
        },
        TyModel::PathTy { last_ident, args } => match args {
            PathArgsModel::AngledArgs(gargs) => {
                match first_ty_arg(gargs) {
                    Some(t) => {
                        proof {
                            let k = choose|k: int|
                                #[trigger] first_ty_arg_at(gargs@, k) && arg_ty(gargs@[k]) == *t;
                            assert(wf_ty(arg_ty(gargs@[k])));
                            assert(forall|k2: int| first_ty_arg_at(gargs@, k2) ==> k2 == k);
                        }
                        let stub = stub_expr_for_ty(t, name);
                        if str_eq(last_ident, "Box") {
                            StubExpr::BoxNewExpr(Box::new(stub))
                        } else if str_eq(last_ident, "Option") {
                            StubExpr::SomeExpr(Box::new(stub))
                        } else if str_eq(last_ident, "Result") {
                            StubExpr::OkExpr(Box::new(stub))
                        } else {
                            StubExpr::FailExpr(name.clone())
                        }
                    },
                    None => {
                        proof {
                            assert(false);
                        }
                        StubExpr::FailExpr(name.clone())
                    },
                }
            },
            PathArgsModel::PlainArgs => StubExpr::FailExpr(name.clone()),
        },
        TyModel::TupleTy { elems } => match elems {
            TyTuple::EmptyTys => StubExpr::FailExpr(name.clone()),
            TyTuple::ConsTys(..) => StubExpr::TupleExpr(stub_exprs_for_tys(elems, name)),
        },
        TyModel::OtherTy => StubExpr::FailExpr(name.clone()),
    }
}

/// Synthesize the placeholder elements for the element types of a tuple.
fn stub_exprs_for_tys(tys: &TyTuple, name: &String) -> (es: StubTuple)
    requires
        wf_tys(*tys),
    ensures
        are_stubs_for(*tys, *name, es),
    decreases *tys,
{
    match tys {
        TyTuple::EmptyTys => StubTuple::EmptyStubs,
        TyTuple::ConsTys(hd, tl) => StubTuple::ConsStubs(
            Box::new(stub_expr_for_ty(hd, name)),
            Box::new(stub_exprs_for_tys(tl, name)),
        ),
    }
}

/// Whether placeholder synthesis is defined on `ty`: no angle-bracketed
/// argument list reached by the synthesizer lacks a type argument.
pub fn check_wf_ty(ty: &TyModel) -> (r: bool)
    ensures
        r == wf_ty(*ty),
    decreases *ty,
{
    match ty {
        TyModel::ImplTraitTy { .. } => true,
        TyModel::PathTy { last_ident, args } => match args {
            PathArgsModel::AngledArgs(gargs) => {
                match first_ty_arg(gargs) {
                    Some(t) => {
                        proof {
                            let k = choose|k: int|
                                #[trigger] first_ty_arg_at(gargs@, k) && arg_ty(gargs@[k]) == *t;
                            assert(forall|k2: int| first_ty_arg_at(gargs@, k2) ==> k2 == k);
                        }
                        check_wf_ty(t)
                    },
                    None => false,
                }
            },
            PathArgsModel::PlainArgs => true,
        },
        TyModel::TupleTy { elems } => check_wf_tys(elems),
        TyModel::OtherTy => true,
    }
}

/// Whether synthesis is defined on every element type of a tuple.
fn check_wf_tys(tys: &TyTuple) -> (r: bool)
    ensures
        r == wf_tys(*tys),
    decreases *tys,
{
    match tys {
        TyTuple::EmptyTys => true,
        TyTuple::ConsTys(hd, tl) => check_wf_ty(hd) && check_wf_tys(tl),
    }
}

} // verus!
