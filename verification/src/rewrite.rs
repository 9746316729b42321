//! The trait-rewriting engine.
//!
//! For each method of a trait declaration that lacks a default body, the
//! engine emits two copies in its place: one kept for ordinary builds, and
//! one for test builds that receives a synthesized placeholder body and,
//! for a by-value receiver, a `Self: Sized` predicate on its `where`
//! clause.  A method already marked `#[cfg(test)]` has nothing to
//! duplicate; it and every other item are kept unchanged.  The engine works on the
//! models of [`crate::ast`] and describes its output as a list of edits;
//! an unverified layer applies the edits to the real declaration.
use vstd::prelude::*;

use crate::ast::AttrModel;
use crate::ast::BoundModel;
use crate::ast::BoundedTyModel;
use crate::ast::FirstInputModel;
use crate::ast::MethodModel;
use crate::ast::RetModel;
use crate::ast::TraitItemModel;
use crate::ast::WherePredModel;
use crate::ast::check_is_cfg_test_attr;
use crate::ast::check_path_is_ident;
use crate::ast::is_cfg_test_attr;
use crate::ast::is_sized_bound;
use crate::ast::str_eq;
use crate::ast::wf_ty;
use crate::stubs::StubExpr;
use crate::stubs::check_wf_ty;
use crate::stubs::is_stub_for;
use crate::stubs::stub_expr_for_ty;

verus! {

/// How one emitted item is obtained from the source item it points at.
#[derive(Debug, PartialEq, Eq)]
pub enum ItemEdit {
    /// Emit the source item unchanged.
    KeepItem,
    /// Emit a copy of the source method with a `cfg(not(test))` attribute
    /// appended to its attributes.
    CfgNotTestCopy,
    /// Emit a copy of the source method with `cfg(test)`,
    /// `allow(unused_variables)` and `allow(unreachable_code)` attributes
    /// appended in that order, with `body` installed as its default body,
    /// and, when `add_self_sized` holds, with a `Self: Sized` predicate
    /// appended to its `where` clause.
    TestStubCopy { body: StubExpr, add_self_sized: bool },
}

/// One item of the rewritten trait: the index of the source item it comes
/// from, and the edit that produces it.
#[derive(Debug, PartialEq, Eq)]
pub struct OutItem {
    /// Index of the source item in the input item list.
    pub source: usize,
    /// How the emitted item differs from the source item.
    pub edit: ItemEdit,
}

/// The `where` predicate shape `Self: Sized`, as the engine recognizes it:
/// a type predicate whose bounded type is a path of a single segment named
/// `Self` without a qualified-self prefix, carrying a trait bound on the
/// bare identifier `Sized`.
pub open spec fn self_sized_pred(p: WherePredModel) -> bool {
    &&& p matches WherePredModel::TypePred { bounded, bounds }
    &&& bounded matches BoundedTyModel::PathBoundedTy { qself, path }
    &&& !qself
    &&& path.single_segment
    &&& path.last_ident@ == "Self"@
    &&& exists|i: int| 0 <= i < bounds@.len() && is_sized_bound(#[trigger] bounds@[i])
}

/// A method is duplicated when it has no default body and none of its
/// attributes passes the exemption check of
/// [`is_cfg_test_attr`](crate::ast::is_cfg_test_attr).
pub open spec fn needs_dup(item: TraitItemModel) -> bool {
    &&& item matches TraitItemModel::FnItem(m)
    &&& !m.has_default
    &&& !(exists|i: int| 0 <= i < m.attrs@.len() && is_cfg_test_attr(#[trigger] m.attrs@[i]))
}

/// The test copy of a method gets a `Self: Sized` predicate exactly when
/// its first input is a by-value receiver and no predicate of its `where`
/// clause already has that shape.
pub open spec fn needs_self_sized(m: MethodModel) -> bool {
    &&& m.first_input matches FirstInputModel::ReceiverInput { by_reference }
    &&& !by_reference
    &&& !(exists|i: int|
        0 <= i < m.where_preds@.len() && self_sized_pred(#[trigger] m.where_preds@[i]))
}

/// `e` is the placeholder body for the method `m`: a bare failure
/// carrying the method's name when the method has no return type, and
/// otherwise the expression synthesized from the return type, whose every
/// failing leaf carries the method's name.
pub open spec fn stub_body_for(m: MethodModel, e: StubExpr) -> bool {
    match m.ret {
        RetModel::DefaultRet => e == StubExpr::FailExpr(m.name),
        RetModel::TypedRet(ty) => is_stub_for(ty, m.name, e),
    }
}

/// Placeholder synthesis is defined on the method's return type.
pub open spec fn ret_ready(m: MethodModel) -> bool {
    match m.ret {
        RetModel::DefaultRet => true,
        RetModel::TypedRet(ty) => wf_ty(ty),
    }
}

/// The engine can rewrite this item without failing: either it is kept as
/// it is, or its return type admits placeholder synthesis.
pub open spec fn item_ready(item: TraitItemModel) -> bool {
    needs_dup(item) ==> ret_ready(item->FnItem_0)
}

/// How many items the rewritten trait holds for the first `i` source
/// items: two for each duplicated method, one for everything else.
pub open spec fn n_out_before(items: Seq<TraitItemModel>, i: int) -> int
    decreases i,
{
    if i <= 0 {
        0
    } else {
        n_out_before(items, i - 1) + if needs_dup(items[i - 1]) {
            2int
        } else {
            1int
        }
    }
}

/// The entries of `out` that source item `i` accounts for: at position
/// `n_out_before(items, i)`, either the unchanged item, or the
/// `cfg(not(test))` copy followed by the test copy with its synthesized
/// body and its `Self: Sized` decision.
pub open spec fn item_rewritten(items: Seq<TraitItemModel>, out: Seq<OutItem>, i: int) -> bool
    recommends
        0 <= i < items.len(),
{
    let j = n_out_before(items, i);
    if needs_dup(items[i]) {
        &&& items[i] matches TraitItemModel::FnItem(m)
        &&& out[j].source == i
        &&& out[j].edit is CfgNotTestCopy
        &&& out[j + 1].source == i
        &&& out[j + 1].edit matches ItemEdit::TestStubCopy { body, add_self_sized }
        &&& stub_body_for(m, body)
        &&& add_self_sized == needs_self_sized(m)
    } else {
        &&& out[j].source == i
        &&& out[j].edit is KeepItem
    }
}

/// `out` is the rewriting of `items`: it has exactly the accounted length,
/// and every source item contributes its entries in order.
pub open spec fn is_rewrite(items: Seq<TraitItemModel>, out: Seq<OutItem>) -> bool {
    &&& out.len() == n_out_before(items, items.len() as int)
    &&& forall|i: int| 0 <= i < items.len() ==> #[trigger] item_rewritten(items, out, i)
}

/// Counting is monotone in the prefix length.
proof fn lemma_n_out_before_mono(items: Seq<TraitItemModel>, a: int, b: int)
    requires
        a <= b,
    ensures
        n_out_before(items, a) <= n_out_before(items, b),
    decreases b - a,
{
    if a < b {
        lemma_n_out_before_mono(items, a, b - 1);
    }
}

/// Position `j` of the rewritten item list belongs to source item `i`: it
/// is the item's first entry, or its second when the item is duplicated.
pub open spec fn out_pos_of(items: Seq<TraitItemModel>, i: int, j: int) -> bool {
    ||| j == n_out_before(items, i)
    ||| (needs_dup(items[i]) && j == n_out_before(items, i) + 1)
}

/// Every position of a rewritten item list belongs to some source item.
proof fn lemma_out_pos_covered(items: Seq<TraitItemModel>, n: int, j: int)
    requires
        0 <= n <= items.len(),
        0 <= j < n_out_before(items, n),
    ensures
        exists|i: int| 0 <= i < n && #[trigger] out_pos_of(items, i, j),
    decreases n,
{
    if j < n_out_before(items, n - 1) {
        lemma_out_pos_covered(items, n - 1, j);
        let i = choose|i: int| 0 <= i < n - 1 && #[trigger] out_pos_of(items, i, j);
        assert(0 <= i < n && out_pos_of(items, i, j));
    } else {
        assert(out_pos_of(items, n - 1, j));
    }
}

/// On item lists the engine can rewrite, the relation [`is_rewrite`]
/// determines the output completely: any two rewritten lists it relates
/// to the same items are equal.
pub proof fn lemma_rewrite_unique(
    items: Seq<TraitItemModel>,
    out1: Seq<OutItem>,
    out2: Seq<OutItem>,
)
    requires
        forall|i: int| 0 <= i < items.len() ==> item_ready(#[trigger] items[i]),
        is_rewrite(items, out1),
        is_rewrite(items, out2),
    ensures
        out1 == out2,
{
    assert forall|j: int| 0 <= j < out1.len() implies out1[j] == out2[j] by {
        lemma_out_pos_covered(items, items.len() as int, j);
        let i = choose|i: int| 0 <= i < items.len() && #[trigger] out_pos_of(items, i, j);
        assert(item_rewritten(items, out1, i));
        assert(item_rewritten(items, out2, i));
        if needs_dup(items[i]) && j == n_out_before(items, i) + 1 {
            let m = items[i]->FnItem_0;
            let b1 = out1[j].edit->TestStubCopy_body;
            let b2 = out2[j].edit->TestStubCopy_body;
            match m.ret {
                RetModel::DefaultRet => {},
                RetModel::TypedRet(ty) => {
                    crate::stubs::lemma_stub_for_unique(ty, m.name, b1, b2);
                },
            }
        }
    }
    assert(out1 =~= out2);
}

/// Whether `b` is a trait bound on the bare identifier `Sized`.
fn check_is_sized_bound(b: &BoundModel) -> (r: bool)
    ensures
        r == is_sized_bound(*b),
{
    match b {
        BoundModel::TraitBoundOf(p) => check_path_is_ident(p, "Sized"),
        BoundModel::OtherBound => false,
    }
}

/// Whether this `where` predicate is `Self: Sized`.
#[verifier::loop_isolation(false)]
pub fn is_self_sized_pred(pred: &WherePredModel) -> (r: bool)
    ensures
        r == self_sized_pred(*pred),
{
    match pred {
        WherePredModel::TypePred { bounded, bounds } => {
            let self_ok = match bounded {
                BoundedTyModel::PathBoundedTy { qself, path } => !*qself && path.single_segment
                    && str_eq(&path.last_ident, "Self"),
                BoundedTyModel::OtherBoundedTy => false,
            };
            if !self_ok {
                return false;
            }
            let n = bounds.len();
            let mut i: usize = 0;
            let mut found = false;
            while i < n
                invariant
                    i <= n,
                    found == exists|j: int| 0 <= j < i && is_sized_bound(#[trigger] bounds@[j]),
                decreases n - i,
            {
                if check_is_sized_bound(&bounds[i]) {
                    found = true;
                }
                i = i + 1;
            }
            found
        },
        WherePredModel::OtherPred => false,
    }
}

/// Whether any attribute of the list passes the exemption check.
#[verifier::loop_isolation(false)]
fn has_cfg_test_attr(attrs: &Vec<AttrModel>) -> (r: bool)
    ensures
        r == exists|i: int| 0 <= i < attrs@.len() && is_cfg_test_attr(#[trigger] attrs@[i]),
{
    let n = attrs.len();
    let mut i: usize = 0;
    let mut found = false;
    while i < n
        invariant
            i <= n,
            found == exists|j: int| 0 <= j < i && is_cfg_test_attr(#[trigger] attrs@[j]),
        decreases n - i,
    {
        if check_is_cfg_test_attr(&attrs[i]) {
            found = true;
        }
        i = i + 1;
    }
    found
}

/// Whether the test copy of `m` must get a `Self: Sized` predicate.
#[verifier::loop_isolation(false)]
fn check_needs_self_sized(m: &MethodModel) -> (r: bool)
    ensures
        r == needs_self_sized(*m),
{
    let by_value = match &m.first_input {
        FirstInputModel::ReceiverInput { by_reference } => !*by_reference,
        _ => false,
    };
    if !by_value {
        return false;
    }
    let n = m.where_preds.len();
    let mut i: usize = 0;
    let mut present = false;
    while i < n
        invariant
            i <= n,
            present == exists|j: int| 0 <= j < i && self_sized_pred(#[trigger] m.where_preds@[j]),
        decreases n - i,
    {
        if is_self_sized_pred(&m.where_preds[i]) {
            present = true;
        }
        i = i + 1;
    }
    !present
}

/// Whether the engine can rewrite every item of the list without failing.
/// A caller that cannot establish [`is_rewrite`]'s precondition otherwise
/// runs this first and rejects the trait when it fails.
#[verifier::loop_isolation(false)]
pub fn check_items_ready(items: &Vec<TraitItemModel>) -> (r: bool)
    ensures
        r == forall|i: int| 0 <= i < items@.len() ==> item_ready(#[trigger] items@[i]),
{
    let n = items.len();
    let mut i: usize = 0;
    let mut ok = true;
    while i < n
        invariant
            i <= n,
            ok == forall|j: int| 0 <= j < i ==> item_ready(#[trigger] items@[j]),
        decreases n - i,
    {
        let ready = match &items[i] {
            TraitItemModel::FnItem(m) => {
                if !m.has_default && !has_cfg_test_attr(&m.attrs) {
                    match &m.ret {
                        RetModel::DefaultRet => true,
                        RetModel::TypedRet(ty) => check_wf_ty(ty),
                    }
                } else {
                    true
                }
            },
            TraitItemModel::OtherItem => true,
        };
        if !ready {
            ok = false;
        }
        i = i + 1;
    }
    ok
}

/// Rewrite the items of a trait declaration: emit every item with a
/// default body, an exempting attribute, or of another kind unchanged,
/// and in place of each remaining method emit its `cfg(not(test))` copy
/// followed by its test copy with a synthesized placeholder body.
#[verifier::loop_isolation(false)]
pub fn test_stubs(items: &Vec<TraitItemModel>) -> (out: Vec<OutItem>)
    requires
        forall|i: int| 0 <= i < items@.len() ==> item_ready(#[trigger] items@[i]),
    ensures
        is_rewrite(items@, out@),
{
    let n = items.len();
    let mut out: Vec<OutItem> = Vec::new();
    let mut i: usize = 0;
    while i < n
        invariant
            i <= n,
            out@.len() == n_out_before(items@, i as int),
            forall|k: int| 0 <= k < i ==> #[trigger] item_rewritten(items@, out@, k),
        decreases n - i,
    {
        let ghost old_out = out@;
        match &items[i] {
            TraitItemModel::FnItem(m) => {
                if !m.has_default && !has_cfg_test_attr(&m.attrs) {
                    out.push(OutItem { source: i, edit: ItemEdit::CfgNotTestCopy });
                    let body = match &m.ret {
                        RetModel::DefaultRet => StubExpr::FailExpr(m.name.clone()),
                        RetModel::TypedRet(ty) => stub_expr_for_ty(ty, &m.name),
                    };
                    let add = check_needs_self_sized(m);
                    out.push(
                        OutItem { source: i, edit: ItemEdit::TestStubCopy { body, add_self_sized: add } },
                    );
                } else {
                    out.push(OutItem { source: i, edit: ItemEdit::KeepItem });
                }
            },
            TraitItemModel::OtherItem => {
                out.push(OutItem { source: i, edit: ItemEdit::KeepItem });
            },
        }
        proof {
            let gi = i as int;
            assert(out@.len() == n_out_before(items@, gi + 1));
            assert(item_rewritten(items@, out@, gi));
            assert forall|k: int| 0 <= k < gi + 1 implies #[trigger] item_rewritten(
                items@,
                out@,
                k,
            ) by {
                if k < gi {
                    lemma_n_out_before_mono(items@, 0, k);
                    lemma_n_out_before_mono(items@, k + 1, gi);
                    assert(item_rewritten(items@, old_out, k));
                }
            }
        }
        i = i + 1;
    }
    out
}

} // verus!
