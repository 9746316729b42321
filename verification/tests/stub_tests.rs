use test_stubs::ast::BoundModel;
use test_stubs::ast::GenArgModel;
use test_stubs::ast::PathArgsModel;
use test_stubs::ast::PathModel;
use test_stubs::ast::TyModel;
use test_stubs::ast::TyTuple;
use test_stubs::stubs::check_is_iterator_bound;
use test_stubs::stubs::check_wf_ty;
use test_stubs::stubs::first_ty_arg;
use test_stubs::stubs::stub_expr_for_ty;
use test_stubs::stubs::StubExpr;
use test_stubs::stubs::StubTuple;

fn ident_path(name: &str) -> PathModel {
    PathModel {
        leading_colon: false,
        single_segment: true,
        last_ident: name.to_owned(),
        last_args: false,
    }
}

fn plain_ty(name: &str) -> TyModel {
    TyModel::PathTy { last_ident: name.to_owned(), args: PathArgsModel::PlainArgs }
}

fn generic_ty(name: &str, inner: TyModel) -> TyModel {
    TyModel::PathTy {
        last_ident: name.to_owned(),
        args: PathArgsModel::AngledArgs(vec![GenArgModel::TyArg(Box::new(inner))]),
    }
}

fn impl_iterator() -> TyModel {
    TyModel::ImplTraitTy { bounds: vec![BoundModel::TraitBoundOf(ident_path("Iterator"))] }
}

fn pair_ty(a: TyModel, b: TyModel) -> TyModel {
    TyModel::TupleTy {
        elems: TyTuple::ConsTys(
            Box::new(a),
            Box::new(TyTuple::ConsTys(Box::new(b), Box::new(TyTuple::EmptyTys))),
        ),
    }
}

fn fail(name: &str) -> StubExpr {
    StubExpr::FailExpr(name.to_owned())
}

fn fail_iter(name: &str) -> StubExpr {
    StubExpr::FailAsEmptyIter(name.to_owned())
}

fn synth(ty: &TyModel, name: &str) -> StubExpr {
    stub_expr_for_ty(ty, &name.to_owned())
}

#[test]
fn bare_failure_for_plain_path() {
    assert_eq!(synth(&plain_ty("u8"), "f"), fail("f"));
}

#[test]
fn bare_failure_for_other_type() {
    assert_eq!(synth(&TyModel::OtherTy, "f"), fail("f"));
}

#[test]
fn empty_iterator_cast_for_impl_iterator() {
    assert_eq!(synth(&impl_iterator(), "iter"), fail_iter("iter"));
}

#[test]
fn bare_failure_for_impl_without_iterator_bound() {
    let ty = TyModel::ImplTraitTy { bounds: vec![BoundModel::TraitBoundOf(ident_path("Send"))] };
    assert_eq!(synth(&ty, "f"), fail("f"));
}

#[test]
fn iterator_bound_found_after_lifetime_bound() {
    let ty = TyModel::ImplTraitTy {
        bounds: vec![BoundModel::OtherBound, BoundModel::TraitBoundOf(ident_path("Iterator"))],
    };
    assert_eq!(synth(&ty, "f"), fail_iter("f"));
}

#[test]
fn iterator_bound_goes_by_last_segment() {
    let path = PathModel {
        leading_colon: true,
        single_segment: false,
        last_ident: "Iterator".to_owned(),
        last_args: false,
    };
    let ty = TyModel::ImplTraitTy { bounds: vec![BoundModel::TraitBoundOf(path)] };
    assert_eq!(synth(&ty, "f"), fail_iter("f"));
}

#[test]
fn option_wraps_placeholder_of_first_type_argument() {
    let ty = generic_ty("Option", impl_iterator());
    assert_eq!(synth(&ty, "opt_iter"), StubExpr::SomeExpr(Box::new(fail_iter("opt_iter"))));
}

#[test]
fn box_wraps_placeholder() {
    let ty = generic_ty("Box", plain_ty("u8"));
    assert_eq!(synth(&ty, "f"), StubExpr::BoxNewExpr(Box::new(fail("f"))));
}

#[test]
fn result_wraps_placeholder_of_first_type_argument() {
    let ty = TyModel::PathTy {
        last_ident: "Result".to_owned(),
        args: PathArgsModel::AngledArgs(vec![
            GenArgModel::TyArg(Box::new(plain_ty("u8"))),
            GenArgModel::TyArg(Box::new(plain_ty("String"))),
        ]),
    };
    assert_eq!(synth(&ty, "f"), StubExpr::OkExpr(Box::new(fail("f"))));
}

#[test]
fn unknown_generic_path_falls_back_to_bare_failure() {
    let ty = generic_ty("Vec", plain_ty("u8"));
    assert_eq!(synth(&ty, "f"), fail("f"));
}

#[test]
fn lifetime_argument_skipped_for_first_type_argument() {
    let ty = TyModel::PathTy {
        last_ident: "Option".to_owned(),
        args: PathArgsModel::AngledArgs(vec![
            GenArgModel::OtherArg,
            GenArgModel::TyArg(Box::new(plain_ty("u8"))),
        ]),
    };
    assert_eq!(synth(&ty, "f"), StubExpr::SomeExpr(Box::new(fail("f"))));
}

#[test]
fn tuple_pairs_each_element_with_a_placeholder() {
    let ty = pair_ty(plain_ty("u8"), plain_ty("u8"));
    assert_eq!(
        synth(&ty, "x"),
        StubExpr::TupleExpr(StubTuple::ConsStubs(
            Box::new(fail("x")),
            Box::new(StubTuple::ConsStubs(Box::new(fail("x")), Box::new(StubTuple::EmptyStubs))),
        ))
    );
}

#[test]
fn empty_tuple_gets_a_failing_placeholder() {
    // A placeholder that were the value `()` itself could never fail, so
    // the unit type takes the bare failing expression.
    let ty = TyModel::TupleTy { elems: TyTuple::EmptyTys };
    assert_eq!(synth(&ty, "f"), fail("f"));
}

#[test]
fn empty_tuple_element_fails_inside_a_tuple() {
    let ty = pair_ty(plain_ty("u8"), TyModel::TupleTy { elems: TyTuple::EmptyTys });
    assert_eq!(
        synth(&ty, "f"),
        StubExpr::TupleExpr(StubTuple::ConsStubs(
            Box::new(fail("f")),
            Box::new(StubTuple::ConsStubs(Box::new(fail("f")), Box::new(StubTuple::EmptyStubs))),
        ))
    );
}

#[test]
fn nested_option_of_tuple() {
    let ty = generic_ty("Option", pair_ty(plain_ty("u8"), impl_iterator()));
    assert_eq!(
        synth(&ty, "f"),
        StubExpr::SomeExpr(Box::new(StubExpr::TupleExpr(StubTuple::ConsStubs(
            Box::new(fail("f")),
            Box::new(StubTuple::ConsStubs(
                Box::new(fail_iter("f")),
                Box::new(StubTuple::EmptyStubs),
            )),
        ))))
    );
}

#[test]
fn angle_brackets_without_type_argument_are_not_ready() {
    let ty = TyModel::PathTy {
        last_ident: "Foo".to_owned(),
        args: PathArgsModel::AngledArgs(vec![GenArgModel::OtherArg]),
    };
    assert!(!check_wf_ty(&ty));
}

#[test]
fn readiness_descends_into_discarded_argument() {
    // The synthesizer recurses into the first type argument even when the
    // surrounding path contributes nothing, so a bad argument list deep
    // inside an unknown generic still blocks synthesis.
    let bad = TyModel::PathTy {
        last_ident: "Foo".to_owned(),
        args: PathArgsModel::AngledArgs(vec![GenArgModel::OtherArg]),
    };
    let ty = generic_ty("Vec", bad);
    assert!(!check_wf_ty(&ty));
}

#[test]
fn readiness_descends_into_tuples() {
    let bad = TyModel::PathTy {
        last_ident: "Foo".to_owned(),
        args: PathArgsModel::AngledArgs(vec![]),
    };
    assert!(!check_wf_ty(&pair_ty(plain_ty("u8"), bad)));
    assert!(check_wf_ty(&pair_ty(plain_ty("u8"), plain_ty("u8"))));
}

#[test]
fn first_type_argument_search() {
    let args = vec![GenArgModel::OtherArg, GenArgModel::TyArg(Box::new(plain_ty("u8")))];
    assert_eq!(first_ty_arg(&args), Some(&plain_ty("u8")));
    let none: Vec<GenArgModel> = vec![GenArgModel::OtherArg];
    assert_eq!(first_ty_arg(&none), None);
    let empty: Vec<GenArgModel> = vec![];
    assert_eq!(first_ty_arg(&empty), None);
}

#[test]
fn iterator_bound_recognition() {
    assert!(check_is_iterator_bound(&BoundModel::TraitBoundOf(ident_path("Iterator"))));
    assert!(!check_is_iterator_bound(&BoundModel::TraitBoundOf(ident_path("Send"))));
    assert!(!check_is_iterator_bound(&BoundModel::OtherBound));
}
