//! End-to-end tests of the engine on whole declaration units.

use rkyv_impl::ast::{
    Bound, DeclUnit, GenArg, GenericParam, Method, MethodAttr, Predicate, QualSelf, Segment,
    SimpleTy, TraitPath, TraitSegment, TransformError, TypeExpr, TypePath, UnitItem,
};
use rkyv_impl::engine::{archive_impl, archive_method};
use rkyv_impl::token::{ArgTok, Delim, Tok};

fn seg(name: &str) -> Segment {
    Segment { ident: name.to_string(), args: None }
}

fn seg_args(name: &str, args: &str) -> Segment {
    Segment { ident: name.to_string(), args: Some(args.to_string()) }
}

fn path(names: &[&str]) -> TypeExpr {
    TypeExpr::Path(TypePath { qself: None, segments: names.iter().map(|n| seg(n)).collect() })
}

fn trait_bound(name: &str) -> Bound {
    Bound::Trait(TraitPath {
        segments: vec![TraitSegment { ident: name.to_string(), args: Vec::new() }],
    })
}

fn trait_bound_args(name: &str, args: Vec<GenArg>) -> Bound {
    Bound::Trait(TraitPath { segments: vec![TraitSegment { ident: name.to_string(), args }] })
}

fn pred(subject: TypeExpr, bounds: Vec<Bound>) -> Predicate {
    Predicate { subject, bounds }
}

/// The baseline predicate `name: Archive`.
fn baseline(name: &str) -> Predicate {
    pred(path(&[name]), vec![trait_bound("Archive")])
}

fn transform_marker(params: &[&str]) -> Vec<Tok> {
    let mut inner = Vec::new();
    for (i, p) in params.iter().enumerate() {
        if i > 0 {
            inner.push(ArgTok::Punct(','));
        }
        inner.push(ArgTok::Ident(p.to_string()));
    }
    vec![Tok::Ident("transform_bounds".to_string()), Tok::Group(Delim::Paren, inner)]
}

fn method(sig: &str, attrs: Vec<MethodAttr>, generics: Vec<GenericParam>,
          predicates: Option<Vec<Predicate>>) -> Method {
    Method {
        attrs,
        sig: sig.to_string(),
        generics,
        predicates,
        body: "{ self.elements.iter().cloned().sum() }".to_string(),
    }
}

fn plain_unit(self_ty: TypeExpr, generics: Vec<GenericParam>, predicates: Option<Vec<Predicate>>,
              items: Vec<UnitItem>) -> DeclUnit {
    DeclUnit { attrs: Vec::new(), generics, trait_ref: None, self_ty, predicates, items }
}

/// Multiset equality of predicate lists: the emitted order carries no
/// meaning.
fn same_preds(a: &Option<Vec<Predicate>>, b: &Option<Vec<Predicate>>) -> bool {
    match (a, b) {
        (None, None) => true,
        (Some(x), Some(y)) => {
            x.len() == y.len() && x.iter().all(|p| {
                x.iter().filter(|q| *q == p).count() == y.iter().filter(|q| *q == p).count()
            })
        },
        _ => false,
    }
}

/// The scenarios of the original compile-test suite, replayed on the model:
/// a plain unit, simple methods, a generic self type with literal bounds,
/// a malformed argument list, an interface reference, a multi-segment self
/// type, an unsupported self type, literal bounds that leave the original
/// unit untouched, method-scoped projection, projection of several
/// parameters, and attributes that must be preserved.
#[test]
fn tests() {
    // A unit with no directive and no method parses and passes through.
    let unit = plain_unit(path(&["Foo"]), Vec::new(), None, Vec::new());
    let (orig, shadow) = archive_impl(&Vec::new(), unit).unwrap();
    assert_eq!(orig, plain_unit(path(&["Foo"]), Vec::new(), None, Vec::new()));
    assert_eq!(shadow.self_ty, path(&["ArchivedFoo"]));
    assert_eq!(shadow.predicates, None);

    // Simple methods are carried over unchanged.
    let make_simple = || {
        plain_unit(
            path(&["Foo"]),
            Vec::new(),
            None,
            vec![
                UnitItem::Method(method("fn get_slice(&self) -> &[u32]", Vec::new(), Vec::new(), None)),
                UnitItem::Method(method("fn get_first(&self) -> Option<&u32>", Vec::new(), Vec::new(), None)),
            ],
        )
    };
    let (orig, shadow) = archive_impl(&Vec::new(), make_simple()).unwrap();
    assert_eq!(orig, make_simple());
    assert_eq!(shadow.items, make_simple().items);
    assert_eq!(shadow.self_ty, path(&["ArchivedFoo"]));

    // A generic self type with a literal bound: the bound is appended
    // verbatim, and a marked method inherits its own projected bounds.
    let add_bounds_args = vec![
        Tok::Ident("add_bounds".to_string()),
        Tok::Group(
            Delim::Paren,
            vec![
                ArgTok::Ident("T".to_string()),
                ArgTok::Punct(':'),
                ArgTok::Ident("Archive".to_string()),
                ArgTok::Punct('<'),
                ArgTok::Ident("Archived".to_string()),
                ArgTok::Punct('='),
                ArgTok::Ident("T".to_string()),
                ArgTok::Punct('>'),
            ],
        ),
    ];
    let unit = plain_unit(
        TypeExpr::Path(TypePath { qself: None, segments: vec![seg_args("Foo", "<T>")] }),
        vec![GenericParam::Ty("T".to_string(), Vec::new())],
        None,
        vec![
            UnitItem::Method(method("fn get_slice(&self) -> &[T]", Vec::new(), Vec::new(), None)),
            UnitItem::Method(method(
                "fn element_eq(&self, index: usize, value: &T) -> bool",
                vec![MethodAttr::Marker(transform_marker(&["T"]))],
                Vec::new(),
                Some(vec![pred(path(&["T"]), vec![trait_bound("Eq")])]),
            )),
            UnitItem::Method(method(
                "fn clone_element(&self, index: usize) -> T",
                vec![MethodAttr::Marker(transform_marker(&["T"]))],
                Vec::new(),
                Some(vec![pred(path(&["T"]), vec![trait_bound("Clone")])]),
            )),
        ],
    );
    let (_, shadow) = archive_impl(&add_bounds_args, unit).unwrap();
    let expected_unit_bound = pred(
        path(&["T"]),
        vec![trait_bound_args(
            "Archive",
            vec![GenArg::Binding("Archived".to_string(), path(&["T"]))],
        )],
    );
    assert!(same_preds(&shadow.predicates, &Some(vec![expected_unit_bound])));
    match &shadow.items[1] {
        UnitItem::Method(m) => {
            assert!(m.attrs.is_empty());
            assert!(same_preds(
                &m.predicates,
                &Some(vec![
                    pred(path(&["T", "Archived"]), vec![trait_bound("Eq")]),
                    baseline("T"),
                ]),
            ));
        },
        _ => panic!("expected a method"),
    }

    // An unrecognized keyword is a malformed directive.
    let bad = vec![
        Tok::Ident("bounds".to_string()),
        Tok::Group(Delim::Paren, vec![ArgTok::Ident("T".to_string())]),
    ];
    let unit = plain_unit(path(&["Foo"]), Vec::new(), None, Vec::new());
    assert_eq!(archive_impl(&bad, unit), Err(TransformError::MalformedDirective));

    // An interface reference is carried through unchanged.
    let unit = DeclUnit {
        attrs: Vec::new(),
        generics: vec![GenericParam::Ty("T".to_string(), Vec::new())],
        trait_ref: Some("GetSlice<T>".to_string()),
        self_ty: TypeExpr::Path(TypePath { qself: None, segments: vec![seg_args("Foo", "<T>")] }),
        predicates: None,
        items: vec![UnitItem::Method(method(
            "fn get_slice(&self) -> &[T]",
            Vec::new(),
            Vec::new(),
            None,
        ))],
    };
    let (_, shadow) = archive_impl(&Vec::new(), unit).unwrap();
    assert_eq!(shadow.trait_ref, Some("GetSlice<T>".to_string()));

    // Only the last segment of a multi-segment self type is renamed.
    let unit = plain_unit(path(&["external", "Foo"]), Vec::new(), None, Vec::new());
    let (_, shadow) = archive_impl(&Vec::new(), unit).unwrap();
    assert_eq!(shadow.self_ty, path(&["external", "ArchivedFoo"]));

    // A self type that is not a path is rejected.
    let unit = plain_unit(TypeExpr::Opaque("(u32, u32)".to_string()), Vec::new(), None, Vec::new());
    assert_eq!(archive_impl(&Vec::new(), unit), Err(TransformError::UnsupportedSelfType));

    // Appended bounds never touch the original unit.
    let make_unit = || {
        plain_unit(
            TypeExpr::Path(TypePath { qself: None, segments: vec![seg_args("Foo", "<T>")] }),
            vec![GenericParam::Ty("T".to_string(), Vec::new())],
            None,
            vec![UnitItem::Method(method(
                "fn get_slice(&self) -> &[T]",
                Vec::new(),
                Vec::new(),
                None,
            ))],
        )
    };
    let (orig, _) = archive_impl(&add_bounds_args, make_unit()).unwrap();
    assert_eq!(orig, make_unit());

    // A method marker projects the method's own bounds.
    let unit = plain_unit(
        TypeExpr::Path(TypePath { qself: None, segments: vec![seg_args("Foo", "<T>")] }),
        vec![GenericParam::Ty("T".to_string(), Vec::new())],
        None,
        vec![UnitItem::Method(method(
            "fn sum(&self) -> S",
            vec![MethodAttr::Marker(transform_marker(&["T"]))],
            vec![GenericParam::Ty("S".to_string(), Vec::new())],
            Some(vec![
                pred(path(&["T"]), vec![trait_bound("Clone")]),
                pred(
                    path(&["S"]),
                    vec![trait_bound_args("Sum", vec![GenArg::Ty(path(&["T"]))])],
                ),
            ]),
        ))],
    );
    let (_, shadow) = archive_impl(&transform_marker(&["T"]), unit).unwrap();
    assert!(same_preds(&shadow.predicates, &Some(vec![baseline("T")])));
    match &shadow.items[0] {
        UnitItem::Method(m) => {
            assert!(same_preds(
                &m.predicates,
                &Some(vec![
                    pred(path(&["T", "Archived"]), vec![trait_bound("Clone")]),
                    pred(
                        path(&["S"]),
                        vec![trait_bound_args(
                            "Sum",
                            vec![GenArg::Ty(path(&["T", "Archived"]))],
                        )],
                    ),
                    baseline("T"),
                ]),
            ));
        },
        _ => panic!("expected a method"),
    }

    // Several parameters are projected at once.
    let unit = plain_unit(
        TypeExpr::Path(TypePath { qself: None, segments: vec![seg_args("Foo", "<R, T>")] }),
        vec![
            GenericParam::Ty("R".to_string(), Vec::new()),
            GenericParam::Ty("T".to_string(), Vec::new()),
        ],
        Some(vec![
            pred(path(&["R"]), vec![trait_bound("Clone")]),
            pred(path(&["T"]), vec![trait_bound("Clone")]),
        ]),
        Vec::new(),
    );
    let (_, shadow) = archive_impl(&transform_marker(&["R", "T"]), unit).unwrap();
    assert!(same_preds(
        &shadow.predicates,
        &Some(vec![
            pred(path(&["R", "Archived"]), vec![trait_bound("Clone")]),
            pred(path(&["T", "Archived"]), vec![trait_bound("Clone")]),
            baseline("R"),
            baseline("T"),
        ]),
    ));

    // Other attributes are preserved on both units; markers are stripped
    // from the emitted methods.
    let unit = DeclUnit {
        attrs: vec!["#[allow(missing_docs)]".to_string()],
        generics: Vec::new(),
        trait_ref: None,
        self_ty: path(&["Foo"]),
        predicates: None,
        items: vec![UnitItem::Method(Method {
            attrs: vec![
                MethodAttr::Opaque("#[inline]".to_string()),
                MethodAttr::Marker(Vec::new()),
            ],
            sig: "fn bar()".to_string(),
            generics: Vec::new(),
            predicates: None,
            body: "{}".to_string(),
        })],
    };
    let (orig, shadow) = archive_impl(&Vec::new(), unit).unwrap();
    assert_eq!(orig.attrs, vec!["#[allow(missing_docs)]".to_string()]);
    assert_eq!(shadow.attrs, vec!["#[allow(missing_docs)]".to_string()]);
    match (&orig.items[0], &shadow.items[0]) {
        (UnitItem::Method(before), UnitItem::Method(after)) => {
            assert_eq!(before.attrs.len(), 2);
            assert_eq!(after.attrs, vec![MethodAttr::Opaque("#[inline]".to_string())]);
        },
        _ => panic!("expected methods"),
    }
}

/// A unit `Foo<T>` projecting `T`, one predicate `T: Clone`, one method
/// `sum<S>` also projecting `T` under `S: Sum<T>`: the emitted unit carries
/// the baseline for `T` and the projected `Clone` bound, the emitted method
/// the baseline for `T` and `S: Sum` of the projected parameter.
#[test]
fn scenario_projected_unit_and_method() {
    let unit = plain_unit(
        TypeExpr::Path(TypePath { qself: None, segments: vec![seg_args("Foo", "<T>")] }),
        vec![GenericParam::Ty("T".to_string(), Vec::new())],
        Some(vec![pred(path(&["T"]), vec![trait_bound("Clone")])]),
        vec![UnitItem::Method(method(
            "fn sum(&self) -> S",
            vec![MethodAttr::Marker(transform_marker(&["T"]))],
            vec![GenericParam::Ty("S".to_string(), Vec::new())],
            Some(vec![pred(
                path(&["S"]),
                vec![trait_bound_args("Sum", vec![GenArg::Ty(path(&["T"]))])],
            )]),
        ))],
    );
    let (_, shadow) = archive_impl(&transform_marker(&["T"]), unit).unwrap();
    assert!(same_preds(
        &shadow.predicates,
        &Some(vec![
            pred(path(&["T", "Archived"]), vec![trait_bound("Clone")]),
            baseline("T"),
        ]),
    ));
    match &shadow.items[0] {
        UnitItem::Method(m) => {
            assert!(same_preds(
                &m.predicates,
                &Some(vec![
                    pred(
                        path(&["S"]),
                        vec![trait_bound_args(
                            "Sum",
                            vec![GenArg::Ty(path(&["T", "Archived"]))],
                        )],
                    ),
                    baseline("T"),
                ]),
            ));
        },
        _ => panic!("expected a method"),
    }
}

/// A unit `Foo` without generics and without a directive, one method without
/// a directive: the emitted unit is `ArchivedFoo` with the same single
/// method and no predicate list attached at all.
#[test]
fn scenario_no_generics_no_directive() {
    let make = || {
        plain_unit(
            path(&["Foo"]),
            Vec::new(),
            None,
            vec![UnitItem::Method(method("fn bar(&self)", Vec::new(), Vec::new(), None))],
        )
    };
    let (orig, shadow) = archive_impl(&Vec::new(), make()).unwrap();
    assert_eq!(orig, make());
    assert_eq!(shadow.self_ty, path(&["ArchivedFoo"]));
    assert_eq!(shadow.predicates, None);
    assert_eq!(shadow.items, make().items);
}

/// A tuple self type fails with the unsupported-self-type error and nothing
/// is emitted.
#[test]
fn scenario_tuple_self_type() {
    let unit = plain_unit(TypeExpr::Opaque("(A, B)".to_string()), Vec::new(), None, Vec::new());
    let r = archive_impl(&Vec::new(), unit);
    assert_eq!(r, Err(TransformError::UnsupportedSelfType));
}

/// Flagging `T` at unit scope never projects a method's own bounds: a
/// method without a marker is only normalized.
#[test]
fn scenario_unit_scope_does_not_reach_methods() {
    let unit = plain_unit(
        TypeExpr::Path(TypePath { qself: None, segments: vec![seg_args("Foo", "<T>")] }),
        vec![GenericParam::Ty("T".to_string(), Vec::new())],
        None,
        vec![UnitItem::Method(method(
            "fn id(&self, x: T) -> T",
            Vec::new(),
            vec![GenericParam::Ty(
                "T".to_string(),
                vec![trait_bound("Clone")],
            )],
            None,
        ))],
    );
    let (_, shadow) = archive_impl(&transform_marker(&["T"]), unit).unwrap();
    match &shadow.items[0] {
        UnitItem::Method(m) => {
            // The inline bound moved into a predicate, unprojected.
            assert_eq!(m.generics, vec![GenericParam::Ty("T".to_string(), Vec::new())]);
            assert_eq!(
                m.predicates,
                Some(vec![pred(path(&["T"]), vec![trait_bound("Clone")])]),
            );
        },
        _ => panic!("expected a method"),
    }
}

/// An inline bound at unit scope is first relocated and then projected:
/// `impl<T: PartialEq> Foo<T>` under projection of `T` derives
/// `impl<T> ArchivedFoo<T> where T::Archived: PartialEq, T: Archive`.
#[test]
fn inline_unit_bound_is_relocated_and_projected() {
    let unit = plain_unit(
        TypeExpr::Path(TypePath { qself: None, segments: vec![seg_args("Foo", "<T>")] }),
        vec![GenericParam::Ty("T".to_string(), vec![trait_bound("PartialEq")])],
        None,
        Vec::new(),
    );
    let (orig, shadow) = archive_impl(&transform_marker(&["T"]), unit).unwrap();
    // The original unit keeps its inline bound.
    assert_eq!(
        orig.generics,
        vec![GenericParam::Ty("T".to_string(), vec![trait_bound("PartialEq")])],
    );
    // The derived unit's parameter list is bare, the bound moved and
    // projected.
    assert_eq!(shadow.generics, vec![GenericParam::Ty("T".to_string(), Vec::new())]);
    assert!(same_preds(
        &shadow.predicates,
        &Some(vec![
            pred(path(&["T", "Archived"]), vec![trait_bound("PartialEq")]),
            baseline("T"),
        ]),
    ));
}

/// A qualified-self predicate is projected in its qualified type alone:
/// `<T as MakeBar>::Bar: Into<u32>` becomes
/// `<T::Archived as MakeBar>::Bar: Into<u32>`.
#[test]
fn qualified_self_predicates_are_projected() {
    let qself_pred = |root: &[&str]| {
        pred(
            TypeExpr::Path(TypePath {
                qself: Some(QualSelf {
                    ty: SimpleTy::Path(root.iter().map(|n| seg(n)).collect()),
                    pos: 1,
                }),
                segments: vec![seg("MakeBar"), seg("Bar")],
            }),
            vec![trait_bound_args("Into", vec![GenArg::Ty(path(&["u32"]))])],
        )
    };
    let unit = plain_unit(
        TypeExpr::Path(TypePath { qself: None, segments: vec![seg_args("Foo", "<T>")] }),
        vec![GenericParam::Ty("T".to_string(), vec![trait_bound("MakeBar")])],
        Some(vec![qself_pred(&["T"])]),
        Vec::new(),
    );
    let (_, shadow) = archive_impl(&transform_marker(&["T"]), unit).unwrap();
    assert!(same_preds(
        &shadow.predicates,
        &Some(vec![
            qself_pred(&["T", "Archived"]),
            pred(path(&["T", "Archived"]), vec![trait_bound("MakeBar")]),
            baseline("T"),
        ]),
    ));
}

/// A method-scoped marker alone tolerates a method and rejects anything
/// else.
#[test]
fn marker_on_non_method_is_rejected() {
    let m = UnitItem::Method(method("fn bar()", Vec::new(), Vec::new(), None));
    let kept = archive_method(m).unwrap();
    assert_eq!(kept, UnitItem::Method(method("fn bar()", Vec::new(), Vec::new(), None)));
    let c = UnitItem::Opaque("const X: u32 = 1;".to_string());
    assert_eq!(archive_method(c), Err(TransformError::UnsupportedMethodForm));
}

/// A malformed method marker fails the whole invocation with a malformed
/// directive and nothing is emitted.
#[test]
fn malformed_method_marker_is_rejected() {
    let unit = plain_unit(
        path(&["Foo"]),
        Vec::new(),
        None,
        vec![UnitItem::Method(method(
            "fn bar()",
            vec![MethodAttr::Marker(vec![Tok::Ident("nonsense".to_string())])],
            Vec::new(),
            None,
        ))],
    );
    assert_eq!(archive_impl(&Vec::new(), unit), Err(TransformError::MalformedDirective));
}
