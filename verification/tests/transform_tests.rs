//! Tests of normalization, projection and augmentation on single scopes.

use rkyv_impl::ast::{
    Bound, Directive, GenArg, GenericParam, Predicate, QualSelf, Segment, SimpleTy, TraitPath,
    TraitSegment, TypeExpr, TypePath,
};
use rkyv_impl::transform::{normalize_generics, project_predicate_x, transform_scope};

fn seg(name: &str) -> Segment {
    Segment { ident: name.to_string(), args: None }
}

fn path(names: &[&str]) -> TypeExpr {
    TypeExpr::Path(TypePath { qself: None, segments: names.iter().map(|n| seg(n)).collect() })
}

fn trait_bound(name: &str) -> Bound {
    Bound::Trait(TraitPath {
        segments: vec![TraitSegment { ident: name.to_string(), args: Vec::new() }],
    })
}

fn pred(subject: TypeExpr, bounds: Vec<Bound>) -> Predicate {
    Predicate { subject, bounds }
}

fn params(names: &[&str]) -> Vec<String> {
    names.iter().map(|n| n.to_string()).collect()
}

#[test]
fn an_inline_bound_moves_into_a_predicate() {
    let generics = vec![GenericParam::Ty("T".to_string(), vec![trait_bound("Clone")])];
    let (cleared, moved) = normalize_generics(&generics);
    assert_eq!(cleared, vec![GenericParam::Ty("T".to_string(), Vec::new())]);
    assert_eq!(moved, vec![pred(path(&["T"]), vec![trait_bound("Clone")])]);
}

#[test]
fn an_inline_lifetime_bound_moves_too() {
    let generics = vec![GenericParam::Lifetime(
        "a".to_string(),
        vec![Bound::Opaque("'b".to_string())],
    )];
    let (cleared, moved) = normalize_generics(&generics);
    assert_eq!(cleared, vec![GenericParam::Lifetime("a".to_string(), Vec::new())]);
    assert_eq!(
        moved,
        vec![pred(TypeExpr::Lifetime("a".to_string()), vec![Bound::Opaque("'b".to_string())])],
    );
}

#[test]
fn a_parameter_without_inline_bounds_is_untouched() {
    let generics = vec![
        GenericParam::Ty("T".to_string(), Vec::new()),
        GenericParam::Opaque("const N: usize".to_string()),
    ];
    let (cleared, moved) = normalize_generics(&generics);
    assert_eq!(cleared, generics);
    assert!(moved.is_empty());
}

#[test]
fn a_projected_subject_root_is_rewritten() {
    let p = pred(path(&["T"]), vec![trait_bound("Clone")]);
    let out = project_predicate_x(&p, &params(&["T"]));
    assert_eq!(out, pred(path(&["T", "Archived"]), vec![trait_bound("Clone")]));
}

#[test]
fn an_unprojected_predicate_is_kept_verbatim() {
    let p = pred(path(&["S"]), vec![trait_bound("Clone")]);
    let out = project_predicate_x(&p, &params(&["T"]));
    assert_eq!(out, p);
}

#[test]
fn a_nested_occurrence_is_not_rewritten() {
    // Vec<T>: Clone — the parameter sits inside the root's own arguments,
    // which projection deliberately leaves alone.
    let p = pred(
        TypeExpr::Path(TypePath {
            qself: None,
            segments: vec![Segment { ident: "Vec".to_string(), args: Some("<T>".to_string()) }],
        }),
        vec![trait_bound("Clone")],
    );
    let out = project_predicate_x(&p, &params(&["T"]));
    assert_eq!(out, p);
}

#[test]
fn a_qualified_self_is_projected() {
    // <T as MakeBar>::Bar: Into<u32> becomes <T::Archived as MakeBar>::Bar.
    let p = pred(
        TypeExpr::Path(TypePath {
            qself: Some(QualSelf { ty: SimpleTy::Path(vec![seg("T")]), pos: 1 }),
            segments: vec![seg("MakeBar"), seg("Bar")],
        }),
        vec![trait_bound("Into")],
    );
    let out = project_predicate_x(&p, &params(&["T"]));
    assert_eq!(
        out,
        pred(
            TypeExpr::Path(TypePath {
                qself: Some(QualSelf {
                    ty: SimpleTy::Path(vec![seg("T"), seg("Archived")]),
                    pos: 1,
                }),
                segments: vec![seg("MakeBar"), seg("Bar")],
            }),
            vec![trait_bound("Into")],
        ),
    );
}

#[test]
fn a_binding_value_is_projected() {
    // S: Iterator<Item = T> becomes S: Iterator<Item = T::Archived>.
    let p = pred(
        path(&["S"]),
        vec![Bound::Trait(TraitPath {
            segments: vec![TraitSegment {
                ident: "Iterator".to_string(),
                args: vec![GenArg::Binding("Item".to_string(), path(&["T"]))],
            }],
        })],
    );
    let out = project_predicate_x(&p, &params(&["T"]));
    assert_eq!(
        out,
        pred(
            path(&["S"]),
            vec![Bound::Trait(TraitPath {
                segments: vec![TraitSegment {
                    ident: "Iterator".to_string(),
                    args: vec![GenArg::Binding(
                        "Item".to_string(),
                        path(&["T", "Archived"]),
                    )],
                }],
            })],
        ),
    );
}

#[test]
fn the_empty_directive_only_normalizes() {
    let generics = vec![GenericParam::Ty("T".to_string(), vec![trait_bound("Clone")])];
    let preds = Some(vec![pred(path(&["S"]), vec![trait_bound("Eq")])]);
    let d = Directive { transform_params: Vec::new(), add_bounds: Vec::new() };
    let (cleared, out) = transform_scope(&generics, &preds, &d);
    assert_eq!(cleared, vec![GenericParam::Ty("T".to_string(), Vec::new())]);
    assert_eq!(
        out,
        Some(vec![
            pred(path(&["S"]), vec![trait_bound("Eq")]),
            pred(path(&["T"]), vec![trait_bound("Clone")]),
        ]),
    );
}

#[test]
fn nothing_to_hold_attaches_no_predicate_list() {
    let generics = vec![GenericParam::Ty("T".to_string(), Vec::new())];
    let d = Directive { transform_params: Vec::new(), add_bounds: Vec::new() };
    let (_, out) = transform_scope(&generics, &None, &d);
    assert_eq!(out, None);
}

#[test]
fn literal_bounds_are_appended_after_projection() {
    // Projecting T over `T: Clone` while appending the literal `T: Eq`: the
    // literal is appended verbatim, not projected.
    let generics = vec![GenericParam::Ty("T".to_string(), Vec::new())];
    let preds = Some(vec![pred(path(&["T"]), vec![trait_bound("Clone")])]);
    let d = Directive {
        transform_params: params(&["T"]),
        add_bounds: vec![pred(path(&["T"]), vec![trait_bound("Eq")])],
    };
    let (_, out) = transform_scope(&generics, &preds, &d);
    let out = out.unwrap();
    assert_eq!(out.len(), 3);
    assert!(out.contains(&pred(path(&["T", "Archived"]), vec![trait_bound("Clone")])));
    assert!(out.contains(&pred(path(&["T"]), vec![trait_bound("Eq")])));
    assert!(out.contains(&pred(path(&["T"]), vec![trait_bound("Archive")])));
}

#[test]
fn one_baseline_per_projected_parameter() {
    let d = Directive { transform_params: params(&["T", "S"]), add_bounds: Vec::new() };
    let (_, out) = transform_scope(&Vec::new(), &None, &d);
    let out = out.unwrap();
    assert_eq!(out.len(), 2);
    assert_eq!(out[0], pred(path(&["T"]), vec![trait_bound("Archive")]));
    assert_eq!(out[1], pred(path(&["S"]), vec![trait_bound("Archive")]));
}
