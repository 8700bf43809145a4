//! Tests of the directive parser on token lists.

use rkyv_impl::ast::{
    Bound, GenArg, Predicate, Segment, TraitPath, TraitSegment, TransformError, TypeExpr,
    TypePath,
};
use rkyv_impl::directive::parse_directive;
use rkyv_impl::token::{ArgTok, Delim, Tok};

fn kw(name: &str, inner: Vec<ArgTok>) -> Vec<Tok> {
    vec![Tok::Ident(name.to_string()), Tok::Group(Delim::Paren, inner)]
}

fn ident(name: &str) -> ArgTok {
    ArgTok::Ident(name.to_string())
}

#[test]
fn empty_arguments_mean_the_empty_directive() {
    let d = parse_directive(&Vec::new()).unwrap();
    assert!(d.transform_params.is_empty());
    assert!(d.add_bounds.is_empty());
}

#[test]
fn projected_parameters_are_gathered_in_order() {
    let toks = kw("transform_bounds", vec![ident("T"), ArgTok::Punct(','), ident("S")]);
    let d = parse_directive(&toks).unwrap();
    assert_eq!(d.transform_params, vec!["T".to_string(), "S".to_string()]);
    assert!(d.add_bounds.is_empty());
}

#[test]
fn repeated_mentions_collapse() {
    let mut toks = kw("transform_bounds", vec![ident("T"), ArgTok::Punct(','), ident("T")]);
    toks.push(Tok::Punct(','));
    toks.extend(kw("transform_bounds", vec![ident("T"), ArgTok::Punct(','), ident("S")]));
    let d = parse_directive(&toks).unwrap();
    assert_eq!(d.transform_params, vec!["T".to_string(), "S".to_string()]);
}

#[test]
fn trailing_commas_are_tolerated() {
    let mut toks = kw("transform_bounds", vec![ident("T"), ArgTok::Punct(',')]);
    toks.push(Tok::Punct(','));
    let d = parse_directive(&toks).unwrap();
    assert_eq!(d.transform_params, vec!["T".to_string()]);
}

#[test]
fn a_literal_bound_is_kept_verbatim() {
    // add_bounds(T: Archive<Archived = T>)
    let toks = kw(
        "add_bounds",
        vec![
            ident("T"),
            ArgTok::Punct(':'),
            ident("Archive"),
            ArgTok::Punct('<'),
            ident("Archived"),
            ArgTok::Punct('='),
            ident("T"),
            ArgTok::Punct('>'),
        ],
    );
    let d = parse_directive(&toks).unwrap();
    assert!(d.transform_params.is_empty());
    let t = TypeExpr::Path(TypePath {
        qself: None,
        segments: vec![Segment { ident: "T".to_string(), args: None }],
    });
    let expected = Predicate {
        subject: t.clone(),
        bounds: vec![Bound::Trait(TraitPath {
            segments: vec![TraitSegment {
                ident: "Archive".to_string(),
                args: vec![GenArg::Binding("Archived".to_string(), t)],
            }],
        })],
    };
    assert_eq!(d.add_bounds, vec![expected]);
}

#[test]
fn subject_generic_arguments_are_captured_with_their_brackets() {
    // add_bounds(Vec<T>: Clone): the subject's argument text keeps the angle
    // brackets around the rendered tokens.
    let toks = kw(
        "add_bounds",
        vec![
            ident("Vec"),
            ArgTok::Punct('<'),
            ident("T"),
            ArgTok::Punct('>'),
            ArgTok::Punct(':'),
            ident("Clone"),
        ],
    );
    let d = parse_directive(&toks).unwrap();
    let subject = &d.add_bounds[0].subject;
    match subject {
        TypeExpr::Path(p) => {
            assert_eq!(p.segments.len(), 1);
            assert_eq!(p.segments[0].ident, "Vec".to_string());
            assert_eq!(p.segments[0].args, Some("<T>".to_string()));
        },
        _ => panic!("expected a path subject"),
    }
}

#[test]
fn several_bounds_and_lifetimes_parse() {
    // add_bounds(T: Clone + 'static, 'a: 'b)
    let mut toks = kw(
        "add_bounds",
        vec![
            ident("T"),
            ArgTok::Punct(':'),
            ident("Clone"),
            ArgTok::Punct('+'),
            ArgTok::Punct('\''),
            ident("static"),
            ArgTok::Punct(','),
            ArgTok::Punct('\''),
            ident("a"),
            ArgTok::Punct(':'),
            ArgTok::Punct('\''),
            ident("b"),
        ],
    );
    let d = parse_directive(&toks).unwrap();
    assert_eq!(d.add_bounds.len(), 2);
    assert_eq!(
        d.add_bounds[0].bounds,
        vec![
            Bound::Trait(TraitPath {
                segments: vec![TraitSegment { ident: "Clone".to_string(), args: Vec::new() }],
            }),
            Bound::Opaque("'static".to_string()),
        ],
    );
    assert_eq!(d.add_bounds[1].subject, TypeExpr::Lifetime("a".to_string()));
    assert_eq!(d.add_bounds[1].bounds, vec![Bound::Opaque("'b".to_string())]);
    toks.push(Tok::Punct(','));
    assert!(parse_directive(&toks).is_ok());
}

#[test]
fn unknown_keywords_are_malformed() {
    let toks = kw("bounds", vec![ident("T")]);
    assert_eq!(parse_directive(&toks), Err(TransformError::MalformedDirective));
}

#[test]
fn a_keyword_without_its_payload_is_malformed() {
    let toks = vec![Tok::Ident("transform_bounds".to_string())];
    assert_eq!(parse_directive(&toks), Err(TransformError::MalformedDirective));
}

#[test]
fn a_payload_that_is_not_an_identifier_list_is_malformed() {
    let toks = kw("transform_bounds", vec![ArgTok::Punct(','), ident("T")]);
    assert_eq!(parse_directive(&toks), Err(TransformError::MalformedDirective));
}

#[test]
fn a_predicate_without_a_colon_is_malformed() {
    let toks = kw("add_bounds", vec![ident("T"), ident("Clone")]);
    assert_eq!(parse_directive(&toks), Err(TransformError::MalformedDirective));
}

#[test]
fn a_comma_inside_angle_brackets_does_not_split() {
    // add_bounds(S: Sum<A, B>)
    let toks = kw(
        "add_bounds",
        vec![
            ident("S"),
            ArgTok::Punct(':'),
            ident("Sum"),
            ArgTok::Punct('<'),
            ident("A"),
            ArgTok::Punct(','),
            ident("B"),
            ArgTok::Punct('>'),
        ],
    );
    let d = parse_directive(&toks).unwrap();
    assert_eq!(d.add_bounds.len(), 1);
    match &d.add_bounds[0].bounds[0] {
        Bound::Trait(p) => {
            assert_eq!(p.segments[0].args.len(), 2);
        },
        _ => panic!("expected a trait bound"),
    }
}

#[test]
fn an_arrow_does_not_close_a_bracket() {
    // add_bounds(F: Fn(u32) -> u32, T: Clone): the arrow's `>` must not end
    // a bracket, so the comma after it still splits the two predicates.
    let toks = kw(
        "add_bounds",
        vec![
            ident("F"),
            ArgTok::Punct(':'),
            ident("Fn"),
            ArgTok::Group(Delim::Paren, "u32".to_string()),
            ArgTok::Punct('-'),
            ArgTok::Punct('>'),
            ident("u32"),
            ArgTok::Punct(','),
            ident("T"),
            ArgTok::Punct(':'),
            ident("Clone"),
        ],
    );
    let d = parse_directive(&toks).unwrap();
    assert_eq!(d.add_bounds.len(), 2);
    // The first bound does not parse as a plain trait path and is kept as
    // its verbatim text.
    assert_eq!(d.add_bounds[0].bounds, vec![Bound::Opaque("Fn (u32) - > u32".to_string())]);
}

#[test]
fn multi_segment_paths_parse() {
    // add_bounds(T: std::ops::Add)
    let toks = kw(
        "add_bounds",
        vec![
            ident("T"),
            ArgTok::Punct(':'),
            ident("std"),
            ArgTok::Punct(':'),
            ArgTok::Punct(':'),
            ident("ops"),
            ArgTok::Punct(':'),
            ArgTok::Punct(':'),
            ident("Add"),
        ],
    );
    let d = parse_directive(&toks).unwrap();
    match &d.add_bounds[0].bounds[0] {
        Bound::Trait(p) => {
            let names: Vec<String> = p.segments.iter().map(|s| s.ident.clone()).collect();
            assert_eq!(names, vec!["std".to_string(), "ops".to_string(), "Add".to_string()]);
        },
        _ => panic!("expected a trait bound"),
    }
}
