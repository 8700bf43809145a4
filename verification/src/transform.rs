//! Bound rewriting: generic-list normalization, parameter projection and
//! bound augmentation.
//!
//! Projection rewrites a type path whose root segment names a projected
//! parameter `T` into `T::Archived`, the parameter's archived associated
//! type. Only root positions are rewritten: a path standing as the subject of
//! a predicate, as the qualified-self type of such a subject, or as a direct
//! generic argument of a trait bound. A parameter nested deeper (inside the
//! generic arguments of another type path) is deliberately left alone.

use vstd::prelude::*;

use crate::archived_member;
use crate::ast::{
    bounds_view, clone_bounds, clone_predicates, clone_segments, contains_ident, idents_view,
    opt_preds_view,
    params_view, preds_view, segs_view, Bound, Directive, GenArg, GenericParam, Predicate,
    QualSelf, Segment, SimpleTy, SpecBound, SpecDirective, SpecGenArg, SpecGenericParam,
    SpecPredicate, SpecQualSelf, SpecSegment, SpecSimpleTy, SpecTraitPath, SpecTraitSegment,
    SpecTypeExpr, SpecTypePath, TraitPath, TraitSegment, TypeExpr, TypePath,
};

verus! {

/// The trait every projected parameter must support; one baseline predicate
/// `T: Archive` is injected per projected parameter.
pub open spec fn baseline_trait() -> Seq<char> {
    "Archive"@
}

/// The path segment `Archived` inserted by projection.
pub open spec fn archived_segment() -> SpecSegment {
    SpecSegment { ident: archived_member(), args: None }
}

/// The plain, unqualified, argument-free path holding one identifier.
pub open spec fn plain_path(id: Seq<char>) -> SpecTypePath {
    SpecTypePath { qself: None, segments: seq![SpecSegment { ident: id, args: None }] }
}

/// Inserts `Archived` behind the root segment when the root names a
/// projected parameter.
pub open spec fn insert_archived(segs: Seq<SpecSegment>, ps: Seq<Seq<char>>) -> Seq<SpecSegment> {
    if segs.len() > 0 && ps.contains(segs[0].ident) {
        segs.subrange(0, 1) + seq![archived_segment()] + segs.subrange(1, segs.len() as int)
    } else {
        segs
    }
}

/// Projection of a qualified-self type.
pub open spec fn project_simple_ty(t: SpecSimpleTy, ps: Seq<Seq<char>>) -> SpecSimpleTy {
    match t {
        SpecSimpleTy::Path(segs) => SpecSimpleTy::Path(insert_archived(segs, ps)),
        SpecSimpleTy::Opaque(s) => SpecSimpleTy::Opaque(s),
    }
}

/// Projection of a type path: a qualified path is rewritten only in its
/// qualified-self type, an unqualified one only at its root segment.
pub open spec fn project_type_path(p: SpecTypePath, ps: Seq<Seq<char>>) -> SpecTypePath {
    match p.qself {
        Some(q) => SpecTypePath {
            qself: Some(SpecQualSelf { ty: project_simple_ty(q.ty, ps), pos: q.pos }),
            segments: p.segments,
        },
        None => SpecTypePath { qself: None, segments: insert_archived(p.segments, ps) },
    }
}

/// Projection of a type expression; non-path shapes are left alone.
pub open spec fn project_type_expr(t: SpecTypeExpr, ps: Seq<Seq<char>>) -> SpecTypeExpr {
    match t {
        SpecTypeExpr::Path(p) => SpecTypeExpr::Path(project_type_path(p, ps)),
        SpecTypeExpr::Lifetime(s) => SpecTypeExpr::Lifetime(s),
        SpecTypeExpr::Opaque(s) => SpecTypeExpr::Opaque(s),
    }
}

/// Projection of one direct generic argument of a trait bound.
pub open spec fn project_gen_arg(a: SpecGenArg, ps: Seq<Seq<char>>) -> SpecGenArg {
    match a {
        SpecGenArg::Ty(t) => SpecGenArg::Ty(project_type_expr(t, ps)),
        SpecGenArg::Binding(n, t) => SpecGenArg::Binding(n, project_type_expr(t, ps)),
        SpecGenArg::Opaque(s) => SpecGenArg::Opaque(s),
    }
}

/// Projection inside one segment of a trait-bound path.
pub open spec fn project_trait_segment(s: SpecTraitSegment, ps: Seq<Seq<char>>) -> SpecTraitSegment {
    SpecTraitSegment { ident: s.ident, args: s.args.map_values(|a: SpecGenArg| project_gen_arg(a, ps)) }
}

/// Projection inside a trait-bound path. The trait path itself is never
/// renamed; only type paths standing in its argument lists are.
pub open spec fn project_trait_path(p: SpecTraitPath, ps: Seq<Seq<char>>) -> SpecTraitPath {
    SpecTraitPath { segments: p.segments.map_values(|s: SpecTraitSegment| project_trait_segment(s, ps)) }
}

/// Projection of one bound.
pub open spec fn project_bound(b: SpecBound, ps: Seq<Seq<char>>) -> SpecBound {
    match b {
        SpecBound::Trait(p) => SpecBound::Trait(project_trait_path(p, ps)),
        SpecBound::Opaque(s) => SpecBound::Opaque(s),
    }
}

/// Projection of one predicate: the subject's root and the direct arguments
/// of its trait bounds.
pub open spec fn project_predicate(p: SpecPredicate, ps: Seq<Seq<char>>) -> SpecPredicate {
    SpecPredicate {
        subject: project_type_expr(p.subject, ps),
        bounds: p.bounds.map_values(|b: SpecBound| project_bound(b, ps)),
    }
}

/// Projection of a whole predicate list.
pub open spec fn project_predicates(l: Seq<SpecPredicate>, ps: Seq<Seq<char>>) -> Seq<SpecPredicate> {
    l.map_values(|p: SpecPredicate| project_predicate(p, ps))
}

// ------------------------------------------------------------------
// Normalization.
// ------------------------------------------------------------------

/// A generic parameter with its inline bound list emptied.
pub open spec fn cleared_param(g: SpecGenericParam) -> SpecGenericParam {
    match g {
        SpecGenericParam::Ty(id, _bs) => SpecGenericParam::Ty(id, Seq::empty()),
        SpecGenericParam::Lifetime(id, _bs) => SpecGenericParam::Lifetime(id, Seq::empty()),
        SpecGenericParam::Opaque(s) => SpecGenericParam::Opaque(s),
    }
}

/// Every generic parameter with its inline bounds emptied.
pub open spec fn normalize_params(gs: Seq<SpecGenericParam>) -> Seq<SpecGenericParam> {
    gs.map_values(|g: SpecGenericParam| cleared_param(g))
}

/// The predicate equivalent to one parameter's inline bounds: none when the
/// parameter carries no inline bound.
pub open spec fn param_moved(g: SpecGenericParam) -> Seq<SpecPredicate> {
    match g {
        SpecGenericParam::Ty(id, bs) => if bs.len() > 0 {
            seq![SpecPredicate { subject: SpecTypeExpr::Path(plain_path(id)), bounds: bs }]
        } else {
            Seq::empty()
        },
        SpecGenericParam::Lifetime(id, bs) => if bs.len() > 0 {
            seq![SpecPredicate { subject: SpecTypeExpr::Lifetime(id), bounds: bs }]
        } else {
            Seq::empty()
        },
        SpecGenericParam::Opaque(_s) => Seq::empty(),
    }
}

/// The predicates relocated from inline bounds, in parameter order.
pub open spec fn moved_predicates(gs: Seq<SpecGenericParam>) -> Seq<SpecPredicate>
    decreases gs.len(),
{
    if gs.len() == 0 {
        Seq::empty()
    } else {
        moved_predicates(gs.drop_last()) + param_moved(gs.last())
    }
}

// ------------------------------------------------------------------
// Augmentation.
// ------------------------------------------------------------------

/// A predicate list that may be absent.
pub open spec fn opt_preds(o: Option<Seq<SpecPredicate>>) -> Seq<SpecPredicate> {
    match o {
        Some(ps) => ps,
        None => Seq::empty(),
    }
}

/// No predicate list is attached when there is nothing to hold.
pub open spec fn attach(ps: Seq<SpecPredicate>) -> Option<Seq<SpecPredicate>> {
    if ps.len() == 0 {
        None
    } else {
        Some(ps)
    }
}

/// The baseline predicate of one projected parameter: the parameter supports
/// projection.
pub open spec fn baseline_pred(id: Seq<char>) -> SpecPredicate {
    SpecPredicate {
        subject: SpecTypeExpr::Path(plain_path(id)),
        bounds: seq![
            SpecBound::Trait(
                SpecTraitPath {
                    segments: seq![SpecTraitSegment { ident: baseline_trait(), args: Seq::empty() }],
                },
            ),
        ],
    }
}

/// One baseline predicate per projected parameter, in first-mention order.
pub open spec fn baseline_preds(ps: Seq<Seq<char>>) -> Seq<SpecPredicate> {
    ps.map_values(|id: Seq<char>| baseline_pred(id))
}

/// The full predicate list of one scope after the pipeline: the scope's own
/// predicates joined with the relocated inline bounds, both projected, then
/// the directive's literal predicates, then the baseline predicates.
pub open spec fn transformed_predicates(
    preds: Option<Seq<SpecPredicate>>,
    gs: Seq<SpecGenericParam>,
    d: SpecDirective,
) -> Seq<SpecPredicate> {
    project_predicates(opt_preds(preds) + moved_predicates(gs), d.transform_params)
        + d.add_bounds + baseline_preds(d.transform_params)
}

// ------------------------------------------------------------------
// Executable rewriting.
// ------------------------------------------------------------------

/// The string `Archived`.
fn archived_string() -> (r: String)
    ensures
        r@ == archived_member(),
{
    "Archived".to_owned()
}

fn project_segments(segs: &Vec<Segment>, ps: &Vec<String>) -> (r: Vec<Segment>)
    ensures
        segs_view(r@) == insert_archived(segs_view(segs@), idents_view(ps@)),
{
    let mut r = clone_segments(segs);
    if r.len() > 0 && contains_ident(ps, &r[0].ident) {
        r.insert(1, Segment { ident: archived_string(), args: None });
        proof {
            assert(segs_view(r@) =~~= segs_view(segs@).subrange(0, 1) + seq![archived_segment()]
                + segs_view(segs@).subrange(1, segs_view(segs@).len() as int));
        }
    }
    r
}

fn project_simple_ty_x(t: &SimpleTy, ps: &Vec<String>) -> (r: SimpleTy)
    ensures
        r@ == project_simple_ty(t@, idents_view(ps@)),
{
    match t {
        SimpleTy::Path(segs) => SimpleTy::Path(project_segments(segs, ps)),
        SimpleTy::Opaque(s) => SimpleTy::Opaque(s.clone()),
    }
}

fn project_type_path_x(p: &TypePath, ps: &Vec<String>) -> (r: TypePath)
    ensures
        r@ == project_type_path(p@, idents_view(ps@)),
{
    match &p.qself {
        Some(q) => TypePath {
            qself: Some(QualSelf { ty: project_simple_ty_x(&q.ty, ps), pos: q.pos }),
            segments: clone_segments(&p.segments),
        },
        None => TypePath { qself: None, segments: project_segments(&p.segments, ps) },
    }
}

fn project_type_expr_x(t: &TypeExpr, ps: &Vec<String>) -> (r: TypeExpr)
    ensures
        r@ == project_type_expr(t@, idents_view(ps@)),
{
    match t {
        TypeExpr::Path(p) => TypeExpr::Path(project_type_path_x(p, ps)),
        TypeExpr::Lifetime(s) => TypeExpr::Lifetime(s.clone()),
        TypeExpr::Opaque(s) => TypeExpr::Opaque(s.clone()),
    }
}

fn project_gen_arg_x(a: &GenArg, ps: &Vec<String>) -> (r: GenArg)
    ensures
        r@ == project_gen_arg(a@, idents_view(ps@)),
{
    match a {
        GenArg::Ty(t) => GenArg::Ty(project_type_expr_x(t, ps)),
        GenArg::Binding(n, t) => GenArg::Binding(n.clone(), project_type_expr_x(t, ps)),
        GenArg::Opaque(s) => GenArg::Opaque(s.clone()),
    }
}

fn project_trait_segment_x(s: &TraitSegment, ps: &Vec<String>) -> (r: TraitSegment)
    ensures
        r@ == project_trait_segment(s@, idents_view(ps@)),
{
    let mut args: Vec<GenArg> = Vec::new();
    let mut i: usize = 0;
    while i < s.args.len()
        invariant
            i <= s.args@.len(),
            args@.len() == i,
            forall|k: int|
                0 <= k < i ==> #[trigger] args@[k]@ == project_gen_arg(
                    s.args@[k]@,
                    idents_view(ps@),
                ),
        decreases s.args@.len() - i,
    {
        args.push(project_gen_arg_x(&s.args[i], ps));
        i += 1;
    }
    proof {
        assert(args@.map_values(|a: GenArg| a@) =~~= s@.args.map_values(
            |a: SpecGenArg| project_gen_arg(a, idents_view(ps@)),
        ));
    }
    TraitSegment { ident: s.ident.clone(), args }
}

fn project_trait_path_x(p: &TraitPath, ps: &Vec<String>) -> (r: TraitPath)
    ensures
        r@ == project_trait_path(p@, idents_view(ps@)),
{
    let mut segments: Vec<TraitSegment> = Vec::new();
    let mut i: usize = 0;
    while i < p.segments.len()
        invariant
            i <= p.segments@.len(),
            segments@.len() == i,
            forall|k: int|
                0 <= k < i ==> #[trigger] segments@[k]@ == project_trait_segment(
                    p.segments@[k]@,
                    idents_view(ps@),
                ),
        decreases p.segments@.len() - i,
    {
        segments.push(project_trait_segment_x(&p.segments[i], ps));
        i += 1;
    }
    proof {
        assert(segments@.map_values(|s: TraitSegment| s@) =~~= p@.segments.map_values(
            |s: SpecTraitSegment| project_trait_segment(s, idents_view(ps@)),
        ));
    }
    TraitPath { segments }
}

fn project_bound_x(b: &Bound, ps: &Vec<String>) -> (r: Bound)
    ensures
        r@ == project_bound(b@, idents_view(ps@)),
{
    match b {
        Bound::Trait(p) => Bound::Trait(project_trait_path_x(p, ps)),
        Bound::Opaque(s) => Bound::Opaque(s.clone()),
    }
}

/// Rewrites one predicate for the projected parameters.
pub fn project_predicate_x(p: &Predicate, ps: &Vec<String>) -> (r: Predicate)
    ensures
        r@ == project_predicate(p@, idents_view(ps@)),
{
    let mut bounds: Vec<Bound> = Vec::new();
    let mut i: usize = 0;
    while i < p.bounds.len()
        invariant
            i <= p.bounds@.len(),
            bounds@.len() == i,
            forall|k: int|
                0 <= k < i ==> #[trigger] bounds@[k]@ == project_bound(
                    p.bounds@[k]@,
                    idents_view(ps@),
                ),
        decreases p.bounds@.len() - i,
    {
        bounds.push(project_bound_x(&p.bounds[i], ps));
        i += 1;
    }
    proof {
        assert(bounds_view(bounds@) =~~= p@.bounds.map_values(
            |b: SpecBound| project_bound(b, idents_view(ps@)),
        ));
    }
    Predicate { subject: project_type_expr_x(&p.subject, ps), bounds }
}

/// Rewrites a whole predicate list for the projected parameters.
pub fn project_predicates_x(l: &Vec<Predicate>, ps: &Vec<String>) -> (r: Vec<Predicate>)
    ensures
        preds_view(r@) == project_predicates(preds_view(l@), idents_view(ps@)),
{
    let mut r: Vec<Predicate> = Vec::new();
    let mut i: usize = 0;
    while i < l.len()
        invariant
            i <= l@.len(),
            r@.len() == i,
            forall|k: int|
                0 <= k < i ==> #[trigger] r@[k]@ == project_predicate(
                    l@[k]@,
                    idents_view(ps@),
                ),
        decreases l@.len() - i,
    {
        r.push(project_predicate_x(&l[i], ps));
        i += 1;
    }
    proof {
        assert(preds_view(r@) =~~= project_predicates(preds_view(l@), idents_view(ps@)));
    }
    r
}

/// Builds the plain, unqualified, argument-free path holding one identifier.
pub fn plain_path_x(id: &String) -> (r: TypePath)
    ensures
        r@ == plain_path(id@),
{
    let mut segments: Vec<Segment> = Vec::new();
    segments.push(Segment { ident: id.clone(), args: None });
    let r = TypePath { qself: None, segments };
    proof {
        assert(r@.segments =~~= plain_path(id@).segments);
        assert(r@ =~~= plain_path(id@));
    }
    r
}

/// Builds the baseline predicate of one projected parameter.
pub fn baseline_pred_x(id: &String) -> (r: Predicate)
    ensures
        r@ == baseline_pred(id@),
{
    let mut trait_segments: Vec<TraitSegment> = Vec::new();
    trait_segments.push(TraitSegment { ident: "Archive".to_owned(), args: Vec::new() });
    let mut bounds: Vec<Bound> = Vec::new();
    bounds.push(Bound::Trait(TraitPath { segments: trait_segments }));
    let r = Predicate { subject: TypeExpr::Path(plain_path_x(id)), bounds };
    proof {
        assert(r@ =~~= baseline_pred(id@));
    }
    r
}

/// Empties every inline bound list, returning the cleared parameters and the
/// equivalent relocated predicates.
pub fn normalize_generics(generics: &Vec<GenericParam>) -> (r: (Vec<GenericParam>, Vec<Predicate>))
    ensures
        params_view(r.0@) == normalize_params(params_view(generics@)),
        preds_view(r.1@) == moved_predicates(params_view(generics@)),
{
    let mut cleared: Vec<GenericParam> = Vec::new();
    let mut moved: Vec<Predicate> = Vec::new();
    let mut i: usize = 0;
    while i < generics.len()
        invariant
            i <= generics@.len(),
            cleared@.len() == i,
            forall|k: int|
                0 <= k < i ==> #[trigger] cleared@[k]@ == cleared_param(generics@[k]@),
            preds_view(moved@) =~~= moved_predicates(params_view(generics@).subrange(0, i as int)),
        decreases generics@.len() - i,
    {
        let ghost prefix = params_view(generics@).subrange(0, i as int);
        match &generics[i] {
            GenericParam::Ty(id, bs) => {
                let c = GenericParam::Ty(id.clone(), Vec::new());
                assert(c@ =~~= cleared_param(generics@[i as int]@));
                cleared.push(c);
                if bs.len() > 0 {
                    let moved_pred = Predicate {
                        subject: TypeExpr::Path(plain_path_x(id)),
                        bounds: clone_bounds(bs),
                    };
                    assert(moved_pred@ =~~= param_moved(generics@[i as int]@)[0]);
                    moved.push(moved_pred);
                }
            },
            GenericParam::Lifetime(id, bs) => {
                let c = GenericParam::Lifetime(id.clone(), Vec::new());
                assert(c@ =~~= cleared_param(generics@[i as int]@));
                cleared.push(c);
                if bs.len() > 0 {
                    let moved_pred = Predicate {
                        subject: TypeExpr::Lifetime(id.clone()),
                        bounds: clone_bounds(bs),
                    };
                    assert(moved_pred@ =~~= param_moved(generics@[i as int]@)[0]);
                    moved.push(moved_pred);
                }
            },
            GenericParam::Opaque(s) => {
                let c = GenericParam::Opaque(s.clone());
                assert(c@ =~~= cleared_param(generics@[i as int]@));
                cleared.push(c);
            },
        }
        i += 1;
        proof {
            let after = params_view(generics@).subrange(0, i as int);
            assert(after.drop_last() =~~= prefix);
            assert(after.last() == generics@[i - 1]@);
            assert(preds_view(moved@) =~~= moved_predicates(after));
        }
    }
    proof {
        assert(params_view(generics@).subrange(0, generics@.len() as int) =~~= params_view(
            generics@,
        ));
        assert(params_view(cleared@) =~~= normalize_params(params_view(generics@)));
    }
    (cleared, moved)
}

/// The baseline predicates of the projected parameters, in order.
pub fn baseline_preds_x(ps: &Vec<String>) -> (r: Vec<Predicate>)
    ensures
        preds_view(r@) == baseline_preds(idents_view(ps@)),
{
    let mut r: Vec<Predicate> = Vec::new();
    let mut i: usize = 0;
    while i < ps.len()
        invariant
            i <= ps@.len(),
            r@.len() == i,
            forall|k: int| 0 <= k < i ==> #[trigger] r@[k]@ == baseline_pred(idents_view(ps@)[k]),
        decreases ps@.len() - i,
    {
        let p = baseline_pred_x(&ps[i]);
        r.push(p);
        i += 1;
    }
    proof {
        assert(preds_view(r@) =~~= baseline_preds(idents_view(ps@)));
    }
    r
}

/// Applies the whole pipeline of one scope to its generic parameters and
/// predicate list: normalization, projection, then augmentation with the
/// directive's literal and baseline predicates.
pub fn transform_scope(
    generics: &Vec<GenericParam>,
    preds: &Option<Vec<Predicate>>,
    d: &Directive,
) -> (r: (Vec<GenericParam>, Option<Vec<Predicate>>))
    ensures
        params_view(r.0@) == normalize_params(params_view(generics@)),
        opt_preds_view(r.1) == attach(
            transformed_predicates(opt_preds_view(*preds), params_view(generics@), d@),
        ),
{
    let (cleared, mut moved) = normalize_generics(generics);
    let mut all: Vec<Predicate> = match preds {
        Some(ps) => clone_predicates(ps),
        None => Vec::new(),
    };
    let ghost own = opt_preds(opt_preds_view(*preds));
    assert(preds_view(all@) =~~= own);
    all.append(&mut moved);
    assert(preds_view(all@) =~~= own + moved_predicates(params_view(generics@)));
    let mut projected = project_predicates_x(&all, &d.transform_params);
    let mut literal = clone_predicates(&d.add_bounds);
    projected.append(&mut literal);
    let mut baselines = baseline_preds_x(&d.transform_params);
    projected.append(&mut baselines);
    proof {
        assert(preds_view(projected@) =~~= transformed_predicates(
            opt_preds_view(*preds),
            params_view(generics@),
            d@,
        ));
    }
    if projected.len() == 0 {
        (cleared, None)
    } else {
        (cleared, Some(projected))
    }
}

} // verus!
