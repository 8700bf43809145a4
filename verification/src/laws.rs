//! The engine's laws, stated and proved over the same specification
//! functions that the executable pipeline is verified against.

use vstd::prelude::*;

use crate::ast::{
    SpecBound, SpecDirective, SpecGenArg, SpecGenericParam, SpecMethod, SpecMethodAttr,
    SpecPredicate, SpecSegment, SpecSimpleTy, SpecTraitPath, SpecTraitSegment, SpecTypeExpr,
    SpecTypePath,
};
use crate::token::SpecTok;
use crate::directive::{
    add_unique, add_unique_all, empty_directive, kw_transform, spec_first_comma, spec_parse_args,
    spec_parse_directive, spec_parse_idents, spec_parse_one,
};
use crate::engine::{
    kept_attrs, self_ty_supported, shadow_prefix, shadow_self_ty, spec_augment_method,
    spec_method_directive,
};
use crate::transform::{
    archived_segment, attach, baseline_pred, baseline_preds, cleared_param, insert_archived,
    moved_predicates, normalize_params, opt_preds, param_moved, plain_path, project_bound,
    project_gen_arg,
    project_predicate, project_predicates, project_simple_ty, project_trait_path,
    project_trait_segment, project_type_expr, project_type_path, transformed_predicates,
};

verus! {

/// Naming law: the shadow reference of a supported self type keeps every
/// segment, the qualified-self prefix and the trailing generic arguments,
/// and renames the last segment alone, to the fixed prefix followed by the
/// original identifier.
pub proof fn lemma_naming_law(t: SpecTypeExpr)
    requires
        self_ty_supported(t),
    ensures
        ({
            let p = t->Path_0;
            let s = shadow_self_ty(t)->Path_0;
            &&& shadow_self_ty(t) is Path
            &&& s.qself == p.qself
            &&& s.segments.len() == p.segments.len()
            &&& s.segments.last().ident == shadow_prefix() + p.segments.last().ident
            &&& s.segments.last().args == p.segments.last().args
            &&& forall|k: int| 0 <= k < p.segments.len() - 1 ==> s.segments[k] == p.segments[k]
        }),
{
}

// ------------------------------------------------------------------
// Projection under the empty set is the identity.
// ------------------------------------------------------------------

proof fn lemma_type_expr_empty(t: SpecTypeExpr)
    ensures
        project_type_expr(t, Seq::empty()) == t,
{
    match t {
        SpecTypeExpr::Path(p) => {
            match p.qself {
                Some(q) => {
                    assert(project_simple_ty(q.ty, Seq::empty()) == q.ty);
                    assert(project_type_path(p, Seq::empty()) =~~= p);
                },
                None => {
                    assert(insert_archived(p.segments, Seq::empty()) == p.segments);
                    assert(project_type_path(p, Seq::empty()) =~~= p);
                },
            }
        },
        _ => {},
    }
}

proof fn lemma_bound_empty(b: SpecBound)
    ensures
        project_bound(b, Seq::empty()) == b,
{
    match b {
        SpecBound::Trait(p) => {
            assert forall|k: int| 0 <= k < p.segments.len() implies #[trigger] project_trait_segment(
                p.segments[k],
                Seq::empty(),
            ) == p.segments[k] by {
                let s = p.segments[k];
                assert forall|a: int| 0 <= a < s.args.len() implies #[trigger] project_gen_arg(
                    s.args[a],
                    Seq::empty(),
                ) == s.args[a] by {
                    match s.args[a] {
                        SpecGenArg::Ty(t) => lemma_type_expr_empty(t),
                        SpecGenArg::Binding(_n, t) => lemma_type_expr_empty(t),
                        SpecGenArg::Opaque(_) => {},
                    }
                }
                assert(s.args.map_values(|a: SpecGenArg| project_gen_arg(a, Seq::empty()))
                    =~~= s.args);
                assert(project_trait_segment(s, Seq::empty()) =~~= s);
            }
            assert(p.segments.map_values(
                |s: SpecTraitSegment| project_trait_segment(s, Seq::empty()),
            ) =~~= p.segments);
            assert(project_trait_path(p, Seq::empty()) =~~= p);
        },
        SpecBound::Opaque(_) => {},
    }
}

/// Projecting nothing rewrites nothing: one predicate is kept exactly.
pub proof fn lemma_predicate_empty(p: SpecPredicate)
    ensures
        project_predicate(p, Seq::empty()) == p,
{
    lemma_type_expr_empty(p.subject);
    assert forall|k: int| 0 <= k < p.bounds.len() implies #[trigger] project_bound(
        p.bounds[k],
        Seq::empty(),
    ) == p.bounds[k] by {
        lemma_bound_empty(p.bounds[k]);
    }
    assert(p.bounds.map_values(|b: SpecBound| project_bound(b, Seq::empty())) =~~= p.bounds);
    assert(project_predicate(p, Seq::empty()) =~~= p);
}

/// No-directive law: under the empty directive the pipeline adds no baseline
/// and no literal predicate, and the emitted predicate list is the input
/// list after normalization alone.
pub proof fn lemma_no_directive_law(
    preds: Option<Seq<SpecPredicate>>,
    gs: Seq<SpecGenericParam>,
)
    ensures
        transformed_predicates(preds, gs, empty_directive()) == opt_preds(preds)
            + moved_predicates(gs),
{
    let all = opt_preds(preds) + moved_predicates(gs);
    assert forall|k: int| 0 <= k < all.len() implies #[trigger] project_predicate(
        all[k],
        Seq::empty(),
    ) == all[k] by {
        lemma_predicate_empty(all[k]);
    }
    assert(project_predicates(all, Seq::empty()) =~~= all);
    assert(baseline_preds(Seq::empty()) =~~= Seq::<SpecPredicate>::empty());
    assert(transformed_predicates(preds, gs, empty_directive()) =~~= all);
}

/// No-directive law at unit scope: with an empty argument list the
/// invocation succeeds on every supported unit, and the emitted unit-level
/// predicate list is the input list after normalization alone.
pub proof fn lemma_no_directive_unit(u: crate::ast::SpecDeclUnit)
    requires
        self_ty_supported(u.self_ty),
        crate::engine::items_ok(u.items),
    ensures
        crate::engine::spec_archive_impl(Seq::empty(), u) is Ok,
        crate::engine::spec_archive_impl(Seq::empty(), u)->Ok_0.predicates == attach(
            opt_preds(u.predicates) + moved_predicates(u.generics),
        ),
{
    assert(spec_parse_directive(Seq::empty()) == Some(empty_directive()));
    lemma_no_directive_law(u.predicates, u.generics);
}

// ------------------------------------------------------------------
// Projection and untouched parameters.
// ------------------------------------------------------------------

/// Untouched-parameter law: a predicate whose subject root is not a
/// projected parameter, and whose bounds projection does not reach, is
/// emitted unchanged, verbatim.
pub proof fn lemma_untouched_parameter_law(p: SpecPredicate, ps: Seq<Seq<char>>)
    requires
        p.subject is Path,
        p.subject->Path_0.qself is None,
        p.subject->Path_0.segments.len() > 0,
        !ps.contains(p.subject->Path_0.segments[0].ident),
        forall|k: int| 0 <= k < p.bounds.len() ==> #[trigger] project_bound(p.bounds[k], ps)
            == p.bounds[k],
    ensures
        project_predicate(p, ps) == p,
{
    assert(insert_archived(p.subject->Path_0.segments, ps) == p.subject->Path_0.segments);
    assert(project_type_path(p.subject->Path_0, ps) =~~= p.subject->Path_0);
    assert(p.bounds.map_values(|b: SpecBound| project_bound(b, ps)) =~~= p.bounds);
    assert(project_predicate(p, ps) =~~= p);
}

/// Projection law: with one flagged parameter and one predicate whose
/// subject is that bare parameter and whose constraint holds no further
/// occurrence of it, the pipeline emits exactly two predicates — the
/// predicate with its subject rewritten to the parameter's archived
/// associated type, the constraint untouched, and one baseline predicate for
/// the parameter — and nothing else.
pub proof fn lemma_projection_law(t: Seq<char>, bs: Seq<SpecBound>)
    requires
        forall|k: int| 0 <= k < bs.len() ==> #[trigger] project_bound(bs[k], seq![t]) == bs[k],
    ensures
        ({
            let d = SpecDirective { transform_params: seq![t], add_bounds: Seq::empty() };
            let input = SpecPredicate { subject: SpecTypeExpr::Path(plain_path(t)), bounds: bs };
            let out = transformed_predicates(Some(seq![input]), Seq::empty(), d);
            &&& out.len() == 2
            &&& out[0] == SpecPredicate {
                subject: SpecTypeExpr::Path(
                    SpecTypePath {
                        qself: None,
                        segments: seq![
                            SpecSegment { ident: t, args: None },
                            archived_segment(),
                        ],
                    },
                ),
                bounds: bs,
            }
            &&& out[1] == baseline_pred(t)
        }),
{
    let d = SpecDirective { transform_params: seq![t], add_bounds: Seq::empty() };
    let input = SpecPredicate { subject: SpecTypeExpr::Path(plain_path(t)), bounds: bs };
    let all = opt_preds(Some(seq![input])) + moved_predicates(Seq::empty());
    assert(all =~~= seq![input]);
    assert(seq![t].contains(t)) by {
        assert(seq![t][0] == t);
    }
    assert(insert_archived(plain_path(t).segments, seq![t]) =~~= seq![
        SpecSegment { ident: t, args: None },
        archived_segment(),
    ]);
    assert(bs.map_values(|b: SpecBound| project_bound(b, seq![t])) =~~= bs);
    assert(baseline_preds(seq![t]) =~~= seq![baseline_pred(t)]);
    let out = transformed_predicates(Some(seq![input]), Seq::empty(), d);
    assert(out =~~= project_predicates(all, seq![t]) + baseline_preds(seq![t]));
    assert(project_predicates(all, seq![t])[0] == project_predicate(input, seq![t]));
    assert(project_predicate(input, seq![t]) =~~= SpecPredicate {
        subject: SpecTypeExpr::Path(
            SpecTypePath {
                qself: None,
                segments: seq![SpecSegment { ident: t, args: None }, archived_segment()],
            },
        ),
        bounds: bs,
    });
}

// ------------------------------------------------------------------
// Normalization and scoping.
// ------------------------------------------------------------------

/// Normalization law: a generic parameter with an inline bound and an
/// initially absent predicate list yields an emptied inline bound list on
/// the parameter and a predicate list holding exactly the relocated,
/// equivalent predicate.
pub proof fn lemma_normalization_law(id: Seq<char>, bs: Seq<SpecBound>)
    requires
        bs.len() > 0,
    ensures
        normalize_params(seq![SpecGenericParam::Ty(id, bs)]) == seq![
            SpecGenericParam::Ty(id, Seq::<SpecBound>::empty()),
        ],
        opt_preds(None) + moved_predicates(seq![SpecGenericParam::Ty(id, bs)]) == seq![
            SpecPredicate { subject: SpecTypeExpr::Path(plain_path(id)), bounds: bs },
        ],
{
    let g = SpecGenericParam::Ty(id, bs);
    assert(normalize_params(seq![g]) =~~= seq![SpecGenericParam::Ty(id, Seq::<SpecBound>::empty())]);
    assert(seq![g].drop_last() =~~= Seq::<SpecGenericParam>::empty());
    assert(seq![g].last() == g);
    assert(moved_predicates(Seq::<SpecGenericParam>::empty()) =~~= Seq::<SpecPredicate>::empty());
    assert(moved_predicates(seq![g]) == moved_predicates(Seq::<SpecGenericParam>::empty())
        + param_moved(g));
    assert(moved_predicates(seq![g]) =~~= param_moved(g));
    assert(opt_preds(None) + moved_predicates(seq![g]) =~~= seq![
        SpecPredicate { subject: SpecTypeExpr::Path(plain_path(id)), bounds: bs },
    ]);
}

/// Normalization is idempotent: a second run finds every inline bound list
/// already empty, moves nothing and changes nothing.
pub proof fn lemma_normalization_idempotent(gs: Seq<SpecGenericParam>)
    ensures
        normalize_params(normalize_params(gs)) == normalize_params(gs),
        moved_predicates(normalize_params(gs)) == Seq::<SpecPredicate>::empty(),
    decreases gs.len(),
{
    assert(normalize_params(normalize_params(gs)) =~~= normalize_params(gs));
    if gs.len() == 0 {
        assert(moved_predicates(normalize_params(gs)) =~~= Seq::<SpecPredicate>::empty());
    } else {
        lemma_normalization_idempotent(gs.drop_last());
        assert(normalize_params(gs).drop_last() =~~= normalize_params(gs.drop_last()));
        assert(normalize_params(gs).last() == cleared_param(gs.last()));
        assert(param_moved(cleared_param(gs.last())) =~~= Seq::<SpecPredicate>::empty());
        assert(moved_predicates(normalize_params(gs)) =~~= Seq::<SpecPredicate>::empty());
    }
}

// ------------------------------------------------------------------
// The projected set is a set.
// ------------------------------------------------------------------

/// No identifier occurs twice.
pub open spec fn distinct_idents(s: Seq<Seq<char>>) -> bool {
    forall|i: int, j: int| 0 <= i < j < s.len() ==> s[i] != s[j]
}

proof fn lemma_add_unique_distinct(s: Seq<Seq<char>>, id: Seq<char>)
    requires
        distinct_idents(s),
    ensures
        distinct_idents(add_unique(s, id)),
{
    if !s.contains(id) {
        assert forall|i: int| 0 <= i < s.len() implies s[i] != id by {
            if s[i] == id {
                assert(s.contains(id));
            }
        }
    }
}

proof fn lemma_add_unique_all_distinct(s: Seq<Seq<char>>, ids: Seq<Seq<char>>)
    requires
        distinct_idents(s),
    ensures
        distinct_idents(add_unique_all(s, ids)),
    decreases ids.len(),
{
    if ids.len() > 0 {
        lemma_add_unique_distinct(s, ids[0]);
        lemma_add_unique_all_distinct(add_unique(s, ids[0]), ids.drop_first());
    }
}

proof fn lemma_parse_one_distinct(toks: Seq<SpecTok>, i: int, j: int, acc: SpecDirective)
    requires
        distinct_idents(acc.transform_params),
        spec_parse_one(toks, i, j, acc) is Some,
    ensures
        distinct_idents(spec_parse_one(toks, i, j, acc)->Some_0.transform_params),
{
    let kw = toks[i]->Ident_0;
    let inner = toks[i + 1]->Group_1;
    if kw == kw_transform() {
        lemma_add_unique_all_distinct(
            acc.transform_params,
            spec_parse_idents(inner, 0)->Some_0,
        );
    }
}

proof fn lemma_parse_args_distinct(toks: Seq<SpecTok>, i: int, acc: SpecDirective)
    requires
        distinct_idents(acc.transform_params),
        spec_parse_args(toks, i, acc) is Some,
    ensures
        distinct_idents(spec_parse_args(toks, i, acc)->Some_0.transform_params),
    decreases toks.len() - i,
{
    if 0 <= i < toks.len() {
        let c = spec_first_comma(toks, i);
        let acc2 = spec_parse_one(toks, i, c, acc)->Some_0;
        lemma_parse_one_distinct(toks, i, c, acc);
        if c < toks.len() {
            lemma_parse_args_distinct(toks, c + 1, acc2);
        }
    }
}

/// The projected-parameter list of a parsed directive is a set: repeated
/// mentions collapse, and no parameter stands in it twice.
pub proof fn lemma_directive_dedup(toks: Seq<SpecTok>)
    requires
        spec_parse_directive(toks) is Some,
    ensures
        distinct_idents(spec_parse_directive(toks)->Some_0.transform_params),
{
    lemma_parse_args_distinct(toks, 0, empty_directive());
}

/// A method without markers has the empty directive.
proof fn lemma_no_marker_directive(attrs: Seq<SpecMethodAttr>, acc: SpecDirective)
    requires
        forall|k: int| 0 <= k < attrs.len() ==> !(#[trigger] attrs[k] is Marker),
    ensures
        spec_method_directive(attrs, acc) == Some(acc),
        kept_attrs(attrs) == attrs,
    decreases attrs.len(),
{
    if attrs.len() == 0 {
        assert(kept_attrs(attrs) =~~= attrs);
    } else {
        assert(!(attrs[0] is Marker));
        lemma_no_marker_directive(attrs.drop_first(), acc);
        assert(!(attrs.last() is Marker));
        lemma_no_marker_directive(attrs.drop_last(), acc);
        assert(kept_attrs(attrs) =~~= kept_attrs(attrs.drop_last()) + seq![attrs.last()]);
        assert(kept_attrs(attrs) =~~= attrs.drop_last() + seq![attrs.last()]);
        assert(attrs.drop_last() + seq![attrs.last()] =~~= attrs);
    }
}

/// Scoping law: the unit directive never reaches a method. A method carrying
/// no marker of its own is augmented under the empty directive, whatever was
/// flagged at unit scope: its generic parameters — even one named like a
/// projected unit parameter — are only normalized, no predicate of its own
/// is projected, and no baseline or literal predicate is added to it.
pub proof fn lemma_scoping_law(m: SpecMethod)
    requires
        forall|k: int| 0 <= k < m.attrs.len() ==> !(#[trigger] m.attrs[k] is Marker),
    ensures
        spec_method_directive(m.attrs, empty_directive()) == Some(empty_directive()),
        spec_augment_method(m) == (SpecMethod {
            attrs: m.attrs,
            sig: m.sig,
            generics: normalize_params(m.generics),
            predicates: attach(opt_preds(m.predicates) + moved_predicates(m.generics)),
            body: m.body,
        }),
{
    lemma_no_marker_directive(m.attrs, empty_directive());
    lemma_no_directive_law(m.predicates, m.generics);
    assert(spec_augment_method(m) =~~= SpecMethod {
        attrs: m.attrs,
        sig: m.sig,
        generics: normalize_params(m.generics),
        predicates: attach(opt_preds(m.predicates) + moved_predicates(m.generics)),
        body: m.body,
    });
}

} // verus!
