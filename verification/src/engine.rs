//! The engine's entry points: rewriting the self type, augmenting each
//! method under its own directive, and assembling the emitted pair of
//! declaration units.

use vstd::prelude::*;

use crate::ast::{
    attrs_view, clone_opt_string, clone_segments, items_view, opt_preds_view, params_view,
    DeclUnit, Directive, Method, MethodAttr, QualSelf, Segment, SpecDeclUnit, SpecDirective,
    SpecMethod, SpecMethodAttr, SpecSegment, SpecTypeExpr, SpecTypePath, SpecUnitItem,
    TransformError, TypeExpr, TypePath, UnitItem,
};
use crate::directive::{empty_directive, parse_args_x, parse_directive, spec_parse_args,
    spec_parse_directive};
use crate::token::{toks_view, Tok};
use crate::transform::{attach, normalize_params, transform_scope, transformed_predicates};

verus! {

/// The prefix of the shadow type's name: for a self type whose last segment
/// is `Name`, the derived declaration unit is written for `ArchivedName`.
pub open spec fn shadow_prefix() -> Seq<char> {
    "Archived"@
}

/// The segments of a path with the last segment renamed to its shadow name;
/// the last segment's generic arguments are preserved.
pub open spec fn shadow_segments(segs: Seq<SpecSegment>) -> Seq<SpecSegment> {
    segs.update(
        segs.len() - 1,
        SpecSegment { ident: shadow_prefix() + segs.last().ident, args: segs.last().args },
    )
}

/// Whether a self-type reference has the one supported shape: a path with at
/// least one segment.
pub open spec fn self_ty_supported(t: SpecTypeExpr) -> bool {
    t is Path && t->Path_0.segments.len() > 0
}

/// The shadow self-type reference: identical in every segment but the last.
pub open spec fn shadow_self_ty(t: SpecTypeExpr) -> SpecTypeExpr {
    match t {
        SpecTypeExpr::Path(p) => SpecTypeExpr::Path(
            SpecTypePath { qself: p.qself, segments: shadow_segments(p.segments) },
        ),
        _ => t,
    }
}

/// The directive gathered from a method's markers, merged in order; nothing
/// when any marker's argument list is malformed.
pub open spec fn spec_method_directive(attrs: Seq<SpecMethodAttr>, acc: SpecDirective) -> Option<
    SpecDirective,
>
    decreases attrs.len(),
{
    if attrs.len() == 0 {
        Some(acc)
    } else {
        match attrs[0] {
            SpecMethodAttr::Marker(ts) => match spec_parse_args(ts, 0, acc) {
                Some(acc2) => spec_method_directive(attrs.drop_first(), acc2),
                None => None,
            },
            SpecMethodAttr::Opaque(_) => spec_method_directive(attrs.drop_first(), acc),
        }
    }
}

/// A method's attributes with every marker stripped: the marker is not
/// meaningful syntax past this point.
pub open spec fn kept_attrs(attrs: Seq<SpecMethodAttr>) -> Seq<SpecMethodAttr>
    decreases attrs.len(),
{
    if attrs.len() == 0 {
        Seq::empty()
    } else {
        kept_attrs(attrs.drop_last()) + (if attrs.last() is Marker {
            Seq::empty()
        } else {
            seq![attrs.last()]
        })
    }
}

/// One method after augmentation under its own directive: markers stripped,
/// generics normalized, predicates rewritten; signature and body untouched.
/// Meaningful only when the method's directive parses.
pub open spec fn spec_augment_method(m: SpecMethod) -> SpecMethod {
    let d = spec_method_directive(m.attrs, empty_directive())->Some_0;
    SpecMethod {
        attrs: kept_attrs(m.attrs),
        sig: m.sig,
        generics: normalize_params(m.generics),
        predicates: attach(transformed_predicates(m.predicates, m.generics, d)),
        body: m.body,
    }
}

/// One unit item after augmentation; a non-method item passes through.
pub open spec fn spec_augment_item(it: SpecUnitItem) -> SpecUnitItem {
    match it {
        SpecUnitItem::Method(m) => SpecUnitItem::Method(spec_augment_method(m)),
        SpecUnitItem::Opaque(s) => SpecUnitItem::Opaque(s),
    }
}

/// Whether every method's directive parses.
pub open spec fn items_ok(items: Seq<SpecUnitItem>) -> bool {
    forall|k: int|
        0 <= k < items.len() && items[k] is Method ==> spec_method_directive(
            #[trigger] items[k]->Method_0.attrs,
            empty_directive(),
        ) is Some
}

/// The derived declaration unit: the shadow self type, the original
/// parameter names with emptied inline bounds, the rewritten predicate list,
/// and every method augmented under its own directive. Attributes, an
/// interface reference, non-method items, method signatures and bodies are
/// carried over unchanged.
pub open spec fn spec_shadow_unit(u: SpecDeclUnit, d: SpecDirective) -> SpecDeclUnit {
    SpecDeclUnit {
        attrs: u.attrs,
        generics: normalize_params(u.generics),
        trait_ref: u.trait_ref,
        self_ty: shadow_self_ty(u.self_ty),
        predicates: attach(transformed_predicates(u.predicates, u.generics, d)),
        items: u.items.map_values(|it: SpecUnitItem| spec_augment_item(it)),
    }
}

/// What one invocation of the engine means: the derived unit, or the first
/// error found. The directive is parsed first, then the self type is
/// checked, then every method's directive.
pub open spec fn spec_archive_impl(args: Seq<crate::token::SpecTok>, u: SpecDeclUnit) -> Result<
    SpecDeclUnit,
    TransformError,
> {
    match spec_parse_directive(args) {
        None => Err(TransformError::MalformedDirective),
        Some(d) => if !self_ty_supported(u.self_ty) {
            Err(TransformError::UnsupportedSelfType)
        } else if !items_ok(u.items) {
            Err(TransformError::MalformedDirective)
        } else {
            Ok(spec_shadow_unit(u, d))
        },
    }
}

// ------------------------------------------------------------------
// Executable engine.
// ------------------------------------------------------------------

/// Computes the shadow self-type reference, or rejects a self type that is
/// not a path.
pub fn shadow_self_type(t: &TypeExpr) -> (r: Result<TypeExpr, TransformError>)
    ensures
        r is Ok <==> self_ty_supported(t@),
        r matches Ok(s) ==> s@ == shadow_self_ty(t@),
        r matches Err(e) ==> e == TransformError::UnsupportedSelfType,
{
    match t {
        TypeExpr::Path(p) => {
            let n = p.segments.len();
            if n == 0 {
                return Err(TransformError::UnsupportedSelfType);
            }
            let mut segments = clone_segments(&p.segments);
            let mut name: String = "Archived".to_owned();
            name.append(p.segments[n - 1].ident.as_str());
            let new_last = Segment { ident: name, args: clone_opt_string(&p.segments[n - 1].args) };
            segments.set(n - 1, new_last);
            let qself = match &p.qself {
                Some(q) => Some(q.clone()),
                None => None,
            };
            let out = TypeExpr::Path(TypePath { qself, segments });
            proof {
                assert(out@->Path_0.segments =~~= shadow_segments(t@->Path_0.segments));
                assert(out@ =~~= shadow_self_ty(t@));
            }
            Ok(out)
        },
        _ => Err(TransformError::UnsupportedSelfType),
    }
}

/// Gathers a method's directive from its markers.
fn method_directive(attrs: &Vec<MethodAttr>) -> (r: Result<Directive, TransformError>)
    ensures
        r is Ok <==> spec_method_directive(attrs_view(attrs@), empty_directive()) is Some,
        r matches Ok(d) ==> Some(d@) == spec_method_directive(attrs_view(attrs@), empty_directive()),
        r matches Err(e) ==> e == TransformError::MalformedDirective,
{
    let mut acc = Directive { transform_params: Vec::new(), add_bounds: Vec::new() };
    proof {
        assert(acc@.transform_params =~~= empty_directive().transform_params);
        assert(acc@.add_bounds =~~= empty_directive().add_bounds);
        assert(acc@ =~~= empty_directive());
        assert(attrs_view(attrs@).skip(0) =~~= attrs_view(attrs@));
    }
    let mut k: usize = 0;
    while k < attrs.len()
        invariant
            k <= attrs@.len(),
            spec_method_directive(attrs_view(attrs@), empty_directive())
                == spec_method_directive(attrs_view(attrs@).skip(k as int), acc@),
        decreases attrs@.len() - k,
    {
        let ghost pre = attrs_view(attrs@).skip(k as int);
        match &attrs[k] {
            MethodAttr::Marker(ts) => {
                match parse_args_x(ts, 0, acc) {
                    Some(acc2) => {
                        acc = acc2;
                    },
                    None => {
                        proof {
                            assert(pre[0] == attrs_view(attrs@)[k as int]);
                        }
                        return Err(TransformError::MalformedDirective);
                    },
                }
            },
            MethodAttr::Opaque(_) => {},
        }
        k += 1;
        proof {
            assert(pre[0] == attrs_view(attrs@)[k - 1]);
            assert(pre.drop_first() =~~= attrs_view(attrs@).skip(k as int));
        }
    }
    proof {
        assert(attrs_view(attrs@).skip(attrs@.len() as int) =~~= Seq::<SpecMethodAttr>::empty());
    }
    Ok(acc)
}

/// A method's attributes with every marker stripped.
fn kept_attrs_x(attrs: &Vec<MethodAttr>) -> (r: Vec<MethodAttr>)
    ensures
        attrs_view(r@) == kept_attrs(attrs_view(attrs@)),
{
    let mut out: Vec<MethodAttr> = Vec::new();
    let mut k: usize = 0;
    while k < attrs.len()
        invariant
            k <= attrs@.len(),
            attrs_view(out@) =~~= kept_attrs(attrs_view(attrs@).subrange(0, k as int)),
        decreases attrs@.len() - k,
    {
        let ghost prefix = attrs_view(attrs@).subrange(0, k as int);
        match &attrs[k] {
            MethodAttr::Marker(_) => {},
            MethodAttr::Opaque(s) => {
                out.push(MethodAttr::Opaque(s.clone()));
            },
        }
        k += 1;
        proof {
            let cur = attrs_view(attrs@).subrange(0, k as int);
            assert(cur.drop_last() =~~= prefix);
            assert(cur.last() == attrs_view(attrs@)[k - 1]);
            assert(attrs_view(out@) =~~= kept_attrs(cur));
        }
    }
    proof {
        assert(attrs_view(attrs@).subrange(0, attrs@.len() as int) =~~= attrs_view(attrs@));
    }
    out
}

/// Augments one method under its own directive.
fn augment_method(m: &Method) -> (r: Result<Method, TransformError>)
    ensures
        r is Ok <==> spec_method_directive(m@.attrs, empty_directive()) is Some,
        r matches Ok(m2) ==> m2@ == spec_augment_method(m@),
        r matches Err(e) ==> e == TransformError::MalformedDirective,
{
    let d = match method_directive(&m.attrs) {
        Ok(d) => d,
        Err(e) => {
            return Err(e);
        },
    };
    let (generics, predicates) = transform_scope(&m.generics, &m.predicates, &d);
    let out = Method {
        attrs: kept_attrs_x(&m.attrs),
        sig: m.sig.clone(),
        generics,
        predicates,
        body: m.body.clone(),
    };
    proof {
        assert(out@ =~~= spec_augment_method(m@));
    }
    Ok(out)
}

/// Augments every method of the unit; non-method items pass through.
fn augment_items(items: &Vec<UnitItem>) -> (r: Result<Vec<UnitItem>, TransformError>)
    ensures
        r is Ok <==> items_ok(items_view(items@)),
        r matches Ok(v) ==> items_view(v@) == items_view(items@).map_values(
            |it: SpecUnitItem| spec_augment_item(it),
        ),
        r matches Err(e) ==> e == TransformError::MalformedDirective,
{
    let mut out: Vec<UnitItem> = Vec::new();
    let mut k: usize = 0;
    while k < items.len()
        invariant
            k <= items@.len(),
            out@.len() == k,
            forall|j: int|
                0 <= j < k ==> #[trigger] out@[j]@ == spec_augment_item(items@[j]@),
            forall|j: int|
                0 <= j < k && items_view(items@)[j] is Method ==> spec_method_directive(
                    #[trigger] items_view(items@)[j]->Method_0.attrs,
                    empty_directive(),
                ) is Some,
        decreases items@.len() - k,
    {
        match &items[k] {
            UnitItem::Method(m) => {
                match augment_method(m) {
                    Ok(m2) => {
                        out.push(UnitItem::Method(m2));
                    },
                    Err(e) => {
                        proof {
                            let iv = items_view(items@);
                            assert(iv[k as int] == items@[k as int]@);
                            assert(iv[k as int] is Method);
                            assert(iv[k as int]->Method_0.attrs == m@.attrs);
                            assert(!items_ok(iv)) by {
                                assert(spec_method_directive(
                                    iv[k as int]->Method_0.attrs,
                                    empty_directive(),
                                ) is None);
                            }
                        }
                        return Err(e);
                    },
                }
            },
            UnitItem::Opaque(s) => {
                out.push(UnitItem::Opaque(s.clone()));
            },
        }
        k += 1;
    }
    proof {
        assert(items_view(out@) =~~= items_view(items@).map_values(
            |it: SpecUnitItem| spec_augment_item(it),
        ));
    }
    Ok(out)
}

/// Duplicates the verbatim outer attributes.
fn clone_attr_texts(v: &Vec<String>) -> (r: Vec<String>)
    ensures
        r@.map_values(|s: String| s@) == v@.map_values(|s: String| s@),
{
    let r = v.clone();
    proof {
        assert(r@.map_values(|s: String| s@) =~~= v@.map_values(|s: String| s@));
    }
    r
}

/// Checks that a method-scoped marker stands on a method: the marker has no
/// effect of its own, so a method passes through untouched, and anything
/// else is rejected.
pub fn archive_method(item: UnitItem) -> (r: Result<UnitItem, TransformError>)
    ensures
        item is Method ==> (r matches Ok(it) && it == item),
        !(item is Method) ==> (r matches Err(e) && e == TransformError::UnsupportedMethodForm),
{
    let is_method = match &item {
        UnitItem::Method(_) => true,
        UnitItem::Opaque(_) => false,
    };
    if is_method {
        Ok(item)
    } else {
        Err(TransformError::UnsupportedMethodForm)
    }
}

/// Runs the whole pipeline on one declaration unit: parses the directive,
/// rewrites the self type, normalizes and rewrites the bounds of the unit
/// and of each method under that method's own directive, and emits the pair
/// of declaration units — the input, byte for byte, and the derived shadow
/// unit. On any failure nothing is emitted.
pub fn archive_impl(args: &Vec<Tok>, unit: DeclUnit) -> (r: Result<
    (DeclUnit, DeclUnit),
    TransformError,
>)
    ensures
        r is Ok <==> spec_archive_impl(toks_view(args@), unit@) is Ok,
        r matches Ok(pair) ==> pair.0 == unit && pair.1@ == spec_archive_impl(
            toks_view(args@),
            unit@,
        )->Ok_0,
        r matches Err(e) ==> spec_archive_impl(toks_view(args@), unit@) matches Err(e2) && e == e2,
{
    let d = match parse_directive(args) {
        Ok(d) => d,
        Err(e) => {
            return Err(e);
        },
    };
    let self_ty = match shadow_self_type(&unit.self_ty) {
        Ok(t) => t,
        Err(e) => {
            return Err(e);
        },
    };
    let items = match augment_items(&unit.items) {
        Ok(i) => i,
        Err(e) => {
            return Err(e);
        },
    };
    let (generics, predicates) = transform_scope(&unit.generics, &unit.predicates, &d);
    let trait_ref = match &unit.trait_ref {
        Some(t) => Some(t.clone()),
        None => None,
    };
    let shadow = DeclUnit {
        attrs: clone_attr_texts(&unit.attrs),
        generics,
        trait_ref,
        self_ty,
        predicates,
        items,
    };
    proof {
        assert(shadow@ =~~= spec_shadow_unit(unit@, d@));
    }
    Ok((unit, shadow))
}

} // verus!

