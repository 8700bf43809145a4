//! The declaration-unit model.
//!
//! A declaration unit is an `impl` block: a self type, optional interface
//! reference, generic parameters, bound predicates and methods. The engine
//! only ever inspects the pieces it rewrites — path segments at the root of a
//! bound's subject, the direct generic arguments of a trait bound, generic
//! parameters and their inline bounds — so everything else is carried as
//! verbatim text.

use vstd::prelude::*;

use crate::token::{SpecTok, Tok};

verus! {

/// One segment of a type path. Its generic arguments, if any, are carried as
/// verbatim text (including the angle brackets): they are never rewritten.
#[derive(Debug, PartialEq, Eq)]
pub struct Segment {
    pub ident: String,
    pub args: Option<String>,
}

/// The qualified-self type of a path such as `<T as Trait>::Item`: either a
/// plain path or an opaque fragment.
#[derive(Debug, PartialEq, Eq)]
pub enum SimpleTy {
    Path(Vec<Segment>),
    Opaque(String),
}

/// The qualified-self prefix of a type path: the type before `as`, and the
/// number of leading path segments that name the trait.
#[derive(Debug, PartialEq, Eq)]
pub struct QualSelf {
    pub ty: SimpleTy,
    pub pos: usize,
}

/// A path-shaped type expression, optionally qualified.
#[derive(Debug, PartialEq, Eq)]
pub struct TypePath {
    pub qself: Option<QualSelf>,
    pub segments: Vec<Segment>,
}

/// A type expression as far as the engine reads it.
#[derive(Debug, PartialEq, Eq)]
pub enum TypeExpr {
    Path(TypePath),
    /// A lifetime, stored without the leading quote.
    Lifetime(String),
    /// Any other shape, carried as verbatim text.
    Opaque(String),
}

/// A direct generic argument of a trait bound.
#[derive(Debug, PartialEq, Eq)]
pub enum GenArg {
    /// A type argument.
    Ty(TypeExpr),
    /// An associated-type binding `Name = Ty`.
    Binding(String, TypeExpr),
    /// Anything else (a lifetime, a const expression), carried verbatim.
    Opaque(String),
}

/// One segment of a trait-bound path; its generic arguments keep their
/// structure because projection rewrites type paths standing there.
#[derive(Debug, PartialEq, Eq)]
pub struct TraitSegment {
    pub ident: String,
    pub args: Vec<GenArg>,
}

/// The path of a trait bound.
#[derive(Debug, PartialEq, Eq)]
pub struct TraitPath {
    pub segments: Vec<TraitSegment>,
}

/// One bound on the right-hand side of a predicate.
#[derive(Debug, PartialEq, Eq)]
pub enum Bound {
    Trait(TraitPath),
    /// A lifetime bound or any other form, carried verbatim.
    Opaque(String),
}

/// A bound predicate: a subject type expression and its bounds.
#[derive(Debug, PartialEq, Eq)]
pub struct Predicate {
    pub subject: TypeExpr,
    pub bounds: Vec<Bound>,
}

/// A generic parameter of a unit or method.
#[derive(Debug, PartialEq, Eq)]
pub enum GenericParam {
    /// A type parameter with its inline bounds.
    Ty(String, Vec<Bound>),
    /// A lifetime parameter (name without the quote) with its inline bounds.
    Lifetime(String, Vec<Bound>),
    /// Any other parameter (a const parameter), carried verbatim.
    Opaque(String),
}

/// An attribute on a method: either a method-scoped directive marker with its
/// argument tokens, or any other attribute carried verbatim.
#[derive(Debug, PartialEq, Eq)]
pub enum MethodAttr {
    Marker(Vec<Tok>),
    Opaque(String),
}

/// A method of a declaration unit. Only attributes, generic parameters and
/// the predicate list are structured; the rest of the signature and the body
/// are never inspected.
#[derive(Debug, PartialEq, Eq)]
pub struct Method {
    pub attrs: Vec<MethodAttr>,
    /// The signature minus generic parameters and `where` clause, verbatim.
    pub sig: String,
    pub generics: Vec<GenericParam>,
    pub predicates: Option<Vec<Predicate>>,
    /// The body, verbatim.
    pub body: String,
}

/// One item of a declaration unit.
#[derive(Debug, PartialEq, Eq)]
pub enum UnitItem {
    Method(Method),
    /// A non-method item, carried verbatim.
    Opaque(String),
}

/// A declaration unit: an `impl` block.
#[derive(Debug, PartialEq, Eq)]
pub struct DeclUnit {
    /// Outer attributes, carried verbatim.
    pub attrs: Vec<String>,
    pub generics: Vec<GenericParam>,
    /// The interface reference of `impl Trait for Ty`, carried verbatim.
    pub trait_ref: Option<String>,
    pub self_ty: TypeExpr,
    pub predicates: Option<Vec<Predicate>>,
    pub items: Vec<UnitItem>,
}

/// A parsed directive: the parameters to project (deduplicated, in first
/// mention order) and the literal predicates to append.
#[derive(Debug, PartialEq, Eq)]
pub struct Directive {
    pub transform_params: Vec<String>,
    pub add_bounds: Vec<Predicate>,
}

/// The ways an invocation of the engine can fail.
#[derive(Clone, Copy, Debug, PartialEq, Eq, Structural)]
pub enum TransformError {
    /// The directive argument list does not follow the directive grammar.
    MalformedDirective,
    /// The self type is not a path-shaped type expression.
    UnsupportedSelfType,
    /// A method-scoped marker stands on something that is not a method.
    UnsupportedMethodForm,
}

// ------------------------------------------------------------------
// Mathematical counterparts.
// ------------------------------------------------------------------

#[verifier::ext_equal]
pub struct SpecSegment {
    pub ident: Seq<char>,
    pub args: Option<Seq<char>>,
}

#[verifier::ext_equal]
pub enum SpecSimpleTy {
    Path(Seq<SpecSegment>),
    Opaque(Seq<char>),
}

#[verifier::ext_equal]
pub struct SpecQualSelf {
    pub ty: SpecSimpleTy,
    pub pos: int,
}

#[verifier::ext_equal]
pub struct SpecTypePath {
    pub qself: Option<SpecQualSelf>,
    pub segments: Seq<SpecSegment>,
}

#[verifier::ext_equal]
pub enum SpecTypeExpr {
    Path(SpecTypePath),
    Lifetime(Seq<char>),
    Opaque(Seq<char>),
}

#[verifier::ext_equal]
pub enum SpecGenArg {
    Ty(SpecTypeExpr),
    Binding(Seq<char>, SpecTypeExpr),
    Opaque(Seq<char>),
}

#[verifier::ext_equal]
pub struct SpecTraitSegment {
    pub ident: Seq<char>,
    pub args: Seq<SpecGenArg>,
}

#[verifier::ext_equal]
pub struct SpecTraitPath {
    pub segments: Seq<SpecTraitSegment>,
}

#[verifier::ext_equal]
pub enum SpecBound {
    Trait(SpecTraitPath),
    Opaque(Seq<char>),
}

#[verifier::ext_equal]
pub struct SpecPredicate {
    pub subject: SpecTypeExpr,
    pub bounds: Seq<SpecBound>,
}

#[verifier::ext_equal]
pub enum SpecGenericParam {
    Ty(Seq<char>, Seq<SpecBound>),
    Lifetime(Seq<char>, Seq<SpecBound>),
    Opaque(Seq<char>),
}

#[verifier::ext_equal]
pub enum SpecMethodAttr {
    Marker(Seq<SpecTok>),
    Opaque(Seq<char>),
}

#[verifier::ext_equal]
pub struct SpecMethod {
    pub attrs: Seq<SpecMethodAttr>,
    pub sig: Seq<char>,
    pub generics: Seq<SpecGenericParam>,
    pub predicates: Option<Seq<SpecPredicate>>,
    pub body: Seq<char>,
}

#[verifier::ext_equal]
pub enum SpecUnitItem {
    Method(SpecMethod),
    Opaque(Seq<char>),
}

#[verifier::ext_equal]
pub struct SpecDeclUnit {
    pub attrs: Seq<Seq<char>>,
    pub generics: Seq<SpecGenericParam>,
    pub trait_ref: Option<Seq<char>>,
    pub self_ty: SpecTypeExpr,
    pub predicates: Option<Seq<SpecPredicate>>,
    pub items: Seq<SpecUnitItem>,
}

#[verifier::ext_equal]
pub struct SpecDirective {
    pub transform_params: Seq<Seq<char>>,
    pub add_bounds: Seq<SpecPredicate>,
}

// ------------------------------------------------------------------
// Views.
// ------------------------------------------------------------------

impl View for Segment {
    type V = SpecSegment;

    open spec fn view(&self) -> SpecSegment {
        SpecSegment {
            ident: self.ident@,
            args: match self.args {
                Some(a) => Some(a@),
                None => None,
            },
        }
    }
}

impl View for SimpleTy {
    type V = SpecSimpleTy;

    open spec fn view(&self) -> SpecSimpleTy {
        match self {
            SimpleTy::Path(segs) => SpecSimpleTy::Path(segs@.map_values(|s: Segment| s@)),
            SimpleTy::Opaque(s) => SpecSimpleTy::Opaque(s@),
        }
    }
}

impl View for QualSelf {
    type V = SpecQualSelf;

    open spec fn view(&self) -> SpecQualSelf {
        SpecQualSelf { ty: self.ty@, pos: self.pos as int }
    }
}

impl View for TypePath {
    type V = SpecTypePath;

    open spec fn view(&self) -> SpecTypePath {
        SpecTypePath {
            qself: match self.qself {
                Some(q) => Some(q@),
                None => None,
            },
            segments: self.segments@.map_values(|s: Segment| s@),
        }
    }
}

impl View for TypeExpr {
    type V = SpecTypeExpr;

    open spec fn view(&self) -> SpecTypeExpr {
        match self {
            TypeExpr::Path(p) => SpecTypeExpr::Path(p@),
            TypeExpr::Lifetime(s) => SpecTypeExpr::Lifetime(s@),
            TypeExpr::Opaque(s) => SpecTypeExpr::Opaque(s@),
        }
    }
}

impl View for GenArg {
    type V = SpecGenArg;

    open spec fn view(&self) -> SpecGenArg {
        match self {
            GenArg::Ty(t) => SpecGenArg::Ty(t@),
            GenArg::Binding(n, t) => SpecGenArg::Binding(n@, t@),
            GenArg::Opaque(s) => SpecGenArg::Opaque(s@),
        }
    }
}

impl View for TraitSegment {
    type V = SpecTraitSegment;

    open spec fn view(&self) -> SpecTraitSegment {
        SpecTraitSegment { ident: self.ident@, args: self.args@.map_values(|a: GenArg| a@) }
    }
}

impl View for TraitPath {
    type V = SpecTraitPath;

    open spec fn view(&self) -> SpecTraitPath {
        SpecTraitPath { segments: self.segments@.map_values(|s: TraitSegment| s@) }
    }
}

impl View for Bound {
    type V = SpecBound;

    open spec fn view(&self) -> SpecBound {
        match self {
            Bound::Trait(p) => SpecBound::Trait(p@),
            Bound::Opaque(s) => SpecBound::Opaque(s@),
        }
    }
}

impl View for Predicate {
    type V = SpecPredicate;

    open spec fn view(&self) -> SpecPredicate {
        SpecPredicate { subject: self.subject@, bounds: self.bounds@.map_values(|b: Bound| b@) }
    }
}

impl View for GenericParam {
    type V = SpecGenericParam;

    open spec fn view(&self) -> SpecGenericParam {
        match self {
            GenericParam::Ty(id, bs) => SpecGenericParam::Ty(
                id@,
                bs@.map_values(|b: Bound| b@),
            ),
            GenericParam::Lifetime(id, bs) => SpecGenericParam::Lifetime(
                id@,
                bs@.map_values(|b: Bound| b@),
            ),
            GenericParam::Opaque(s) => SpecGenericParam::Opaque(s@),
        }
    }
}

impl View for MethodAttr {
    type V = SpecMethodAttr;

    open spec fn view(&self) -> SpecMethodAttr {
        match self {
            MethodAttr::Marker(ts) => SpecMethodAttr::Marker(ts@.map_values(|t: Tok| t@)),
            MethodAttr::Opaque(s) => SpecMethodAttr::Opaque(s@),
        }
    }
}

impl View for Method {
    type V = SpecMethod;

    open spec fn view(&self) -> SpecMethod {
        SpecMethod {
            attrs: self.attrs@.map_values(|a: MethodAttr| a@),
            sig: self.sig@,
            generics: self.generics@.map_values(|g: GenericParam| g@),
            predicates: match self.predicates {
                Some(ps) => Some(ps@.map_values(|p: Predicate| p@)),
                None => None,
            },
            body: self.body@,
        }
    }
}

impl View for UnitItem {
    type V = SpecUnitItem;

    open spec fn view(&self) -> SpecUnitItem {
        match self {
            UnitItem::Method(m) => SpecUnitItem::Method(m@),
            UnitItem::Opaque(s) => SpecUnitItem::Opaque(s@),
        }
    }
}

impl View for DeclUnit {
    type V = SpecDeclUnit;

    open spec fn view(&self) -> SpecDeclUnit {
        SpecDeclUnit {
            attrs: self.attrs@.map_values(|a: String| a@),
            generics: self.generics@.map_values(|g: GenericParam| g@),
            trait_ref: match self.trait_ref {
                Some(t) => Some(t@),
                None => None,
            },
            self_ty: self.self_ty@,
            predicates: match self.predicates {
                Some(ps) => Some(ps@.map_values(|p: Predicate| p@)),
                None => None,
            },
            items: self.items@.map_values(|i: UnitItem| i@),
        }
    }
}

impl View for Directive {
    type V = SpecDirective;

    open spec fn view(&self) -> SpecDirective {
        SpecDirective {
            transform_params: self.transform_params@.map_values(|p: String| p@),
            add_bounds: self.add_bounds@.map_values(|p: Predicate| p@),
        }
    }
}

// ------------------------------------------------------------------
// Duplication. The pipeline leaves its input untouched and emits a second,
// rewritten unit, so every structured piece can be duplicated with its view
// kept; `String::clone` and these impls make that provable.
// ------------------------------------------------------------------

/// The view of a segment vector.
pub open spec fn segs_view(v: Seq<Segment>) -> Seq<SpecSegment> {
    v.map_values(|s: Segment| s@)
}

/// The view of a bound vector.
pub open spec fn bounds_view(v: Seq<Bound>) -> Seq<SpecBound> {
    v.map_values(|b: Bound| b@)
}

/// The view of a predicate vector.
pub open spec fn preds_view(v: Seq<Predicate>) -> Seq<SpecPredicate> {
    v.map_values(|p: Predicate| p@)
}

/// The view of a generic-parameter vector.
pub open spec fn params_view(v: Seq<GenericParam>) -> Seq<SpecGenericParam> {
    v.map_values(|g: GenericParam| g@)
}

/// The view of an identifier vector.
pub open spec fn idents_view(v: Seq<String>) -> Seq<Seq<char>> {
    v.map_values(|s: String| s@)
}

/// The view of a method-attribute vector.
pub open spec fn attrs_view(v: Seq<MethodAttr>) -> Seq<SpecMethodAttr> {
    v.map_values(|a: MethodAttr| a@)
}

/// The view of a unit-item vector.
pub open spec fn items_view(v: Seq<UnitItem>) -> Seq<SpecUnitItem> {
    v.map_values(|i: UnitItem| i@)
}

/// The view of a predicate list that may be absent.
pub open spec fn opt_preds_view(o: Option<Vec<Predicate>>) -> Option<Seq<SpecPredicate>> {
    match o {
        Some(v) => Some(preds_view(v@)),
        None => None,
    }
}

/// Compares two strings by contents.
pub fn string_eq(a: &String, b: &String) -> (r: bool)
    ensures
        r == (a@ == b@),
{
    *a == *b
}

/// Compares a string against a keyword literal.
pub fn is_kw(s: &String, kw: &str) -> (r: bool)
    ensures
        r == (s@ == kw@),
{
    let k: String = kw.to_owned();
    *s == k
}

/// Whether `id` occurs in the identifier vector.
pub fn contains_ident(ps: &Vec<String>, id: &String) -> (r: bool)
    ensures
        r == idents_view(ps@).contains(id@),
{
    let mut i: usize = 0;
    while i < ps.len()
        invariant
            i <= ps@.len(),
            forall|k: int| 0 <= k < i ==> idents_view(ps@)[k] != id@,
        decreases ps@.len() - i,
    {
        if string_eq(&ps[i], id) {
            proof {
                assert(idents_view(ps@)[i as int] == id@);
            }
            return true;
        }
        i += 1;
    }
    false
}

impl Clone for Segment {
    fn clone(&self) -> (res: Self)
        ensures
            res@ == self@,
    {
        Segment {
            ident: self.ident.clone(),
            args: match &self.args {
                Some(a) => Some(a.clone()),
                None => None,
            },
        }
    }
}

/// Duplicates a segment vector, keeping its view.
pub fn clone_segments(v: &Vec<Segment>) -> (r: Vec<Segment>)
    ensures
        segs_view(r@) == segs_view(v@),
{
    let r = v.clone();
    proof {
        assert(segs_view(r@) =~= segs_view(v@));
    }
    r
}

impl Clone for SimpleTy {
    fn clone(&self) -> (res: Self)
        ensures
            res@ == self@,
    {
        match self {
            SimpleTy::Path(segs) => SimpleTy::Path(clone_segments(segs)),
            SimpleTy::Opaque(s) => SimpleTy::Opaque(s.clone()),
        }
    }
}

impl Clone for QualSelf {
    fn clone(&self) -> (res: Self)
        ensures
            res@ == self@,
    {
        QualSelf { ty: self.ty.clone(), pos: self.pos }
    }
}

impl Clone for TypePath {
    fn clone(&self) -> (res: Self)
        ensures
            res@ == self@,
    {
        TypePath {
            qself: match &self.qself {
                Some(q) => Some(q.clone()),
                None => None,
            },
            segments: clone_segments(&self.segments),
        }
    }
}

impl Clone for TypeExpr {
    fn clone(&self) -> (res: Self)
        ensures
            res@ == self@,
    {
        match self {
            TypeExpr::Path(p) => TypeExpr::Path(p.clone()),
            TypeExpr::Lifetime(s) => TypeExpr::Lifetime(s.clone()),
            TypeExpr::Opaque(s) => TypeExpr::Opaque(s.clone()),
        }
    }
}

impl Clone for GenArg {
    fn clone(&self) -> (res: Self)
        ensures
            res@ == self@,
    {
        match self {
            GenArg::Ty(t) => GenArg::Ty(t.clone()),
            GenArg::Binding(n, t) => GenArg::Binding(n.clone(), t.clone()),
            GenArg::Opaque(s) => GenArg::Opaque(s.clone()),
        }
    }
}

impl Clone for TraitSegment {
    fn clone(&self) -> (res: Self)
        ensures
            res@ == self@,
    {
        let args = self.args.clone();
        proof {
            assert(args@.map_values(|a: GenArg| a@) =~= self.args@.map_values(|a: GenArg| a@));
        }
        TraitSegment { ident: self.ident.clone(), args }
    }
}

impl Clone for TraitPath {
    fn clone(&self) -> (res: Self)
        ensures
            res@ == self@,
    {
        let segments = self.segments.clone();
        proof {
            assert(segments@.map_values(|s: TraitSegment| s@) =~= self.segments@.map_values(
                |s: TraitSegment| s@,
            ));
        }
        TraitPath { segments }
    }
}

impl Clone for Bound {
    fn clone(&self) -> (res: Self)
        ensures
            res@ == self@,
    {
        match self {
            Bound::Trait(p) => Bound::Trait(p.clone()),
            Bound::Opaque(s) => Bound::Opaque(s.clone()),
        }
    }
}

/// Duplicates a bound vector, keeping its view.
pub fn clone_bounds(v: &Vec<Bound>) -> (r: Vec<Bound>)
    ensures
        bounds_view(r@) == bounds_view(v@),
{
    let r = v.clone();
    proof {
        assert(bounds_view(r@) =~= bounds_view(v@));
    }
    r
}

impl Clone for Predicate {
    fn clone(&self) -> (res: Self)
        ensures
            res@ == self@,
    {
        Predicate { subject: self.subject.clone(), bounds: clone_bounds(&self.bounds) }
    }
}

/// Duplicates a predicate vector, keeping its view.
pub fn clone_predicates(v: &Vec<Predicate>) -> (r: Vec<Predicate>)
    ensures
        preds_view(r@) == preds_view(v@),
{
    let r = v.clone();
    proof {
        assert(preds_view(r@) =~= preds_view(v@));
    }
    r
}

/// Duplicates an optional verbatim fragment, keeping its view.
pub fn clone_opt_string(o: &Option<String>) -> (r: Option<String>)
    ensures
        r is Some <==> o is Some,
        r matches Some(s) ==> s@ == o->Some_0@,
{
    match o {
        Some(s) => Some(s.clone()),
        None => None,
    }
}

} // verus!
