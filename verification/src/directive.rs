//! The directive parser.
//!
//! A directive is a flat, comma-separated argument list. Each argument is a
//! keyword form `keyword(...)`: `transform_bounds(T, S, ...)` names the
//! parameters to project, `add_bounds(pred, pred, ...)` lists bound
//! predicates to append verbatim. An empty argument list is the empty
//! directive. Anything else is a malformed directive: an unrecognized
//! keyword, a keyword without its parenthesized payload, or a payload that
//! does not parse as an identifier list or a predicate list.
//!
//! The grammar is first written out as total specification functions over
//! token sequences; the executable parser is then proved to return exactly
//! what they describe.

use vstd::prelude::*;

use crate::ast::{
    contains_ident, idents_view, Bound, Directive, GenArg, Predicate, Segment, SpecBound,
    SpecDirective, SpecGenArg, SpecPredicate, SpecSegment, SpecTraitSegment, SpecTypeExpr,
    SpecTypePath, SpecTraitPath, TraitPath, TraitSegment, TransformError, TypeExpr, TypePath,
};
use crate::token::{
    arg_toks_view, render, spec_render, toks_view, ArgTok, SpecArgTok, SpecTok, Tok,
};

verus! {

/// The keyword of the parameter-projection form.
pub open spec fn kw_transform() -> Seq<char> {
    "transform_bounds"@
}

/// The keyword of the literal-bound form.
pub open spec fn kw_add() -> Seq<char> {
    "add_bounds"@
}

/// The directive with nothing to project and nothing to append.
pub open spec fn empty_directive() -> SpecDirective {
    SpecDirective { transform_params: Seq::empty(), add_bounds: Seq::empty() }
}

// ------------------------------------------------------------------
// Scanning.
// ------------------------------------------------------------------

/// The first position in `[i, j)` holding the punctuation `target` outside
/// every angle bracket, or `j` when there is none. The pairs `->` and `::`
/// are skipped whole, `<` opens a bracket and `>` closes one.
pub open spec fn spec_find_split(
    toks: Seq<SpecArgTok>,
    i: int,
    j: int,
    depth: int,
    target: char,
) -> int
    decreases j - i,
{
    if i < 0 || i >= j || j > toks.len() {
        j
    } else {
        match toks[i] {
            SpecArgTok::Punct(c) => {
                if c == '-' && i + 1 < j && toks[i + 1] == SpecArgTok::Punct('>') {
                    spec_find_split(toks, i + 2, j, depth, target)
                } else if c == ':' && i + 1 < j && toks[i + 1] == SpecArgTok::Punct(':') {
                    spec_find_split(toks, i + 2, j, depth, target)
                } else if c == target && depth == 0 {
                    i
                } else if c == '<' {
                    spec_find_split(toks, i + 1, j, depth + 1, target)
                } else if c == '>' {
                    spec_find_split(toks, i + 1, j, if depth > 0 { depth - 1 } else { 0 }, target)
                } else {
                    spec_find_split(toks, i + 1, j, depth, target)
                }
            },
            _ => spec_find_split(toks, i + 1, j, depth, target),
        }
    }
}

/// The first position at or after `i` holding a comma, or the length when
/// there is none.
pub open spec fn spec_first_comma(toks: Seq<SpecTok>, i: int) -> int
    decreases toks.len() - i,
{
    if i < 0 || i >= toks.len() {
        toks.len() as int
    } else if toks[i] == SpecTok::Punct(',') {
        i
    } else {
        spec_first_comma(toks, i + 1)
    }
}

// ------------------------------------------------------------------
// The payload grammars.
// ------------------------------------------------------------------

/// A comma-separated identifier list, trailing comma allowed.
pub open spec fn spec_parse_idents(toks: Seq<SpecArgTok>, i: int) -> Option<Seq<Seq<char>>>
    decreases toks.len() - i,
{
    if i < 0 || i >= toks.len() {
        Some(Seq::empty())
    } else {
        match toks[i] {
            SpecArgTok::Ident(s) => {
                if i + 1 == toks.len() {
                    Some(seq![s])
                } else if toks[i + 1] == SpecArgTok::Punct(',') {
                    match spec_parse_idents(toks, i + 2) {
                        Some(r) => Some(seq![s] + r),
                        None => None,
                    }
                } else {
                    None
                }
            },
            _ => None,
        }
    }
}

/// A path segment list `A::B::C`, each segment an identifier optionally
/// followed by an angle-bracketed argument text, spanning `[i, j)` exactly.
pub open spec fn spec_parse_path(toks: Seq<SpecArgTok>, i: int, j: int) -> Option<Seq<SpecSegment>>
    decreases j - i,
{
    if i < 0 || i >= j || j > toks.len() {
        None
    } else {
        match toks[i] {
            SpecArgTok::Ident(s) => {
                if i + 1 == j {
                    Some(seq![SpecSegment { ident: s, args: None }])
                } else if toks[i + 1] == SpecArgTok::Punct('<') {
                    let m = spec_find_split(toks, i + 2, j, 0, '>');
                    if m >= j {
                        None
                    } else {
                        let seg = SpecSegment {
                            ident: s,
                            args: Some(seq!['<'] + spec_render(toks, i + 2, m) + seq!['>']),
                        };
                        if m + 1 == j {
                            Some(seq![seg])
                        } else if i + 2 <= m && m + 3 < j && toks[m + 1] == SpecArgTok::Punct(':')
                            && toks[m + 2] == SpecArgTok::Punct(':') {
                            match spec_parse_path(toks, m + 3, j) {
                                Some(r) => Some(seq![seg] + r),
                                None => None,
                            }
                        } else {
                            None
                        }
                    }
                } else if i + 3 < j && toks[i + 1] == SpecArgTok::Punct(':') && toks[i + 2]
                    == SpecArgTok::Punct(':') {
                    match spec_parse_path(toks, i + 3, j) {
                        Some(r) => Some(seq![SpecSegment { ident: s, args: None }] + r),
                        None => None,
                    }
                } else {
                    None
                }
            },
            _ => None,
        }
    }
}

/// Whether `[i, j)` is a lifetime: a quote followed by one identifier.
pub open spec fn spec_is_lifetime(toks: Seq<SpecArgTok>, i: int, j: int) -> bool {
    &&& j == i + 2
    &&& 0 <= i
    &&& j <= toks.len()
    &&& toks[i] == SpecArgTok::Punct('\'')
    &&& toks[i + 1] is Ident
}

/// The lifetime text of a lifetime range.
pub open spec fn spec_lifetime_name(toks: Seq<SpecArgTok>, i: int) -> Seq<char> {
    toks[i + 1]->Ident_0
}

/// A subject type expression: a lifetime, a plain path, or — when neither
/// shape fits — the verbatim text of the range. Total on nonempty ranges.
pub open spec fn spec_parse_subject(toks: Seq<SpecArgTok>, i: int, j: int) -> SpecTypeExpr {
    if spec_is_lifetime(toks, i, j) {
        SpecTypeExpr::Lifetime(spec_lifetime_name(toks, i))
    } else {
        match spec_parse_path(toks, i, j) {
            Some(segs) => SpecTypeExpr::Path(SpecTypePath { qself: None, segments: segs }),
            None => SpecTypeExpr::Opaque(spec_render(toks, i, j)),
        }
    }
}

/// One direct generic argument of a trait bound: an associated-type binding
/// `Name = Ty`, a lifetime, or a type expression. Total on nonempty ranges.
pub open spec fn spec_parse_gen_arg(toks: Seq<SpecArgTok>, i: int, j: int) -> SpecGenArg {
    let e = spec_find_split(toks, i, j, 0, '=');
    if i < e && e < j && e == i + 1 && toks[i] is Ident && e + 1 < j {
        SpecGenArg::Binding(toks[i]->Ident_0, spec_parse_subject(toks, e + 1, j))
    } else if spec_is_lifetime(toks, i, j) {
        SpecGenArg::Opaque(seq!['\''] + spec_lifetime_name(toks, i))
    } else {
        SpecGenArg::Ty(spec_parse_subject(toks, i, j))
    }
}

/// A comma-separated generic-argument list, trailing comma allowed.
pub open spec fn spec_parse_gen_args(toks: Seq<SpecArgTok>, i: int, j: int) -> Option<
    Seq<SpecGenArg>,
>
    decreases j - i,
{
    if i < 0 || j > toks.len() {
        None
    } else if i >= j {
        Some(Seq::empty())
    } else {
        let p = spec_find_split(toks, i, j, 0, ',');
        if p <= i {
            None
        } else {
            let a = spec_parse_gen_arg(toks, i, p);
            if p >= j {
                Some(seq![a])
            } else {
                match spec_parse_gen_args(toks, p + 1, j) {
                    Some(r) => Some(seq![a] + r),
                    None => None,
                }
            }
        }
    }
}

/// A trait-bound path: like a plain path, but its angle-bracketed argument
/// lists keep their structure so that projection can reach them.
pub open spec fn spec_parse_trait_path(toks: Seq<SpecArgTok>, i: int, j: int) -> Option<
    Seq<SpecTraitSegment>,
>
    decreases j - i,
{
    if i < 0 || i >= j || j > toks.len() {
        None
    } else {
        match toks[i] {
            SpecArgTok::Ident(s) => {
                if i + 1 == j {
                    Some(seq![SpecTraitSegment { ident: s, args: Seq::empty() }])
                } else if toks[i + 1] == SpecArgTok::Punct('<') {
                    let m = spec_find_split(toks, i + 2, j, 0, '>');
                    if m >= j {
                        None
                    } else {
                        match spec_parse_gen_args(toks, i + 2, m) {
                            None => None,
                            Some(args) => {
                                let seg = SpecTraitSegment { ident: s, args };
                                if m + 1 == j {
                                    Some(seq![seg])
                                } else if i + 2 <= m && m + 3 < j && toks[m + 1]
                                    == SpecArgTok::Punct(':') && toks[m + 2]
                                    == SpecArgTok::Punct(':') {
                                    match spec_parse_trait_path(toks, m + 3, j) {
                                        Some(r) => Some(seq![seg] + r),
                                        None => None,
                                    }
                                } else {
                                    None
                                }
                            },
                        }
                    }
                } else if i + 3 < j && toks[i + 1] == SpecArgTok::Punct(':') && toks[i + 2]
                    == SpecArgTok::Punct(':') {
                    match spec_parse_trait_path(toks, i + 3, j) {
                        Some(r) => Some(seq![SpecTraitSegment { ident: s, args: Seq::empty() }] + r),
                        None => None,
                    }
                } else {
                    None
                }
            },
            _ => None,
        }
    }
}

/// One bound: a structured trait bound when the range parses as a trait
/// path, a lifetime, or the verbatim text of the range.
pub open spec fn spec_parse_bound(toks: Seq<SpecArgTok>, i: int, j: int) -> SpecBound {
    if spec_is_lifetime(toks, i, j) {
        SpecBound::Opaque(seq!['\''] + spec_lifetime_name(toks, i))
    } else {
        match spec_parse_trait_path(toks, i, j) {
            Some(segs) => SpecBound::Trait(SpecTraitPath { segments: segs }),
            None => SpecBound::Opaque(spec_render(toks, i, j)),
        }
    }
}

/// A `+`-separated bound list, trailing `+` allowed, possibly empty.
pub open spec fn spec_parse_bounds(toks: Seq<SpecArgTok>, i: int, j: int) -> Option<Seq<SpecBound>>
    decreases j - i,
{
    if i < 0 || j > toks.len() {
        None
    } else if i >= j {
        Some(Seq::empty())
    } else {
        let p = spec_find_split(toks, i, j, 0, '+');
        if p <= i {
            None
        } else {
            let b = spec_parse_bound(toks, i, p);
            if p >= j {
                Some(seq![b])
            } else {
                match spec_parse_bounds(toks, p + 1, j) {
                    Some(r) => Some(seq![b] + r),
                    None => None,
                }
            }
        }
    }
}

/// One bound predicate: a nonempty subject, a colon, then the bounds.
pub open spec fn spec_parse_predicate(toks: Seq<SpecArgTok>, i: int, j: int) -> Option<
    SpecPredicate,
> {
    let c = spec_find_split(toks, i, j, 0, ':');
    if c >= j || c == i {
        None
    } else {
        match spec_parse_bounds(toks, c + 1, j) {
            Some(bs) => Some(
                SpecPredicate { subject: spec_parse_subject(toks, i, c), bounds: bs },
            ),
            None => None,
        }
    }
}

/// A comma-separated predicate list, trailing comma allowed.
pub open spec fn spec_parse_pred_list(toks: Seq<SpecArgTok>, i: int, j: int) -> Option<
    Seq<SpecPredicate>,
>
    decreases j - i,
{
    if i < 0 || j > toks.len() {
        None
    } else if i >= j {
        Some(Seq::empty())
    } else {
        let p = spec_find_split(toks, i, j, 0, ',');
        if p <= i {
            None
        } else {
            match spec_parse_predicate(toks, i, p) {
                None => None,
                Some(pr) => if p >= j {
                    Some(seq![pr])
                } else {
                    match spec_parse_pred_list(toks, p + 1, j) {
                        Some(r) => Some(seq![pr] + r),
                        None => None,
                    }
                },
            }
        }
    }
}

// ------------------------------------------------------------------
// The argument list.
// ------------------------------------------------------------------

/// Adds one projected parameter, keeping first-mention order and dropping a
/// repeated mention.
pub open spec fn add_unique(s: Seq<Seq<char>>, id: Seq<char>) -> Seq<Seq<char>> {
    if s.contains(id) {
        s
    } else {
        s.push(id)
    }
}

/// Adds every identifier in order.
pub open spec fn add_unique_all(s: Seq<Seq<char>>, ids: Seq<Seq<char>>) -> Seq<Seq<char>>
    decreases ids.len(),
{
    if ids.len() == 0 {
        s
    } else {
        add_unique_all(add_unique(s, ids[0]), ids.drop_first())
    }
}

/// One argument `keyword(payload)` spanning `[i, j)`, merged into the
/// directive gathered so far.
pub open spec fn spec_parse_one(toks: Seq<SpecTok>, i: int, j: int, acc: SpecDirective) -> Option<
    SpecDirective,
> {
    if 0 <= i && i + 2 == j && j <= toks.len() && toks[i] is Ident && toks[i + 1] is Group {
        let kw = toks[i]->Ident_0;
        let inner = toks[i + 1]->Group_1;
        if kw == kw_transform() {
            match spec_parse_idents(inner, 0) {
                Some(ids) => Some(
                    SpecDirective {
                        transform_params: add_unique_all(acc.transform_params, ids),
                        add_bounds: acc.add_bounds,
                    },
                ),
                None => None,
            }
        } else if kw == kw_add() {
            match spec_parse_pred_list(inner, 0, inner.len() as int) {
                Some(ps) => Some(
                    SpecDirective {
                        transform_params: acc.transform_params,
                        add_bounds: acc.add_bounds + ps,
                    },
                ),
                None => None,
            }
        } else {
            None
        }
    } else {
        None
    }
}

/// The whole argument list from position `i` on, merged into `acc`.
pub open spec fn spec_parse_args(toks: Seq<SpecTok>, i: int, acc: SpecDirective) -> Option<
    SpecDirective,
>
    decreases toks.len() - i,
{
    if i < 0 {
        None
    } else if i >= toks.len() {
        Some(acc)
    } else {
        let c = spec_first_comma(toks, i);
        if c <= i {
            None
        } else {
            match spec_parse_one(toks, i, c, acc) {
                None => None,
                Some(acc2) => if c >= toks.len() {
                    Some(acc2)
                } else {
                    spec_parse_args(toks, c + 1, acc2)
                },
            }
        }
    }
}

/// What a directive argument list means: the directive, or nothing when the
/// list is malformed.
pub open spec fn spec_parse_directive(toks: Seq<SpecTok>) -> Option<SpecDirective> {
    spec_parse_args(toks, 0, empty_directive())
}

// ------------------------------------------------------------------
// The executable parser.
// ------------------------------------------------------------------

/// Whether a payload token is the given punctuation.
fn is_punct(t: &ArgTok, c: char) -> (r: bool)
    ensures
        r == (t@ == SpecArgTok::Punct(c)),
{
    match t {
        ArgTok::Punct(d) => *d == c,
        _ => false,
    }
}

/// The first position in `[i, j)` holding `target` outside angle brackets.
fn find_split(toks: &Vec<ArgTok>, i: usize, j: usize, depth: usize, target: char) -> (r: usize)
    requires
        i <= j <= toks@.len(),
        depth + j - i <= usize::MAX,
    ensures
        r == spec_find_split(arg_toks_view(toks@), i as int, j as int, depth as int, target),
        i <= r <= j,
    decreases j - i,
{
    if i >= j {
        j
    } else {
        match &toks[i] {
            ArgTok::Punct(c) => {
                let c = *c;
                if c == '-' && j - i > 1 && is_punct(&toks[i + 1], '>') {
                    find_split(toks, i + 2, j, depth, target)
                } else if c == ':' && j - i > 1 && is_punct(&toks[i + 1], ':') {
                    find_split(toks, i + 2, j, depth, target)
                } else if c == target && depth == 0 {
                    i
                } else if c == '<' {
                    find_split(toks, i + 1, j, depth + 1, target)
                } else if c == '>' {
                    find_split(toks, i + 1, j, if depth > 0 { depth - 1 } else { 0 }, target)
                } else {
                    find_split(toks, i + 1, j, depth, target)
                }
            },
            _ => find_split(toks, i + 1, j, depth, target),
        }
    }
}

/// A comma-separated identifier list, trailing comma allowed.
fn parse_idents_x(toks: &Vec<ArgTok>, i: usize) -> (r: Option<Vec<String>>)
    requires
        i <= toks@.len(),
    ensures
        r is Some <==> spec_parse_idents(arg_toks_view(toks@), i as int) is Some,
        r matches Some(v) ==> Some(idents_view(v@)) == spec_parse_idents(
            arg_toks_view(toks@),
            i as int,
        ),
    decreases toks@.len() - i,
{
    if i >= toks.len() {
        Some(Vec::new())
    } else {
        match &toks[i] {
            ArgTok::Ident(s) => {
                if toks.len() - i == 1 {
                    let mut v: Vec<String> = Vec::new();
                    v.push(s.clone());
                    proof {
                        assert(idents_view(v@) =~~= seq![s@]);
                    }
                    Some(v)
                } else if is_punct(&toks[i + 1], ',') {
                    match parse_idents_x(toks, i + 2) {
                        Some(mut rest) => {
                            rest.insert(0, s.clone());
                            proof {
                                assert(idents_view(rest@) =~~= seq![s@] + spec_parse_idents(
                                    arg_toks_view(toks@),
                                    i + 2,
                                )->Some_0);
                            }
                            Some(rest)
                        },
                        None => None,
                    }
                } else {
                    None
                }
            },
            _ => None,
        }
    }
}

/// The angle-bracketed argument text `<...>` of the range `[i, j)`.
fn angle_text(toks: &Vec<ArgTok>, i: usize, j: usize) -> (r: String)
    requires
        j <= toks@.len(),
    ensures
        r@ == seq!['<'] + spec_render(arg_toks_view(toks@), i as int, j as int) + seq!['>'],
{
    let mut out = String::new();
    crate::token::push_char(&mut out, '<');
    let body = render(toks, i, j);
    out.append(body.as_str());
    crate::token::push_char(&mut out, '>');
    proof {
        assert(out@ =~~= seq!['<'] + spec_render(arg_toks_view(toks@), i as int, j as int)
            + seq!['>']);
    }
    out
}

/// A path segment list spanning `[i, j)` exactly.
fn parse_path_x(toks: &Vec<ArgTok>, i: usize, j: usize) -> (r: Option<Vec<Segment>>)
    requires
        i <= j <= toks@.len(),
    ensures
        r is Some <==> spec_parse_path(arg_toks_view(toks@), i as int, j as int) is Some,
        r matches Some(v) ==> Some(crate::ast::segs_view(v@)) == spec_parse_path(
            arg_toks_view(toks@),
            i as int,
            j as int,
        ),
    decreases j - i,
{
    if i >= j {
        None
    } else {
        match &toks[i] {
            ArgTok::Ident(s) => {
                if j - i == 1 {
                    let mut v: Vec<Segment> = Vec::new();
                    v.push(Segment { ident: s.clone(), args: None });
                    proof {
                        assert(crate::ast::segs_view(v@) =~~= seq![
                            SpecSegment { ident: s@, args: None },
                        ]);
                    }
                    Some(v)
                } else if is_punct(&toks[i + 1], '<') {
                    let m = find_split(toks, i + 2, j, 0, '>');
                    if m >= j {
                        None
                    } else {
                        let seg = Segment { ident: s.clone(), args: Some(angle_text(toks, i + 2, m)) };
                        if j - m == 1 {
                            let mut v: Vec<Segment> = Vec::new();
                            let ghost sv = seg@;
                            v.push(seg);
                            proof {
                                assert(crate::ast::segs_view(v@) =~~= seq![sv]);
                            }
                            Some(v)
                        } else if i + 2 <= m && j - m > 3 && is_punct(&toks[m + 1], ':') && is_punct(
                            &toks[m + 2],
                            ':',
                        ) {
                            match parse_path_x(toks, m + 3, j) {
                                Some(mut rest) => {
                                    let ghost sv = seg@;
                                    rest.insert(0, seg);
                                    proof {
                                        assert(crate::ast::segs_view(rest@) =~~= seq![sv]
                                            + spec_parse_path(
                                            arg_toks_view(toks@),
                                            m + 3,
                                            j as int,
                                        )->Some_0);
                                    }
                                    Some(rest)
                                },
                                None => None,
                            }
                        } else {
                            None
                        }
                    }
                } else if j - i > 3 && is_punct(&toks[i + 1], ':') && is_punct(&toks[i + 2], ':') {
                    match parse_path_x(toks, i + 3, j) {
                        Some(mut rest) => {
                            rest.insert(0, Segment { ident: s.clone(), args: None });
                            proof {
                                assert(crate::ast::segs_view(rest@) =~~= seq![
                                    SpecSegment { ident: s@, args: None },
                                ] + spec_parse_path(arg_toks_view(toks@), i + 3, j as int)->Some_0);
                            }
                            Some(rest)
                        },
                        None => None,
                    }
                } else {
                    None
                }
            },
            _ => None,
        }
    }
}

/// Whether `[i, j)` is a lifetime.
fn is_lifetime_x(toks: &Vec<ArgTok>, i: usize, j: usize) -> (r: bool)
    requires
        i <= j <= toks@.len(),
    ensures
        r == spec_is_lifetime(arg_toks_view(toks@), i as int, j as int),
{
    j - i == 2 && is_punct(&toks[i], '\'') && match &toks[i + 1] {
        ArgTok::Ident(_) => true,
        _ => false,
    }
}

/// A subject type expression; total on nonempty ranges.
fn parse_subject_x(toks: &Vec<ArgTok>, i: usize, j: usize) -> (r: TypeExpr)
    requires
        i <= j <= toks@.len(),
    ensures
        r@ == spec_parse_subject(arg_toks_view(toks@), i as int, j as int),
{
    if is_lifetime_x(toks, i, j) {
        match &toks[i + 1] {
            ArgTok::Ident(l) => TypeExpr::Lifetime(l.clone()),
            _ => TypeExpr::Opaque(String::new()),
        }
    } else {
        match parse_path_x(toks, i, j) {
            Some(segs) => TypeExpr::Path(TypePath { qself: None, segments: segs }),
            None => TypeExpr::Opaque(render(toks, i, j)),
        }
    }
}

/// The lifetime text `'name` of a lifetime range.
fn lifetime_text(toks: &Vec<ArgTok>, i: usize, j: usize) -> (r: String)
    requires
        i <= j <= toks@.len(),
        spec_is_lifetime(arg_toks_view(toks@), i as int, j as int),
    ensures
        r@ == seq!['\''] + spec_lifetime_name(arg_toks_view(toks@), i as int),
{
    let mut out = String::new();
    crate::token::push_char(&mut out, '\'');
    match &toks[i + 1] {
        ArgTok::Ident(l) => {
            out.append(l.as_str());
        },
        _ => (),
    }
    proof {
        assert(out@ =~~= seq!['\''] + spec_lifetime_name(arg_toks_view(toks@), i as int));
    }
    out
}

/// One direct generic argument; total on nonempty ranges.
fn parse_gen_arg_x(toks: &Vec<ArgTok>, i: usize, j: usize) -> (r: GenArg)
    requires
        i <= j <= toks@.len(),
    ensures
        r@ == spec_parse_gen_arg(arg_toks_view(toks@), i as int, j as int),
{
    let e = find_split(toks, i, j, 0, '=');
    if i < e && e < j && e - i == 1 && j - e > 1 {
        match &toks[i] {
            ArgTok::Ident(n) => {
                return GenArg::Binding(n.clone(), parse_subject_x(toks, e + 1, j));
            },
            _ => (),
        }
    }
    if is_lifetime_x(toks, i, j) {
        GenArg::Opaque(lifetime_text(toks, i, j))
    } else {
        GenArg::Ty(parse_subject_x(toks, i, j))
    }
}

/// A comma-separated generic-argument list, trailing comma allowed.
fn parse_gen_args_x(toks: &Vec<ArgTok>, i: usize, j: usize) -> (r: Option<Vec<GenArg>>)
    requires
        i <= j <= toks@.len(),
    ensures
        r is Some <==> spec_parse_gen_args(arg_toks_view(toks@), i as int, j as int) is Some,
        r matches Some(v) ==> Some(v@.map_values(|a: GenArg| a@)) == spec_parse_gen_args(
            arg_toks_view(toks@),
            i as int,
            j as int,
        ),
    decreases j - i,
{
    if i >= j {
        Some(Vec::new())
    } else {
        let p = find_split(toks, i, j, 0, ',');
        if p <= i {
            None
        } else {
            let a = parse_gen_arg_x(toks, i, p);
            if p >= j {
                let mut v: Vec<GenArg> = Vec::new();
                let ghost av = a@;
                v.push(a);
                proof {
                    assert(v@.map_values(|x: GenArg| x@) =~~= seq![av]);
                }
                Some(v)
            } else {
                match parse_gen_args_x(toks, p + 1, j) {
                    Some(mut rest) => {
                        let ghost av = a@;
                        rest.insert(0, a);
                        proof {
                            assert(rest@.map_values(|x: GenArg| x@) =~~= seq![av]
                                + spec_parse_gen_args(
                                arg_toks_view(toks@),
                                p + 1,
                                j as int,
                            )->Some_0);
                        }
                        Some(rest)
                    },
                    None => None,
                }
            }
        }
    }
}

/// A trait-bound path spanning `[i, j)` exactly.
fn parse_trait_path_x(toks: &Vec<ArgTok>, i: usize, j: usize) -> (r: Option<Vec<TraitSegment>>)
    requires
        i <= j <= toks@.len(),
    ensures
        r is Some <==> spec_parse_trait_path(arg_toks_view(toks@), i as int, j as int) is Some,
        r matches Some(v) ==> Some(v@.map_values(|s: TraitSegment| s@)) == spec_parse_trait_path(
            arg_toks_view(toks@),
            i as int,
            j as int,
        ),
    decreases j - i,
{
    if i >= j {
        None
    } else {
        match &toks[i] {
            ArgTok::Ident(s) => {
                if j - i == 1 {
                    let mut v: Vec<TraitSegment> = Vec::new();
                    v.push(TraitSegment { ident: s.clone(), args: Vec::new() });
                    proof {
                        assert(v@.map_values(|t: TraitSegment| t@) =~~= seq![
                            SpecTraitSegment { ident: s@, args: Seq::empty() },
                        ]);
                    }
                    Some(v)
                } else if is_punct(&toks[i + 1], '<') {
                    let m = find_split(toks, i + 2, j, 0, '>');
                    if m >= j {
                        None
                    } else {
                        match parse_gen_args_x(toks, i + 2, m) {
                            None => None,
                            Some(args) => {
                                let seg = TraitSegment { ident: s.clone(), args };
                                if j - m == 1 {
                                    let mut v: Vec<TraitSegment> = Vec::new();
                                    let ghost sv = seg@;
                                    v.push(seg);
                                    proof {
                                        assert(v@.map_values(|t: TraitSegment| t@) =~~= seq![sv]);
                                    }
                                    Some(v)
                                } else if i + 2 <= m && j - m > 3 && is_punct(&toks[m + 1], ':')
                                    && is_punct(&toks[m + 2], ':') {
                                    match parse_trait_path_x(toks, m + 3, j) {
                                        Some(mut rest) => {
                                            let ghost sv = seg@;
                                            rest.insert(0, seg);
                                            proof {
                                                assert(rest@.map_values(|t: TraitSegment| t@)
                                                    =~~= seq![sv] + spec_parse_trait_path(
                                                    arg_toks_view(toks@),
                                                    m + 3,
                                                    j as int,
                                                )->Some_0);
                                            }
                                            Some(rest)
                                        },
                                        None => None,
                                    }
                                } else {
                                    None
                                }
                            },
                        }
                    }
                } else if j - i > 3 && is_punct(&toks[i + 1], ':') && is_punct(&toks[i + 2], ':') {
                    match parse_trait_path_x(toks, i + 3, j) {
                        Some(mut rest) => {
                            rest.insert(0, TraitSegment { ident: s.clone(), args: Vec::new() });
                            proof {
                                assert(rest@.map_values(|t: TraitSegment| t@) =~~= seq![
                                    SpecTraitSegment { ident: s@, args: Seq::empty() },
                                ] + spec_parse_trait_path(
                                    arg_toks_view(toks@),
                                    i + 3,
                                    j as int,
                                )->Some_0);
                            }
                            Some(rest)
                        },
                        None => None,
                    }
                } else {
                    None
                }
            },
            _ => None,
        }
    }
}

/// One bound; total on nonempty ranges.
fn parse_bound_x(toks: &Vec<ArgTok>, i: usize, j: usize) -> (r: Bound)
    requires
        i <= j <= toks@.len(),
    ensures
        r@ == spec_parse_bound(arg_toks_view(toks@), i as int, j as int),
{
    if is_lifetime_x(toks, i, j) {
        Bound::Opaque(lifetime_text(toks, i, j))
    } else {
        match parse_trait_path_x(toks, i, j) {
            Some(segs) => Bound::Trait(TraitPath { segments: segs }),
            None => Bound::Opaque(render(toks, i, j)),
        }
    }
}

/// A `+`-separated bound list.
fn parse_bounds_x(toks: &Vec<ArgTok>, i: usize, j: usize) -> (r: Option<Vec<Bound>>)
    requires
        i <= j <= toks@.len(),
    ensures
        r is Some <==> spec_parse_bounds(arg_toks_view(toks@), i as int, j as int) is Some,
        r matches Some(v) ==> Some(crate::ast::bounds_view(v@)) == spec_parse_bounds(
            arg_toks_view(toks@),
            i as int,
            j as int,
        ),
    decreases j - i,
{
    if i >= j {
        Some(Vec::new())
    } else {
        let p = find_split(toks, i, j, 0, '+');
        if p <= i {
            None
        } else {
            let b = parse_bound_x(toks, i, p);
            if p >= j {
                let mut v: Vec<Bound> = Vec::new();
                let ghost bv = b@;
                v.push(b);
                proof {
                    assert(crate::ast::bounds_view(v@) =~~= seq![bv]);
                }
                Some(v)
            } else {
                match parse_bounds_x(toks, p + 1, j) {
                    Some(mut rest) => {
                        let ghost bv = b@;
                        rest.insert(0, b);
                        proof {
                            assert(crate::ast::bounds_view(rest@) =~~= seq![bv] + spec_parse_bounds(
                                arg_toks_view(toks@),
                                p + 1,
                                j as int,
                            )->Some_0);
                        }
                        Some(rest)
                    },
                    None => None,
                }
            }
        }
    }
}

/// One bound predicate spanning `[i, j)` exactly.
fn parse_predicate_x(toks: &Vec<ArgTok>, i: usize, j: usize) -> (r: Option<Predicate>)
    requires
        i <= j <= toks@.len(),
    ensures
        r is Some <==> spec_parse_predicate(arg_toks_view(toks@), i as int, j as int) is Some,
        r matches Some(p) ==> Some(p@) == spec_parse_predicate(
            arg_toks_view(toks@),
            i as int,
            j as int,
        ),
{
    let c = find_split(toks, i, j, 0, ':');
    if c >= j || c == i {
        None
    } else {
        match parse_bounds_x(toks, c + 1, j) {
            Some(bs) => Some(Predicate { subject: parse_subject_x(toks, i, c), bounds: bs }),
            None => None,
        }
    }
}

/// A comma-separated predicate list, trailing comma allowed.
fn parse_pred_list_x(toks: &Vec<ArgTok>, i: usize, j: usize) -> (r: Option<Vec<Predicate>>)
    requires
        i <= j <= toks@.len(),
    ensures
        r is Some <==> spec_parse_pred_list(arg_toks_view(toks@), i as int, j as int) is Some,
        r matches Some(v) ==> Some(crate::ast::preds_view(v@)) == spec_parse_pred_list(
            arg_toks_view(toks@),
            i as int,
            j as int,
        ),
    decreases j - i,
{
    if i >= j {
        Some(Vec::new())
    } else {
        let p = find_split(toks, i, j, 0, ',');
        if p <= i {
            None
        } else {
            match parse_predicate_x(toks, i, p) {
                None => None,
                Some(pr) => if p >= j {
                    let mut v: Vec<Predicate> = Vec::new();
                    let ghost pv = pr@;
                    v.push(pr);
                    proof {
                        assert(crate::ast::preds_view(v@) =~~= seq![pv]);
                    }
                    Some(v)
                } else {
                    match parse_pred_list_x(toks, p + 1, j) {
                        Some(mut rest) => {
                            let ghost pv = pr@;
                            rest.insert(0, pr);
                            proof {
                                assert(crate::ast::preds_view(rest@) =~~= seq![pv]
                                    + spec_parse_pred_list(
                                    arg_toks_view(toks@),
                                    p + 1,
                                    j as int,
                                )->Some_0);
                            }
                            Some(rest)
                        },
                        None => None,
                    }
                },
            }
        }
    }
}

/// Merges one identifier into the projected set, dropping repeats.
fn add_unique_x(params: &mut Vec<String>, id: &String)
    ensures
        idents_view(final(params)@) == add_unique(idents_view(old(params)@), id@),
{
    if !contains_ident(params, id) {
        params.push(id.clone());
        proof {
            assert(idents_view(params@) =~~= idents_view(old(params)@).push(id@));
        }
    }
}

/// Merging a list one identifier at a time agrees with merging it whole.
proof fn lemma_add_unique_all_snoc(s: Seq<Seq<char>>, ids: Seq<Seq<char>>, x: Seq<char>)
    ensures
        add_unique_all(s, ids.push(x)) == add_unique(add_unique_all(s, ids), x),
    decreases ids.len(),
{
    if ids.len() == 0 {
        assert(ids.push(x)[0] == x);
        assert(ids.push(x).drop_first() =~~= Seq::<Seq<char>>::empty());
        assert(add_unique_all(s, ids.push(x)) == add_unique_all(
            add_unique(s, x),
            Seq::<Seq<char>>::empty(),
        ));
        assert(add_unique_all(add_unique(s, x), Seq::<Seq<char>>::empty()) == add_unique(s, x));
        assert(add_unique_all(s, ids) == s);
    } else {
        assert(ids.push(x)[0] == ids[0]);
        assert(ids.push(x).drop_first() =~~= ids.drop_first().push(x));
        assert(add_unique_all(s, ids.push(x)) == add_unique_all(
            add_unique(s, ids[0]),
            ids.drop_first().push(x),
        ));
        lemma_add_unique_all_snoc(add_unique(s, ids[0]), ids.drop_first(), x);
        assert(add_unique_all(s, ids) == add_unique_all(add_unique(s, ids[0]), ids.drop_first()));
    }
}

/// Merges every identifier into the projected set, in order.
fn add_unique_all_x(params: &mut Vec<String>, ids: &Vec<String>)
    ensures
        idents_view(final(params)@) == add_unique_all(
            idents_view(old(params)@),
            idents_view(ids@),
        ),
{
    let mut k: usize = 0;
    while k < ids.len()
        invariant
            k <= ids@.len(),
            idents_view(params@) == add_unique_all(
                idents_view(old(params)@),
                idents_view(ids@).subrange(0, k as int),
            ),
        decreases ids@.len() - k,
    {
        let ghost prefix = idents_view(ids@).subrange(0, k as int);
        add_unique_x(params, &ids[k]);
        k += 1;
        proof {
            let cur = idents_view(ids@).subrange(0, k as int);
            assert(cur =~~= prefix.push(idents_view(ids@)[k - 1]));
            lemma_add_unique_all_snoc(
                idents_view(old(params)@),
                prefix,
                idents_view(ids@)[k - 1],
            );
        }
    }
    proof {
        assert(idents_view(ids@).subrange(0, ids@.len() as int) =~~= idents_view(ids@));
    }
}

/// Whether a top-level token is the given punctuation.
fn is_tok_punct(t: &Tok, c: char) -> (r: bool)
    ensures
        r == (t@ == SpecTok::Punct(c)),
{
    match t {
        Tok::Punct(d) => *d == c,
        _ => false,
    }
}

/// The first position at or after `i` holding a comma.
fn first_comma(toks: &Vec<Tok>, i: usize) -> (r: usize)
    requires
        i <= toks@.len(),
    ensures
        r == spec_first_comma(toks_view(toks@), i as int),
        i <= r <= toks@.len(),
    decreases toks@.len() - i,
{
    if i >= toks.len() {
        toks.len()
    } else if is_tok_punct(&toks[i], ',') {
        i
    } else {
        first_comma(toks, i + 1)
    }
}

/// One argument `keyword(payload)` spanning `[i, j)`, merged into `acc`.
fn parse_one_x(toks: &Vec<Tok>, i: usize, j: usize, acc: Directive) -> (r: Option<Directive>)
    requires
        i <= j <= toks@.len(),
    ensures
        r is Some <==> spec_parse_one(toks_view(toks@), i as int, j as int, acc@) is Some,
        r matches Some(d) ==> Some(d@) == spec_parse_one(toks_view(toks@), i as int, j as int, acc@),
{
    if j - i != 2 {
        return None;
    }
    match (&toks[i], &toks[i + 1]) {
        (Tok::Ident(kw), Tok::Group(_, inner)) => {
            if crate::ast::is_kw(kw, "transform_bounds") {
                match parse_idents_x(inner, 0) {
                    Some(ids) => {
                        let mut acc = acc;
                        add_unique_all_x(&mut acc.transform_params, &ids);
                        Some(acc)
                    },
                    None => None,
                }
            } else if crate::ast::is_kw(kw, "add_bounds") {
                match parse_pred_list_x(inner, 0, inner.len()) {
                    Some(mut ps) => {
                        let mut acc = acc;
                        let ghost before = acc@.add_bounds;
                        acc.add_bounds.append(&mut ps);
                        proof {
                            assert(acc@.add_bounds =~~= before + spec_parse_pred_list(
                                arg_toks_view(inner@),
                                0,
                                inner@.len() as int,
                            )->Some_0);
                        }
                        Some(acc)
                    },
                    None => None,
                }
            } else {
                None
            }
        },
        _ => None,
    }
}

/// The whole argument list from position `i` on, merged into `acc`.
pub(crate) fn parse_args_x(toks: &Vec<Tok>, i: usize, acc: Directive) -> (r: Option<Directive>)
    requires
        i <= toks@.len(),
    ensures
        r is Some <==> spec_parse_args(toks_view(toks@), i as int, acc@) is Some,
        r matches Some(d) ==> Some(d@) == spec_parse_args(toks_view(toks@), i as int, acc@),
    decreases toks@.len() - i,
{
    if i >= toks.len() {
        Some(acc)
    } else {
        let c = first_comma(toks, i);
        if c <= i {
            None
        } else {
            match parse_one_x(toks, i, c, acc) {
                None => None,
                Some(acc2) => if c >= toks.len() {
                    Some(acc2)
                } else {
                    parse_args_x(toks, c + 1, acc2)
                },
            }
        }
    }
}

/// Turns a flat directive argument list into a structured directive, or
/// reports exactly when the list does not follow the directive grammar.
pub fn parse_directive(toks: &Vec<Tok>) -> (r: Result<Directive, TransformError>)
    ensures
        r is Ok <==> spec_parse_directive(toks_view(toks@)) is Some,
        r matches Ok(d) ==> Some(d@) == spec_parse_directive(toks_view(toks@)),
        r matches Err(e) ==> e == TransformError::MalformedDirective,
{
    let acc = Directive { transform_params: Vec::new(), add_bounds: Vec::new() };
    proof {
        assert(acc@.transform_params =~~= empty_directive().transform_params);
        assert(acc@.add_bounds =~~= empty_directive().add_bounds);
        assert(acc@ =~~= empty_directive());
    }
    match parse_args_x(toks, 0, acc) {
        Some(d) => Ok(d),
        None => Err(TransformError::MalformedDirective),
    }
}

} // verus!
