//! Token model for directive argument lists.
//!
//! A directive (the argument list of a unit-scoped or method-scoped marker)
//! arrives as a flat sequence of tokens. Groups one level down (the
//! parenthesized payload of a keyword form) keep their token structure, while
//! the interior of any deeper group is carried as verbatim text: the grammar
//! below never needs to look inside it.

use vstd::prelude::*;

verus! {

/// The delimiter of a token group.
#[derive(Clone, Copy, Debug, PartialEq, Eq, Structural)]
pub enum Delim {
    Paren,
    Bracket,
    Brace,
}

/// A token inside a keyword form's payload.
#[derive(Debug, PartialEq, Eq)]
pub enum ArgTok {
    /// An identifier or keyword.
    Ident(String),
    /// A single punctuation character.
    Punct(char),
    /// A nested group; its interior is carried as verbatim text.
    Group(Delim, String),
    /// A literal, carried as verbatim text.
    Lit(String),
}

/// A token of the top-level directive argument list.
#[derive(Debug, PartialEq, Eq)]
pub enum Tok {
    /// An identifier or keyword.
    Ident(String),
    /// A single punctuation character.
    Punct(char),
    /// A delimited group holding a keyword form's payload.
    Group(Delim, Vec<ArgTok>),
    /// A literal, carried as verbatim text.
    Lit(String),
}

/// Mathematical counterpart of [`ArgTok`].
#[verifier::ext_equal]
pub enum SpecArgTok {
    Ident(Seq<char>),
    Punct(char),
    Group(Delim, Seq<char>),
    Lit(Seq<char>),
}

/// Mathematical counterpart of [`Tok`].
#[verifier::ext_equal]
pub enum SpecTok {
    Ident(Seq<char>),
    Punct(char),
    Group(Delim, Seq<SpecArgTok>),
    Lit(Seq<char>),
}

impl View for ArgTok {
    type V = SpecArgTok;

    open spec fn view(&self) -> SpecArgTok {
        match self {
            ArgTok::Ident(s) => SpecArgTok::Ident(s@),
            ArgTok::Punct(c) => SpecArgTok::Punct(*c),
            ArgTok::Group(d, s) => SpecArgTok::Group(*d, s@),
            ArgTok::Lit(s) => SpecArgTok::Lit(s@),
        }
    }
}

impl View for Tok {
    type V = SpecTok;

    open spec fn view(&self) -> SpecTok {
        match self {
            Tok::Ident(s) => SpecTok::Ident(s@),
            Tok::Punct(c) => SpecTok::Punct(*c),
            Tok::Group(d, ts) => SpecTok::Group(*d, ts@.map_values(|t: ArgTok| t@)),
            Tok::Lit(s) => SpecTok::Lit(s@),
        }
    }
}

/// The view of a whole payload token vector.
pub open spec fn arg_toks_view(v: Seq<ArgTok>) -> Seq<SpecArgTok> {
    v.map_values(|t: ArgTok| t@)
}

impl Clone for ArgTok {
    fn clone(&self) -> (res: Self)
        ensures
            res@ == self@,
    {
        match self {
            ArgTok::Ident(s) => ArgTok::Ident(s.clone()),
            ArgTok::Punct(c) => ArgTok::Punct(*c),
            ArgTok::Group(d, s) => ArgTok::Group(*d, s.clone()),
            ArgTok::Lit(s) => ArgTok::Lit(s.clone()),
        }
    }
}

/// Duplicates a payload token vector, keeping its view.
pub fn clone_arg_toks(v: &Vec<ArgTok>) -> (r: Vec<ArgTok>)
    ensures
        arg_toks_view(r@) == arg_toks_view(v@),
{
    let r = v.clone();
    proof {
        assert(arg_toks_view(r@) =~= arg_toks_view(v@));
    }
    r
}

impl Clone for Tok {
    fn clone(&self) -> (res: Self)
        ensures
            res@ == self@,
    {
        match self {
            Tok::Ident(s) => Tok::Ident(s.clone()),
            Tok::Punct(c) => Tok::Punct(*c),
            Tok::Group(d, ts) => {
                let r = Tok::Group(*d, clone_arg_toks(ts));
                assert(r@ == self@);
                r
            },
            Tok::Lit(s) => Tok::Lit(s.clone()),
        }
    }
}

/// The view of a whole top-level token vector.
pub open spec fn toks_view(v: Seq<Tok>) -> Seq<SpecTok> {
    v.map_values(|t: Tok| t@)
}

/// The opening character of a delimiter.
pub open spec fn open_char(d: Delim) -> char {
    match d {
        Delim::Paren => '(',
        Delim::Bracket => '[',
        Delim::Brace => '{',
    }
}

/// The closing character of a delimiter.
pub open spec fn close_char(d: Delim) -> char {
    match d {
        Delim::Paren => ')',
        Delim::Bracket => ']',
        Delim::Brace => '}',
    }
}

/// The text of one payload token.
pub open spec fn spec_tok_text(t: SpecArgTok) -> Seq<char> {
    match t {
        SpecArgTok::Ident(s) => s,
        SpecArgTok::Punct(c) => seq![c],
        SpecArgTok::Group(d, s) => seq![open_char(d)] + s + seq![close_char(d)],
        SpecArgTok::Lit(s) => s,
    }
}

/// The text of the token range `[i, j)`, tokens joined by single spaces.
pub open spec fn spec_render(toks: Seq<SpecArgTok>, i: int, j: int) -> Seq<char>
    decreases j - i,
{
    if j <= i || i < 0 || j > toks.len() {
        Seq::empty()
    } else if i + 1 == j {
        spec_tok_text(toks[i])
    } else {
        spec_tok_text(toks[i]) + seq![' '] + spec_render(toks, i + 1, j)
    }
}

/// Relies on `String::push`: appends one character at the end of the string.
#[verifier::external_body]
pub(crate) fn push_char(s: &mut String, c: char)
    ensures
        final(s)@ == old(s)@ + seq![c],
{
    s.push(c);
}

/// Builds the text of one payload token.
fn tok_text(t: &ArgTok) -> (r: String)
    ensures
        r@ == spec_tok_text(t@),
{
    match t {
        ArgTok::Ident(s) => s.clone(),
        ArgTok::Punct(c) => {
            let mut out = String::new();
            push_char(&mut out, *c);
            assert(out@ == Seq::<char>::empty() + seq![*c]);
            assert(out@ =~= seq![*c]);
            out
        },
        ArgTok::Group(d, s) => {
            let mut out = String::new();
            let oc = match d {
                Delim::Paren => '(',
                Delim::Bracket => '[',
                Delim::Brace => '{',
            };
            let cc = match d {
                Delim::Paren => ')',
                Delim::Bracket => ']',
                Delim::Brace => '}',
            };
            push_char(&mut out, oc);
            out.append(s.as_str());
            push_char(&mut out, cc);
            assert(out@ =~= seq![open_char(*d)] + s@ + seq![close_char(*d)]);
            out
        },
        ArgTok::Lit(s) => s.clone(),
    }
}

/// Builds the text of the token range `[i, j)`, tokens joined by single spaces.
pub fn render(toks: &Vec<ArgTok>, i: usize, j: usize) -> (r: String)
    requires
        j <= toks@.len(),
    ensures
        r@ == spec_render(arg_toks_view(toks@), i as int, j as int),
    decreases j - i,
{
    if j <= i {
        String::new()
    } else if i + 1 == j {
        tok_text(&toks[i])
    } else {
        let mut out = tok_text(&toks[i]);
        push_char(&mut out, ' ');
        let rest = render(toks, i + 1, j);
        out.append(rest.as_str());
        assert(out@ =~= spec_tok_text(arg_toks_view(toks@)[i as int]) + seq![' ']
            + spec_render(arg_toks_view(toks@), i + 1, j as int));
        out
    }
}

} // verus!
