//! Syntax-highlighted rendering of artifact content.
//!
//! `render` turns the content of a stored artifact into one self-contained
//! HTML fragment with inline styling, selecting a grammar by the caller's
//! token and falling back to the plain-text grammar for an unrecognized
//! token. Rendering is purely functional of its inputs.

use vstd::prelude::*;

use crate::catalog::SyntaxCatalog;
use crate::catalog::grammar_of;
use crate::catalog::intact_grammars;
use crate::catalog::plain_grammar;
use crate::catalog::token_grammar;
use crate::error::Error;
use syntect::highlighting::Theme;
use syntect::parsing::SyntaxReference;
use syntect::parsing::SyntaxSet;

verus! {

/// What the highlighting engine produces for the given content, grammar set,
/// grammar and theme: the finished HTML when it accepts the input, `None`
/// when it rejects input it cannot tokenize. A pure function of these
/// arguments — the engine consults nothing else.
pub uninterp spec fn html_outcome(
    content: Seq<char>,
    set: SyntaxSet,
    grammar: SyntaxReference,
    theme: Theme,
) -> Option<Seq<char>>;

/// Relies on `syntect::html::highlighted_html_for_string`: produces one
/// self-contained HTML fragment with inline styling from the theme,
/// preserving the content's text and line structure; returns `Err` when the
/// engine rejects input it cannot tokenize; deterministic in its arguments.
/// The engine deserializes each grammar's context data and compiles its
/// regexes on first use and panics there on bad deferred data, so the set
/// must have intact deferred data; and it resolves the grammar's context
/// references against the set it is given, so the grammar must be one of
/// that same set's own.
#[verifier::external_body]
fn highlight_html(
    content: &str,
    set: &SyntaxSet,
    grammar: &SyntaxReference,
    theme: &Theme,
) -> (r: Result<String, Error>)
    requires
        intact_grammars(*set),
        grammar_of(*set, *grammar),
    ensures
        (match r {
            Ok(h) => html_outcome(content@, *set, *grammar, *theme) == Some(h@),
            Err(e) => html_outcome(content@, *set, *grammar, *theme) is None && e
                is InvalidSyntax,
        }),
{
    syntect::html::highlighted_html_for_string(content, set, grammar, theme)
        .map_err(|e| Error::InvalidSyntax(format!("{}", e)))
}

/// The outcome `render` is specified against: what the highlighting engine
/// produces for the grammar that the catalog selects for the token.
pub open spec fn spec_render(
    catalog: SyntaxCatalog,
    token: Seq<char>,
    content: Seq<char>,
) -> Option<Seq<char>> {
    html_outcome(content, catalog.grammars, catalog.spec_find(token), catalog.theme)
}

/// The full contract of `render`: the result carries exactly the engine's
/// outcome for the selected grammar, and a failure is always a syntax
/// rejection.
pub open spec fn render_post(
    catalog: SyntaxCatalog,
    token: Seq<char>,
    content: Seq<char>,
    r: Result<String, Error>,
) -> bool {
    match r {
        Ok(h) => spec_render(catalog, token, content) == Some(h@),
        Err(e) => spec_render(catalog, token, content) is None && e is InvalidSyntax,
    }
}

/// Render `content` as a self-contained highlighted HTML fragment with the
/// catalog's fixed theme. The grammar registered for `token` is used when
/// there is one; any other token selects the plain-text grammar, so an
/// unrecognized token is never an error. The catalog must be well-formed
/// (see `SyntaxCatalog::wf`), as one from `from_default_grammars` is.
pub fn render(content: &str, token: &str, catalog: &SyntaxCatalog) -> (r: Result<String, Error>)
    requires
        catalog.wf(),
    ensures
        render_post(*catalog, token@, content@, r),
{
    let grammar = catalog.find(token);
    highlight_html(content, &catalog.grammars, grammar, &catalog.theme)
}

/// Law: rendering is deterministic. The outcome is a function of the
/// content, the token and the catalog alone; two renders of the same pair
/// against the same catalog yield identical HTML, and fail alike.
pub proof fn lemma_render_deterministic(
    catalog: SyntaxCatalog,
    token: Seq<char>,
    content: Seq<char>,
    r1: Result<String, Error>,
    r2: Result<String, Error>,
)
    requires
        render_post(catalog, token, content, r1),
        render_post(catalog, token, content, r2),
    ensures
        r1 is Ok <==> r2 is Ok,
        r1 matches Ok(h1) ==> (r2 matches Ok(h2) && h1@ == h2@),
{
}

/// Law: a token the catalog does not recognize selects the plain-text
/// grammar, and rendering proceeds with it rather than failing on the
/// lookup.
pub proof fn lemma_unknown_token_falls_back(
    catalog: SyntaxCatalog,
    token: Seq<char>,
    content: Seq<char>,
)
    requires
        token_grammar(catalog.grammars, token) is None,
    ensures
        catalog.spec_find(token) == plain_grammar(catalog.grammars),
        spec_render(catalog, token, content) == html_outcome(
            content,
            catalog.grammars,
            plain_grammar(catalog.grammars),
            catalog.theme,
        ),
{
}

} // verus!
