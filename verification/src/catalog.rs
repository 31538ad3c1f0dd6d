//! The pre-compiled grammar set and fixed colour theme used for
//! syntax-highlighted rendering.
//!
//! The grammar engine's own types are opaque here; the catalog pairs one
//! grammar set with one theme, and guarantees that grammar selection by
//! token is total: an unrecognized token falls back to the plain-text
//! grammar.

use vstd::prelude::*;

use crate::error::Error;
use syntect::highlighting::Theme;
use syntect::parsing::SyntaxReference;
use syntect::parsing::SyntaxSet;

verus! {

#[verifier::external_type_specification]
#[verifier::external_body]
pub struct ExSyntaxSet(SyntaxSet);

#[verifier::external_type_specification]
#[verifier::external_body]
pub struct ExSyntaxReference(SyntaxReference);

#[verifier::external_type_specification]
#[verifier::external_body]
pub struct ExTheme(Theme);

/// The grammar that `SyntaxSet::find_syntax_by_token` yields from the set
/// for a token — a search first by registered file extension, then by
/// case-insensitive grammar name — or `None` when the set registers no
/// grammar for the token. A pure lookup in the set's contents.
pub uninterp spec fn token_grammar(set: SyntaxSet, token: Seq<char>) -> Option<SyntaxReference>;

/// The grammar named "Plain Text" held by the set, which
/// `SyntaxSet::find_syntax_plain_text` yields.
pub uninterp spec fn plain_grammar(set: SyntaxSet) -> SyntaxReference;

/// Whether the set holds a grammar named "Plain Text".
pub uninterp spec fn has_plain_grammar(set: SyntaxSet) -> bool;

/// Whether the set's deferred per-grammar data is intact: every grammar's
/// serialized context blob deserializes, and every stored regex pattern
/// compiles. The engine defers both to first use and panics there on bad
/// data, so rendering is safe only for a set with this property. It holds of
/// the engine's own pre-tested grammar dumps; a dump from an unvetted source
/// is not known to have it, since deserializing the outer dump leaves the
/// deferred data unexamined.
pub uninterp spec fn intact_grammars(set: SyntaxSet) -> bool;

/// Whether the grammar is one of the set's own — a value the set's lookups
/// hand out. The engine resolves a grammar's context references against the
/// set it is parsed with, so a grammar may only be used with the set it came
/// from; mixing two sets can misbehave or panic inside the engine.
pub uninterp spec fn grammar_of(set: SyntaxSet, grammar: SyntaxReference) -> bool;

/// Relies on `SyntaxSet::find_syntax_by_token`: a pure search of the set's
/// grammars, first by file extension, then by case-insensitive name.
#[verifier::external_body]
fn find_grammar_by_token<'a>(set: &'a SyntaxSet, token: &str) -> (r: Option<&'a SyntaxReference>)
    ensures
        (match r {
            Some(g) => token_grammar(*set, token@) == Some(*g) && grammar_of(*set, *g),
            None => token_grammar(*set, token@) is None,
        }),
{
    set.find_syntax_by_token(token)
}

/// Relies on `SyntaxSet::find_syntax_by_name`: reports whether the set holds
/// the grammar named "Plain Text".
#[verifier::external_body]
fn probe_plain_grammar(set: &SyntaxSet) -> (r: bool)
    ensures
        r == has_plain_grammar(*set),
{
    set.find_syntax_by_name("Plain Text").is_some()
}

/// Relies on `SyntaxSet::find_syntax_plain_text`: yields the grammar named
/// "Plain Text". It panics on a set that holds none, so the caller must have
/// probed for it first.
#[verifier::external_body]
fn find_plain_grammar<'a>(set: &'a SyntaxSet) -> (r: &'a SyntaxReference)
    requires
        has_plain_grammar(*set),
    ensures
        *r == plain_grammar(*set),
        grammar_of(*set, *r),
{
    set.find_syntax_plain_text()
}

/// Relies on `SyntaxSet::load_defaults_newlines`: the grammar set packaged
/// with the engine, deserialized from the engine's own pre-tested dump, so
/// its deferred per-grammar data is intact; the packaged set carries the
/// "Plain Text" grammar, which the engine's own plain-text lookup counts on.
#[verifier::external_body]
fn default_grammar_set() -> (r: SyntaxSet)
    ensures
        intact_grammars(r),
        has_plain_grammar(r),
{
    SyntaxSet::load_defaults_newlines()
}

/// The grammar set that a compiled dump deserializes to, or `None` for a
/// corrupt dump. Deserialization is a pure function of the dump's bytes.
pub uninterp spec fn grammar_set_of(bytes: Seq<u8>) -> Option<SyntaxSet>;

/// The colour theme that a theme definition parses to, or `None` for
/// malformed theme data. Parsing is a pure function of the definition's
/// bytes.
pub uninterp spec fn theme_of(bytes: Seq<u8>) -> Option<Theme>;

/// Relies on `syntect::dumps::from_reader`: deserializes a compiled
/// grammar-set dump, reporting a dump whose outer encoding is corrupt as an
/// error instead of panicking. The deferred per-grammar data inside a
/// decodable dump is not examined here, so nothing is known of
/// `intact_grammars` for the result.
#[verifier::external_body]
fn load_grammar_dump(bytes: &[u8]) -> (r: Result<SyntaxSet, Error>)
    ensures
        (match r {
            Ok(s) => grammar_set_of(bytes@) == Some(s),
            Err(e) => grammar_set_of(bytes@) is None && e is InvalidSyntax,
        }),
{
    syntect::dumps::from_reader::<SyntaxSet, &[u8]>(bytes)
        .map_err(|e| Error::InvalidSyntax(format!("{}", e)))
}

/// Relies on `ThemeSet::load_from_reader`: parses one colour-theme
/// definition, reporting malformed theme data as an error.
#[verifier::external_body]
fn load_theme_source(bytes: &[u8]) -> (r: Result<Theme, Error>)
    ensures
        (match r {
            Ok(t) => theme_of(bytes@) == Some(t),
            Err(e) => theme_of(bytes@) is None && e is ThemeLoading,
        }),
{
    let mut cursor = std::io::Cursor::new(bytes);
    syntect::highlighting::ThemeSet::load_from_reader(&mut cursor)
        .map_err(|e| Error::ThemeLoading(format!("{}", e)))
}

/// A process-wide, read-only pairing of a pre-compiled grammar set with one
/// fixed colour theme. Loaded once and passed by reference thereafter; it is
/// never mutated.
pub struct SyntaxCatalog {
    pub grammars: SyntaxSet,
    pub theme: Theme,
}

impl SyntaxCatalog {
    /// A well-formed catalog: its grammar set holds the plain-text grammar,
    /// so grammar selection can always fall back, and the set's deferred
    /// per-grammar data is intact, so the engine cannot trip over bad data
    /// mid-render. The second conjunct is a trusted property of the resource
    /// blob: the engine's own pre-tested dumps (such as its packaged default
    /// set) have it, while a dump from an unvetted source is not known to —
    /// `load` checks only the first conjunct, so rendering from a catalog it
    /// returned rests on the provenance of the dump bytes.
    pub open spec fn wf(&self) -> bool {
        has_plain_grammar(self.grammars) && intact_grammars(self.grammars)
    }

    /// The grammar the catalog selects for a token: the set's match for the
    /// token when there is one, else the plain-text grammar. Total — every
    /// token selects some grammar.
    pub open spec fn spec_find(&self, token: Seq<char>) -> SyntaxReference {
        match token_grammar(self.grammars, token) {
            Some(g) => g,
            None => plain_grammar(self.grammars),
        }
    }

    /// Pair an already-built grammar set with a theme. Rejects a grammar set
    /// that lacks the plain-text grammar, since grammar selection could then
    /// not be made total.
    pub fn from_parts(grammars: SyntaxSet, theme: Theme) -> (r: Result<SyntaxCatalog, Error>)
        ensures
            (r matches Ok(c) ==> has_plain_grammar(c.grammars) && c.grammars == grammars
                && c.theme == theme),
            r is Ok <==> has_plain_grammar(grammars),
            (r matches Err(e) ==> e is InvalidSyntax),
    {
        if probe_plain_grammar(&grammars) {
            Ok(SyntaxCatalog { grammars, theme })
        } else {
            Err(
                Error::InvalidSyntax(
                    String::from_str("grammar set holds no plain-text grammar"),
                ),
            )
        }
    }

    /// Deserialize a catalog from the two embedded resource blobs: the
    /// compiled grammar-set dump and the theme definition. A dump whose
    /// outer encoding is corrupt, malformed theme data, or a grammar set
    /// without the plain-text grammar is reported as an error for the caller
    /// to treat as fatal. The dump's deferred per-grammar data cannot be
    /// examined here, so the returned catalog is well-formed only when the
    /// dump is one of the engine's own pre-tested blobs — which the embedded
    /// resources are meant to be; see `wf`.
    pub fn load(grammar_dump: &[u8], theme_source: &[u8]) -> (r: Result<SyntaxCatalog, Error>)
        ensures
            (r matches Ok(c) ==> has_plain_grammar(c.grammars)
                && grammar_set_of(grammar_dump@) == Some(c.grammars)
                && theme_of(theme_source@) == Some(c.theme)),
            grammar_set_of(grammar_dump@) is None ==> (r matches Err(e) && e is InvalidSyntax),
            (grammar_set_of(grammar_dump@) matches Some(g) && theme_of(theme_source@) is None)
                ==> (r matches Err(e) && e is ThemeLoading),
            (grammar_set_of(grammar_dump@) matches Some(g) && theme_of(theme_source@) is Some
                && !has_plain_grammar(g)) ==> (r matches Err(e) && e is InvalidSyntax),
            (grammar_set_of(grammar_dump@) matches Some(g) && theme_of(theme_source@) is Some
                && has_plain_grammar(g)) ==> r is Ok,
    {
        let grammars = match load_grammar_dump(grammar_dump) {
            Ok(g) => g,
            Err(e) => {
                return Err(e);
            },
        };
        let theme = match load_theme_source(theme_source) {
            Ok(t) => t,
            Err(e) => {
                return Err(e);
            },
        };
        SyntaxCatalog::from_parts(grammars, theme)
    }

    /// Build a catalog from the engine's packaged default grammar set and a
    /// theme parsed from `theme_source`. The default set is one of the
    /// engine's own pre-tested dumps and carries the plain-text grammar, so
    /// a catalog returned here is always well-formed and safe to render
    /// from, and the only failure is malformed theme data.
    pub fn from_default_grammars(theme_source: &[u8]) -> (r: Result<SyntaxCatalog, Error>)
        ensures
            (r matches Ok(c) ==> c.wf() && theme_of(theme_source@) == Some(c.theme)),
            theme_of(theme_source@) is Some ==> r is Ok,
            theme_of(theme_source@) is None ==> (r matches Err(e) && e is ThemeLoading),
    {
        let theme = match load_theme_source(theme_source) {
            Ok(t) => t,
            Err(e) => {
                return Err(e);
            },
        };
        SyntaxCatalog::from_parts(default_grammar_set(), theme)
    }

    /// Select the grammar registered for `token`, falling back to the
    /// plain-text grammar when the token is unrecognized. Never fails.
    pub fn find<'a>(&'a self, token: &str) -> (r: &'a SyntaxReference)
        requires
            has_plain_grammar(self.grammars),
        ensures
            *r == self.spec_find(token@),
            grammar_of(self.grammars, *r),
    {
        match find_grammar_by_token(&self.grammars, token) {
            Some(g) => g,
            None => find_plain_grammar(&self.grammars),
        }
    }
}

} // verus!
