//! Building the response for a retrieval request.
//!
//! Given the classified retrieval outcome and the optional extension hint,
//! the builder produces one of four response shapes: not-found, server-error,
//! MIME-typed raw content, or plain raw content. The MIME type comes from a
//! static extension-to-MIME table, never from the content's bytes, and the
//! artifact's handle and modification time pass through unchanged.

use vstd::prelude::*;

use crate::resolve::RetrievalOutcome;

verus! {

/// The MIME essence string that the static extension-to-MIME table maps an
/// extension to, or `None` for an extension the table does not know. The
/// table is fixed at build time, so this is a pure function of the
/// extension.
pub uninterp spec fn mime_of_ext(ext: Seq<char>) -> Option<Seq<char>>;

/// Relies on `mime_guess::from_ext` and `MimeGuess::first`: a case-insensitive
/// lookup in a static extension-to-MIME table, empty for the empty extension;
/// and on `Mime::essence_str`: the type/subtype essence of the matched value,
/// without parameters.
#[verifier::external_body]
fn mime_for_ext(ext: &str) -> (r: Option<String>)
    ensures
        (match r {
            Some(m) => mime_of_ext(ext@) == Some(m@),
            None => mime_of_ext(ext@) is None,
        }),
        ext@.len() == 0 ==> r is None,
{
    mime_guess::from_ext(ext).first().map(|m| String::from(m.essence_str()))
}

/// One of the four response shapes of the retrieval path. The two content
/// shapes carry the artifact's reading handle and its modification time, for
/// the boundary layer to stream the body and set freshness headers.
pub enum Response<H> {
    NotFound { id: String },
    ServerError { message: String },
    MimeTyped { handle: H, modified_at: u64, mime: String },
    Raw { handle: H, modified_at: u64 },
}

/// The view of the optional extension hint.
pub open spec fn hint_view(ext: Option<&str>) -> Option<Seq<char>> {
    match ext {
        Some(e) => Some(e@),
        None => None,
    }
}

/// The full contract of `build_response`: which of the four shapes answers
/// each outcome, and with what contents.
pub open spec fn response_post<H>(
    id: Seq<char>,
    outcome: RetrievalOutcome<H>,
    ext: Option<Seq<char>>,
    r: Response<H>,
) -> bool {
    match outcome {
        RetrievalOutcome::NotFound => r matches Response::NotFound { id: rid } && rid@ == id,
        RetrievalOutcome::IoFailure { detail } => r matches Response::ServerError { message }
            && message@ == detail@,
        RetrievalOutcome::Found { handle, modified_at } => match ext {
            Some(e) => match mime_of_ext(e) {
                Some(m) => r matches Response::MimeTyped { handle: h, modified_at: t, mime }
                    && h == handle && t == modified_at && mime@ == m,
                None => r matches Response::Raw { handle: h, modified_at: t } && h == handle
                    && t == modified_at,
            },
            None => r matches Response::Raw { handle: h, modified_at: t } && h == handle && t
                == modified_at,
        },
    }
}

/// Answer a classified retrieval outcome. An absent artifact is answered
/// not-found and a storage fault with its detail as a server error; a found
/// artifact is delivered raw, MIME-typed when the extension hint maps to a
/// known MIME type, and its handle and modification time pass through
/// unchanged.
pub fn build_response<H>(id: &str, outcome: RetrievalOutcome<H>, ext: Option<&str>) -> (r:
    Response<H>)
    ensures
        response_post(id@, outcome, hint_view(ext), r),
{
    match outcome {
        RetrievalOutcome::NotFound => Response::NotFound { id: String::from_str(id) },
        RetrievalOutcome::IoFailure { detail } => Response::ServerError { message: detail },
        RetrievalOutcome::Found { handle, modified_at } => match ext {
            Some(e) => match mime_for_ext(e) {
                Some(mime) => Response::MimeTyped { handle, modified_at, mime },
                None => Response::Raw { handle, modified_at },
            },
            None => Response::Raw { handle, modified_at },
        },
    }
}

/// Law: an absent artifact is answered with the not-found response whatever
/// extension hint accompanied the request — never with a server error.
pub proof fn lemma_absent_is_not_found<H>(id: Seq<char>, ext: Option<Seq<char>>, r: Response<H>)
    requires
        response_post(id, RetrievalOutcome::<H>::NotFound, ext, r),
    ensures
        r matches Response::NotFound { id: rid } && rid@ == id,
{
}

/// Law: delivery of a found artifact carries its handle and its modification
/// time through unchanged, for every extension hint — the body delivered is
/// byte-for-byte the stored artifact — and a request without a hint is
/// always answered with the raw shape.
pub proof fn lemma_found_preserves_artifact<H>(
    handle: H,
    modified_at: u64,
    id: Seq<char>,
    ext: Option<Seq<char>>,
    r: Response<H>,
)
    requires
        response_post(id, (RetrievalOutcome::Found { handle, modified_at }), ext, r),
    ensures
        (r matches Response::Raw { handle: h, modified_at: t } && h == handle && t
            == modified_at) || (r matches Response::MimeTyped { handle: h, modified_at: t, .. }
            && h == handle && t == modified_at),
        ext is None ==> (r matches Response::Raw { handle: h, modified_at: t } && h == handle
            && t == modified_at),
{
}

/// Law: a hint present in the MIME table selects the MIME-typed shape with
/// exactly the table's mapped value; a hint the table does not know falls
/// back to the raw shape.
pub proof fn lemma_hint_selects_mime<H>(
    handle: H,
    modified_at: u64,
    id: Seq<char>,
    e: Seq<char>,
    r: Response<H>,
)
    requires
        response_post(id, (RetrievalOutcome::Found { handle, modified_at }), Some(e), r),
    ensures
        mime_of_ext(e) matches Some(m) ==> (r matches Response::MimeTyped { mime, .. }
            && mime@ == m),
        mime_of_ext(e) is None ==> (r matches Response::Raw { .. }),
{
}

} // verus!
