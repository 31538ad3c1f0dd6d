//! The closed set of failure kinds of the pipeline, one variant per
//! underlying failure source, each carrying a human-readable detail string.

use vstd::prelude::*;

verus! {

/// A failure of the retrieval-and-rendering pipeline.
///
/// `Io` is a storage-layer fault, `InvalidSyntax` a rejection by the
/// highlighting engine, and `ThemeLoading` a failure to deserialize the
/// colour-theme resource. Each conversion from an underlying error happens at
/// exactly one point; the variant keeps only the rendered message.
#[derive(Debug)]
pub enum Error {
    Io(String),
    InvalidSyntax(String),
    ThemeLoading(String),
}

impl Error {
    /// The detail message carried by any variant.
    pub open spec fn spec_detail(&self) -> Seq<char> {
        match self {
            Error::Io(s) => s@,
            Error::InvalidSyntax(s) => s@,
            Error::ThemeLoading(s) => s@,
        }
    }

    /// Borrow the detail message carried by the variant.
    pub fn detail(&self) -> (r: &String)
        ensures
            r@ == self.spec_detail(),
    {
        match self {
            Error::Io(s) => s,
            Error::InvalidSyntax(s) => s,
            Error::ThemeLoading(s) => s,
        }
    }
}

} // verus!
