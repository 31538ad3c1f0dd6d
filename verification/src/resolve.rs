//! Resolving an identifier to a stored artifact.
//!
//! The surrounding program performs the two storage probes (a metadata query,
//! then an open) and reports each as a plain value; the classification rules
//! live here. A missing file is always `NotFound`, never `IoFailure`, so that
//! absence is never reported as a server fault — including when the open
//! probe finds the file gone although the metadata probe had just seen it
//! (a race with a concurrent deletion).

use vstd::prelude::*;

verus! {

/// What the metadata probe of the artifact's path reported.
///
/// `Probed` carries the last-modified time as seconds since the epoch;
/// `Missing` is the probe's file-does-not-exist signal; `Failed` is any other
/// probe error, with its message.
pub enum MetaProbe {
    Probed { modified_at: u64 },
    Missing,
    Failed { message: String },
}

/// What the attempt to open the artifact for reading reported.
///
/// `Opened` carries the reading handle; `Missing` is the open's
/// file-does-not-exist signal; `Failed` is any other open error.
pub enum OpenProbe<H> {
    Opened { handle: H },
    Missing,
    Failed { message: String },
}

/// The classified result of resolving an identifier.
pub enum RetrievalOutcome<H> {
    Found { handle: H, modified_at: u64 },
    NotFound,
    IoFailure { detail: String },
}

/// What to do after the metadata probe: go on and open the file, or stop
/// with an already-decided outcome.
pub enum ResolveStep<H> {
    NeedOpen { modified_at: u64 },
    Done { outcome: RetrievalOutcome<H> },
}

/// The classification of a metadata probe report.
pub open spec fn step_of_metadata<H>(meta: MetaProbe) -> ResolveStep<H> {
    match meta {
        MetaProbe::Probed { modified_at } => ResolveStep::NeedOpen { modified_at },
        MetaProbe::Missing => ResolveStep::Done { outcome: RetrievalOutcome::NotFound },
        MetaProbe::Failed { message } => ResolveStep::Done {
            outcome: RetrievalOutcome::IoFailure { detail: message },
        },
    }
}

/// The classification of an open report, after a metadata probe that
/// returned `modified_at`. An open that finds the file gone is `NotFound`,
/// never `IoFailure`.
pub open spec fn outcome_of_open<H>(modified_at: u64, open: OpenProbe<H>) -> RetrievalOutcome<H> {
    match open {
        OpenProbe::Opened { handle } => RetrievalOutcome::Found { handle, modified_at },
        OpenProbe::Missing => RetrievalOutcome::NotFound,
        OpenProbe::Failed { message } => RetrievalOutcome::IoFailure { detail: message },
    }
}

/// Classify the metadata probe: a missing file ends the resolution as
/// `NotFound`, any other probe error as `IoFailure`, and a successful probe
/// asks the caller to open the file.
pub fn on_metadata<H>(meta: MetaProbe) -> (r: ResolveStep<H>)
    ensures
        r == step_of_metadata::<H>(meta),
{
    match meta {
        MetaProbe::Probed { modified_at } => ResolveStep::NeedOpen { modified_at },
        MetaProbe::Missing => ResolveStep::Done { outcome: RetrievalOutcome::NotFound },
        MetaProbe::Failed { message } => ResolveStep::Done {
            outcome: RetrievalOutcome::IoFailure { detail: message },
        },
    }
}

/// Classify the open attempt that follows a successful metadata probe.
/// A file that vanished between the two probes is reported `NotFound`.
pub fn on_open<H>(modified_at: u64, open: OpenProbe<H>) -> (r: RetrievalOutcome<H>)
    ensures
        r == outcome_of_open(modified_at, open),
{
    match open {
        OpenProbe::Opened { handle } => RetrievalOutcome::Found { handle, modified_at },
        OpenProbe::Missing => RetrievalOutcome::NotFound,
        OpenProbe::Failed { message } => RetrievalOutcome::IoFailure { detail: message },
    }
}

/// The storage path of an artifact: the configured root directory, a path
/// separator, and the identifier, with no further manipulation.
pub open spec fn spec_artifact_path(root: Seq<char>, id: Seq<char>) -> Seq<char> {
    root + seq!['/'] + id
}

/// Join the configured root directory and an identifier into the artifact's
/// storage path.
pub fn artifact_path(root: &str, id: &str) -> (r: String)
    ensures
        r@ == spec_artifact_path(root@, id@),
{
    let mut path = String::from_str(root);
    path.append("/");
    path.append(id);
    proof {
        reveal_strlit("/");
        assert(path@ =~= spec_artifact_path(root@, id@));
    }
    path
}

/// Absence is never a server fault: whenever either probe reports the file
/// missing, the resolution classifies as `NotFound`, never as `IoFailure`.
pub proof fn lemma_missing_is_never_io_failure<H>(meta: MetaProbe, modified_at: u64)
    ensures
        meta is Missing ==> step_of_metadata::<H>(meta) == (ResolveStep::Done {
            outcome: RetrievalOutcome::<H>::NotFound,
        }),
        outcome_of_open(modified_at, OpenProbe::<H>::Missing) == RetrievalOutcome::<H>::NotFound,
{
}

} // verus!
