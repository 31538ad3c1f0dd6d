//! Retrieval-and-rendering core for a paste store.
//!
//! An identifier (with an optional file-extension hint) names a stored text
//! artifact. The surrounding program probes the file store and performs the
//! I/O; the decision logic that turns probe results into a retrieval outcome,
//! the choice between raw and MIME-typed delivery, and the syntax-highlighted
//! rendering path all live here, each with a verified contract.

pub mod catalog;
pub mod error;
pub mod render;
pub mod resolve;
pub mod respond;
