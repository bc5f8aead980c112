//! Builds CDXJ and pages indexes from a stream of WARC records.
//!
//! The indexer walks the record stream exactly once, classifies each record,
//! extracts typed metadata fields from the embedded HTTP transaction, tracks
//! the exact byte offset of each record within the container, and emits two
//! output streams: a full transaction index (CDXJ) and a filtered pages index.
//! Per-record failures are recoverable and skip only that record's entries;
//! a failure of the stream itself is fatal and aborts the pass.

use vstd::prelude::*;

pub mod datapackage;
pub mod indexer;
pub mod record;
pub mod text;

verus! {

/// The WACZ version of the file being created, deprecated in WACZ 1.2.0.
pub const WACZ_VERSION: &'static str = "1.1.1";

} // verus!
