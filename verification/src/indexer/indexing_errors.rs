//! The stream-scoped, fatal failures of an indexing pass.

use vstd::prelude::*;

verus! {

/// Why a whole indexing pass failed.
///
/// These are never recoverable: once the container reader itself cannot
/// produce the next record, the offsets of everything that follows are
/// unknowable, so no partial index is returned.
#[derive(Debug)]
pub enum IndexingError {
    /// The container could not be opened or decompressed at all; carries
    /// the reader's message. Reported before any record is read.
    WarcFileError(String),
    /// The reader failed while decoding a record. Carries the reader's
    /// message, the number of records read up to and including the failed
    /// one, and the last known byte offset.
    CriticalRecordError(String, usize, u64),
}

} // verus!
