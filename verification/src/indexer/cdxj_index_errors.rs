//! The record-scoped, recoverable failures of building one index entry.

use vstd::prelude::*;

use crate::record::RecordType;

verus! {

/// Why a single record could not be turned into an index entry.
///
/// Every variant is recoverable: the driver logs it, skips the record's
/// contribution to the indexes, and goes on with the next record.
#[derive(Debug)]
pub enum CDXJIndexRecordError {
    /// The date header was present but is not an RFC 3339 timestamp.
    RecordTimestampError(String),
    /// No usable container filename could be found or inferred.
    WarcFilenameError(String),
    /// The body is not a parsable HTTP response, or its content type is
    /// not valid text.
    RecordContentTypeError(String),
    /// The target-URI header was present but does not parse as a URL,
    /// or the URL is unfit for a searchable string.
    RecordUrlError(String),
    /// The body is not a parsable HTTP response, or it has no status code.
    RecordStatusError(String),
    /// A required header is absent from the record.
    ValueNotFound(String),
    /// The record's type tag is not one of the indexable types.
    UnindexableRecordType(RecordType),
}

/// The failure cases of entry construction, with the diagnostic text
/// stripped away; contracts speak of these.
pub enum RecordFailure {
    Timestamp,
    Filename,
    ContentType,
    Url,
    Status,
    ValueNotFound,
    Unindexable,
}

/// The failure case that an error value reports.
pub open spec fn spec_err_kind(e: CDXJIndexRecordError) -> RecordFailure {
    match e {
        CDXJIndexRecordError::RecordTimestampError(_) => RecordFailure::Timestamp,
        CDXJIndexRecordError::WarcFilenameError(_) => RecordFailure::Filename,
        CDXJIndexRecordError::RecordContentTypeError(_) => RecordFailure::ContentType,
        CDXJIndexRecordError::RecordUrlError(_) => RecordFailure::Url,
        CDXJIndexRecordError::RecordStatusError(_) => RecordFailure::Status,
        CDXJIndexRecordError::ValueNotFound(_) => RecordFailure::ValueNotFound,
        CDXJIndexRecordError::UnindexableRecordType(_) => RecordFailure::Unindexable,
    }
}

} // verus!
