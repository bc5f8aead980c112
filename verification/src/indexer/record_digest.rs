//! Extracts the record's payload digest verbatim.

use vstd::prelude::*;

use crate::indexer::cdxj_index_errors::{spec_err_kind, CDXJIndexRecordError, RecordFailure};
use crate::record::{RawRecord, RawRecordModel};

verus! {

/// A cryptographic hash for the HTTP response payload, kept as the
/// opaque string token the record declares; its format is not checked.
#[derive(Debug)]
pub struct RecordDigest(pub String);

/// What extracting the digest yields: the payload-digest header as it
/// stands, or a missing-value failure when the header is absent.
pub open spec fn spec_record_digest(r: RawRecordModel) -> Result<Seq<char>, RecordFailure> {
    match r.payload_digest {
        Some(d) => Ok(d),
        None => Err(RecordFailure::ValueNotFound),
    }
}

impl RecordDigest {
    /// Reads the payload-digest header.
    pub fn new(record: &RawRecord) -> (r: Result<Self, CDXJIndexRecordError>)
        ensures
            match spec_record_digest(record@) {
                Ok(d) => r matches Ok(v) && v.0@ == d,
                Err(k) => r matches Err(e) && spec_err_kind(e) == k,
            },
    {
        match &record.payload_digest {
            Some(digest) => Ok(RecordDigest(digest.clone())),
            None => Err(CDXJIndexRecordError::ValueNotFound(
                "record does not have a payload digest in the WARC header".to_owned(),
            )),
        }
    }

    /// The digest token.
    pub fn to_string(&self) -> (s: String)
        ensures
            s@ == self.0@,
    {
        self.0.clone()
    }
}

} // verus!
