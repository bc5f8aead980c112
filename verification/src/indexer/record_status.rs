//! Extracts the HTTP status code from the record body.

use vstd::prelude::*;

use crate::indexer::cdxj_index_errors::{spec_err_kind, CDXJIndexRecordError, RecordFailure};
use crate::indexer::http_response::{parse_http_response, spec_http_parse};
use crate::record::{RawRecord, RawRecordModel};
use crate::text::{push_dec_u64, spec_dec};

verus! {

/// The HTTP status code of the archived response.
#[derive(Debug, Clone, Copy, PartialEq, Eq, PartialOrd, Ord, Structural)]
pub struct RecordStatus(pub u16);

/// What extracting the status yields: the code of the body parsed as
/// an HTTP response, or a status failure when the body is rejected or
/// carries no code.
pub open spec fn spec_record_status(r: RawRecordModel) -> Result<u16, RecordFailure> {
    match spec_http_parse(r.body) {
        None => Err(RecordFailure::Status),
        Some(p) => match p.0 {
            Some(code) => Ok(code),
            None => Err(RecordFailure::Status),
        },
    }
}

impl RecordStatus {
    /// Parses the record body as an HTTP response and takes its status
    /// code.
    pub fn new(record: &RawRecord) -> (r: Result<Self, CDXJIndexRecordError>)
        ensures
            match spec_record_status(record@) {
                Ok(c) => r matches Ok(st) && st.0 == c,
                Err(k) => r matches Err(e) && spec_err_kind(e) == k,
            },
    {
        match parse_http_response(record.body.as_slice()) {
            Ok((Some(code), _)) => Ok(RecordStatus(code)),
            Ok((None, _)) => Err(CDXJIndexRecordError::RecordStatusError(
                "response code is empty".to_owned(),
            )),
            Err(message) => Err(CDXJIndexRecordError::RecordStatusError(message)),
        }
    }

    /// The status code in decimal.
    pub fn to_string(&self) -> (s: String)
        ensures
            s@ == spec_dec(self.0 as nat),
    {
        let mut s = String::new();
        push_dec_u64(&mut s, self.0 as u64);
        s
    }
}

} // verus!
