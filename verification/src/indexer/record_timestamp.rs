//! Extracts the record's date header as a UTC timestamp.

use vstd::prelude::*;

use chrono::{Datelike, Timelike};

use crate::indexer::cdxj_index_errors::{spec_err_kind, CDXJIndexRecordError, RecordFailure};
use crate::indexer::timestamp::{
    spec_compact_chars, spec_days_in_month, spec_rfc3339_chars, spec_to_utc, to_utc, Timestamp,
};
use crate::record::{RawRecord, RawRecordModel};

verus! {

/// What the RFC 3339 parser makes of a string: nothing when the string
/// is not a valid RFC 3339 date-time, else the written year, month, day,
/// hour, minute, second, nanoseconds past the second, and the zone
/// offset in seconds.
pub uninterp spec fn spec_rfc3339_parse(s: Seq<char>) -> Option<(int, int, int, int, int, int, int, int)>;

/// Relies on chrono's `DateTime::parse_from_rfc3339` and the component
/// accessors of the parsed value: the outcome depends on the input
/// string alone, the parsed date is a real calendar date, and the
/// components lie in the ranges chrono documents for `DateTime` and
/// `FixedOffset`.
#[verifier::external_body]
fn parse_rfc3339(s: &str) -> (r: Result<(i32, u8, u8, u8, u8, u8, u32, i32), String>)
    ensures
        r is Ok <==> spec_rfc3339_parse(s@) is Some,
        r matches Ok(c) ==> spec_rfc3339_parse(s@) matches Some(p)
            && c.0 as int == p.0 && c.1 as int == p.1 && c.2 as int == p.2
            && c.3 as int == p.3 && c.4 as int == p.4 && c.5 as int == p.5
            && c.6 as int == p.6 && c.7 as int == p.7
            && -262145 <= c.0 <= 262143
            && 1 <= c.1 <= 12
            && 1 <= c.2 as int <= spec_days_in_month(c.0 as int, c.1 as int)
            && c.3 <= 23 && c.4 <= 59 && c.5 <= 59
            && c.6 <= 1_999_999_999
            && -86399 <= c.7 <= 86399,
{
    match chrono::DateTime::parse_from_rfc3339(s) {
        Ok(dt) => Ok((
            dt.year(),
            dt.month() as u8,
            dt.day() as u8,
            dt.hour() as u8,
            dt.minute() as u8,
            dt.second() as u8,
            dt.nanosecond(),
            dt.offset().local_minus_utc(),
        )),
        Err(e) => Err(e.to_string()),
    }
}

/// The date and time when the web archive snapshot was created, held in
/// UTC.
#[derive(Debug, Clone, Copy, PartialEq, Eq, Structural)]
pub struct RecordTimestamp(pub Timestamp);

/// What extracting the timestamp from a record yields: the date header
/// parsed as RFC 3339 and shifted to UTC, a missing-value failure when
/// the header is absent, or a timestamp failure when it does not parse.
pub open spec fn spec_record_timestamp(r: RawRecordModel) -> Result<Timestamp, RecordFailure> {
    match r.date {
        None => Err(RecordFailure::ValueNotFound),
        Some(ds) => match spec_rfc3339_parse(ds) {
            None => Err(RecordFailure::Timestamp),
            Some(p) => Ok(spec_to_utc(p.0, p.1, p.2, p.3, p.4, p.5, p.6 as u32, p.7)),
        },
    }
}

impl RecordTimestamp {
    /// Reads the date header and parses it as an RFC 3339 timestamp,
    /// normalized to UTC.
    pub fn new(record: &RawRecord) -> (r: Result<Self, CDXJIndexRecordError>)
        ensures
            match spec_record_timestamp(record@) {
                Ok(ts) => r matches Ok(t) && t.0 == ts && t.0.wf(),
                Err(k) => r matches Err(e) && spec_err_kind(e) == k,
            },
    {
        match &record.date {
            None => Err(CDXJIndexRecordError::ValueNotFound(
                "record does not have a date in the WARC header".to_owned(),
            )),
            Some(date_header) => match parse_rfc3339(date_header.as_str()) {
                Ok(c) => Ok(RecordTimestamp(to_utc(c.0, c.1, c.2, c.3, c.4, c.5, c.6, c.7))),
                Err(message) => Err(CDXJIndexRecordError::RecordTimestampError(message)),
            },
        }
    }

    /// The compact fourteen-digit form used in transaction index lines.
    pub fn to_string(&self) -> (s: String)
        requires
            self.0.wf(),
        ensures
            s@ == spec_compact_chars(self.0),
    {
        let mut s = String::new();
        self.0.push_compact(&mut s);
        s
    }

    /// The RFC 3339 form used in page index lines.
    pub fn to_rfc3339_string(&self) -> (s: String)
        requires
            self.0.wf(),
        ensures
            s@ == spec_rfc3339_chars(self.0),
    {
        let mut s = String::new();
        self.0.push_rfc3339(&mut s);
        s
    }
}

} // verus!
