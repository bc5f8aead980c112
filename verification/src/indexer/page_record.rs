//! The pages-index entry for a human-navigable page.

use vstd::prelude::*;

use crate::indexer::cdxj_index_errors::{spec_err_kind, CDXJIndexRecordError, RecordFailure};
use crate::indexer::record_content_type::{spec_record_content_type, RecordContentType};
use crate::indexer::record_status::{spec_record_status, RecordStatus};
use crate::indexer::record_timestamp::{spec_record_timestamp, RecordTimestamp};
use crate::indexer::record_url::{spec_record_url, RecordUrl, RecordUrlModel};
use crate::indexer::timestamp::{spec_rfc3339_chars, Timestamp};
use crate::record::{RawRecord, RawRecordModel, RecordType};
use crate::text::{push_char, push_json_escaped, spec_json_escape};

verus! {

/// A page which would make up a line in a pages file. The title is
/// reserved for future population from parsed document content and is
/// never set by the indexer.
#[derive(Debug)]
pub struct PageRecord {
    /// The date and time when the web archive snapshot was created.
    pub timestamp: RecordTimestamp,
    /// The URL that was archived.
    pub url: RecordUrl,
    /// A human-readable page title, when one is known.
    pub title: Option<String>,
}

/// The mathematical model of a page entry.
#[verifier::ext_equal]
pub struct PageRecordModel {
    pub timestamp: Timestamp,
    pub url: RecordUrlModel,
    pub title: Option<Seq<char>>,
}

impl View for PageRecord {
    type V = PageRecordModel;

    open spec fn view(&self) -> PageRecordModel {
        PageRecordModel {
            timestamp: self.timestamp.0,
            url: self.url@,
            title: match self.title {
                Some(t) => Some(t@),
                None => None,
            },
        }
    }
}

/// Whether an indexable record describes a browsable page: a response,
/// revisit or resource record whose media type is one of the page-like
/// ones and whose status is exactly 200.
pub open spec fn spec_page_worthy(t: RecordType, mime: Seq<char>, status: u16) -> bool {
    (t matches RecordType::Response || t matches RecordType::Revisit
        || t matches RecordType::Resource)
        && (mime == ("text/html")@ || mime == ("application/xhtml+xml")@
            || mime == ("text/plain")@)
        && status == 200
}

/// What building a page entry for a record yields, extraction running
/// in the order timestamp, URL, media type, status, the first failure
/// winning; a record that extracts cleanly but fails the page gate is
/// reported as unindexable.
pub open spec fn spec_new_page(r: RawRecordModel) -> Result<PageRecordModel, RecordFailure> {
    match spec_record_timestamp(r) {
        Err(k) => Err(k),
        Ok(ts) => match spec_record_url(r) {
            Err(k) => Err(k),
            Ok(u) => match spec_record_content_type(r) {
                Err(k) => Err(k),
                Ok(mime) => match spec_record_status(r) {
                    Err(k) => Err(k),
                    Ok(st) => if spec_page_worthy(r.warc_type, mime, st) {
                        Ok(PageRecordModel { timestamp: ts, url: u, title: None })
                    } else {
                        Err(RecordFailure::Unindexable)
                    },
                },
            },
        },
    }
}

/// One pages-index line: a JSON object with the timestamp and the URL,
/// and the title only when one exists, newline-terminated.
pub open spec fn spec_page_line(m: PageRecordModel) -> Seq<char> {
    ("{\"timestamp\":\"")@ + spec_rfc3339_chars(m.timestamp) + ("\",\"url\":\"")@
        + spec_json_escape(m.url.serialized) + ("\"")@ + (match m.title {
        None => Seq::<char>::empty(),
        Some(t) => (",\"title\":\"")@ + spec_json_escape(t) + ("\"")@,
    }) + ("}\n")@
}

impl PageRecord {
    /// Builds the page entry for a record, when the record qualifies.
    pub fn new(record: &RawRecord) -> (r: Result<Self, CDXJIndexRecordError>)
        ensures
            match spec_new_page(record@) {
                Ok(m) => r matches Ok(p) && p@ == m && p.timestamp.0.wf(),
                Err(k) => r matches Err(e) && spec_err_kind(e) == k && (k
                    matches RecordFailure::Unindexable
                    ==> e matches CDXJIndexRecordError::UnindexableRecordType(t) && t
                    == record.warc_type),
            },
    {
        let timestamp = match RecordTimestamp::new(record) {
            Ok(ts) => ts,
            Err(e) => return Err(e),
        };
        let url = match RecordUrl::new(record) {
            Ok(u) => u,
            Err(e) => return Err(e),
        };
        let mime = match RecordContentType::new(record) {
            Ok(m) => m,
            Err(e) => return Err(e),
        };
        let status = match RecordStatus::new(record) {
            Ok(st) => st,
            Err(e) => return Err(e),
        };

        let page_type = match &record.warc_type {
            RecordType::Response => true,
            RecordType::Revisit => true,
            RecordType::Resource => true,
            _ => false,
        };
        let page_mime = mime.0 == String::from_str("text/html")
            || mime.0 == String::from_str("application/xhtml+xml")
            || mime.0 == String::from_str("text/plain");
        if page_type && page_mime && status.0 == 200 {
            Ok(PageRecord { timestamp, url, title: None })
        } else {
            Err(CDXJIndexRecordError::UnindexableRecordType(record.warc_type.clone()))
        }
    }

    /// The pages-index line for this entry.
    pub fn to_string(&self) -> (s: String)
        requires
            self.timestamp.0.wf(),
        ensures
            s@ == spec_page_line(self@),
    {
        let mut s = String::new();
        s.append("{\"timestamp\":\"");
        self.timestamp.0.push_rfc3339(&mut s);
        s.append("\",\"url\":\"");
        push_json_escaped(&mut s, self.url.serialized.as_str());
        s.append("\"");
        match &self.title {
            None => (),
            Some(t) => {
                s.append(",\"title\":\"");
                push_json_escaped(&mut s, t.as_str());
                s.append("\"");
            },
        }
        s.append("}\n");
        assert(s@ =~= spec_page_line(self@));
        s
    }
}

} // verus!
