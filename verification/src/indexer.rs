//! Walks the record stream once and composes the CDXJ and pages indexes.

use vstd::prelude::*;

pub mod cdxj_index_errors;
pub mod http_response;
pub mod page_record;
pub mod record_content_type;
pub mod record_digest;
pub mod record_status;
pub mod record_timestamp;
pub mod record_url;
pub mod warc_filename;
pub mod indexing_errors;
pub mod laws;
pub mod timestamp;

pub use cdxj_index_errors::CDXJIndexRecordError;
pub use indexing_errors::IndexingError;
pub use page_record::PageRecord;
pub use record_content_type::RecordContentType;
pub use record_digest::RecordDigest;
pub use record_status::RecordStatus;
pub use record_timestamp::RecordTimestamp;
pub use record_url::RecordUrl;
pub use warc_filename::WarcFilename;
pub use timestamp::Timestamp;

use crate::indexer::cdxj_index_errors::{spec_err_kind, RecordFailure};
use crate::indexer::page_record::{spec_new_page, spec_page_line, PageRecordModel};
use crate::indexer::record_content_type::spec_record_content_type;
use crate::indexer::record_digest::spec_record_digest;
use crate::indexer::record_status::spec_record_status;
use crate::indexer::record_timestamp::spec_record_timestamp;
use crate::indexer::record_url::{
    spec_record_url, spec_searchable_url, spec_unicode_lower, RecordUrlModel,
};
use crate::indexer::timestamp::spec_compact_chars;
use crate::indexer::warc_filename::spec_warc_filename;
use crate::record::{spec_is_indexable, spec_opt_view, RawRecord, RawRecordModel};
use crate::text::{push_dec_u64, spec_dec};
use vstd::wrapping::u64_specs;

verus! {

/// A record which would make up a line in a CDXJ index.
#[derive(Debug)]
pub struct CDXJIndexRecord {
    /// The date and time when the web archive snapshot was created.
    pub timestamp: RecordTimestamp,
    /// Sort-friendly formatted URL.
    pub searchable_url: String,
    /// The URL that was archived.
    pub url: RecordUrl,
    /// A cryptographic hash for the HTTP response payload.
    pub digest: RecordDigest,
    /// The media type for the response payload.
    pub mime: RecordContentType,
    /// The WARC file where the WARC record is located.
    pub filename: WarcFilename,
    /// The byte offset for the WARC record.
    pub offset: u64,
    /// The length in bytes of the WARC record.
    pub length: u64,
    /// The HTTP status code for the HTTP response.
    pub status: RecordStatus,
}

/// The mathematical model of a transaction index entry.
#[verifier::ext_equal]
pub struct CDXJIndexRecordModel {
    pub timestamp: Timestamp,
    pub searchable_url: Seq<char>,
    pub url: RecordUrlModel,
    pub digest: Seq<char>,
    pub mime: Seq<char>,
    pub filename: Seq<char>,
    pub offset: u64,
    pub length: u64,
    pub status: u16,
}

impl View for CDXJIndexRecord {
    type V = CDXJIndexRecordModel;

    open spec fn view(&self) -> CDXJIndexRecordModel {
        CDXJIndexRecordModel {
            timestamp: self.timestamp.0,
            searchable_url: self.searchable_url@,
            url: self.url@,
            digest: self.digest.0@,
            mime: self.mime.0@,
            filename: self.filename.0@,
            offset: self.offset,
            length: self.length,
            status: self.status.0,
        }
    }
}

/// What composing a transaction index entry yields: classification
/// first, then the extractors in the order URL, searchable string,
/// timestamp, digest, media type, filename, status, the first failure
/// abandoning the entry.
pub open spec fn spec_new_cdxj(
    r: RawRecordModel,
    byte_counter: u64,
    fallback: Option<Seq<char>>,
) -> Result<CDXJIndexRecordModel, RecordFailure> {
    if !spec_is_indexable(r.warc_type) {
        Err(RecordFailure::Unindexable)
    } else {
        match spec_record_url(r) {
            Err(k) => Err(k),
            Ok(u) => match spec_searchable_url(u) {
                Err(k) => Err(k),
                Ok(surt) => match spec_record_timestamp(r) {
                    Err(k) => Err(k),
                    Ok(ts) => match spec_record_digest(r) {
                        Err(k) => Err(k),
                        Ok(d) => match spec_record_content_type(r) {
                            Err(k) => Err(k),
                            Ok(mime) => match spec_warc_filename(r, fallback) {
                                Err(k) => Err(k),
                                Ok(f) => match spec_record_status(r) {
                                    Err(k) => Err(k),
                                    Ok(st) => Ok(CDXJIndexRecordModel {
                                        timestamp: ts,
                                        searchable_url: surt,
                                        url: u,
                                        digest: d,
                                        mime: mime,
                                        filename: f,
                                        offset: byte_counter,
                                        length: r.content_length,
                                        status: st,
                                    }),
                                },
                            },
                        },
                    },
                },
            },
        }
    }
}

/// One transaction-index line: the searchable URL, the compact
/// timestamp, and a JSON block with the lowercased URL, digest, media
/// type, offset, length, status and filename, newline-terminated.
pub open spec fn spec_cdxj_line(m: CDXJIndexRecordModel) -> Seq<char> {
    m.searchable_url + (" ")@ + spec_compact_chars(m.timestamp) + (" {\"url\":\"")@
        + spec_unicode_lower(m.url.serialized) + ("\",\"digest\":\"")@ + m.digest
        + ("\",\"mime\":\"")@ + m.mime + ("\",\"offset\":")@ + spec_dec(m.offset as nat)
        + (",\"length\":")@ + spec_dec(m.length as nat) + (",\"status\":")@
        + spec_dec(m.status as nat) + (",\"filename\":\"")@ + m.filename + ("\"}\n")@
}

impl CDXJIndexRecord {
    /// Composes the transaction index entry for a record: classifies
    /// it, runs every field extractor, and abandons the entry at the
    /// first failure. `byte_counter` is the record's byte offset in the
    /// container; `fallback` is the container file's own name, used
    /// when the record carries no filename header.
    pub fn new(record: &RawRecord, byte_counter: u64, fallback: &Option<String>) -> (r: Result<
        Self,
        CDXJIndexRecordError,
    >)
        ensures
            match spec_new_cdxj(record@, byte_counter, spec_opt_view(*fallback)) {
                Ok(m) => r matches Ok(rec) && rec@ == m && rec.timestamp.0.wf(),
                Err(k) => r matches Err(e) && spec_err_kind(e) == k && (k
                    matches RecordFailure::Unindexable
                    ==> e matches CDXJIndexRecordError::UnindexableRecordType(t) && t
                    == record.warc_type),
            },
    {
        if record.warc_type.is_indexable() {
            let url = match RecordUrl::new(record) {
                Ok(u) => u,
                Err(e) => return Err(e),
            };
            let searchable_url = match url.as_searchable_string() {
                Ok(s) => s,
                Err(e) => return Err(e),
            };
            let timestamp = match RecordTimestamp::new(record) {
                Ok(ts) => ts,
                Err(e) => return Err(e),
            };
            let digest = match RecordDigest::new(record) {
                Ok(d) => d,
                Err(e) => return Err(e),
            };
            let mime = match RecordContentType::new(record) {
                Ok(m) => m,
                Err(e) => return Err(e),
            };
            let filename = match WarcFilename::new(record, fallback) {
                Ok(f) => f,
                Err(e) => return Err(e),
            };
            let status = match RecordStatus::new(record) {
                Ok(st) => st,
                Err(e) => return Err(e),
            };
            Ok(CDXJIndexRecord {
                timestamp,
                searchable_url,
                url,
                digest,
                mime,
                filename,
                offset: byte_counter,
                length: record.content_length,
                status,
            })
        } else {
            Err(CDXJIndexRecordError::UnindexableRecordType(record.warc_type.clone()))
        }
    }

    /// The transaction-index line for this entry.
    #[verifier::rlimit(60)]
    pub fn to_string(&self) -> (s: String)
        requires
            self.timestamp.0.wf(),
        ensures
            s@ == spec_cdxj_line(self@),
    {
        let mut s = self.searchable_url.clone();
        s.append(" ");
        self.timestamp.0.push_compact(&mut s);
        s.append(" {\"url\":\"");
        let lowered_url = self.url.to_string();
        s.append(lowered_url.as_str());
        s.append("\",\"digest\":\"");
        s.append(self.digest.0.as_str());
        s.append("\",\"mime\":\"");
        s.append(self.mime.0.as_str());
        s.append("\",\"offset\":");
        push_dec_u64(&mut s, self.offset);
        s.append(",\"length\":");
        push_dec_u64(&mut s, self.length);
        s.append(",\"status\":");
        push_dec_u64(&mut s, self.status.0 as u64);
        s.append(",\"filename\":\"");
        s.append(self.filename.0.as_str());
        s.append("\"}\n");
        assert(s@ =~= spec_cdxj_line(self@));
        s
    }
}

/// The length a record adds to the byte offset: its declared content
/// length plus the length of its serialized header block, in wrapping
/// sixty-four bit arithmetic.
pub open spec fn spec_record_len(r: RawRecordModel) -> u64 {
    u64_specs::wrapping_add(r.content_length, r.header_len)
}

/// The byte offset after the first `k` stream items, each assumed to
/// be a record: the wrapping sum of every record's length.
pub open spec fn spec_offset_through(items: Seq<Result<RawRecord, String>>, k: int) -> u64
    decreases k,
{
    if k <= 0 {
        0u64
    } else {
        u64_specs::wrapping_add(
            spec_offset_through(items, k - 1),
            spec_record_len(items[k - 1]->Ok_0@),
        )
    }
}

/// The transaction index entries produced by the first `k` stream
/// items: one entry for every record that composes cleanly at its
/// offset, in stream order.
pub open spec fn spec_cdxj_entries(
    items: Seq<Result<RawRecord, String>>,
    fallback: Option<Seq<char>>,
    k: int,
) -> Seq<CDXJIndexRecordModel>
    decreases k,
{
    if k <= 0 {
        Seq::<CDXJIndexRecordModel>::empty()
    } else {
        spec_cdxj_entries(items, fallback, k - 1) + match items[k - 1] {
            Ok(rec) => match spec_new_cdxj(rec@, spec_offset_through(items, k - 1), fallback) {
                Ok(m) => seq![m],
                Err(_) => Seq::<CDXJIndexRecordModel>::empty(),
            },
            Err(_) => Seq::<CDXJIndexRecordModel>::empty(),
        }
    }
}

/// The page entries produced by the first `k` stream items: a page is
/// only attempted for a record whose transaction entry was created,
/// and added when it qualifies.
pub open spec fn spec_page_entries(
    items: Seq<Result<RawRecord, String>>,
    fallback: Option<Seq<char>>,
    k: int,
) -> Seq<PageRecordModel>
    decreases k,
{
    if k <= 0 {
        Seq::<PageRecordModel>::empty()
    } else {
        spec_page_entries(items, fallback, k - 1) + match items[k - 1] {
            Ok(rec) => if spec_new_cdxj(rec@, spec_offset_through(items, k - 1), fallback) is Ok {
                match spec_new_page(rec@) {
                    Ok(p) => seq![p],
                    Err(_) => Seq::<PageRecordModel>::empty(),
                }
            } else {
                Seq::<PageRecordModel>::empty()
            },
            Err(_) => Seq::<PageRecordModel>::empty(),
        }
    }
}

/// The position of the first stream item the reader failed on, or
/// minus one when the whole stream was read.
pub open spec fn spec_first_stream_err(items: Seq<Result<RawRecord, String>>) -> int
    decreases items.len(),
{
    if items.len() == 0 {
        -1
    } else if items[0] is Err {
        0
    } else {
        let r = spec_first_stream_err(items.skip(1));
        if r == -1 { -1 } else { r + 1 }
    }
}

/// A least failed position settles the first-failure position.
proof fn lemma_first_stream_err_at(items: Seq<Result<RawRecord, String>>, i: int)
    requires
        0 <= i < items.len(),
        items[i] is Err,
        forall|j: int| 0 <= j < i ==> items[j] is Ok,
    ensures
        spec_first_stream_err(items) == i,
    decreases items.len(),
{
    if i > 0 {
        lemma_first_stream_err_at(items.skip(1), i - 1);
    }
}

/// A stream with no failed item has first-failure position minus one.
proof fn lemma_first_stream_err_none(items: Seq<Result<RawRecord, String>>)
    requires
        forall|j: int| 0 <= j < items.len() ==> items[j] is Ok,
    ensures
        spec_first_stream_err(items) == -1,
    decreases items.len(),
{
    if items.len() > 0 {
        lemma_first_stream_err_none(items.skip(1));
    }
}

/// The views of a list of transaction entries.
pub open spec fn spec_cdxj_views(s: Seq<CDXJIndexRecord>) -> Seq<CDXJIndexRecordModel> {
    s.map_values(|e: CDXJIndexRecord| e@)
}

/// The views of a list of page entries.
pub open spec fn spec_page_views(s: Seq<PageRecord>) -> Seq<PageRecordModel> {
    s.map_values(|e: PageRecord| e@)
}

/// Contains the list of transaction index entries, in stream order.
#[derive(Debug)]
pub struct CDXJIndex(Vec<CDXJIndexRecord>);

impl View for CDXJIndex {
    type V = Seq<CDXJIndexRecordModel>;

    closed spec fn view(&self) -> Seq<CDXJIndexRecordModel> {
        spec_cdxj_views(self.0@)
    }
}

/// The whole transaction index: the concatenation of the entry lines
/// in stream order.
pub open spec fn spec_cdxj_index_chars(s: Seq<CDXJIndexRecordModel>) -> Seq<char>
    decreases s.len(),
{
    if s.len() == 0 {
        Seq::<char>::empty()
    } else {
        spec_cdxj_index_chars(s.drop_last()) + spec_cdxj_line(s.last())
    }
}

impl CDXJIndex {
    /// Every entry holds a well-formed timestamp.
    pub closed spec fn wf(&self) -> bool {
        forall|j: int| 0 <= j < self.0@.len() ==> (#[trigger] self.0@[j]).timestamp.0.wf()
    }

    /// The number of entries.
    pub fn len(&self) -> (n: usize)
        ensures
            n == self@.len(),
    {
        self.0.len()
    }

    /// The full index text, one line per entry, in stream order.
    pub fn to_string(&self) -> (s: String)
        requires
            self.wf(),
        ensures
            s@ == spec_cdxj_index_chars(self@),
    {
        let mut s = String::new();
        let mut i: usize = 0;
        while i < self.0.len()
            invariant
                i <= self.0@.len(),
                self.wf(),
                s@ == spec_cdxj_index_chars(self@.take(i as int)),
            decreases self.0@.len() - i,
        {
            let line = self.0[i].to_string();
            s.append(line.as_str());
            proof {
                assert(self@.take(i + 1).drop_last() =~= self@.take(i as int));
                assert(s@ =~= spec_cdxj_index_chars(self@.take(i + 1)));
            }
            i = i + 1;
        }
        proof {
            assert(self@.take(self@.len() as int) =~= self@);
        }
        s
    }
}

/// Contains the list of page entries, in stream order.
#[derive(Debug)]
pub struct PageIndex(Vec<PageRecord>);

impl View for PageIndex {
    type V = Seq<PageRecordModel>;

    closed spec fn view(&self) -> Seq<PageRecordModel> {
        spec_page_views(self.0@)
    }
}

/// The whole pages index: the concatenation of the entry lines in
/// stream order.
pub open spec fn spec_page_index_chars(s: Seq<PageRecordModel>) -> Seq<char>
    decreases s.len(),
{
    if s.len() == 0 {
        Seq::<char>::empty()
    } else {
        spec_page_index_chars(s.drop_last()) + spec_page_line(s.last())
    }
}

impl PageIndex {
    /// Every entry holds a well-formed timestamp.
    pub closed spec fn wf(&self) -> bool {
        forall|j: int| 0 <= j < self.0@.len() ==> (#[trigger] self.0@[j]).timestamp.0.wf()
    }

    /// The number of entries.
    pub fn len(&self) -> (n: usize)
        ensures
            n == self@.len(),
    {
        self.0.len()
    }

    /// The full index text, one line per entry, in stream order.
    pub fn to_string(&self) -> (s: String)
        requires
            self.wf(),
        ensures
            s@ == spec_page_index_chars(self@),
    {
        let mut s = String::new();
        let mut i: usize = 0;
        while i < self.0.len()
            invariant
                i <= self.0@.len(),
                self.wf(),
                s@ == spec_page_index_chars(self@.take(i as int)),
            decreases self.0@.len() - i,
        {
            let line = self.0[i].to_string();
            s.append(line.as_str());
            proof {
                assert(self@.take(i + 1).drop_last() =~= self@.take(i as int));
                assert(s@ =~= spec_page_index_chars(self@.take(i + 1)));
            }
            i = i + 1;
        }
        proof {
            assert(self@.take(self@.len() as int) =~= self@);
        }
        s
    }
}

/// How many stream items the driver consumed.
#[derive(Debug)]
pub struct NumberOfRecordsRead(usize);

impl View for NumberOfRecordsRead {
    type V = int;

    closed spec fn view(&self) -> int {
        self.0 as int
    }
}

impl NumberOfRecordsRead {
    /// The count.
    pub fn count(&self) -> (n: usize)
        ensures
            n == self@,
    {
        self.0
    }

    /// The count in decimal.
    pub fn to_string(&self) -> (s: String)
        ensures
            s@ == spec_dec(self@ as nat),
    {
        let mut s = String::new();
        push_dec_u64(&mut s, self.0 as u64);
        s
    }
}

/// The result of one indexing pass: the transaction index, the pages
/// index, and the number of stream items read.
#[derive(Debug)]
pub struct Index {
    pub cdxj: CDXJIndex,
    pub pages: PageIndex,
    pub records_read: NumberOfRecordsRead,
}

impl Index {
    /// Both indexes hold only well-formed entries.
    pub open spec fn wf(&self) -> bool {
        self.cdxj.wf() && self.pages.wf()
    }

    /// Walks the record stream once and builds both indexes.
    ///
    /// Every stream item advances the byte offset by its record's
    /// declared content length plus its serialized header length,
    /// whether or not the record was indexed; a record that fails
    /// classification or extraction contributes no entry and the pass
    /// goes on. A failed stream item is fatal: the pass stops at once
    /// and reports the failed position and the last known offset, and
    /// no partial index is returned.
    ///
    /// `fallback_filename` is the container file's own name, used for
    /// records that carry no filename header.
    pub fn index_records(
        records: Vec<Result<RawRecord, String>>,
        fallback_filename: &Option<String>,
    ) -> (r: Result<Index, IndexingError>)
        ensures
            ({
                let fb = spec_opt_view(*fallback_filename);
                let n = records@.len() as int;
                match r {
                    Ok(index) => spec_first_stream_err(records@) == -1 && index.cdxj@
                        == spec_cdxj_entries(records@, fb, n) && index.pages@
                        == spec_page_entries(records@, fb, n) && index.records_read@ == n
                        && index.wf(),
                    Err(e) => spec_first_stream_err(records@) >= 0 && (e matches
                    IndexingError::CriticalRecordError(msg, count, off) && ({
                        let j = spec_first_stream_err(records@);
                        count == j + 1 && off == spec_offset_through(records@, j) && (records@[j]
                            matches Err(m) && msg@ == m@)
                    })),
                }
            }),
    {
        let ghost fb = spec_opt_view(*fallback_filename);
        let mut byte_counter: u64 = 0;
        let mut cdxj_index: Vec<CDXJIndexRecord> = Vec::new();
        let mut page_index: Vec<PageRecord> = Vec::new();
        let n = records.len();
        let mut i: usize = 0;
        while i < n
            invariant
                i <= n,
                n == records@.len(),
                fb == spec_opt_view(*fallback_filename),
                forall|j: int| 0 <= j < i ==> records@[j] is Ok,
                byte_counter == spec_offset_through(records@, i as int),
                spec_cdxj_views(cdxj_index@) == spec_cdxj_entries(records@, fb, i as int),
                spec_page_views(page_index@) == spec_page_entries(records@, fb, i as int),
                forall|j: int| 0 <= j < cdxj_index@.len()
                    ==> (#[trigger] cdxj_index@[j]).timestamp.0.wf(),
                forall|j: int| 0 <= j < page_index@.len()
                    ==> (#[trigger] page_index@[j]).timestamp.0.wf(),
            decreases n - i,
        {
            match &records[i] {
                Err(stream_error) => {
                    proof {
                        lemma_first_stream_err_at(records@, i as int);
                    }
                    return Err(IndexingError::CriticalRecordError(
                        stream_error.clone(),
                        i + 1,
                        byte_counter,
                    ));
                },
                Ok(record) => {
                    match CDXJIndexRecord::new(record, byte_counter, fallback_filename) {
                        Ok(processed_record) => {
                            cdxj_index.push(processed_record);
                            // the record was indexed; now try a page entry
                            match PageRecord::new(record) {
                                Ok(page) => page_index.push(page),
                                Err(_) => (),  // no page entry for this record
                            }
                        },
                        Err(_) => (),  // the record is skipped, the offset still advances
                    }
                    proof {
                        assert(spec_cdxj_views(cdxj_index@) =~= spec_cdxj_entries(
                            records@,
                            fb,
                            i + 1,
                        ));
                        assert(spec_page_views(page_index@) =~= spec_page_entries(
                            records@,
                            fb,
                            i + 1,
                        ));
                    }
                    let record_length: u64 = record.content_length.wrapping_add(
                        record.header_len,
                    );
                    byte_counter = byte_counter.wrapping_add(record_length);
                    i = i + 1;
                },
            }
        }
        proof {
            lemma_first_stream_err_none(records@);
        }
        Ok(
            Index {
                cdxj: CDXJIndex(cdxj_index),
                pages: PageIndex(page_index),
                records_read: NumberOfRecordsRead(n),
            },
        )
    }
}

} // verus!
