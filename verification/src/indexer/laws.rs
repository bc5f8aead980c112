//! The properties the indexer is held to, stated and proved over the
//! same specification functions its contracts use.

use vstd::prelude::*;

use crate::indexer::cdxj_index_errors::RecordFailure;
use crate::indexer::page_record::{spec_new_page, spec_page_worthy};
use crate::indexer::record_content_type::spec_record_content_type;
use crate::indexer::record_digest::spec_record_digest;
use crate::indexer::record_status::spec_record_status;
use crate::indexer::record_timestamp::spec_record_timestamp;
use crate::indexer::record_url::{spec_record_url, spec_searchable_url};
use crate::indexer::warc_filename::spec_warc_filename;
use crate::indexer::{
    spec_cdxj_entries, spec_new_cdxj, spec_offset_through, spec_page_entries, spec_record_len,
    CDXJIndexRecordModel,
};
use crate::record::{spec_is_indexable, RawRecordModel};
use crate::record::RawRecord;
use vstd::wrapping::u64_specs;

verus! {

/// Every field extractor succeeds on this record: the URL parses and
/// has a host, the date parses, the digest header is present, the
/// content type is found, a filename is available, and the status code
/// is there.
pub open spec fn spec_all_fields_extract(r: RawRecordModel, fallback: Option<Seq<char>>) -> bool {
    &&& spec_record_url(r) matches Ok(u) && spec_searchable_url(u) is Ok
    &&& spec_record_timestamp(r) is Ok
    &&& spec_record_digest(r) is Ok
    &&& spec_record_content_type(r) is Ok
    &&& spec_warc_filename(r, fallback) is Ok
    &&& spec_record_status(r) is Ok
}

/// Offset integrity: the byte offset after any stream prefix is the
/// wrapping sum of every preceding record's header plus content
/// length, whether or not that record was indexed; and the entry that
/// a cleanly composing record contributes carries exactly that sum as
/// its offset, appended in stream order.
pub proof fn lemma_offset_monotonic(
    items: Seq<Result<RawRecord, String>>,
    fallback: Option<Seq<char>>,
    k: int,
)
    requires
        0 <= k < items.len(),
        items[k] is Ok,
    ensures
        spec_offset_through(items, k + 1) == u64_specs::wrapping_add(
            spec_offset_through(items, k),
            spec_record_len(items[k]->Ok_0@),
        ),
        spec_new_cdxj(items[k]->Ok_0@, spec_offset_through(items, k), fallback) matches Ok(m)
            ==> spec_cdxj_entries(items, fallback, k + 1) == spec_cdxj_entries(
            items,
            fallback,
            k,
        ).push(m) && m.offset == spec_offset_through(items, k),
{
    let pre = spec_cdxj_entries(items, fallback, k);
    match spec_new_cdxj(items[k]->Ok_0@, spec_offset_through(items, k), fallback) {
        Ok(m) => {
            assert(spec_cdxj_entries(items, fallback, k + 1) =~= pre.push(m));
        },
        Err(_) => {},
    }
}

/// Classifier exhaustiveness: a record of one of the four indexable
/// types whose fields all extract produces a transaction entry; a
/// record of any other type produces none, with the unindexable-type
/// failure as the reported cause; and an indexable record whose fields
/// extract and which passes the page gate produces a page entry too.
pub proof fn lemma_classifier_exhaustive(
    r: RawRecordModel,
    byte_counter: u64,
    fallback: Option<Seq<char>>,
)
    ensures
        spec_is_indexable(r.warc_type) && spec_all_fields_extract(r, fallback) ==> spec_new_cdxj(
            r,
            byte_counter,
            fallback,
        ) is Ok,
        !spec_is_indexable(r.warc_type) ==> spec_new_cdxj(r, byte_counter, fallback)
            == Err::<CDXJIndexRecordModel, RecordFailure>(RecordFailure::Unindexable),
        spec_all_fields_extract(r, fallback) && spec_page_worthy(
            r.warc_type,
            spec_record_content_type(r)->Ok_0,
            spec_record_status(r)->Ok_0,
        ) ==> spec_new_page(r) is Ok,
{
}

/// Recoverable-versus-fatal separation, the recoverable half: a record
/// that fails classification or extraction contributes nothing to
/// either index, yet the offset for the records after it still
/// advances by the failed record's own length.
pub proof fn lemma_recoverable_record_skipped(
    items: Seq<Result<RawRecord, String>>,
    fallback: Option<Seq<char>>,
    k: int,
)
    requires
        0 <= k < items.len(),
        items[k] is Ok,
        spec_new_cdxj(items[k]->Ok_0@, spec_offset_through(items, k), fallback) is Err,
    ensures
        spec_cdxj_entries(items, fallback, k + 1) == spec_cdxj_entries(items, fallback, k),
        spec_page_entries(items, fallback, k + 1) == spec_page_entries(items, fallback, k),
        spec_offset_through(items, k + 1) == u64_specs::wrapping_add(
            spec_offset_through(items, k),
            spec_record_len(items[k]->Ok_0@),
        ),
{
    assert(spec_cdxj_entries(items, fallback, k + 1) =~= spec_cdxj_entries(items, fallback, k));
    assert(spec_page_entries(items, fallback, k + 1) =~= spec_page_entries(items, fallback, k));
}

/// The number of transaction entries a stream yields is the number of
/// its records that compose cleanly at their offsets: every record
/// adds one entry or none.
pub proof fn lemma_entry_count(
    items: Seq<Result<RawRecord, String>>,
    fallback: Option<Seq<char>>,
    k: int,
)
    requires
        0 <= k <= items.len(),
    ensures
        spec_cdxj_entries(items, fallback, k).len() <= k,
        spec_page_entries(items, fallback, k).len() <= spec_cdxj_entries(
            items,
            fallback,
            k,
        ).len(),
    decreases k,
{
    if k > 0 {
        lemma_entry_count(items, fallback, k - 1);
    }
}

} // verus!
