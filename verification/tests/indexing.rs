use wacksy::indexer::{CDXJIndexRecord, CDXJIndexRecordError, Index, IndexingError, PageRecord};
use wacksy::record::{RawRecord, RecordType};

const TARGET_URL: &str = "https://thehtml.review/04/ascii-bedroom-archive/";
const DIGEST: &str = "sha256:ea8fac7c65fb589b0d53560f5251f74f9e9b243478dcb6b3ea79b5e36449c8d9";

fn valid_record(content_length: u64, header_len: u64) -> RawRecord {
    RawRecord {
        warc_type: RecordType::Response,
        date: Some("2025-08-06T14:37:28+01:00".to_owned()),
        target_uri: Some(TARGET_URL.to_owned()),
        payload_digest: Some(DIGEST.to_owned()),
        filename: None,
        body: b"HTTP/1.1 200\ncontent-type: text/html\n".to_vec(),
        content_length,
        header_len,
    }
}

fn fallback() -> Option<String> {
    Some("example.warc".to_owned())
}

#[test]
fn one_record_makes_one_cdxj_line() {
    let records = vec![Ok(valid_record(5, 10))];
    let index = Index::index_records(records, &fallback()).unwrap();
    assert_eq!(index.cdxj.len(), 1);
    assert_eq!(index.pages.len(), 1);
    assert_eq!(index.records_read.count(), 1);
    let expected = format!(
        "review,thehtml)/04/ascii-bedroom-archive 20250806133728 \
         {{\"url\":\"{TARGET_URL}\",\"digest\":\"{DIGEST}\",\"mime\":\"text/html\",\
         \"offset\":0,\"length\":5,\"status\":200,\"filename\":\"example.warc\"}}\n"
    );
    assert_eq!(index.cdxj.to_string(), expected);
    assert_eq!(
        index.pages.to_string(),
        format!("{{\"timestamp\":\"2025-08-06T13:37:28Z\",\"url\":\"{TARGET_URL}\"}}\n")
    );
}

#[test]
fn offsets_accumulate_over_every_record_even_skipped_ones() {
    // three records; the middle one has no date header, so it is
    // skipped, but its length must still advance the offset counter
    let mut bad = valid_record(100, 50);
    bad.date = None;
    let records = vec![
        Ok(valid_record(5, 10)),
        Ok(bad),
        Ok(valid_record(7, 20)),
    ];
    let index = Index::index_records(records, &fallback()).unwrap();
    assert_eq!(index.cdxj.len(), 2);
    assert_eq!(index.records_read.count(), 3);
    let text = index.cdxj.to_string();
    let lines: Vec<&str> = text.lines().collect();
    assert_eq!(lines.len(), 2);
    // first record sits at offset zero
    assert!(lines[0].contains("\"offset\":0,"));
    // the third record sits after 5 + 10 + 100 + 50 bytes
    assert!(lines[1].contains("\"offset\":165,"));
    assert!(lines[1].contains("\"length\":7,"));
}

#[test]
fn every_indexable_type_is_indexed_and_others_are_not() {
    let indexable = [
        RecordType::Response,
        RecordType::Revisit,
        RecordType::Resource,
        RecordType::Metadata,
    ];
    for warc_type in indexable {
        let mut r = valid_record(1, 1);
        r.warc_type = warc_type;
        let index = Index::index_records(vec![Ok(r)], &fallback()).unwrap();
        assert_eq!(index.cdxj.len(), 1);
    }
    let unindexable = [
        RecordType::WarcInfo,
        RecordType::Request,
        RecordType::Conversion,
        RecordType::Continuation,
        RecordType::Unknown("special".to_owned()),
    ];
    for warc_type in unindexable {
        let mut r = valid_record(1, 1);
        r.warc_type = warc_type.clone();
        let err = CDXJIndexRecord::new(&r, 0, &fallback()).unwrap_err();
        match err {
            CDXJIndexRecordError::UnindexableRecordType(reported) => {
                assert_eq!(format!("{reported:?}"), format!("{warc_type:?}"));
            }
            other => panic!("expected an unindexable-type error, got {other:?}"),
        }
        let mut r = valid_record(1, 1);
        r.warc_type = warc_type;
        let index = Index::index_records(vec![Ok(r)], &fallback()).unwrap();
        assert_eq!(index.cdxj.len(), 0);
        assert_eq!(index.pages.len(), 0);
    }
}

#[test]
fn metadata_records_never_make_page_entries() {
    let mut r = valid_record(1, 1);
    r.warc_type = RecordType::Metadata;
    let index = Index::index_records(vec![Ok(r)], &fallback()).unwrap();
    assert_eq!(index.cdxj.len(), 1);
    assert_eq!(index.pages.len(), 0);
}

#[test]
fn non_page_content_types_make_no_page_entry() {
    let mut r = valid_record(1, 1);
    r.body = b"HTTP/1.1 200\ncontent-type: image/png\n".to_vec();
    let index = Index::index_records(vec![Ok(r)], &fallback()).unwrap();
    assert_eq!(index.cdxj.len(), 1);
    assert_eq!(index.pages.len(), 0);
}

#[test]
fn non_200_status_makes_no_page_entry() {
    let mut r = valid_record(1, 1);
    r.body = b"HTTP/1.1 404\ncontent-type: text/html\n".to_vec();
    let index = Index::index_records(vec![Ok(r)], &fallback()).unwrap();
    assert_eq!(index.cdxj.len(), 1);
    assert_eq!(index.pages.len(), 0);
}

#[test]
fn a_bad_record_is_skipped_and_the_rest_are_indexed() {
    let mut bad = valid_record(30, 12);
    bad.date = None;
    let records = vec![
        Ok(bad),
        Ok(valid_record(5, 10)),
        Ok(valid_record(5, 10)),
    ];
    let index = Index::index_records(records, &fallback()).unwrap();
    assert_eq!(index.cdxj.len(), 2);
    let text = index.cdxj.to_string();
    let lines: Vec<&str> = text.lines().collect();
    // the first surviving record still accounts for the skipped one
    assert!(lines[0].contains("\"offset\":42,"));
    assert!(lines[1].contains("\"offset\":57,"));
}

#[test]
fn a_stream_error_is_fatal_and_reports_the_position() {
    let records = vec![
        Ok(valid_record(5, 10)),
        Err("the reader choked".to_owned()),
        Ok(valid_record(5, 10)),
    ];
    let err = Index::index_records(records, &fallback()).unwrap_err();
    match err {
        IndexingError::CriticalRecordError(message, count, offset) => {
            assert_eq!(message, "the reader choked");
            assert_eq!(count, 2);
            assert_eq!(offset, 15);
        }
        other => panic!("expected a critical record error, got {other:?}"),
    }
}

#[test]
fn an_empty_stream_makes_an_empty_index() {
    let index = Index::index_records(Vec::new(), &fallback()).unwrap();
    assert_eq!(index.cdxj.len(), 0);
    assert_eq!(index.pages.len(), 0);
    assert_eq!(index.records_read.count(), 0);
    assert_eq!(index.cdxj.to_string(), "");
    assert_eq!(index.pages.to_string(), "");
    assert_eq!(index.records_read.to_string(), "0");
}

#[test]
fn the_filename_header_wins_over_the_container_name() {
    let mut r = valid_record(1, 1);
    r.filename = Some("from-header.warc".to_owned());
    let index = Index::index_records(vec![Ok(r)], &fallback()).unwrap();
    assert!(index.cdxj.to_string().contains("\"filename\":\"from-header.warc\""));
}

#[test]
fn page_titles_are_escaped_when_present() {
    let record = valid_record(1, 1);
    let entry = CDXJIndexRecord::new(&record, 0, &fallback()).unwrap();
    let page = PageRecord {
        timestamp: entry.timestamp,
        url: entry.url,
        title: Some("a \"quoted\\\" title\u{1}".to_owned()),
    };
    assert_eq!(
        page.to_string(),
        format!(
            "{{\"timestamp\":\"2025-08-06T13:37:28Z\",\"url\":\"{TARGET_URL}\",\
             \"title\":\"a \\\"quoted\\\\\\\" title\\u0001\"}}\n"
        )
    );
}
