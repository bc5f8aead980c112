use wacksy::indexer::{
    CDXJIndexRecordError, PageRecord, RecordContentType, RecordDigest, RecordStatus,
    RecordTimestamp, RecordUrl, WarcFilename,
};
use wacksy::record::{RawRecord, RecordType};

fn record() -> RawRecord {
    RawRecord {
        warc_type: RecordType::Response,
        date: None,
        target_uri: None,
        payload_digest: None,
        filename: None,
        body: Vec::new(),
        content_length: 0,
        header_len: 0,
    }
}

#[test]
fn valid_timestamp() {
    let timestamp = "2025-08-06T14:37:28+01:00";
    let mut r = record();
    r.date = Some(timestamp.to_owned());
    let generated_timestamp = RecordTimestamp::new(&r).unwrap().to_string();

    assert_eq!(generated_timestamp, "20250806133728");
}

#[test]
fn valid_digest() {
    let digest = "sha256:ea8fac7c65fb589b0d53560f5251f74f9e9b243478dcb6b3ea79b5e36449c8d9";
    let mut r = record();
    r.payload_digest = Some(digest.to_owned());

    let generated_digest = RecordDigest::new(&r).unwrap().to_string();

    assert_eq!(generated_digest, digest);
}

#[test]
fn valid_url() {
    let target_url = "https://thehtml.review/04/ascii-bedroom-archive/";
    let mut r = record();
    r.target_uri = Some(target_url.to_owned());

    let parsed_url = RecordUrl::new(&r).unwrap().to_string();

    assert_eq!(parsed_url, target_url);
}

#[test]
fn valid_surt() {
    let target_url = "https://thehtml.review/04/ascii-bedroom-archive/";
    let mut r = record();
    r.target_uri = Some(target_url.to_owned());

    let surt_parsed_url = RecordUrl::new(&r)
        .unwrap()
        .as_searchable_string()
        .unwrap();

    assert_eq!(surt_parsed_url, "review,thehtml)/04/ascii-bedroom-archive");
}

#[test]
fn valid_status() {
    let status = "200";
    let body = format!("HTTP/1.1 {status}\n");
    let mut r = record();
    r.body = body.into_bytes();

    let generated_status = RecordStatus::new(&r).unwrap().to_string();

    assert_eq!(generated_status, status);
}

#[test]
fn valid_content_type() {
    let mut r = record();
    r.body = b"HTTP/1.1 200\ncontent-type: text/html\n".to_vec();

    let generated_content_type = RecordContentType::new(&r).unwrap().to_string();
    let example_content_type = "text/html";

    assert_eq!(generated_content_type, example_content_type);
}

#[test]
fn valid_filename() {
    let filename = "example.warc";
    let mut r = record();
    r.filename = Some(filename.to_owned());
    let fallback = Some(filename.to_owned());

    let parsed_filename = WarcFilename::new(&r, &fallback).unwrap().to_string();

    assert_eq!(parsed_filename, filename);
}

#[test]
fn valid_page_record() {
    let timestamp = "2025-08-06T14:37:28+01:00";
    let target_url = "https://thehtml.review/04/ascii-bedroom-archive/";

    let mut r = record();
    r.warc_type = RecordType::Resource;
    r.date = Some(timestamp.to_owned());
    r.target_uri = Some(target_url.to_owned());
    r.body = b"HTTP/1.1 200\ncontent-type: text/html\n".to_vec();

    let generated_page_record = PageRecord::new(&r).unwrap().to_string();
    let example_page_record =
        format!("{{\"timestamp\":\"2025-08-06T13:37:28Z\",\"url\":\"{target_url}\"}}\n");

    assert_eq!(generated_page_record, example_page_record);
}

#[test]
fn filename_falls_back_to_container_name() {
    let r = record();
    let fallback = Some("container.warc".to_owned());
    let parsed = WarcFilename::new(&r, &fallback).unwrap().to_string();
    assert_eq!(parsed, "container.warc");
}

#[test]
fn filename_error_without_any_source() {
    let r = record();
    let err = WarcFilename::new(&r, &None).unwrap_err();
    assert!(matches!(err, CDXJIndexRecordError::WarcFilenameError(_)));
}

#[test]
fn missing_date_is_value_not_found() {
    let r = record();
    let err = RecordTimestamp::new(&r).unwrap_err();
    assert!(matches!(err, CDXJIndexRecordError::ValueNotFound(_)));
}

#[test]
fn unparsable_date_is_timestamp_error() {
    let mut r = record();
    r.date = Some("yesterday at noon".to_owned());
    let err = RecordTimestamp::new(&r).unwrap_err();
    assert!(matches!(err, CDXJIndexRecordError::RecordTimestampError(_)));
}

#[test]
fn missing_target_uri_is_value_not_found() {
    let r = record();
    let err = RecordUrl::new(&r).unwrap_err();
    assert!(matches!(err, CDXJIndexRecordError::ValueNotFound(_)));
}

#[test]
fn unparsable_url_is_url_error() {
    let mut r = record();
    r.target_uri = Some("not a url at all".to_owned());
    let err = RecordUrl::new(&r).unwrap_err();
    assert!(matches!(err, CDXJIndexRecordError::RecordUrlError(_)));
}

#[test]
fn url_without_host_has_no_searchable_string() {
    let mut r = record();
    r.target_uri = Some("mailto:someone@example.org".to_owned());
    let url = RecordUrl::new(&r).unwrap();
    let err = url.as_searchable_string().unwrap_err();
    assert!(matches!(err, CDXJIndexRecordError::ValueNotFound(_)));
}

#[test]
fn missing_digest_is_value_not_found() {
    let r = record();
    let err = RecordDigest::new(&r).unwrap_err();
    assert!(matches!(err, CDXJIndexRecordError::ValueNotFound(_)));
}

#[test]
fn garbage_body_is_status_error() {
    let mut r = record();
    r.body = b"not an http response".to_vec();
    let err = RecordStatus::new(&r).unwrap_err();
    assert!(matches!(err, CDXJIndexRecordError::RecordStatusError(_)));
}

#[test]
fn missing_content_type_is_value_not_found() {
    let mut r = record();
    r.body = b"HTTP/1.1 200\nserver: none\n".to_vec();
    let err = RecordContentType::new(&r).unwrap_err();
    assert!(matches!(err, CDXJIndexRecordError::ValueNotFound(_)));
}

#[test]
fn garbage_body_is_content_type_error() {
    let mut r = record();
    r.body = b"not an http response".to_vec();
    let err = RecordContentType::new(&r).unwrap_err();
    assert!(matches!(err, CDXJIndexRecordError::RecordContentTypeError(_)));
}

#[test]
fn revisit_record_content_type_is_the_literal_token() {
    let mut r = record();
    r.warc_type = RecordType::Revisit;
    r.body = b"HTTP/1.1 200\ncontent-type: text/html\n".to_vec();
    let generated = RecordContentType::new(&r).unwrap().to_string();
    assert_eq!(generated, "revisit");
}

#[test]
fn content_type_scan_is_case_sensitive() {
    let mut r = record();
    r.body = b"HTTP/1.1 200\nContent-Type: text/html\n".to_vec();
    let err = RecordContentType::new(&r).unwrap_err();
    assert!(matches!(err, CDXJIndexRecordError::ValueNotFound(_)));
}

#[test]
fn url_display_is_lowercased() {
    let mut r = record();
    r.target_uri = Some("https://thehtml.review/MiXeD/CaSe".to_owned());
    let url = RecordUrl::new(&r).unwrap();
    assert_eq!(url.to_string(), "https://thehtml.review/mixed/case");
}

#[test]
fn timestamp_shift_can_cross_a_year_boundary() {
    let mut r = record();
    r.date = Some("2025-01-01T00:30:00+01:00".to_owned());
    let generated = RecordTimestamp::new(&r).unwrap().to_string();
    assert_eq!(generated, "20241231233000");
}

#[test]
fn timestamp_shift_lands_on_a_leap_day() {
    let mut r = record();
    r.date = Some("2024-03-01T00:00:00+01:00".to_owned());
    let generated = RecordTimestamp::new(&r).unwrap().to_string();
    assert_eq!(generated, "20240229230000");
}

#[test]
fn timestamp_shift_can_carry_into_the_next_day() {
    let mut r = record();
    r.date = Some("2025-12-31T19:30:00-05:00".to_owned());
    let generated = RecordTimestamp::new(&r).unwrap().to_string();
    assert_eq!(generated, "20260101003000");
}

#[test]
fn fractional_seconds_survive_into_the_page_timestamp() {
    let mut r = record();
    r.warc_type = RecordType::Response;
    r.date = Some("2025-08-06T14:37:28.5+01:00".to_owned());
    r.target_uri = Some("https://example.org/".to_owned());
    r.body = b"HTTP/1.1 200\ncontent-type: text/plain\n".to_vec();
    let page = PageRecord::new(&r).unwrap();
    assert_eq!(
        page.to_string(),
        "{\"timestamp\":\"2025-08-06T13:37:28.500Z\",\"url\":\"https://example.org/\"}\n"
    );
}

#[test]
fn surt_carries_query_and_fragment() {
    let mut r = record();
    r.target_uri = Some("https://thehtml.review/search?q=rooms#top".to_owned());
    let surt = RecordUrl::new(&r)
        .unwrap()
        .as_searchable_string()
        .unwrap();
    assert_eq!(surt, "review,thehtml)/search?q=rooms#top");
}

#[test]
fn surt_keeps_the_root_path_slash() {
    let mut r = record();
    r.target_uri = Some("https://thehtml.review".to_owned());
    let surt = RecordUrl::new(&r)
        .unwrap()
        .as_searchable_string()
        .unwrap();
    assert_eq!(surt, "review,thehtml)/");
}
