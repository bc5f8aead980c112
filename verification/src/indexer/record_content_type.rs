//! Extracts the HTTP content type from the record body.

use vstd::prelude::*;

use crate::indexer::cdxj_index_errors::{spec_err_kind, CDXJIndexRecordError, RecordFailure};
use crate::indexer::http_response::{parse_http_response, spec_headers, spec_http_parse};
use crate::record::{RawRecord, RawRecordModel, RecordType};

verus! {

/// The media type of the archived response payload, read from the HTTP
/// headers embedded in the record body; this is not the record's own
/// WARC content type.
#[derive(Debug)]
pub struct RecordContentType(pub String);

/// The header name the scan looks for. The comparison is deliberately
/// case-sensitive against this exact lowercase spelling: that is the
/// behaviour being reproduced, not a reading of HTTP's case rules.
pub open spec fn spec_content_type_name() -> Seq<u8> {
    seq![99u8, 111u8, 110u8, 116u8, 101u8, 110u8, 116u8, 45u8, 116u8, 121u8, 112u8, 101u8]
}

/// The value of the first header literally named `content-type`.
pub open spec fn spec_find_content_type(hdrs: Seq<(Seq<u8>, Seq<u8>)>) -> Option<Seq<u8>>
    decreases hdrs.len(),
{
    if hdrs.len() == 0 {
        None
    } else if hdrs[0].0 == spec_content_type_name() {
        Some(hdrs[0].1)
    } else {
        spec_find_content_type(hdrs.skip(1))
    }
}

/// A first match at `i` settles the scan.
proof fn lemma_find_ct_at(hdrs: Seq<(Seq<u8>, Seq<u8>)>, i: int)
    requires
        0 <= i < hdrs.len(),
        hdrs[i].0 == spec_content_type_name(),
        forall|j: int| 0 <= j < i ==> hdrs[j].0 != spec_content_type_name(),
    ensures
        spec_find_content_type(hdrs) == Some(hdrs[i].1),
    decreases hdrs.len(),
{
    if i > 0 {
        lemma_find_ct_at(hdrs.skip(1), i - 1);
    }
}

/// No match anywhere settles the scan.
proof fn lemma_find_ct_none(hdrs: Seq<(Seq<u8>, Seq<u8>)>)
    requires
        forall|j: int| 0 <= j < hdrs.len() ==> hdrs[j].0 != spec_content_type_name(),
    ensures
        spec_find_content_type(hdrs) is None,
    decreases hdrs.len(),
{
    if hdrs.len() > 0 {
        lemma_find_ct_none(hdrs.skip(1));
    }
}

/// What extracting the content type yields: the literal token `revisit`
/// for a revisit record, else the value of the `content-type` header of
/// the body parsed as an HTTP response, decoded as UTF-8. The failure
/// is a content-type failure when the body is rejected or the value is
/// not UTF-8, and a missing-value failure when no such header exists.
pub open spec fn spec_revisit_token() -> Seq<char> {
    "revisit"@
}

pub open spec fn spec_record_content_type(r: RawRecordModel) -> Result<Seq<char>, RecordFailure> {
    if (r.warc_type matches RecordType::Revisit) {
        Ok(spec_revisit_token())
    } else {
        match spec_http_parse(r.body) {
            None => Err(RecordFailure::ContentType),
            Some(p) => match spec_find_content_type(p.1) {
                None => Err(RecordFailure::ValueNotFound),
                Some(v) => if vstd::utf8::valid_utf8(v) {
                    Ok(vstd::utf8::decode_utf8(v))
                } else {
                    Err(RecordFailure::ContentType)
                },
            },
        }
    }
}

/// Relies on `str::from_utf8`: it succeeds exactly on valid UTF-8 and
/// hands back the decoded characters.
#[verifier::external_body]
fn bytes_to_utf8(b: &[u8]) -> (r: Option<String>)
    ensures
        r is Some <==> vstd::utf8::valid_utf8(b@),
        r matches Some(s) ==> s@ == vstd::utf8::decode_utf8(b@),
{
    match core::str::from_utf8(b) {
        Ok(s) => Some(s.to_string()),
        Err(_) => None,
    }
}

/// Whether a header name is the exact lowercase `content-type`.
fn is_content_type_name(name: &Vec<u8>) -> (r: bool)
    ensures
        r == (name@ == spec_content_type_name()),
{
    let r = name.len() == 12 && *name.get(0).unwrap() == 99 && *name.get(1).unwrap() == 111
        && *name.get(2).unwrap() == 110 && *name.get(3).unwrap() == 116
        && *name.get(4).unwrap() == 101 && *name.get(5).unwrap() == 110
        && *name.get(6).unwrap() == 116 && *name.get(7).unwrap() == 45
        && *name.get(8).unwrap() == 116 && *name.get(9).unwrap() == 121
        && *name.get(10).unwrap() == 112 && *name.get(11).unwrap() == 101;
    proof {
        if r {
            assert(name@ =~= spec_content_type_name());
        }
    }
    r
}

/// The position of the first `content-type` header, if any.
fn find_content_type(hdrs: &Vec<(Vec<u8>, Vec<u8>)>) -> (r: Option<usize>)
    ensures
        match r {
            Some(i) => i < hdrs@.len() && spec_find_content_type(spec_headers(hdrs@))
                == Some(hdrs@[i as int].1@),
            None => spec_find_content_type(spec_headers(hdrs@)) is None,
        },
{
    let mut i: usize = 0;
    while i < hdrs.len()
        invariant
            i <= hdrs@.len(),
            forall|j: int| 0 <= j < i ==> spec_headers(hdrs@)[j].0 != spec_content_type_name(),
        decreases hdrs@.len() - i,
    {
        if is_content_type_name(&hdrs[i].0) {
            proof {
                lemma_find_ct_at(spec_headers(hdrs@), i as int);
            }
            return Some(i);
        }
        i = i + 1;
    }
    proof {
        lemma_find_ct_none(spec_headers(hdrs@));
    }
    None
}

impl RecordContentType {
    /// Reads the content type: the literal token for a revisit record,
    /// else the `content-type` header of the body's HTTP response.
    pub fn new(record: &RawRecord) -> (r: Result<Self, CDXJIndexRecordError>)
        ensures
            match spec_record_content_type(record@) {
                Ok(s) => r matches Ok(ct) && ct.0@ == s,
                Err(k) => r matches Err(e) && spec_err_kind(e) == k,
            },
    {
        match &record.warc_type {
            RecordType::Revisit => Ok(RecordContentType("revisit".to_owned())),
            _ => match parse_http_response(record.body.as_slice()) {
                Err(message) => Err(CDXJIndexRecordError::RecordContentTypeError(message)),
                Ok((_, headers)) => match find_content_type(&headers) {
                    None => Err(CDXJIndexRecordError::ValueNotFound(
                        "content type not present in HTTP headers".to_owned(),
                    )),
                    Some(i) => match bytes_to_utf8(headers[i].1.as_slice()) {
                        Some(value) => Ok(RecordContentType(value)),
                        None => Err(CDXJIndexRecordError::RecordContentTypeError(
                            "content type is not valid text".to_owned(),
                        )),
                    },
                },
            },
        }
    }

    /// The media type token.
    pub fn to_string(&self) -> (s: String)
        ensures
            s@ == self.0@,
    {
        self.0.clone()
    }
}

} // verus!
