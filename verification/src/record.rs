//! The raw record handed in by the container reader, and its classification.

use vstd::prelude::*;

verus! {

/// The type tag of a WARC record, as declared in its `WARC-Type` header.
#[derive(Debug)]
pub enum RecordType {
    WarcInfo,
    Response,
    Resource,
    Request,
    Metadata,
    Revisit,
    Conversion,
    Continuation,
    Unknown(String),
}

impl Clone for RecordType {
    fn clone(&self) -> (r: Self)
        ensures
            r == *self,
    {
        match self {
            RecordType::WarcInfo => RecordType::WarcInfo,
            RecordType::Response => RecordType::Response,
            RecordType::Resource => RecordType::Resource,
            RecordType::Request => RecordType::Request,
            RecordType::Metadata => RecordType::Metadata,
            RecordType::Revisit => RecordType::Revisit,
            RecordType::Conversion => RecordType::Conversion,
            RecordType::Continuation => RecordType::Continuation,
            RecordType::Unknown(s) => RecordType::Unknown(s.clone()),
        }
    }
}

/// A record is indexable only if its type tag is `response`, `revisit`,
/// `resource` or `metadata`; every other type is rejected before any
/// field extraction is attempted.
pub open spec fn spec_is_indexable(t: RecordType) -> bool {
    t matches RecordType::Response || t matches RecordType::Revisit
        || t matches RecordType::Resource || t matches RecordType::Metadata
}

impl RecordType {
    /// Whether a record of this type belongs in the transaction index.
    pub fn is_indexable(&self) -> (r: bool)
        ensures
            r == spec_is_indexable(*self),
    {
        match self {
            RecordType::Response => true,
            RecordType::Revisit => true,
            RecordType::Resource => true,
            RecordType::Metadata => true,
            _ => false,
        }
    }
}

/// One record of the container stream, reduced to the parts the indexer
/// reads: the type tag, the well-known headers as plain text, the body
/// bytes, and the two lengths that drive the offset counter.
///
/// `content_length` is the declared length of the body as recorded by the
/// container format; `header_len` is the length in bytes of the record's
/// own serialized header block. The byte offset of the record that follows
/// this one in the container is this record's offset plus the sum of the two.
pub struct RawRecord {
    pub warc_type: RecordType,
    pub date: Option<String>,
    pub target_uri: Option<String>,
    pub payload_digest: Option<String>,
    pub filename: Option<String>,
    pub body: Vec<u8>,
    pub content_length: u64,
    pub header_len: u64,
}

/// The view of an optional piece of header text.
pub open spec fn spec_opt_view(o: Option<String>) -> Option<Seq<char>> {
    match o {
        Some(s) => Some(s@),
        None => None,
    }
}

/// The mathematical model of a raw record.
#[verifier::ext_equal]
pub struct RawRecordModel {
    pub warc_type: RecordType,
    pub date: Option<Seq<char>>,
    pub target_uri: Option<Seq<char>>,
    pub payload_digest: Option<Seq<char>>,
    pub filename: Option<Seq<char>>,
    pub body: Seq<u8>,
    pub content_length: u64,
    pub header_len: u64,
}

impl View for RawRecord {
    type V = RawRecordModel;

    open spec fn view(&self) -> RawRecordModel {
        RawRecordModel {
            warc_type: self.warc_type,
            date: match self.date {
                Some(s) => Some(s@),
                None => None,
            },
            target_uri: match self.target_uri {
                Some(s) => Some(s@),
                None => None,
            },
            payload_digest: match self.payload_digest {
                Some(s) => Some(s@),
                None => None,
            },
            filename: match self.filename {
                Some(s) => Some(s@),
                None => None,
            },
            body: self.body@,
            content_length: self.content_length,
            header_len: self.header_len,
        }
    }
}

} // verus!
