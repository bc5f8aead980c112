//! Extracts the name of the container file a record lives in.

use vstd::prelude::*;

use crate::indexer::cdxj_index_errors::{spec_err_kind, CDXJIndexRecordError, RecordFailure};
use crate::record::{RawRecord, RawRecordModel};

verus! {

/// The WARC file where the record is located.
#[derive(Debug)]
pub struct WarcFilename(pub String);

/// What extracting the filename yields: the record's own filename
/// header when present, else the container file's name as handed in by
/// the caller, else a filename failure.
pub open spec fn spec_warc_filename(
    r: RawRecordModel,
    fallback: Option<Seq<char>>,
) -> Result<Seq<char>, RecordFailure> {
    match r.filename {
        Some(f) => Ok(f),
        None => match fallback {
            Some(f) => Ok(f),
            None => Err(RecordFailure::Filename),
        },
    }
}

impl WarcFilename {
    /// Reads the filename header, falling back to the container file's
    /// own name; `fallback` is `None` when that name could not be taken
    /// from the container path.
    pub fn new(record: &RawRecord, fallback: &Option<String>) -> (r: Result<
        Self,
        CDXJIndexRecordError,
    >)
        ensures
            match spec_warc_filename(record@, match *fallback {
                Some(f) => Some(f@),
                None => None,
            }) {
                Ok(f) => r matches Ok(v) && v.0@ == f,
                Err(k) => r matches Err(e) && spec_err_kind(e) == k,
            },
    {
        match &record.filename {
            Some(record_filename) => Ok(WarcFilename(record_filename.clone())),
            None => match fallback {
                Some(path_filename) => Ok(WarcFilename(path_filename.clone())),
                None => Err(CDXJIndexRecordError::WarcFilenameError(
                    "cannot infer a filename from the container path".to_owned(),
                )),
            },
        }
    }

    /// The filename.
    pub fn to_string(&self) -> (s: String)
        ensures
            s@ == self.0@,
    {
        self.0.clone()
    }
}

} // verus!
