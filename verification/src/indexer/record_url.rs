//! Extracts the record's target URL and derives its sort-friendly form.

use vstd::prelude::*;

use crate::indexer::cdxj_index_errors::{spec_err_kind, CDXJIndexRecordError, RecordFailure};
use crate::record::{RawRecord, RawRecordModel};
use crate::text::push_char;

verus! {

/// What the URL parser makes of a string: nothing when the string is
/// not a valid URL, else the normalized serialization, the host part if
/// the URL has one, and everything at and after the path component
/// (path, query and fragment, as the parser encodes them).
pub uninterp spec fn spec_url_parse(s: Seq<char>) -> Option<(Seq<char>, Option<Seq<char>>, Seq<char>)>;

/// What Unicode lowercasing makes of a string; the result depends on
/// the characters alone.
pub uninterp spec fn spec_unicode_lower(s: Seq<char>) -> Seq<char>;

/// The URL that was archived, reduced to the parts the indexer reads.
#[derive(Debug)]
pub struct RecordUrl {
    /// The URL as the parser serializes it.
    pub serialized: String,
    /// The host component, absent for non-hierarchical schemes.
    pub host: Option<String>,
    /// Everything at and after the path component.
    pub path_and_after: String,
}

/// The mathematical model of an extracted URL.
#[verifier::ext_equal]
pub struct RecordUrlModel {
    pub serialized: Seq<char>,
    pub host: Option<Seq<char>>,
    pub path_and_after: Seq<char>,
}

impl View for RecordUrl {
    type V = RecordUrlModel;

    open spec fn view(&self) -> RecordUrlModel {
        RecordUrlModel {
            serialized: self.serialized@,
            host: match self.host {
                Some(h) => Some(h@),
                None => None,
            },
            path_and_after: self.path_and_after@,
        }
    }
}

/// Relies on `url::Url::parse` and the accessors of the parsed value:
/// the outcome depends on the input string alone. The three parts are
/// the parser's serialization, its host string, and its serialization
/// from the start of the path onward.
#[verifier::external_body]
fn parse_url(s: &str) -> (r: Result<RecordUrl, String>)
    ensures
        r is Ok <==> spec_url_parse(s@) is Some,
        r matches Ok(u) ==> spec_url_parse(s@) matches Some(q) && u@ == (RecordUrlModel {
            serialized: q.0,
            host: q.1,
            path_and_after: q.2,
        }),
{
    match url::Url::parse(s) {
        Ok(u) => Ok(RecordUrl {
            serialized: u.as_str().to_string(),
            host: u.host_str().map(|h| h.to_string()),
            path_and_after: u[url::Position::BeforePath..].to_string(),
        }),
        Err(e) => Err(e.to_string()),
    }
}

/// Relies on `str::to_lowercase`: the result depends on the characters
/// alone, and an empty string stays empty.
#[verifier::external_body]
fn lowercase(s: &str) -> (r: String)
    ensures
        r@ == spec_unicode_lower(s@),
        s@.len() == 0 ==> r@.len() == 0,
{
    s.to_lowercase()
}

/// An ASCII capital letter lowered; every other character stands.
pub open spec fn spec_lower_char(c: char) -> char {
    if 65 <= c as u32 <= 90 {
        (((c as u32) + 32) as u8) as char
    } else {
        c
    }
}

/// The string with its ASCII capital letters lowered.
pub open spec fn spec_ascii_lower(s: Seq<char>) -> Seq<char> {
    s.map_values(|c: char| spec_lower_char(c))
}

/// The position of the first dot, or minus one when there is none.
pub open spec fn spec_first_dot(s: Seq<char>) -> int
    decreases s.len(),
{
    if s.len() == 0 {
        -1
    } else if s[0] == '.' {
        0
    } else {
        let r = spec_first_dot(s.skip(1));
        if r == -1 { -1 } else { r + 1 }
    }
}

/// A least index holding a dot is the first-dot position.
proof fn lemma_first_dot_at(s: Seq<char>, i: int)
    requires
        0 <= i < s.len(),
        s[i] == '.',
        forall|j: int| 0 <= j < i ==> s[j] != '.',
    ensures
        spec_first_dot(s) == i,
    decreases s.len(),
{
    if i > 0 {
        lemma_first_dot_at(s.skip(1), i - 1);
    }
}

/// A string without a dot has first-dot position minus one.
proof fn lemma_first_dot_none(s: Seq<char>)
    requires
        forall|j: int| 0 <= j < s.len() ==> s[j] != '.',
    ensures
        spec_first_dot(s) == -1,
    decreases s.len(),
{
    if s.len() > 0 {
        lemma_first_dot_none(s.skip(1));
    }
}

/// The host with its dot-separated labels in reverse order, rejoined
/// with commas: the label after the first dot block comes first.
pub open spec fn spec_host_reversed(s: Seq<char>) -> Seq<char>
    decreases s.len(),
{
    let i = spec_first_dot(s);
    if 0 <= i < s.len() {
        spec_host_reversed(s.skip(i + 1)) + seq![','] + s.take(i)
    } else {
        s
    }
}

/// The sort-friendly searchable form of a URL: the lowercased host with
/// its labels reversed and comma-joined, a closing parenthesis, and
/// everything at and after the path; a single trailing slash is dropped
/// unless it is the root path itself.
pub open spec fn spec_searchable(host: Seq<char>, path_and_after: Seq<char>) -> Seq<char> {
    let raw = spec_host_reversed(spec_ascii_lower(host)) + seq![')'] + path_and_after;
    if raw.len() > 0 && raw.last() == '/' && !(raw.len() >= 2 && raw[raw.len() - 2] == ')') {
        raw.drop_last()
    } else {
        raw
    }
}

/// What extracting the URL from a record yields: the target-URI header
/// parsed as a URL, a missing-value failure when the header is absent,
/// or a URL failure when it does not parse.
pub open spec fn spec_record_url(r: RawRecordModel) -> Result<RecordUrlModel, RecordFailure> {
    match r.target_uri {
        None => Err(RecordFailure::ValueNotFound),
        Some(u) => match spec_url_parse(u) {
            None => Err(RecordFailure::Url),
            Some(q) => Ok(RecordUrlModel { serialized: q.0, host: q.1, path_and_after: q.2 }),
        },
    }
}

/// What the searchable string of an extracted URL is: the transform of
/// host and path, or a missing-value failure when the URL has no host.
pub open spec fn spec_searchable_url(u: RecordUrlModel) -> Result<Seq<char>, RecordFailure> {
    match u.host {
        None => Err(RecordFailure::ValueNotFound),
        Some(h) => Ok(spec_searchable(h, u.path_and_after)),
    }
}

/// The ASCII capital letter lowered.
fn lower_char(c: char) -> (r: char)
    ensures
        r == spec_lower_char(c),
{
    let u = c as u32;
    if 65 <= u && u <= 90 {
        ((u as u8) + 32) as char
    } else {
        c
    }
}

/// The string with its ASCII capital letters lowered.
fn ascii_lower(s: &str) -> (r: String)
    ensures
        r@ == spec_ascii_lower(s@),
{
    let len = s.unicode_len();
    let mut out = String::new();
    let mut i: usize = 0;
    while i < len
        invariant
            i <= len,
            len == s@.len(),
            out@ == spec_ascii_lower(s@.take(i as int)),
        decreases len - i,
    {
        push_char(&mut out, lower_char(s.get_char(i)));
        proof {
            assert(out@ =~= spec_ascii_lower(s@.take(i + 1)));
        }
        i = i + 1;
    }
    proof {
        assert(s@.take(len as int) =~= s@);
    }
    out
}

/// The host with its labels reversed and comma-joined.
fn host_reversed(host: &str) -> (r: String)
    ensures
        r@ == spec_host_reversed(host@),
    decreases host@.len(),
{
    let len = host.unicode_len();
    let mut i: usize = 0;
    while i < len && host.get_char(i) != '.'
        invariant
            i <= len,
            len == host@.len(),
            forall|j: int| 0 <= j < i ==> host@[j] != '.',
        decreases len - i,
    {
        i = i + 1;
    }
    if i == len {
        proof {
            lemma_first_dot_none(host@);
        }
        host.to_owned()
    } else {
        proof {
            lemma_first_dot_at(host@, i as int);
            assert(host@.subrange(i + 1, len as int) =~= host@.skip(i + 1));
        }
        let mut out = host_reversed(host.substring_char(i + 1, len));
        push_char(&mut out, ',');
        out.append(host.substring_char(0, i));
        proof {
            assert(host@.subrange(0, i as int) =~= host@.take(i as int));
            assert(out@ =~= spec_host_reversed(host@));
        }
        out
    }
}

impl RecordUrl {
    /// Reads the target-URI header and parses it as a URL.
    pub fn new(record: &RawRecord) -> (r: Result<Self, CDXJIndexRecordError>)
        ensures
            match spec_record_url(record@) {
                Ok(m) => r matches Ok(u) && u@ == m,
                Err(k) => r matches Err(e) && spec_err_kind(e) == k,
            },
    {
        match &record.target_uri {
            None => Err(CDXJIndexRecordError::ValueNotFound(
                "TargetURI not present in the WARC header".to_owned(),
            )),
            Some(target) => match parse_url(target.as_str()) {
                Ok(u) => Ok(u),
                Err(message) => Err(CDXJIndexRecordError::RecordUrlError(message)),
            },
        }
    }

    /// Composes the sort-friendly searchable string for this URL; a URL
    /// without a host has none.
    pub fn as_searchable_string(&self) -> (r: Result<String, CDXJIndexRecordError>)
        ensures
            match spec_searchable_url(self@) {
                Ok(s) => r matches Ok(v) && v@ == s,
                Err(k) => r matches Err(e) && spec_err_kind(e) == k,
            },
    {
        match &self.host {
            None => Err(CDXJIndexRecordError::ValueNotFound(
                "url does not have a host, unable to construct a searchable string".to_owned(),
            )),
            Some(host) => {
                let lowered = ascii_lower(host.as_str());
                let mut out = host_reversed(lowered.as_str());
                push_char(&mut out, ')');
                out.append(self.path_and_after.as_str());
                let ghost raw = spec_host_reversed(spec_ascii_lower(host@)) + seq![')']
                    + self.path_and_after@;
                assert(out@ =~= raw);
                let out_len = out.unicode_len();
                if out_len > 0 && out.as_str().get_char(out_len - 1) == '/'
                    && !(out_len >= 2 && out.as_str().get_char(out_len - 2) == ')') {
                    let trimmed = out.as_str().substring_char(0, out_len - 1).to_owned();
                    proof {
                        assert(trimmed@ =~= raw.drop_last());
                    }
                    Ok(trimmed)
                } else {
                    Ok(out)
                }
            },
        }
    }

    /// The URL serialization, lowercased, as the transaction index
    /// writes it.
    pub fn to_string(&self) -> (s: String)
        ensures
            s@ == spec_unicode_lower(self.serialized@),
    {
        lowercase(self.serialized.as_str())
    }
}

} // verus!
