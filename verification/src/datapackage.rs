//! Types for composing a datapackage manifest over the index payloads.

use vstd::prelude::*;

use sha2::Digest;

use crate::indexer::{spec_cdxj_index_chars, spec_page_index_chars, Index};
use crate::text::{push_hex, spec_hex};
use vstd::utf8::encode_utf8;

verus! {

/// The WACZ version written into every datapackage.
pub open spec fn spec_wacz_version() -> Seq<char> {
    crate::WACZ_VERSION@
}

/// The software token written into every datapackage.
pub open spec fn spec_software() -> Seq<char> {
    "wacksy 0.1.0"@
}

/// What the SHA-256 digest of a byte sequence is; the result depends
/// on the bytes alone.
pub uninterp spec fn spec_sha256(b: Seq<u8>) -> Seq<u8>;

/// The hash field written for a payload: the token `sha256:` and the
/// digest in lowercase hex.
pub open spec fn spec_resource_hash(b: Seq<u8>) -> Seq<char> {
    ("sha256:")@ + spec_hex(spec_sha256(b))
}

/// Relies on sha2's `Sha256`: the digest depends on the bytes alone
/// and is thirty-two bytes long.
#[verifier::external_body]
fn sha256(bytes: &[u8]) -> (r: Vec<u8>)
    ensures
        r@ == spec_sha256(bytes@),
        r@.len() == 32,
{
    sha2::Sha256::digest(bytes).to_vec()
}

/// Relies on chrono's `Local::now`: the creation time is read from the
/// wall clock, so nothing is promised of the text.
#[verifier::external_body]
fn now_rfc3339() -> (r: String) {
    chrono::Local::now().to_rfc3339()
}

/// Why a datapackage could not be composed.
#[derive(Debug)]
pub enum DataPackageError {
    /// A resource path has no usable final component.
    FileNameError(String),
    /// A resource path is not usable text.
    FilePathError(String),
    /// The container file could not be read.
    FileReadError(String),
    /// The datapackage could not be serialized.
    SerialisationError(String),
}

/// A frictionless datapackage: the manifest of the archive's payloads.
#[derive(Debug)]
pub struct DataPackage {
    pub profile: String,
    pub wacz_version: String,
    pub created: String,
    pub software: String,
    pub resources: Vec<DataPackageResource>,
}

/// A datapackage resource: one payload, its path, and its digest.
#[derive(Debug)]
pub struct DataPackageResource {
    pub file_name: String,
    pub path: String,
    pub hash: String,
    pub bytes: usize,
    pub content: Vec<u8>,
}

/// A digest of the serialized datapackage itself.
#[derive(Debug)]
pub struct DataPackageDigest {
    pub path: String,
    pub hash: String,
}

/// The position of the last slash, or minus one when there is none.
pub open spec fn spec_last_slash(s: Seq<char>) -> int
    decreases s.len(),
{
    if s.len() == 0 {
        -1
    } else if s.last() == '/' {
        s.len() - 1
    } else {
        spec_last_slash(s.drop_last())
    }
}

/// The final component of a path: everything after the last slash.
pub open spec fn spec_file_name(s: Seq<char>) -> Seq<char> {
    s.skip(spec_last_slash(s) + 1)
}

/// The last-slash position lies inside the string or is minus one.
proof fn lemma_last_slash_bound(s: Seq<char>)
    ensures
        -1 <= spec_last_slash(s) < s.len(),
    decreases s.len(),
{
    if s.len() > 0 && s.last() != '/' {
        lemma_last_slash_bound(s.drop_last());
    }
}

/// A least-from-the-right slash position settles the last-slash
/// position.
proof fn lemma_last_slash_at(s: Seq<char>, i: int)
    requires
        0 <= i < s.len(),
        s[i] == '/',
        forall|j: int| i < j < s.len() ==> s[j] != '/',
    ensures
        spec_last_slash(s) == i,
    decreases s.len(),
{
    if i < s.len() - 1 {
        lemma_last_slash_at(s.drop_last(), i);
    }
}

/// A string without a slash has last-slash position minus one.
proof fn lemma_last_slash_none(s: Seq<char>)
    requires
        forall|j: int| 0 <= j < s.len() ==> s[j] != '/',
    ensures
        spec_last_slash(s) == -1,
    decreases s.len(),
{
    if s.len() > 0 {
        lemma_last_slash_none(s.drop_last());
    }
}

/// A path that does not end in a slash has a nonempty final component.
proof fn lemma_file_name_nonempty(s: Seq<char>)
    requires
        s.len() > 0,
        s.last() != '/',
    ensures
        spec_file_name(s).len() > 0,
{
    lemma_last_slash_bound(s.drop_last());
}

/// The final component of a path, as the resource composer reads it.
fn file_name_of(path: &str) -> (r: String)
    ensures
        r@ == spec_file_name(path@),
{
    let len = path.unicode_len();
    let mut i: usize = len;
    while i > 0 && path.get_char(i - 1) != '/'
        invariant
            i <= len,
            len == path@.len(),
            forall|j: int| i <= j < len ==> path@[j] != '/',
        decreases i,
    {
        i = i - 1;
    }
    proof {
        if i == 0 {
            lemma_last_slash_none(path@);
        } else {
            lemma_last_slash_at(path@, i - 1);
        }
    }
    let name = path.substring_char(i, len);
    proof {
        assert(name@ =~= spec_file_name(path@));
    }
    name.to_owned()
}

impl Default for DataPackage {
    /// An empty datapackage: the fixed profile, version and software
    /// tokens, the creation time read from the clock, and no
    /// resources.
    fn default() -> (r: Self)
        ensures
            r.profile@ == ("data-package")@,
            r.wacz_version@ == spec_wacz_version(),
            r.software@ == spec_software(),
            r.resources@.len() == 0,
    {
        DataPackage {
            profile: "data-package".to_owned(),
            wacz_version: crate::WACZ_VERSION.to_owned(),
            created: now_rfc3339(),
            software: "wacksy 0.1.0".to_owned(),
            resources: Vec::new(),
        }
    }
}

impl DataPackageResource {
    /// Composes one resource: the payload, its digest, and the final
    /// component of its path as its name.
    pub fn new(path: &str, file_bytes: &Vec<u8>) -> (r: Result<Self, DataPackageError>)
        ensures
            spec_file_name(path@).len() == 0 ==> r matches Err(
                DataPackageError::FileNameError(_),
            ),
            spec_file_name(path@).len() > 0 ==> (r matches Ok(res) && res.file_name@
                == spec_file_name(path@) && res.path@ == path@ && res.hash@
                == spec_resource_hash(file_bytes@) && res.bytes == file_bytes@.len()
                && res.content@ == file_bytes@),
    {
        let file_name = file_name_of(path);
        if file_name.as_str().unicode_len() == 0 {
            return Err(DataPackageError::FileNameError("file name is empty".to_owned()));
        }
        let digest = sha256(file_bytes.as_slice());
        let mut hash = String::from_str("sha256:");
        push_hex(&mut hash, &digest);
        Ok(DataPackageResource {
            file_name,
            path: path.to_owned(),
            hash,
            bytes: file_bytes.len(),
            content: file_bytes.clone(),
        })
    }
}

impl DataPackage {
    /// Composes the datapackage for an archive: the container bytes
    /// and the two index payloads, each with its digest.
    pub fn new(warc_file_bytes: &Vec<u8>, warc_is_gzip: bool, index: &Index) -> (r: Result<
        Self,
        DataPackageError,
    >)
        requires
            index.wf(),
        ensures
            r matches Ok(dp) && dp.profile@ == ("data-package")@ && dp.wacz_version@
                == spec_wacz_version() && dp.software@ == spec_software() && dp.resources@.len()
                == 3 && ({
                let warc = dp.resources@[0];
                let cdxj = dp.resources@[1];
                let pages = dp.resources@[2];
                let cdxj_bytes = encode_utf8(spec_cdxj_index_chars(index.cdxj@));
                let pages_bytes = encode_utf8(spec_page_index_chars(index.pages@));
                &&& warc.path@ == if warc_is_gzip {
                    ("archive/data.warc.gz")@
                } else {
                    ("archive/data.warc")@
                }
                &&& warc.content@ == warc_file_bytes@
                &&& warc.hash@ == spec_resource_hash(warc_file_bytes@)
                &&& cdxj.path@ == ("indexes/index.cdxj")@
                &&& cdxj.content@ == cdxj_bytes
                &&& cdxj.hash@ == spec_resource_hash(cdxj_bytes)
                &&& pages.path@ == ("pages/pages.jsonl")@
                &&& pages.content@ == pages_bytes
                &&& pages.hash@ == spec_resource_hash(pages_bytes)
            }),
    {
        let mut data_package = DataPackage::default();

        let warc_path: &str = if warc_is_gzip {
            "archive/data.warc.gz"
        } else {
            "archive/data.warc"
        };
        proof {
            reveal_strlit("archive/data.warc.gz");
            reveal_strlit("archive/data.warc");
            lemma_file_name_nonempty(warc_path@);
        }
        let warc_resource = match DataPackageResource::new(warc_path, warc_file_bytes) {
            Ok(res) => res,
            Err(e) => return Err(e),
        };
        Self::add_resource(&mut data_package, warc_resource);

        let cdxj_text = index.cdxj.to_string();
        let cdxj_bytes = cdxj_text.as_str().as_bytes_vec();
        proof {
            reveal_strlit("indexes/index.cdxj");
            lemma_file_name_nonempty(("indexes/index.cdxj")@);
        }
        let cdxj_resource = match DataPackageResource::new("indexes/index.cdxj", &cdxj_bytes) {
            Ok(res) => res,
            Err(e) => return Err(e),
        };
        Self::add_resource(&mut data_package, cdxj_resource);

        let pages_text = index.pages.to_string();
        let pages_bytes = pages_text.as_str().as_bytes_vec();
        proof {
            reveal_strlit("pages/pages.jsonl");
            lemma_file_name_nonempty(("pages/pages.jsonl")@);
        }
        let pages_resource = match DataPackageResource::new("pages/pages.jsonl", &pages_bytes) {
            Ok(res) => res,
            Err(e) => return Err(e),
        };
        Self::add_resource(&mut data_package, pages_resource);

        Ok(data_package)
    }

    /// Pushes a resource onto the datapackage's resource list.
    pub fn add_resource(data_package: &mut Self, resource: DataPackageResource)
        ensures
            final(data_package).resources@ == old(data_package).resources@.push(resource),
            final(data_package).profile == old(data_package).profile,
            final(data_package).wacz_version == old(data_package).wacz_version,
            final(data_package).created == old(data_package).created,
            final(data_package).software == old(data_package).software,
    {
        data_package.resources.push(resource);
    }
}

impl DataPackageDigest {
    /// The digest entry for an already serialized datapackage.
    pub fn new(serialized: &Vec<u8>) -> (r: DataPackageDigest)
        ensures
            r.path@ == ("datapackage.json")@,
            r.hash@ == spec_resource_hash(serialized@),
    {
        let digest = sha256(serialized.as_slice());
        let mut hash = String::from_str("sha256:");
        push_hex(&mut hash, &digest);
        DataPackageDigest { path: "datapackage.json".to_owned(), hash }
    }
}

} // verus!
