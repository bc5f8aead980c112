use wacksy::datapackage::{DataPackage, DataPackageDigest, DataPackageError, DataPackageResource};
use wacksy::indexer::Index;

// the SHA-256 digest of the three bytes "abc"
const ABC_SHA256: &str = "sha256:ba7816bf8f01cfea414140de5dae2223b00361a396177a9cb410ff61f20015ad";

#[test]
fn resource_hash_is_the_sha256_of_the_content() {
    let resource = DataPackageResource::new("archive/data.warc", &b"abc".to_vec()).unwrap();
    assert_eq!(resource.hash, ABC_SHA256);
    assert_eq!(resource.file_name, "data.warc");
    assert_eq!(resource.path, "archive/data.warc");
    assert_eq!(resource.bytes, 3);
    assert_eq!(resource.content, b"abc".to_vec());
}

#[test]
fn resource_without_a_file_name_is_refused() {
    let err = DataPackageResource::new("archive/", &b"abc".to_vec()).unwrap_err();
    assert!(matches!(err, DataPackageError::FileNameError(_)));
}

#[test]
fn datapackage_collects_the_three_payloads() {
    let index = Index::index_records(Vec::new(), &None).unwrap();
    let package = DataPackage::new(&b"abc".to_vec(), false, &index).unwrap();
    assert_eq!(package.profile, "data-package");
    assert_eq!(package.wacz_version, "1.1.1");
    assert_eq!(package.software, "wacksy 0.1.0");
    assert_eq!(package.resources.len(), 3);
    assert_eq!(package.resources[0].path, "archive/data.warc");
    assert_eq!(package.resources[0].hash, ABC_SHA256);
    assert_eq!(package.resources[1].path, "indexes/index.cdxj");
    assert_eq!(package.resources[1].content, Vec::<u8>::new());
    assert_eq!(package.resources[2].path, "pages/pages.jsonl");
    assert_eq!(package.resources[2].content, Vec::<u8>::new());
}

#[test]
fn gzipped_containers_get_the_gzip_archive_path() {
    let index = Index::index_records(Vec::new(), &None).unwrap();
    let package = DataPackage::new(&b"abc".to_vec(), true, &index).unwrap();
    assert_eq!(package.resources[0].path, "archive/data.warc.gz");
    assert_eq!(package.resources[0].file_name, "data.warc.gz");
}

#[test]
fn the_digest_covers_the_serialized_datapackage() {
    let digest = DataPackageDigest::new(&b"abc".to_vec());
    assert_eq!(digest.path, "datapackage.json");
    assert_eq!(digest.hash, ABC_SHA256);
}

#[test]
fn add_resource_appends() {
    let mut package = DataPackage::default();
    assert_eq!(package.resources.len(), 0);
    let resource = DataPackageResource::new("pages/pages.jsonl", &Vec::new()).unwrap();
    DataPackage::add_resource(&mut package, resource);
    assert_eq!(package.resources.len(), 1);
    assert_eq!(package.resources[0].file_name, "pages.jsonl");
}
