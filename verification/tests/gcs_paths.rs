//! Address construction for the storage API: prefix normalization, object
//! URLs, and the upload initiation endpoint.

use facilitator::transport::{GCSPath, GCSTransport};
use facilitator::upload::UploadError;

#[test]
fn key_prefix_is_normalized() {
    let path = GCSPath { bucket: String::from("b"), key: String::from("prefix") };
    let normalized = path.ensure_directory_prefix();
    assert_eq!(normalized.key, "prefix/");

    let already = GCSPath { bucket: String::from("b"), key: String::from("prefix/") };
    assert_eq!(already.ensure_directory_prefix().key, "prefix/");

    let empty = GCSPath { bucket: String::from("b"), key: String::new() };
    assert_eq!(empty.ensure_directory_prefix().key, "");
}

#[test]
fn path_rendering() {
    let transport = GCSTransport::new(
        GCSPath { bucket: String::from("fake-bucket"), key: String::from("in") },
        String::from("fake-token"),
    );
    assert_eq!(transport.path(), "gs://fake-bucket/in/");
    assert_eq!(transport.oauth_token().as_str(), "fake-token");
    assert_eq!(transport.authorization_bearer(), "Bearer fake-token");
}

#[test]
fn object_names_are_joined_and_encoded() {
    let transport = GCSTransport::new(
        GCSPath { bucket: String::from("fake-bucket"), key: String::from("in") },
        String::from("fake-token"),
    );
    assert_eq!(transport.object_name("batch/1"), "in/batch/1");
    // the full name is one URL path segment: its slashes must be escaped
    assert_eq!(transport.encoded_object_name("batch/1"), "in%2Fbatch%2F1");
}

#[test]
fn object_url_addresses_the_read_endpoint() {
    let transport = GCSTransport::new(
        GCSPath { bucket: String::from("fake-bucket"), key: String::new() },
        String::from("fake-token"),
    );
    assert_eq!(
        transport.object_url("fake-object"),
        "https://storage.googleapis.com/storage/v1/b/fake-bucket/o/fake-object"
    );
}

#[test]
fn initiation_url_addresses_the_upload_endpoint() {
    let transport = GCSTransport::new(
        GCSPath { bucket: String::from("fake-bucket"), key: String::new() },
        String::from("fake-token"),
    );
    assert_eq!(
        transport.upload_initiation_url(),
        "https://storage.googleapis.com/upload/storage/v1/b/fake-bucket/o/"
    );
}

#[test]
fn fetch_outcome_accepts_only_2xx() {
    assert!(GCSTransport::fetch_outcome(200).is_ok());
    assert!(GCSTransport::fetch_outcome(204).is_ok());
    let err = GCSTransport::fetch_outcome(404).unwrap_err();
    assert!(matches!(err, UploadError::ObjectFetchFailed { status: 404 }));
}
