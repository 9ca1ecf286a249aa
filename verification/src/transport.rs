//! Binding of a bucket and key prefix to request URLs: the object addresses
//! of the storage service's read and resumable-upload endpoints.

use vstd::prelude::*;
use vstd::string::*;

use crate::upload::UploadError;

verus! {

/// What a key becomes when it names a directory-like prefix: unchanged when
/// empty or already ending in `/`, otherwise with `/` appended, so that
/// joining it with a per-object key introduces no `//` and loses nothing.
pub open spec fn normalized_key(key: Seq<char>) -> Seq<char> {
    if key.len() == 0 || key.last() == '/' {
        key
    } else {
        key.push('/')
    }
}

/// A bucket together with a key prefix under which objects are addressed.
pub struct GCSPath {
    pub bucket: String,
    pub key: String,
}

impl GCSPath {
    /// Normalize the key so it can serve as a directory-like prefix.
    pub fn ensure_directory_prefix(self) -> (r: GCSPath)
        ensures
            r.bucket@ == self.bucket@,
            r.key@ == normalized_key(self.key@),
    {
        let len = self.key.as_str().unicode_len();
        if len == 0 {
            return self;
        }
        let last = self.key.as_str().get_char(len - 1);
        if last == '/' {
            self
        } else {
            let mut key = self.key;
            key.append("/");
            proof {
                reveal_strlit("/");
                assert(key@ =~= normalized_key(self.key@));
            }
            GCSPath { bucket: self.bucket, key }
        }
    }
}

/// The name the result of URL-encoding a string is known by.
pub uninterp spec fn url_encoded(s: Seq<char>) -> Seq<char>;

/// Relies on urlencoding::encode: percent-encodes every byte except ASCII
/// alphanumerics and `-`, `_`, `.`, `~`; a pure function of its input.
#[verifier::external_body]
fn url_encode(s: &str) -> (r: String)
    ensures
        r@ == url_encoded(s@),
{
    urlencoding::encode(s).into_owned()
}

/// Reads and writes objects of one bucket under one key prefix,
/// authenticating to the storage API with a bearer token.
pub struct GCSTransport {
    path: GCSPath,
    oauth_token: String,
    storage_api_base_url: String,
}

impl GCSTransport {
    /// Bucket all objects live in.
    pub closed spec fn spec_bucket(&self) -> Seq<char> {
        self.path.bucket@
    }

    /// Prefix joined in front of every per-object key.
    pub closed spec fn spec_key_prefix(&self) -> Seq<char> {
        self.path.key@
    }

    /// The bearer token presented to the API.
    pub closed spec fn spec_token(&self) -> Seq<char> {
        self.oauth_token@
    }

    /// Base URL of the storage API.
    pub closed spec fn spec_base_url(&self) -> Seq<char> {
        self.storage_api_base_url@
    }

    /// The key prefix is kept in normalized, directory-like form.
    pub open spec fn inv(&self) -> bool {
        self.spec_key_prefix() == normalized_key(self.spec_key_prefix())
    }

    /// Bind a path to a bearer token, normalizing the key prefix.
    pub fn new(path: GCSPath, oauth_token: String) -> (t: GCSTransport)
        ensures
            t.inv(),
            t.spec_bucket() == path.bucket@,
            t.spec_key_prefix() == normalized_key(path.key@),
            t.spec_token() == oauth_token@,
            t.spec_base_url() == "https://storage.googleapis.com"@,
    {
        let normalized = path.ensure_directory_prefix();
        proof {
            assert(normalized_key(normalized.key@) =~= normalized.key@);
        }
        GCSTransport {
            path: normalized,
            oauth_token,
            storage_api_base_url: String::from_str("https://storage.googleapis.com"),
        }
    }

    /// The `gs://bucket/prefix` rendering of the bound path.
    pub fn path(&self) -> (r: String)
        ensures
            r@ == "gs://"@ + self.spec_bucket() + "/"@ + self.spec_key_prefix(),
    {
        let mut r = String::new();
        r.append("gs://");
        r.append(self.path.bucket.as_str());
        r.append("/");
        r.append(self.path.key.as_str());
        r
    }

    /// The full object name under this transport's prefix.
    pub fn object_name(&self, key: &str) -> (r: String)
        ensures
            r@ == self.spec_key_prefix() + key@,
    {
        let mut r = String::new();
        r.append(self.path.key.as_str());
        r.append(key);
        r
    }

    /// The full object name, URL-encoded as a single path segment, as the
    /// storage API requires for both reads and upload initiation.
    pub fn encoded_object_name(&self, key: &str) -> (r: String)
        ensures
            r@ == url_encoded(self.spec_key_prefix() + key@),
    {
        let name = self.object_name(key);
        url_encode(name.as_str())
    }

    /// URL of the object-read endpoint for `key`. The caller must request
    /// media (`alt=media`) to receive object bytes rather than metadata.
    pub fn object_url(&self, key: &str) -> (r: String)
        ensures
            r@ == self.spec_base_url() + "/storage/v1/b/"@ + self.spec_bucket() + "/o/"@
                + url_encoded(self.spec_key_prefix() + key@),
    {
        let mut r = String::new();
        r.append(self.storage_api_base_url.as_str());
        r.append("/storage/v1/b/");
        r.append(self.path.bucket.as_str());
        r.append("/o/");
        let encoded = self.encoded_object_name(key);
        r.append(encoded.as_str());
        r
    }

    /// URL the resumable-upload initiation POST is addressed to.
    pub fn upload_initiation_url(&self) -> (r: String)
        ensures
            r@ == self.spec_base_url() + "/upload/storage/v1/b/"@ + self.spec_bucket() + "/o/"@,
    {
        let mut r = String::new();
        r.append(self.storage_api_base_url.as_str());
        r.append("/upload/storage/v1/b/");
        r.append(self.path.bucket.as_str());
        r.append("/o/");
        r
    }

    /// The bearer token presented to the storage API.
    pub fn oauth_token(&self) -> (r: &String)
        ensures
            r@ == self.spec_token(),
    {
        &self.oauth_token
    }

    /// The `Authorization` header value carrying the bearer token.
    pub fn authorization_bearer(&self) -> (r: String)
        ensures
            r@ == "Bearer "@ + self.spec_token(),
    {
        let mut r = String::new();
        r.append("Bearer ");
        r.append(self.oauth_token.as_str());
        r
    }

    /// Interpret the status of an object GET: any 2xx answer carries the
    /// object bytes, anything else fails the fetch.
    pub fn fetch_outcome(status: u16) -> (r: Result<(), UploadError>)
        ensures
            match r {
                Ok(()) => 200 <= status < 300,
                Err(e) => {
                    &&& !(200 <= status < 300)
                    &&& e matches UploadError::ObjectFetchFailed { status: s } && s == status
                },
            },
    {
        if 200 <= status && status < 300 {
            Ok(())
        } else {
            Err(UploadError::ObjectFetchFailed { status })
        }
    }
}

} // verus!
