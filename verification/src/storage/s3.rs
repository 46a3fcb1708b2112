//! A store in an S3-compatible bucket: its configuration, its object keys
//! and the content types it records and serves.
use super::local::YEAR_TO_SECONDS;
use super::{ServedHeaders, StorageError};
use crate::utils::http::{cache_control_value, spec_cache_control};
use crate::text::{chars_of, string_of, trim_start_char, trim_start_matches_char};
use crate::utils::http::{header_value_ok, is_header_value};
use vstd::prelude::*;

verus! {

/// How to reach the bucket.
#[derive(Clone, Debug)]
pub struct S3Config {
    pub endpoint: Option<String>,
    pub region: String,
    pub bucket: String,
    pub access_key_id: String,
    pub secret_access_key: String,
    pub force_path_style: bool,
}

/// The object key of a cache key: the key without its leading slashes.
pub fn normalize_key(key: &str) -> (r: String)
    ensures
        r@ == trim_start_char(key@, '/'),
{
    let k = chars_of(key);
    let t = trim_start_matches_char(&k, '/');
    string_of(&t)
}

/// The media type that `mime_guess` gives for a path by its extension,
/// `application/octet-stream` where it knows none.
pub uninterp spec fn guessed_mime(path: Seq<char>) -> Seq<char>;

/// The media type of a path by its extension.
///
/// Trusted wrapper around `mime_guess::from_path` and
/// `MimeGuess::first_or_octet_stream`; the table is named, not restated.
#[verifier::external_body]
fn content_type_for(path: &str) -> (r: String)
    ensures
        r@ == guessed_mime(path@),
{
    mime_guess::from_path(path).first_or_octet_stream().to_string()
}

/// The content type an object is uploaded with: the one its key suggests.
pub fn upload_content_type(key: &str) -> (r: String)
    ensures
        r@ == guessed_mime(key@),
{
    content_type_for(key)
}

/// The content type a served object is sent with: the one stored with it,
/// else the one its key suggests; `application/octet-stream` where that is
/// no valid header value.
pub open spec fn spec_served_content_type(stored: Option<Seq<char>>, key: Seq<char>) -> Seq<char> {
    let ct = match stored {
        Some(s) => s,
        None => guessed_mime(key),
    };
    if header_value_ok(ct) {
        ct
    } else {
        "application/octet-stream"@
    }
}

/// The content type a served object is sent with.
pub fn served_content_type(stored: Option<String>, key: &str) -> (r: String)
    ensures
        r@ == spec_served_content_type(
            match stored {
                Some(s) => Some(s@),
                None => None,
            },
            key@,
        ),
{
    let ct = match stored {
        Some(s) => s,
        None => content_type_for(key),
    };
    if is_header_value(ct.as_str()) {
        ct
    } else {
        String::from_str("application/octet-stream")
    }
}

/// How a request for an object's metadata ended.
#[derive(Clone, Debug)]
pub enum HeadOutcome {
    /// The object exists.
    Found,
    /// The service answered that there is no such object.
    Missing,
    /// Any other failure, with its description.
    Failed(String),
}

/// Whether an object exists, from how the request for its metadata ended.
pub fn exists_from_head(outcome: HeadOutcome) -> (r: Result<bool, StorageError>)
    ensures
        r == match outcome {
            HeadOutcome::Found => Ok(true),
            HeadOutcome::Missing => Ok(false),
            HeadOutcome::Failed(d) => Err(StorageError::Other(d)),
        },
{
    match outcome {
        HeadOutcome::Found => Ok(true),
        HeadOutcome::Missing => Ok(false),
        HeadOutcome::Failed(d) => Err(StorageError::Other(d)),
    }
}

/// The storage error for a failed read: `NotFound` where the service
/// answered that there is no such key, else the failure's description.
pub fn map_get_err(no_such_key: bool, detail: String) -> (r: StorageError)
    ensures
        r == if no_such_key {
            StorageError::NotFound
        } else {
            StorageError::Other(detail)
        },
{
    if no_such_key {
        StorageError::NotFound
    } else {
        StorageError::Other(detail)
    }
}

/// The headers an object read from the bucket is served with: cached for a
/// year, with the content type stored with it (else the one its key
/// suggests), `application/octet-stream` where that is no valid header value.
pub fn s3_served_headers(stored: Option<String>, key: &str) -> (r: ServedHeaders)
    ensures
        r.cache_control@ == spec_cache_control(YEAR_TO_SECONDS),
        r.content_type@ == spec_served_content_type(
            match stored {
                Some(s) => Some(s@),
                None => None,
            },
            key@,
        ),
{
    ServedHeaders {
        cache_control: cache_control_value(YEAR_TO_SECONDS),
        content_type: served_content_type(stored, key),
    }
}

} // verus!
