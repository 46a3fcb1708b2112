//! Where cached objects are kept: the errors of a store and what a request
//! answers for them.
pub mod local;
pub mod s3;

use vstd::prelude::*;

verus! {

/// The status code of a refused request.
pub const FORBIDDEN: u16 = 403;

/// The status code of a missing object.
pub const NOT_FOUND: u16 = 404;

/// The status code of a failure on the server's side.
pub const INTERNAL_SERVER_ERROR: u16 = 500;

/// What a store reports when it cannot do what it is asked.
#[derive(Clone, Debug)]
pub enum StorageError {
    NotFound,
    Other(String),
}

/// The text of a storage error: `not found`, or the store's own message.
pub open spec fn spec_storage_message(e: StorageError) -> Seq<char> {
    match e {
        StorageError::NotFound => "not found"@,
        StorageError::Other(m) => m@,
    }
}

impl StorageError {
    /// The text of the error.
    pub fn message(&self) -> (r: String)
        ensures
            r@ == spec_storage_message(*self),
    {
        match self {
            StorageError::NotFound => String::from_str("not found"),
            StorageError::Other(m) => m.clone(),
        }
    }
}

/// The status a request answers for a storage error: 404 for a missing
/// object, 500 for anything else.
pub open spec fn spec_status_of(e: StorageError) -> u16 {
    match e {
        StorageError::NotFound => NOT_FOUND,
        StorageError::Other(_) => INTERNAL_SERVER_ERROR,
    }
}

/// The status a request answers for a storage error.
pub fn map_storage_err(err: &StorageError) -> (r: u16)
    ensures
        r == spec_status_of(*err),
{
    match err {
        StorageError::NotFound => NOT_FOUND,
        StorageError::Other(_) => INTERNAL_SERVER_ERROR,
    }
}

/// The headers a stored object is served with.
#[derive(Clone, Debug)]
pub struct ServedHeaders {
    /// `Cache-Control`.
    pub cache_control: String,
    /// `Content-Type`.
    pub content_type: String,
}

} // verus!
