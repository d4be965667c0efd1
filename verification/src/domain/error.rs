//! How a cache request fails.
use vstd::prelude::*;

use crate::text::concat2;

verus! {

/// Why the cache could not answer a request.
#[derive(Debug)]
pub enum CacheError {
    /// The store answered, but holds no artifact under that path.
    NotFound,
    /// The store could not be reached, or rejected the request; the text says
    /// what the store reported.
    StoreUnavailable(String),
}

pub open spec fn not_found_message() -> Seq<char> {
    "no such artifact in the store"@
}

pub open spec fn store_failure_prefix() -> Seq<char> {
    "store request failed: "@
}

impl CacheError {
    /// The HTTP status that answers this error.
    pub fn status_code(&self) -> (r: u16)
        ensures
            r == (match self {
                CacheError::NotFound => 404u16,
                CacheError::StoreUnavailable(_) => 500u16,
            }),
    {
        match self {
            CacheError::NotFound => 404,
            CacheError::StoreUnavailable(_) => 500,
        }
    }

    /// The error as a sentence, for logs.
    pub fn message(&self) -> (r: String)
        ensures
            r@ == (match self {
                CacheError::NotFound => not_found_message(),
                CacheError::StoreUnavailable(detail) => store_failure_prefix() + detail@,
            }),
    {
        match self {
            CacheError::NotFound => "no such artifact in the store".to_owned(),
            CacheError::StoreUnavailable(detail) => {
                concat2("store request failed: ", detail.as_str())
            },
        }
    }
}

} // verus!
