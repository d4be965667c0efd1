//! The S3 artifact store: object keys, how S3 failures read, and the client
//! and upload policies.
use vstd::prelude::*;
use vstd::string::StrSliceExecFns;

use crate::domain::artifact::object_path_text;
use crate::domain::error::CacheError;
use crate::text::chars_of;

pub mod client;
pub mod upload;

verus! {

/// The object key for an artifact path: the path without one leading `/`.
pub open spec fn object_key_text(path: Seq<char>) -> Seq<char> {
    if path.len() > 0 && path[0] == '/' {
        path.drop_first()
    } else {
        path
    }
}

/// The object key for an artifact path.
pub fn object_key(path: &str) -> (r: &str)
    ensures
        r@ == object_key_text(path@),
{
    let chars = chars_of(path);
    if chars.len() > 0 && chars[0] == '/' {
        let key = path.substring_char(1, chars.len());
        assert(key@ =~= path@.drop_first());
        key
    } else {
        path
    }
}

/// An artifact is stored under the key `{team}/{hash}`: its object path
/// without the leading slash.
pub proof fn lemma_artifact_object_key(team: Seq<char>, hash: Seq<char>)
    ensures
        object_key_text(object_path_text(team, hash)) == team + seq!['/'] + hash,
{
    let path = object_path_text(team, hash);
    assert(path[0] == '/');
    assert(path.drop_first() =~= team + seq!['/'] + hash);
}

/// A failed S3 lookup (GetObject or HeadObject), as plain values.
pub struct S3Failure {
    /// S3 named the failure as a missing object (`NoSuchKey` or `NotFound`).
    pub missing_object: bool,
    /// The HTTP status of the raw response, when one arrived.
    pub http_status: Option<u16>,
    /// The failure with its S3 code, message and HTTP status.
    pub detail: String,
}

/// Reports a failed S3 request: the store is unavailable, and `detail` says why.
pub fn store_unavailable(detail: String) -> (r: CacheError)
    ensures
        r matches CacheError::StoreUnavailable(d) && d == detail,
{
    CacheError::StoreUnavailable(detail)
}

/// Whether a failed lookup means the object is not in the bucket. A 404 with
/// no XML body leaves S3 unable to name the failure, so the status counts too.
pub open spec fn is_missing_object(failure: S3Failure) -> bool {
    failure.missing_object || failure.http_status == Some(404u16)
}

/// The cache error a failed S3 lookup reports: `NotFound` for a missing
/// object, otherwise a store failure that keeps the S3 detail.
pub fn lookup_failure(failure: S3Failure) -> (r: CacheError)
    ensures
        is_missing_object(failure) ==> r is NotFound,
        !is_missing_object(failure) ==> (r matches CacheError::StoreUnavailable(detail) && detail@
            == failure.detail@),
{
    let missing = failure.missing_object || match failure.http_status {
        Some(status) => status == 404,
        None => false,
    };
    if missing {
        CacheError::NotFound
    } else {
        store_unavailable(failure.detail)
    }
}

} // verus!
