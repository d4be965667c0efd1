//! The artifact cache use-cases (store, fetch, check), as the decisions they
//! make on what the store answered.
use vstd::prelude::*;

use crate::domain::artifact::{
    metadata_from_map, metadata_to_map, object_path_text, ArtifactId, ArtifactMetadata,
};
use crate::domain::error::CacheError;
use crate::domain::key_values::KeyValues;

verus! {

/// What storing an artifact writes: the object path, and the metadata in its
/// key-value form.
pub fn store_request(id: &ArtifactId, metadata: ArtifactMetadata) -> (r: (String, KeyValues))
    ensures
        r.0@ == object_path_text(id.team@, id.hash@),
        r.1@ == metadata_to_map(metadata@),
{
    (id.object_path(), metadata.into_key_values())
}

/// The answer to a check: the artifact metadata, or the store's error
/// (`NotFound` for a missing artifact).
pub fn check_result(head: Result<KeyValues, CacheError>) -> (r: Result<ArtifactMetadata, CacheError>)
    ensures
        match head {
            Ok(map) => r matches Ok(m) && m@ == metadata_from_map(map@),
            Err(e) => r == Err::<ArtifactMetadata, CacheError>(e),
        },
{
    match head {
        Ok(map) => Ok(ArtifactMetadata::from_key_values(map)),
        Err(e) => Err(e),
    }
}

/// The answer to a fetch, from the body lookup and the metadata lookup. The
/// body decides success; a failed metadata lookup must not fail an otherwise
/// good download, so it yields empty metadata instead.
pub fn fetch_result<B>(body: Result<B, CacheError>, head: Result<KeyValues, CacheError>) -> (r:
    Result<(B, ArtifactMetadata), CacheError>)
    ensures
        match body {
            Ok(b) => r matches Ok(pair) && pair.0 == b && (match head {
                Ok(map) => pair.1@ == metadata_from_map(map@),
                Err(_) => pair.1.tag is None && pair.1.duration is None,
            }),
            Err(e) => r == Err::<(B, ArtifactMetadata), CacheError>(e),
        },
{
    let metadata = match head {
        Ok(map) => ArtifactMetadata::from_key_values(map),
        Err(_) => ArtifactMetadata::default(),
    };
    match body {
        Ok(b) => Ok((b, metadata)),
        Err(e) => Err(e),
    }
}

} // verus!
