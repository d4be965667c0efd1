//! Artifacts as Turborepo names them, and the metadata that travels with them.
use vstd::prelude::*;
use vstd::string::StringExecFns;

use crate::decimal::{decimal_text, format_u64, lemma_parse_decimal_text, parse_u64, parse_unsigned};
use crate::domain::key_values::KeyValues;
use crate::text::push_char;

verus! {

/// When Turborepo is configured with `"signature": true` (turbo.json), the CLI
/// computes an HMAC-SHA256 of each artifact and sends it as the `x-artifact-tag`
/// header on PUT. The server persists this value as S3 object metadata and returns
/// it on GET so the client can verify artifact integrity.
pub const ARTIFACT_TAG_HEADER: &'static str = "x-artifact-tag";

/// Turborepo sends the task run time on PUT and reads it back on GET and HEAD to
/// report how much time the cache saved.
pub const ARTIFACT_DURATION_HEADER: &'static str = "x-artifact-duration";

/// Identifies one artifact in the cache: the Turborepo hash, scoped by team.
#[derive(Debug, Clone, PartialEq, Eq)]
pub struct ArtifactId {
    pub team: String,
    pub hash: String,
}

/// The object path of an artifact: `/{team}/{hash}`.
pub open spec fn object_path_text(team: Seq<char>, hash: Seq<char>) -> Seq<char> {
    seq!['/'] + team + seq!['/'] + hash
}

impl ArtifactId {
    /// Object path as stored in the bucket.
    pub fn object_path(&self) -> (r: String)
        ensures
            r@ == object_path_text(self.team@, self.hash@),
    {
        let mut path = String::new();
        push_char(&mut path, '/');
        path.append(self.team.as_str());
        push_char(&mut path, '/');
        path.append(self.hash.as_str());
        assert(path@ =~= object_path_text(self.team@, self.hash@));
        path
    }
}

/// The artifact headers Turborepo sends on upload and expects back on download.
#[derive(Debug, PartialEq, Eq)]
pub struct ArtifactMetadata {
    pub tag: Option<String>,
    pub duration: Option<u64>,
}

/// What an `ArtifactMetadata` holds, as plain values.
pub struct MetadataView {
    pub tag: Option<Seq<char>>,
    pub duration: Option<u64>,
}

impl View for ArtifactMetadata {
    type V = MetadataView;

    open spec fn view(&self) -> MetadataView {
        MetadataView {
            tag: match self.tag {
                Some(t) => Some(t@),
                None => None,
            },
            duration: self.duration,
        }
    }
}

impl Default for ArtifactMetadata {
    fn default() -> (r: Self)
        ensures
            r.tag is None,
            r.duration is None,
    {
        ArtifactMetadata { tag: None, duration: None }
    }
}

/// The duration that a stored or sent text stands for: its value as a `u64`,
/// or nothing when the text is not one.
pub open spec fn duration_from_text(raw: Seq<char>) -> Option<u64> {
    match parse_unsigned(raw, u64::MAX as nat) {
        Some(v) => Some(v as u64),
        None => None,
    }
}

/// The metadata that a key-value map carries.
pub open spec fn metadata_from_map(m: Map<Seq<char>, Seq<char>>) -> MetadataView {
    MetadataView {
        tag: if m.contains_key(ARTIFACT_TAG_HEADER@) {
            Some(m[ARTIFACT_TAG_HEADER@])
        } else {
            None
        },
        duration: if m.contains_key(ARTIFACT_DURATION_HEADER@) {
            duration_from_text(m[ARTIFACT_DURATION_HEADER@])
        } else {
            None
        },
    }
}

/// The key-value map that carries the given metadata.
pub open spec fn metadata_to_map(m: MetadataView) -> Map<Seq<char>, Seq<char>> {
    let with_tag = match m.tag {
        Some(t) => Map::<Seq<char>, Seq<char>>::empty().insert(ARTIFACT_TAG_HEADER@, t),
        None => Map::<Seq<char>, Seq<char>>::empty(),
    };
    match m.duration {
        Some(d) => with_tag.insert(ARTIFACT_DURATION_HEADER@, decimal_text(d as nat)),
        None => with_tag,
    }
}

pub proof fn lemma_header_names_differ()
    ensures
        ARTIFACT_TAG_HEADER@ != ARTIFACT_DURATION_HEADER@,
{
    reveal_strlit("x-artifact-tag");
    reveal_strlit("x-artifact-duration");
    assert(ARTIFACT_TAG_HEADER@.len() != ARTIFACT_DURATION_HEADER@.len());
}

impl ArtifactMetadata {
    /// Reads the protocol key-value form. S3 metadata and HTTP headers share the keys.
    pub fn from_key_values(map: KeyValues) -> (r: Self)
        ensures
            r@ == metadata_from_map(map@),
    {
        let mut map = map;
        let tag = map.remove(ARTIFACT_TAG_HEADER);
        proof {
            lemma_header_names_differ();
        }
        let duration = match map.remove(ARTIFACT_DURATION_HEADER) {
            Some(raw) => parse_duration(raw.as_str()),
            None => None,
        };
        ArtifactMetadata { tag, duration }
    }

    /// Writes the protocol key-value form.
    pub fn into_key_values(self) -> (r: KeyValues)
        ensures
            r@ == metadata_to_map(self@),
    {
        let mut map = KeyValues::new();
        if let Some(tag) = self.tag {
            map.insert(ARTIFACT_TAG_HEADER.to_owned(), tag);
        }
        if let Some(duration) = self.duration {
            map.insert(ARTIFACT_DURATION_HEADER.to_owned(), format_u64(duration));
        }
        assert(map@ =~= metadata_to_map(self@));
        map
    }
}

/// Turborepo fails the whole cache read on a duration it cannot parse, so a
/// value the server cannot vouch for is dropped instead of passed on.
pub fn parse_duration(raw: &str) -> (r: Option<u64>)
    ensures
        r == duration_from_text(raw@),
{
    parse_u64(raw)
}

/// Writing metadata to its key-value form and reading it back gives the same
/// metadata: the tag and the duration survive the round trip through storage.
pub proof fn lemma_metadata_round_trip(m: MetadataView)
    ensures
        metadata_from_map(metadata_to_map(m)) == m,
{
    lemma_header_names_differ();
    if let Some(d) = m.duration {
        lemma_parse_decimal_text(d as nat, u64::MAX as nat);
    }
    let back = metadata_from_map(metadata_to_map(m));
    assert(back.tag == m.tag);
    assert(back.duration == m.duration);
}

} // verus!
