//! What the HTTP handlers decide: which artifact a request names, which
//! metadata it carries, and which headers answer it.
use vstd::prelude::*;
use vstd::string::StringExecFns;

use crate::domain::artifact::{
    duration_from_text, parse_duration, ArtifactId, ArtifactMetadata, ARTIFACT_DURATION_HEADER,
    ARTIFACT_TAG_HEADER,
};
use crate::decimal::{decimal_text, format_u64};
use crate::domain::key_values::KeyValues;
use crate::text::{opt_str_view, push_char};

verus! {

/// The path of the health check endpoint.
pub const HEALTH_CHECK_PATH: &'static str = "/management/health";

/// Reads the artifact headers from an upload request: `tag` and `duration`
/// are the values of the `x-artifact-tag` and `x-artifact-duration` headers,
/// where present and readable as text.
pub fn metadata_from_headers(tag: Option<&str>, duration: Option<&str>) -> (r: ArtifactMetadata)
    ensures
        r@.tag == opt_str_view(tag),
        r@.duration == (match duration {
            Some(raw) => duration_from_text(raw@),
            None => None,
        }),
{
    ArtifactMetadata {
        tag: match tag {
            Some(t) => Some(t.to_owned()),
            None => None,
        },
        duration: match duration {
            Some(raw) => parse_duration(raw),
            None => None,
        },
    }
}

/// The headers that copy the artifact metadata onto a download response, in
/// the order they are set: the tag, then the duration in decimal.
pub fn metadata_headers(metadata: &ArtifactMetadata) -> (r: Vec<(String, String)>)
    ensures
        r@.len() == (if metadata.tag is Some { 1int } else { 0int }) + (if metadata.duration is Some {
            1int
        } else {
            0int
        }),
        metadata.tag matches Some(t) ==> r@[0].0@ == ARTIFACT_TAG_HEADER@ && r@[0].1@ == t@,
        metadata.duration matches Some(d) ==> r@.last().0@ == ARTIFACT_DURATION_HEADER@
            && r@.last().1@ == decimal_text(d as nat),
{
    let mut headers: Vec<(String, String)> = Vec::new();
    if let Some(tag) = &metadata.tag {
        headers.push((ARTIFACT_TAG_HEADER.to_owned(), tag.clone()));
    }
    if let Some(duration) = metadata.duration {
        headers.push((ARTIFACT_DURATION_HEADER.to_owned(), format_u64(duration)));
    }
    headers
}

/// Rejection for a request whose path holds no artifact hash.
#[derive(Debug)]
pub struct InvalidArtifactPath {
    status: u16,
}

impl InvalidArtifactPath {
    pub closed spec fn status(&self) -> u16 {
        self.status
    }

    /// The HTTP status of the rejection.
    pub fn status_code(&self) -> (r: u16)
        ensures
            r == self.status(),
    {
        self.status
    }

    /// The rejection as a sentence.
    pub fn message(&self) -> (r: &'static str)
        ensures
            r@ == "request path holds no artifact hash"@,
    {
        "request path holds no artifact hash"
    }
}

/// The key-value pairs that an URL query string decodes to, as actix-web's
/// `Query<HashMap<String, String>>` decodes it (`application/x-www-form-urlencoded`).
pub uninterp spec fn decoded_query(query: Seq<char>) -> Map<Seq<char>, Seq<char>>;

/// `actix_web::web::Query::<HashMap<String, String>>::from_query`: decodes an
/// URL query string into its key-value pairs, which are `decoded_query` of the
/// text. Decoding into a map of strings does not fail: the form decoder reads
/// every pair leniently and the map takes any string pair, so the error arm
/// of the call is never taken.
#[verifier::external_body]
fn decode_query(query: &str) -> (r: KeyValues)
    ensures
        r@ == decoded_query(query@),
{
    let decoded = actix_web::web::Query::<std::collections::HashMap<String, String>>::from_query(
        query,
    ).expect("a query string always decodes into string pairs");
    KeyValues { entries: decoded.into_inner().into_iter().collect() }
}

/// The team a request's query names: `slug`, else `teamId`, else `no_team`.
pub open spec fn team_of(pairs: Map<Seq<char>, Seq<char>>) -> Seq<char> {
    if pairs.contains_key("slug"@) {
        pairs["slug"@]
    } else if pairs.contains_key("teamId"@) {
        pairs["teamId"@]
    } else {
        "no_team"@
    }
}

/// A `slug` pair names the team, character for character, whatever else the
/// query holds.
pub proof fn lemma_slug_names_the_team(pairs: Map<Seq<char>, Seq<char>>, slug: Seq<char>)
    ensures
        team_of(pairs.insert("slug"@, slug)) == slug,
{
}

/// Without a `slug` pair, a `teamId` pair names the team, character for
/// character.
pub proof fn lemma_team_id_names_the_team_without_a_slug(
    pairs: Map<Seq<char>, Seq<char>>,
    team_id: Seq<char>,
)
    requires
        !pairs.contains_key("slug"@),
    ensures
        team_of(pairs.insert("teamId"@, team_id)) == team_id,
{
    reveal_strlit("slug");
    reveal_strlit("teamId");
    assert("teamId"@.len() != "slug"@.len());
    assert(!pairs.insert("teamId"@, team_id).contains_key("slug"@));
}

/// A query with neither pair names the team `no_team`, and pairs under other
/// keys never change the team.
pub proof fn lemma_other_pairs_leave_the_team(
    pairs: Map<Seq<char>, Seq<char>>,
    key: Seq<char>,
    value: Seq<char>,
)
    requires
        key != "slug"@,
        key != "teamId"@,
    ensures
        team_of(Map::empty()) == "no_team"@,
        team_of(pairs.insert(key, value)) == team_of(pairs),
{
    let more = pairs.insert(key, value);
    assert(more.contains_key("slug"@) == pairs.contains_key("slug"@));
    assert(more.contains_key("teamId"@) == pairs.contains_key("teamId"@));
}

/// The team named by decoded query pairs.
pub fn team_from_query_pairs(pairs: &KeyValues) -> (r: String)
    ensures
        r@ == team_of(pairs@),
{
    match pairs.get("slug") {
        Some(slug) => slug.clone(),
        None => match pairs.get("teamId") {
            Some(team_id) => team_id.clone(),
            None => "no_team".to_owned(),
        },
    }
}

/// The team named by a request's query string.
pub fn extract_team_from_query(query: &str) -> (r: String)
    ensures
        r@ == team_of(decoded_query(query@)),
{
    let pairs = decode_query(query);
    team_from_query_pairs(&pairs)
}

/// The artifact a request names: `hash` is the `{hash}` path segment,
/// `query` the query string, `is_put` whether the method is PUT. A missing or
/// empty hash is rejected with 400 for PUT and 404 otherwise.
pub fn artifact_id_from_request(hash: Option<&str>, query: &str, is_put: bool) -> (r: Result<
    ArtifactId,
    InvalidArtifactPath,
>)
    ensures
        match hash {
            Some(h) if h@.len() > 0 => r matches Ok(id) && id.hash@ == h@ && id.team@ == team_of(
                decoded_query(query@),
            ),
            _ => r matches Err(e) && e.status() == (if is_put {
                400u16
            } else {
                404u16
            }),
        },
{
    match hash {
        Some(h) if !h.is_empty() => {
            let team = extract_team_from_query(query);
            Ok(ArtifactId { team, hash: h.to_owned() })
        },
        _ => {
            let status: u16 = if is_put {
                400
            } else {
                404
            };
            Err(InvalidArtifactPath { status })
        },
    }
}

/// The greeting of the hello endpoint: `Hi {name}!`, with `there` for a missing name.
pub fn greeting(name: Option<&str>) -> (r: String)
    ensures
        r@ == "Hi "@ + (match name {
            Some(n) => n@,
            None => "there"@,
        }) + seq!['!'],
{
    let mut text = "Hi ".to_owned();
    match name {
        Some(n) => text.append(n),
        None => text.append("there"),
    }
    push_char(&mut text, '!');
    text
}

} // verus!
