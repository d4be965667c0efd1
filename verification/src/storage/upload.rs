//! The upload protocol: a body below `PART_SIZE` goes up in one PutObject; a
//! larger body goes up as a multipart upload, one part in memory at a time.
//!
//! The protocol is a state machine. The caller reads parts and sends the S3
//! requests; `step` decides, from the state and what the last request or read
//! gave, the next state and the next thing to do.
use vstd::prelude::*;

use crate::app_settings::S3ServerSideEncryption;
use crate::domain::error::CacheError;
use crate::domain::key_values::KeyValues;
use crate::storage::client::ChecksumCalculation;
use crate::text::{concat2, concat3};

verus! {

/// Bodies below this size use PutObject; larger bodies use sequential parts.
/// At most one part sits in memory, and SDK retries replay that part.
pub const PART_SIZE: u64 = 8388608;

/// The most parts S3 accepts in one multipart upload.
pub const MAX_PARTS: i32 = 10000;

/// How long the cleanup of an unfinished multipart upload may take, in seconds.
pub const ABORT_TIMEOUT_SECS: u64 = 10;

/// The content type of every stored artifact.
pub const CONTENT_TYPE: &'static str = "application/octet-stream";

/// A failed upload.
#[derive(Debug)]
pub enum UploadError {
    /// The text says what failed, with the S3 code, message and HTTP status
    /// where S3 answered.
    Failed(String),
}

impl UploadError {
    /// The error as a sentence.
    pub fn message(&self) -> (r: String)
        ensures
            r@ == "S3 upload failed: "@ + (match self {
                UploadError::Failed(detail) => detail@,
            }),
    {
        match self {
            UploadError::Failed(detail) => {
                concat2("S3 upload failed: ", detail.as_str())
            },
        }
    }

    /// The cache error a failed upload reports: the store is unavailable.
    pub fn into_cache_error(self) -> (r: CacheError)
        ensures
            r matches CacheError::StoreUnavailable(m) && m@ == "S3 upload failed: "@ + (match self {
                UploadError::Failed(detail) => detail@,
            }),
    {
        CacheError::StoreUnavailable(self.message())
    }
}

/// Whether the multipart upload names its checksum algorithm (CRC32) when it
/// starts: exactly when the client computes checksums wherever supported, so
/// the initiation matches the checksum the SDK puts on every part.
pub fn crc32_on_initiation(request_checksums: ChecksumCalculation) -> (r: bool)
    ensures
        r == (request_checksums == ChecksumCalculation::WhenSupported),
{
    match request_checksums {
        ChecksumCalculation::WhenSupported => true,
        ChecksumCalculation::WhenRequired => false,
    }
}

/// The checksums S3 reported for an uploaded part.
pub struct PartChecksums {
    pub crc32: Option<String>,
    pub crc32_c: Option<String>,
    pub crc64_nvme: Option<String>,
    pub sha1: Option<String>,
    pub sha256: Option<String>,
}

/// What S3 answered to an UploadPart request.
pub struct PartReceipt {
    pub e_tag: Option<String>,
    pub checksums: PartChecksums,
}

/// An uploaded part, as the completion of the multipart upload lists it.
pub struct CompletedPart {
    pub part_number: i32,
    pub e_tag: String,
    pub checksums: PartChecksums,
}

/// What the first S3 request of an upload carries besides the body: the
/// object's user metadata, its server-side encryption and its content type.
pub struct ObjectAttributes {
    pub metadata: Option<KeyValues>,
    pub server_side_encryption: Option<S3ServerSideEncryption>,
    pub content_type: &'static str,
}

/// Where an upload stands.
pub enum UploadState {
    /// Reading the first part of the body; the attributes wait for the first request.
    AwaitingFirstPart { attributes: ObjectAttributes },
    /// The whole body is going up in one PutObject.
    PuttingObject,
    /// The multipart upload is starting; the first part waits in memory.
    Initiating { first_part: Vec<u8> },
    /// Part `part_number` is going up; `completed` holds the parts before it.
    UploadingPart { upload_id: String, part_number: i32, completed: Vec<CompletedPart> },
    /// Reading the part that will get number `next_number`.
    AwaitingPart { upload_id: String, next_number: i32, completed: Vec<CompletedPart> },
    /// The multipart upload is completing.
    Completing { upload_id: String },
    /// The upload succeeded or failed.
    Finished,
}

/// What the last read or S3 request gave.
pub enum UploadEvent {
    /// A part of the body: `PART_SIZE` bytes, or fewer at the end of the body.
    PartRead(Vec<u8>),
    /// Reading the body failed.
    ReadFailed(String),
    /// The PutObject request answered.
    ObjectPut(Result<(), String>),
    /// The CreateMultipartUpload request answered, with the upload ID if S3 sent one.
    Initiated(Result<Option<String>, String>),
    /// The UploadPart request answered.
    PartUploaded(Result<PartReceipt, String>),
    /// The CompleteMultipartUpload request answered.
    Completed(Result<(), String>),
}

/// What to do next.
pub enum UploadAction {
    /// Read the next part of the body.
    ReadPart,
    /// Send the whole body in one PutObject, with the object's attributes.
    PutObject { body: Vec<u8>, attributes: ObjectAttributes },
    /// Start the multipart upload, with the object's attributes.
    CreateMultipartUpload { attributes: ObjectAttributes },
    /// Send one part.
    UploadPart { upload_id: String, part_number: i32, body: Vec<u8> },
    /// Complete the multipart upload with these parts.
    CompleteMultipartUpload { upload_id: String, parts: Vec<CompletedPart> },
    /// The upload is done.
    Succeed,
    /// The upload failed; when `abort` names an upload, it must be aborted so
    /// its parts do not stay in the bucket.
    Fail { error: UploadError, abort: Option<String> },
}

/// Whether the parts are numbered 1, 2, ... in order, each with an ETag.
pub open spec fn parts_in_order(parts: Seq<CompletedPart>) -> bool {
    forall|i: int|
        0 <= i < parts.len() ==> (#[trigger] parts[i]).part_number == i + 1 && parts[i].e_tag@.len()
            > 0
}

impl UploadState {
    /// What every reachable state keeps.
    pub open spec fn wf(&self) -> bool {
        match self {
            UploadState::Initiating { first_part } => first_part@.len() >= PART_SIZE,
            UploadState::UploadingPart { upload_id, part_number, completed } => {
                &&& upload_id@.len() > 0
                &&& 1 <= *part_number <= MAX_PARTS
                &&& completed@.len() == *part_number - 1
                &&& parts_in_order(completed@)
            },
            UploadState::AwaitingPart { upload_id, next_number, completed } => {
                &&& upload_id@.len() > 0
                &&& 2 <= *next_number <= MAX_PARTS + 1
                &&& completed@.len() == *next_number - 1
                &&& parts_in_order(completed@)
            },
            UploadState::Completing { upload_id } => upload_id@.len() > 0,
            _ => true,
        }
    }

    /// Whether the state waits for this kind of event.
    pub open spec fn awaits(&self, event: &UploadEvent) -> bool {
        match (self, event) {
            (UploadState::AwaitingFirstPart { .. }, UploadEvent::PartRead(_)) => true,
            (UploadState::AwaitingFirstPart { .. }, UploadEvent::ReadFailed(_)) => true,
            (UploadState::PuttingObject, UploadEvent::ObjectPut(_)) => true,
            (UploadState::Initiating { .. }, UploadEvent::Initiated(_)) => true,
            (UploadState::UploadingPart { .. }, UploadEvent::PartUploaded(_)) => true,
            (UploadState::AwaitingPart { .. }, UploadEvent::PartRead(_)) => true,
            (UploadState::AwaitingPart { .. }, UploadEvent::ReadFailed(_)) => true,
            (UploadState::Completing { .. }, UploadEvent::Completed(_)) => true,
            _ => false,
        }
    }

    /// The multipart upload this state has started, if any.
    pub open spec fn upload_id(&self) -> Option<Seq<char>> {
        match self {
            UploadState::UploadingPart { upload_id, .. } => Some(upload_id@),
            UploadState::AwaitingPart { upload_id, .. } => Some(upload_id@),
            UploadState::Completing { upload_id } => Some(upload_id@),
            _ => None,
        }
    }

    /// Whether the state waits for an event of this kind, tested at run time.
    pub fn awaits_event(&self, event: &UploadEvent) -> (r: bool)
        ensures
            r == self.awaits(event),
    {
        match (self, event) {
            (UploadState::AwaitingFirstPart { .. }, UploadEvent::PartRead(_)) => true,
            (UploadState::AwaitingFirstPart { .. }, UploadEvent::ReadFailed(_)) => true,
            (UploadState::PuttingObject, UploadEvent::ObjectPut(_)) => true,
            (UploadState::Initiating { .. }, UploadEvent::Initiated(_)) => true,
            (UploadState::UploadingPart { .. }, UploadEvent::PartUploaded(_)) => true,
            (UploadState::AwaitingPart { .. }, UploadEvent::PartRead(_)) => true,
            (UploadState::AwaitingPart { .. }, UploadEvent::ReadFailed(_)) => true,
            (UploadState::Completing { .. }, UploadEvent::Completed(_)) => true,
            _ => false,
        }
    }
}

/// How a failure that the upload itself detects reads: as the SDK's
/// `DisplayErrorContext` shows an `io::Error::other` made from the message
/// (its text, then its `Debug` form), for a message that needs no escaping.
pub open spec fn own_failure(message: Seq<char>) -> Seq<char> {
    message + " (Custom { kind: Other, error: \""@ + message + "\" })"@
}

pub open spec fn missing_upload_id_message() -> Seq<char> {
    own_failure("S3 omitted the multipart upload ID"@)
}

pub open spec fn missing_e_tag_message() -> Seq<char> {
    own_failure("S3 omitted the part ETag"@)
}

pub open spec fn too_many_parts_message() -> Seq<char> {
    own_failure("S3 multipart upload exceeds 10000 parts"@)
}

/// The text of a failure the upload itself detects, for one of its own messages.
fn own_failure_detail(message: &'static str) -> (r: String)
    ensures
        r@ == own_failure(message@),
{
    let head = concat3(message, " (Custom { kind: Other, error: \"", message);
    concat2(head.as_str(), "\" })")
}

/// A failure with the given text, aborting the given upload if any.
pub open spec fn fails_with(action: UploadAction, detail: Seq<char>, abort: Option<Seq<char>>) -> bool {
    match action {
        UploadAction::Fail { error: UploadError::Failed(d), abort: a } => d@ == detail && match a {
            Some(id) => abort == Some(id@),
            None => abort is None,
        },
        _ => false,
    }
}

/// The protocol: the state and action that follow `state` on `event`.
pub open spec fn upload_transition(
    state: UploadState,
    event: UploadEvent,
    next: UploadState,
    action: UploadAction,
) -> bool {
    match (state, event) {
        (UploadState::AwaitingFirstPart { attributes }, UploadEvent::PartRead(part)) => if part@.len()
            < PART_SIZE {
            &&& next is PuttingObject
            &&& action matches UploadAction::PutObject { body, attributes: sent } && body@
                == part@ && sent == attributes
        } else {
            &&& next matches UploadState::Initiating { first_part } && first_part@ == part@
            &&& action matches UploadAction::CreateMultipartUpload { attributes: sent } && sent
                == attributes
        },
        (UploadState::AwaitingFirstPart { .. }, UploadEvent::ReadFailed(detail)) => next is Finished
            && fails_with(action, detail@, None),
        (UploadState::PuttingObject, UploadEvent::ObjectPut(answer)) => next is Finished && match answer {
            Ok(_) => action is Succeed,
            Err(detail) => fails_with(action, detail@, None),
        },
        (UploadState::Initiating { first_part }, UploadEvent::Initiated(answer)) => match answer {
            Ok(Some(id)) if id@.len() > 0 => {
                &&& next matches UploadState::UploadingPart { upload_id, part_number, completed }
                    && upload_id@ == id@ && part_number == 1 && completed@.len() == 0
                &&& action matches UploadAction::UploadPart { upload_id, part_number, body }
                    && upload_id@ == id@ && part_number == 1 && body@ == first_part@
            },
            Ok(_) => next is Finished && fails_with(action, missing_upload_id_message(), None),
            Err(detail) => next is Finished && fails_with(action, detail@, None),
        },
        (
            UploadState::UploadingPart { upload_id, part_number, completed },
            UploadEvent::PartUploaded(answer),
        ) => match answer {
            Ok(receipt) => match receipt.e_tag {
                Some(tag) if tag@.len() > 0 => {
                    &&& next matches UploadState::AwaitingPart {
                        upload_id: id,
                        next_number,
                        completed: now,
                    } && id@ == upload_id@ && next_number == part_number + 1 && now@
                        == completed@.push(
                        CompletedPart { part_number, e_tag: tag, checksums: receipt.checksums },
                    )
                    &&& action is ReadPart
                },
                _ => next is Finished && fails_with(
                    action,
                    missing_e_tag_message(),
                    Some(upload_id@),
                ),
            },
            Err(detail) => next is Finished && fails_with(action, detail@, Some(upload_id@)),
        },
        (
            UploadState::AwaitingPart { upload_id, next_number, completed },
            UploadEvent::PartRead(part),
        ) => if part@.len() == 0 {
            &&& next matches UploadState::Completing { upload_id: id } && id@ == upload_id@
            &&& action matches UploadAction::CompleteMultipartUpload { upload_id: id, parts }
                && id@ == upload_id@ && parts@ == completed@
        } else if next_number > MAX_PARTS {
            next is Finished && fails_with(action, too_many_parts_message(), Some(upload_id@))
        } else {
            &&& next matches UploadState::UploadingPart {
                upload_id: id,
                part_number,
                completed: now,
            } && id@ == upload_id@ && part_number == next_number && now@ == completed@
            &&& action matches UploadAction::UploadPart { upload_id: id, part_number, body }
                && id@ == upload_id@ && part_number == next_number && body@ == part@
        },
        (UploadState::AwaitingPart { upload_id, .. }, UploadEvent::ReadFailed(detail)) => next is Finished
            && fails_with(action, detail@, Some(upload_id@)),
        (UploadState::Completing { upload_id }, UploadEvent::Completed(answer)) => next is Finished
            && match answer {
            Ok(_) => action is Succeed,
            Err(detail) => fails_with(action, detail@, Some(upload_id@)),
        },
        _ => false,
    }
}

/// Where an upload starts: reading its first part, with the object's
/// metadata and server-side encryption, and `CONTENT_TYPE`, waiting for the
/// first request.
pub fn start_upload(
    metadata: Option<KeyValues>,
    server_side_encryption: Option<S3ServerSideEncryption>,
) -> (r: (UploadState, UploadAction))
    ensures
        r.0 matches UploadState::AwaitingFirstPart { attributes } && attributes.metadata
            == metadata && attributes.server_side_encryption == server_side_encryption
            && attributes.content_type@ == CONTENT_TYPE@,
        r.1 is ReadPart,
{
    let attributes = ObjectAttributes { metadata, server_side_encryption, content_type: CONTENT_TYPE };
    (UploadState::AwaitingFirstPart { attributes }, UploadAction::ReadPart)
}

/// An upload error that says `detail`.
pub fn failed(detail: String) -> (r: UploadError)
    ensures
        r == UploadError::Failed(detail),
{
    UploadError::Failed(detail)
}

fn fail(detail: String, abort: Option<String>) -> (r: UploadAction)
    ensures
        r == (UploadAction::Fail { error: UploadError::Failed(detail), abort }),
{
    UploadAction::Fail { error: failed(detail), abort }
}

/// One step of the upload protocol.
pub fn step(state: UploadState, event: UploadEvent) -> (r: (UploadState, UploadAction))
    requires
        state.wf(),
        state.awaits(&event),
    ensures
        r.0.wf(),
        upload_transition(state, event, r.0, r.1),
{
    match (state, event) {
        (UploadState::AwaitingFirstPart { attributes }, UploadEvent::PartRead(part)) => {
            if (part.len() as u64) < PART_SIZE {
                (UploadState::PuttingObject, UploadAction::PutObject { body: part, attributes })
            } else {
                (
                    UploadState::Initiating { first_part: part },
                    UploadAction::CreateMultipartUpload { attributes },
                )
            }
        },
        (UploadState::AwaitingFirstPart { .. }, UploadEvent::ReadFailed(detail)) => {
            (UploadState::Finished, fail(detail, None))
        },
        (UploadState::PuttingObject, UploadEvent::ObjectPut(answer)) => match answer {
            Ok(()) => (UploadState::Finished, UploadAction::Succeed),
            Err(detail) => (UploadState::Finished, fail(detail, None)),
        },
        (UploadState::Initiating { first_part }, UploadEvent::Initiated(answer)) => match answer {
            Ok(Some(id)) => {
                if id.as_str().is_empty() {
                    (
                        UploadState::Finished,
                        fail(own_failure_detail("S3 omitted the multipart upload ID"), None),
                    )
                } else {
                    let action = UploadAction::UploadPart {
                        upload_id: id.clone(),
                        part_number: 1,
                        body: first_part,
                    };
                    (
                        UploadState::UploadingPart {
                            upload_id: id,
                            part_number: 1,
                            completed: Vec::new(),
                        },
                        action,
                    )
                }
            },
            Ok(None) => (
                UploadState::Finished,
                fail(own_failure_detail("S3 omitted the multipart upload ID"), None),
            ),
            Err(detail) => (UploadState::Finished, fail(detail, None)),
        },
        (
            UploadState::UploadingPart { upload_id, part_number, completed },
            UploadEvent::PartUploaded(answer),
        ) => match answer {
            Ok(receipt) => {
                let PartReceipt { e_tag, checksums } = receipt;
                match e_tag {
                    Some(tag) => {
                        if tag.as_str().is_empty() {
                            (
                                UploadState::Finished,
                                fail(own_failure_detail("S3 omitted the part ETag"), Some(upload_id)),
                            )
                        } else {
                            let mut completed = completed;
                            let ghost before = completed@;
                            completed.push(CompletedPart { part_number, e_tag: tag, checksums });
                            assert(parts_in_order(completed@)) by {
                                assert forall|i: int| 0 <= i < completed@.len() implies (
                                #[trigger] completed@[i]).part_number == i + 1
                                    && completed@[i].e_tag@.len() > 0 by {
                                    if i < before.len() {
                                        assert(completed@[i] == before[i]);
                                    }
                                }
                            }
                            (
                                UploadState::AwaitingPart {
                                    upload_id,
                                    next_number: part_number + 1,
                                    completed,
                                },
                                UploadAction::ReadPart,
                            )
                        }
                    },
                    None => (
                        UploadState::Finished,
                        fail(own_failure_detail("S3 omitted the part ETag"), Some(upload_id)),
                    ),
                }
            },
            Err(detail) => (UploadState::Finished, fail(detail, Some(upload_id))),
        },
        (
            UploadState::AwaitingPart { upload_id, next_number, completed },
            UploadEvent::PartRead(part),
        ) => {
            if part.len() == 0 {
                let action = UploadAction::CompleteMultipartUpload {
                    upload_id: upload_id.clone(),
                    parts: completed,
                };
                (UploadState::Completing { upload_id }, action)
            } else if next_number > MAX_PARTS {
                (
                    UploadState::Finished,
                    fail(own_failure_detail("S3 multipart upload exceeds 10000 parts"), Some(upload_id)),
                )
            } else {
                let action = UploadAction::UploadPart {
                    upload_id: upload_id.clone(),
                    part_number: next_number,
                    body: part,
                };
                (
                    UploadState::UploadingPart { upload_id, part_number: next_number, completed },
                    action,
                )
            }
        },
        (UploadState::AwaitingPart { upload_id, .. }, UploadEvent::ReadFailed(detail)) => {
            (UploadState::Finished, fail(detail, Some(upload_id)))
        },
        (UploadState::Completing { upload_id }, UploadEvent::Completed(answer)) => match answer {
            Ok(()) => (UploadState::Finished, UploadAction::Succeed),
            Err(detail) => (UploadState::Finished, fail(detail, Some(upload_id))),
        },
        _ => {
            proof {
                assert(false);
            }
            (UploadState::Finished, UploadAction::Succeed)
        },
    }
}

/// A body shorter than one part goes up in a single PutObject of exactly its bytes.
pub proof fn lemma_small_body_is_one_put_object(
    attributes: ObjectAttributes,
    part: Vec<u8>,
    next: UploadState,
    action: UploadAction,
)
    requires
        part@.len() < PART_SIZE,
        upload_transition(
            UploadState::AwaitingFirstPart { attributes },
            UploadEvent::PartRead(part),
            next,
            action,
        ),
    ensures
        action matches UploadAction::PutObject { body, .. } && body@ == part@,
        next is PuttingObject,
{
}

/// Parts go up in order: the part sent is numbered one past the parts
/// already uploaded, and never past `MAX_PARTS`.
pub proof fn lemma_parts_go_up_in_order(
    state: UploadState,
    event: UploadEvent,
    next: UploadState,
    action: UploadAction,
)
    requires
        state.wf(),
        upload_transition(state, event, next, action),
        action is UploadPart,
    ensures
        action matches UploadAction::UploadPart { part_number, .. } && 1 <= part_number
            <= MAX_PARTS,
        next matches UploadState::UploadingPart { part_number: n, completed, .. } && action
            matches UploadAction::UploadPart { part_number, .. } && n == part_number
            && completed@.len() == part_number - 1 && parts_in_order(completed@),
{
}

/// A completion lists every uploaded part, numbered 1, 2, ... in order, each
/// with the ETag S3 gave it; there is at least one.
pub proof fn lemma_completion_lists_every_part_in_order(
    state: UploadState,
    event: UploadEvent,
    next: UploadState,
    action: UploadAction,
)
    requires
        state.wf(),
        upload_transition(state, event, next, action),
        action is CompleteMultipartUpload,
    ensures
        action matches UploadAction::CompleteMultipartUpload { parts, .. } && parts@.len() >= 1
            && parts_in_order(parts@),
{
}

/// A failure after the multipart upload started aborts that upload; a
/// failure before it started aborts nothing.
pub proof fn lemma_failure_aborts_a_started_upload(
    state: UploadState,
    event: UploadEvent,
    next: UploadState,
    action: UploadAction,
)
    requires
        state.wf(),
        upload_transition(state, event, next, action),
        action is Fail,
    ensures
        action matches UploadAction::Fail { abort, .. } && match state.upload_id() {
            Some(id) => abort matches Some(a) && a@ == id,
            None => abort is None,
        },
        next is Finished,
{
}

/// A finished upload takes no further event: nothing is sent after a success
/// or a failure, so a failed upload is never completed.
pub proof fn lemma_finished_upload_takes_no_event(event: UploadEvent)
    ensures
        !UploadState::Finished.awaits(&event),
{
}

/// The bytes an event brings in: the part read, if it is one.
pub open spec fn part_read(event: UploadEvent) -> Seq<u8> {
    match event {
        UploadEvent::PartRead(part) => part@,
        _ => Seq::empty(),
    }
}

/// The bytes an action sends to S3: the body of a PutObject or of a part.
pub open spec fn body_sent(action: UploadAction) -> Seq<u8> {
    match action {
        UploadAction::PutObject { body, .. } => body@,
        UploadAction::UploadPart { body, .. } => body@,
        _ => Seq::empty(),
    }
}

/// The bytes a state holds in memory, read but not yet sent.
pub open spec fn held_bytes(state: UploadState) -> Seq<u8> {
    match state {
        UploadState::Initiating { first_part } => first_part@,
        _ => Seq::empty(),
    }
}

/// All the bytes the events brought in, in order.
pub open spec fn bytes_read(events: Seq<UploadEvent>) -> Seq<u8>
    decreases events.len(),
{
    if events.len() == 0 {
        Seq::empty()
    } else {
        bytes_read(events.drop_last()) + part_read(events.last())
    }
}

/// All the bytes the actions sent, in order.
pub open spec fn bytes_sent(actions: Seq<UploadAction>) -> Seq<u8>
    decreases actions.len(),
{
    if actions.len() == 0 {
        Seq::empty()
    } else {
        bytes_sent(actions.drop_last()) + body_sent(actions.last())
    }
}

/// Whether the states, events and actions are a run of the protocol from its
/// start: state `i` on event `i` gives state `i + 1` and action `i`.
pub open spec fn is_run(
    states: Seq<UploadState>,
    events: Seq<UploadEvent>,
    actions: Seq<UploadAction>,
) -> bool {
    &&& states.len() == events.len() + 1
    &&& actions.len() == events.len()
    &&& states[0] is AwaitingFirstPart
    &&& forall|i: int|
        0 <= i < events.len() ==> upload_transition(
            #[trigger] states[i],
            events[i],
            states[i + 1],
            actions[i],
        )
}

proof fn lemma_run_prefix(
    states: Seq<UploadState>,
    events: Seq<UploadEvent>,
    actions: Seq<UploadAction>,
)
    requires
        is_run(states, events, actions),
        events.len() > 0,
    ensures
        is_run(states.drop_last(), events.drop_last(), actions.drop_last()),
{
    let s = states.drop_last();
    let e = events.drop_last();
    let a = actions.drop_last();
    assert forall|i: int| 0 <= i < e.len() implies upload_transition(
        #[trigger] s[i],
        e[i],
        s[i + 1],
        a[i],
    ) by {
        assert(upload_transition(states[i], events[i], states[i + 1], actions[i]));
    }
}

/// Until an upload fails, every byte it read has gone to S3 in order, except
/// the first part, held while the multipart upload starts.
pub proof fn lemma_upload_sends_what_it_reads(
    states: Seq<UploadState>,
    events: Seq<UploadEvent>,
    actions: Seq<UploadAction>,
)
    requires
        is_run(states, events, actions),
        forall|i: int| 0 <= i < actions.len() ==> !(#[trigger] actions[i] is Fail),
    ensures
        bytes_read(events) == bytes_sent(actions) + held_bytes(states.last()),
    decreases events.len(),
{
    let n = events.len() as int;
    if n == 0 {
        assert(bytes_read(events) =~= Seq::<u8>::empty());
        assert(bytes_sent(actions) =~= Seq::<u8>::empty());
        assert(held_bytes(states.last()) =~= Seq::<u8>::empty());
    } else {
        lemma_run_prefix(states, events, actions);
        let a = actions.drop_last();
        assert forall|i: int| 0 <= i < a.len() implies !(#[trigger] a[i] is Fail) by {
            assert(a[i] == actions[i]);
        }
        lemma_upload_sends_what_it_reads(states.drop_last(), events.drop_last(), a);
        let before = states[n - 1];
        let event = events[n - 1];
        let after = states[n];
        let action = actions[n - 1];
        assert(upload_transition(before, event, after, action));
        assert(!(action is Fail));
        assert(states.drop_last().last() == before);
        assert(states.last() == after);
        let r = bytes_read(events.drop_last());
        let t = bytes_sent(a);
        assert(r == t + held_bytes(before));
        assert(bytes_read(events) == r + part_read(event));
        assert(bytes_sent(actions) == t + body_sent(action));
        match before {
            UploadState::AwaitingFirstPart { .. } => {
                assert(held_bytes(before) =~= Seq::<u8>::empty());
                if part_read(event).len() < PART_SIZE {
                    assert(held_bytes(after) =~= Seq::<u8>::empty());
                    assert(bytes_read(events) =~= bytes_sent(actions) + held_bytes(after));
                } else {
                    assert(body_sent(action) =~= Seq::<u8>::empty());
                    assert(bytes_read(events) =~= bytes_sent(actions) + held_bytes(after));
                }
            },
            UploadState::Initiating { first_part } => {
                assert(part_read(event) =~= Seq::<u8>::empty());
                assert(held_bytes(after) =~= Seq::<u8>::empty());
                assert(bytes_read(events) =~= bytes_sent(actions) + held_bytes(after));
            },
            UploadState::AwaitingPart { .. } => {
                assert(held_bytes(before) =~= Seq::<u8>::empty());
                assert(held_bytes(after) =~= Seq::<u8>::empty());
                assert(body_sent(action) =~= part_read(event));
                assert(bytes_read(events) =~= bytes_sent(actions) + held_bytes(after));
            },
            _ => {
                assert(held_bytes(before) =~= Seq::<u8>::empty());
                assert(held_bytes(after) =~= Seq::<u8>::empty());
                assert(part_read(event) =~= Seq::<u8>::empty());
                assert(body_sent(action) =~= Seq::<u8>::empty());
                assert(bytes_read(events) =~= bytes_sent(actions) + held_bytes(after));
            },
        }
    }
}

/// A successful upload sent to S3 exactly the bytes it read from the body, in
/// order: nothing lost, repeated or reordered.
pub proof fn lemma_successful_upload_sends_every_byte(
    states: Seq<UploadState>,
    events: Seq<UploadEvent>,
    actions: Seq<UploadAction>,
)
    requires
        is_run(states, events, actions),
        actions.len() > 0,
        actions.last() is Succeed,
    ensures
        bytes_read(events) == bytes_sent(actions),
{
    let n = actions.len() as int;
    assert forall|i: int| 0 <= i < actions.len() implies !(#[trigger] actions[i] is Fail) by {
        if actions[i] is Fail {
            assert(upload_transition(states[i], events[i], states[i + 1], actions[i]));
            assert(states[i + 1] is Finished);
            if i + 1 < n {
                assert(upload_transition(states[i + 1], events[i + 1], states[i + 2], actions[i + 1]));
            }
        }
    }
    lemma_upload_sends_what_it_reads(states, events, actions);
    assert(upload_transition(states[n - 1], events[n - 1], states[n], actions[n - 1]));
    assert(states.last() is Finished);
    assert(held_bytes(states.last()) =~= Seq::<u8>::empty());
    assert(bytes_sent(actions) + held_bytes(states.last()) =~= bytes_sent(actions));
}

/// The attributes an action sends to S3: those of a PutObject or of the start
/// of a multipart upload. No other request carries any.
pub open spec fn attributes_sent(action: UploadAction) -> Option<ObjectAttributes> {
    match action {
        UploadAction::PutObject { attributes, .. } => Some(attributes),
        UploadAction::CreateMultipartUpload { attributes } => Some(attributes),
        _ => None,
    }
}

/// The object's metadata, encryption and content type go to S3 on the first
/// request of the upload and on no other: the first request that answers the
/// first part carries exactly the attributes the upload started with, unless
/// reading that part failed, and no later request carries any.
pub proof fn lemma_attributes_go_on_the_first_request_only(
    states: Seq<UploadState>,
    events: Seq<UploadEvent>,
    actions: Seq<UploadAction>,
    attributes: ObjectAttributes,
)
    requires
        is_run(states, events, actions),
        states[0] == (UploadState::AwaitingFirstPart { attributes }),
    ensures
        actions.len() > 0 && !(actions[0] is Fail) ==> attributes_sent(actions[0]) == Some(
            attributes,
        ),
        forall|i: int| 0 < i < actions.len() ==> #[trigger] attributes_sent(actions[i]) is None,
{
    if actions.len() > 0 {
        assert(upload_transition(states[0], events[0], states[1], actions[0]));
    }
    assert forall|i: int| 0 < i < actions.len() implies #[trigger] attributes_sent(actions[i]) is None by {
        assert(upload_transition(states[i - 1], events[i - 1], states[i], actions[i - 1]));
        assert(!(states[i] is AwaitingFirstPart));
        assert(upload_transition(states[i], events[i], states[i + 1], actions[i]));
    }
}

/// The part number an action sends: that of an UploadPart.
pub open spec fn part_number_sent(action: UploadAction) -> Seq<int> {
    match action {
        UploadAction::UploadPart { part_number, .. } => seq![part_number as int],
        _ => Seq::empty(),
    }
}

/// The part numbers the actions sent, in order: one for each UploadPart.
pub open spec fn part_numbers_sent(actions: Seq<UploadAction>) -> Seq<int>
    decreases actions.len(),
{
    if actions.len() == 0 {
        Seq::empty()
    } else {
        part_numbers_sent(actions.drop_last()) + part_number_sent(actions.last())
    }
}

/// The ETag an event brings: the one S3 gave for an uploaded part.
pub open spec fn e_tag_received(event: UploadEvent) -> Seq<Seq<char>> {
    match event {
        UploadEvent::PartUploaded(Ok(receipt)) => match receipt.e_tag {
            Some(tag) => seq![tag@],
            None => Seq::empty(),
        },
        _ => Seq::empty(),
    }
}

/// The checksums an event brings: those S3 reported for an uploaded part
/// that came with an ETag.
pub open spec fn checksums_received(event: UploadEvent) -> Seq<PartChecksums> {
    match event {
        UploadEvent::PartUploaded(Ok(receipt)) => match receipt.e_tag {
            Some(_) => seq![receipt.checksums],
            None => Seq::empty(),
        },
        _ => Seq::empty(),
    }
}

/// The checksums S3 reported for uploaded parts, in the order of its answers.
pub open spec fn all_checksums_received(events: Seq<UploadEvent>) -> Seq<PartChecksums>
    decreases events.len(),
{
    if events.len() == 0 {
        Seq::empty()
    } else {
        all_checksums_received(events.drop_last()) + checksums_received(events.last())
    }
}

/// The ETags S3 gave for uploaded parts, in the order of its answers.
pub open spec fn e_tags_received(events: Seq<UploadEvent>) -> Seq<Seq<char>>
    decreases events.len(),
{
    if events.len() == 0 {
        Seq::empty()
    } else {
        e_tags_received(events.drop_last()) + e_tag_received(events.last())
    }
}

spec fn numbers_of(parts: Seq<CompletedPart>) -> Seq<int> {
    parts.map_values(|p: CompletedPart| p.part_number as int)
}

spec fn tags_of(parts: Seq<CompletedPart>) -> Seq<Seq<char>> {
    parts.map_values(|p: CompletedPart| p.e_tag@)
}

spec fn checksums_of(parts: Seq<CompletedPart>) -> Seq<PartChecksums> {
    parts.map_values(|p: CompletedPart| p.checksums)
}

spec fn counts_up(numbers: Seq<int>) -> bool {
    forall|i: int| 0 <= i < numbers.len() ==> #[trigger] numbers[i] == i + 1
}

/// What a state of a run knows of the parts sent so far (`numbers`) and of
/// the ETags received for them (`tags`).
spec fn tracks_parts(
    state: UploadState,
    numbers: Seq<int>,
    tags: Seq<Seq<char>>,
    sums: Seq<PartChecksums>,
) -> bool {
    &&& counts_up(numbers)
    &&& match state {
        UploadState::AwaitingFirstPart { .. } => numbers.len() == 0 && tags.len() == 0
            && sums.len() == 0,
        UploadState::PuttingObject => numbers.len() == 0 && tags.len() == 0 && sums.len() == 0,
        UploadState::Initiating { .. } => numbers.len() == 0 && tags.len() == 0 && sums.len()
            == 0,
        UploadState::UploadingPart { part_number, completed, .. } => {
            &&& numbers == numbers_of(completed@).push(part_number as int)
            &&& tags == tags_of(completed@)
            &&& sums == checksums_of(completed@)
            &&& part_number == completed@.len() + 1
        },
        UploadState::AwaitingPart { next_number, completed, .. } => {
            &&& numbers == numbers_of(completed@)
            &&& tags == tags_of(completed@)
            &&& sums == checksums_of(completed@)
            &&& next_number == completed@.len() + 1
        },
        _ => true,
    }
}

proof fn lemma_step_tracks_parts(
    before: UploadState,
    event: UploadEvent,
    after: UploadState,
    action: UploadAction,
    numbers: Seq<int>,
    tags: Seq<Seq<char>>,
    sums: Seq<PartChecksums>,
)
    requires
        upload_transition(before, event, after, action),
        tracks_parts(before, numbers, tags, sums),
    ensures
        tracks_parts(
            after,
            numbers + part_number_sent(action),
            tags + e_tag_received(event),
            sums + checksums_received(event),
        ),
{
    let numbers1 = numbers + part_number_sent(action);
    let tags1 = tags + e_tag_received(event);
    let sums1 = sums + checksums_received(event);
    match before {
        UploadState::Initiating { .. } => {
            assert(e_tag_received(event) =~= Seq::<Seq<char>>::empty());
            assert(checksums_received(event) =~= Seq::<PartChecksums>::empty());
            assert(tags1 =~= tags);
            assert(sums1 =~= sums);
            if let UploadState::UploadingPart { completed, .. } = after {
                assert(part_number_sent(action) =~= seq![1int]);
                assert(numbers1 =~= seq![1int]);
                assert(numbers_of(completed@).push(1int) =~= seq![1int]);
                assert(tags_of(completed@) =~= Seq::<Seq<char>>::empty());
                assert(checksums_of(completed@) =~= Seq::<PartChecksums>::empty());
            } else {
                assert(part_number_sent(action) =~= Seq::<int>::empty());
                assert(numbers1 =~= numbers);
            }
        },
        UploadState::UploadingPart { part_number, completed, .. } => {
            assert(part_number_sent(action) =~= Seq::<int>::empty());
            assert(numbers1 =~= numbers);
            if let UploadState::AwaitingPart { completed: now, .. } = after {
                assert(numbers_of(now@) =~= numbers_of(completed@).push(part_number as int));
                assert(tags_of(now@) =~= tags1);
                assert(checksums_of(now@) =~= sums1);
            }
        },
        UploadState::AwaitingPart { next_number, completed, .. } => {
            assert(e_tag_received(event) =~= Seq::<Seq<char>>::empty());
            assert(checksums_received(event) =~= Seq::<PartChecksums>::empty());
            assert(tags1 =~= tags);
            assert(sums1 =~= sums);
            if let UploadState::UploadingPart { .. } = after {
                assert(numbers1 =~= numbers.push(next_number as int));
                assert forall|i: int| 0 <= i < numbers1.len() implies #[trigger] numbers1[i] == i
                    + 1 by {
                    if i < numbers.len() {
                        assert(numbers1[i] == numbers[i]);
                    }
                }
            } else {
                assert(part_number_sent(action) =~= Seq::<int>::empty());
                assert(numbers1 =~= numbers);
            }
        },
        UploadState::AwaitingFirstPart { .. } => {
            assert(part_number_sent(action) =~= Seq::<int>::empty());
            assert(e_tag_received(event) =~= Seq::<Seq<char>>::empty());
            assert(checksums_received(event) =~= Seq::<PartChecksums>::empty());
            assert(numbers1 =~= numbers);
            assert(tags1 =~= tags);
            assert(sums1 =~= sums);
        },
        _ => {
            assert(part_number_sent(action) =~= Seq::<int>::empty());
            assert(numbers1 =~= numbers);
        },
    }
}

proof fn lemma_run_tracks_parts(
    states: Seq<UploadState>,
    events: Seq<UploadEvent>,
    actions: Seq<UploadAction>,
)
    requires
        is_run(states, events, actions),
    ensures
        tracks_parts(
            states.last(),
            part_numbers_sent(actions),
            e_tags_received(events),
            all_checksums_received(events),
        ),
    decreases events.len(),
{
    let n = events.len() as int;
    if n == 0 {
        assert(part_numbers_sent(actions) =~= Seq::<int>::empty());
        assert(e_tags_received(events) =~= Seq::<Seq<char>>::empty());
        assert(all_checksums_received(events) =~= Seq::<PartChecksums>::empty());
    } else {
        lemma_run_prefix(states, events, actions);
        lemma_run_tracks_parts(states.drop_last(), events.drop_last(), actions.drop_last());
        assert(upload_transition(states[n - 1], events[n - 1], states[n], actions[n - 1]));
        assert(states.drop_last().last() == states[n - 1]);
        lemma_step_tracks_parts(
            states[n - 1],
            events[n - 1],
            states[n],
            actions[n - 1],
            part_numbers_sent(actions.drop_last()),
            e_tags_received(events.drop_last()),
            all_checksums_received(events.drop_last()),
        );
        assert(actions.last() == actions[n - 1]);
        assert(events.last() == events[n - 1]);
    }
}

/// A multipart upload is completed with every part it sent and nothing else:
/// the completion lists, in order, the part numbers of all the UploadPart
/// requests of the run, which are 1, 2, ..., n, each with the ETag and the
/// checksums S3 gave for it; and the parts sent hold every byte read from
/// the body, in order.
pub proof fn lemma_completion_lists_every_part_sent(
    states: Seq<UploadState>,
    events: Seq<UploadEvent>,
    actions: Seq<UploadAction>,
)
    requires
        is_run(states, events, actions),
        actions.len() > 0,
        actions.last() is CompleteMultipartUpload,
    ensures
        actions.last() matches UploadAction::CompleteMultipartUpload { parts, .. } && parts@.map_values(
            |p: CompletedPart| p.part_number as int,
        ) == part_numbers_sent(actions) && parts@.map_values(|p: CompletedPart| p.e_tag@)
            == e_tags_received(events) && parts@.map_values(|p: CompletedPart| p.checksums)
            == all_checksums_received(events),
        forall|i: int|
            0 <= i < part_numbers_sent(actions).len() ==> #[trigger] part_numbers_sent(actions)[i]
                == i + 1,
        bytes_read(events) == bytes_sent(actions),
{
    let n = actions.len() as int;
    lemma_run_tracks_parts(states, events, actions);
    lemma_run_prefix(states, events, actions);
    lemma_run_tracks_parts(states.drop_last(), events.drop_last(), actions.drop_last());
    let before = states[n - 1];
    assert(upload_transition(before, events[n - 1], states[n], actions[n - 1]));
    assert(states.drop_last().last() == before);
    assert(actions.last() == actions[n - 1]);
    assert(before is AwaitingPart);
    assert(part_number_sent(actions.last()) =~= Seq::<int>::empty());
    assert(e_tag_received(events.last()) =~= Seq::<Seq<char>>::empty());
    assert(part_numbers_sent(actions) =~= part_numbers_sent(actions.drop_last()));
    assert(e_tags_received(events) =~= e_tags_received(events.drop_last()));
    assert(checksums_received(events.last()) =~= Seq::<PartChecksums>::empty());
    assert(all_checksums_received(events) =~= all_checksums_received(events.drop_last()));
    assert forall|i: int| 0 <= i < actions.len() implies !(#[trigger] actions[i] is Fail) by {
        if actions[i] is Fail {
            assert(upload_transition(states[i], events[i], states[i + 1], actions[i]));
            if i + 1 < n {
                assert(upload_transition(states[i + 1], events[i + 1], states[i + 2], actions[i + 1]));
            }
        }
    }
    lemma_upload_sends_what_it_reads(states, events, actions);
    assert(states.last() is Completing);
    assert(bytes_sent(actions) + held_bytes(states.last()) =~= bytes_sent(actions));
}

} // verus!
