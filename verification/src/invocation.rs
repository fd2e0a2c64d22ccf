//! One invocation, as a sequence of decisions: fetch the stored image, look
//! at what it carries, read its bytes, transform them, put the result at
//! the destination, and then try to delete the image at the source.
//!
//! The storage work itself is done by the caller. `step` takes what the
//! storage answered and says what to do next.

use vstd::prelude::*;
use vstd::hash_map::StringHashMap;
use vstd::string::StringExecFns;
use crate::metadata::{
    geometry_of, ImageMetadata, MetadataError, HEIGHT_KEY, WIDTH_KEY, X_KEY, Y_KEY,
};
use crate::transform::{
    accepted_content_type, accepts, decode_and_render, decoded_as, TransformError,
    OUTPUT_CONTENT_TYPE,
};

verus! {

/// The image to transform: its key, the location it is fetched from and the
/// location the result is put at.
#[derive(Clone, Debug, PartialEq, Eq)]
pub struct TransformRequest {
    pub key: String,
    pub source: String,
    pub destination: String,
}

/// What the storage tells of an object before its bytes are read: the
/// metadata and the content type, if the object has any.
pub struct ObjectHead {
    pub metadata: Option<StringHashMap<String>>,
    pub content_type: Option<String>,
}

/// Why an invocation failed.
#[derive(Clone, Debug, PartialEq, Eq)]
pub enum InvocationError {
    /// The image could not be fetched or its bytes could not be read; the
    /// text is the storage's diagnostic.
    Fetch(String),
    /// The stored object has no metadata at all.
    MissingMetadata,
    /// The metadata does not describe a geometry.
    Metadata(MetadataError),
    /// The stored object has no content type.
    MissingContentType,
    /// The image could not be transformed.
    Transform(TransformError),
    /// The result could not be put at the destination; the text is the
    /// storage's diagnostic, where it gave one. The image at the source is
    /// left in place.
    Upload(Option<String>),
    /// The storage answered something that was not asked for.
    OutOfOrder,
}

impl InvocationError {
    /// The error in words.
    pub open spec fn message_text(&self) -> Seq<char> {
        match self {
            InvocationError::Fetch(diagnostic) => "image cannot be fetched: "@ + diagnostic@,
            InvocationError::MissingMetadata => "image has no metadata"@,
            InvocationError::Metadata(error) => error@.message_text(),
            InvocationError::MissingContentType => "image has no content type"@,
            InvocationError::Transform(error) => error.message_text(),
            InvocationError::Upload(Some(diagnostic)) => "image cannot be uploaded: "@
                + diagnostic@,
            InvocationError::Upload(None) => "image cannot be uploaded"@,
            InvocationError::OutOfOrder => "storage answered what was not asked"@,
        }
    }

    /// The error in words, for a log or a diagnostic.
    pub fn message(&self) -> (text: String)
        ensures
            text@ == self.message_text(),
    {
        match self {
            InvocationError::Fetch(diagnostic) => String::from_str(
                "image cannot be fetched: ",
            ).concat(diagnostic.as_str()),
            InvocationError::MissingMetadata => String::from_str("image has no metadata"),
            InvocationError::Metadata(error) => error.message(),
            InvocationError::MissingContentType => String::from_str("image has no content type"),
            InvocationError::Transform(error) => error.message(),
            InvocationError::Upload(Some(diagnostic)) => String::from_str(
                "image cannot be uploaded: ",
            ).concat(diagnostic.as_str()),
            InvocationError::Upload(None) => String::from_str("image cannot be uploaded"),
            InvocationError::OutOfOrder => String::from_str("storage answered what was not asked"),
        }
    }
}

/// How far an invocation has come.
#[derive(Clone, Copy, Debug, PartialEq, Eq, Structural)]
pub enum Stage {
    /// Nothing has been asked of the storage yet.
    Start,
    /// The image has been asked for.
    Fetching,
    /// The image was found and accepted with this geometry; its bytes are
    /// being read.
    Reading(ImageMetadata),
    /// The result has been handed over to be put at the destination.
    Uploading,
    /// The result is at its destination; the image at the source is being
    /// deleted.
    Cleaning,
    /// The invocation is over.
    Done,
}

/// What the storage answered, or that the invocation begins.
pub enum Event {
    /// The invocation begins.
    Invoked,
    /// The image was found; its bytes are not read yet.
    Found(ObjectHead),
    /// The image could not be fetched; the text is the storage's diagnostic.
    FetchFailed(String),
    /// The bytes of the image were read.
    Read(Vec<u8>),
    /// The bytes of the image could not be read; the text is the storage's
    /// diagnostic.
    ReadFailed(String),
    /// The result is at its destination.
    Uploaded,
    /// The result could not be put at its destination; the text is the
    /// storage's diagnostic, where it gave one.
    UploadFailed(Option<String>),
    /// The image at the source is deleted.
    Deleted,
    /// The image at the source could not be deleted; the text is the
    /// storage's diagnostic.
    DeleteFailed(String),
}

/// What the caller does next.
#[derive(Clone, Debug, PartialEq, Eq)]
pub enum Action {
    /// Fetch the object, and answer `Found` or `FetchFailed`.
    Fetch { bucket: String, key: String },
    /// Read the bytes of the object that was found, and answer `Read` or
    /// `ReadFailed`.
    ReadBody,
    /// Put the bytes, and answer `Uploaded` or `UploadFailed`.
    Upload { bucket: String, key: String, bytes: Vec<u8>, content_type: String },
    /// Delete the object, and answer `Deleted` or `DeleteFailed`.
    Delete { bucket: String, key: String },
    /// Report success. If the image at the source could not be deleted, the
    /// storage's diagnostic comes along to be logged.
    Succeed { cleanup_warning: Option<String> },
    /// Report failure.
    Fail(InvocationError),
}

/// A transform result as the result of the step that made it.
pub open spec fn lifted(transformed: Result<Vec<u8>, TransformError>) -> Result<
    Vec<u8>,
    InvocationError,
> {
    match transformed {
        Ok(bytes) => Ok(bytes),
        Err(error) => Err(InvocationError::Transform(error)),
    }
}

/// `result` is what looking at `head` gives.
///
/// The checks come in this order: the object has metadata; the metadata
/// describes a geometry; the object has a content type; the content type is
/// accepted. The first that fails decides the error. If none fails, the
/// result is the geometry that the metadata describes.
pub open spec fn examined_as(head: ObjectHead, result: Result<ImageMetadata, InvocationError>) -> bool {
    match head.metadata {
        None => result == Err::<ImageMetadata, InvocationError>(InvocationError::MissingMetadata),
        Some(metadata) => match geometry_of(metadata@, HEIGHT_KEY@, WIDTH_KEY@, X_KEY@, Y_KEY@) {
            Err(fault) => result matches Err(InvocationError::Metadata(error)) && error@ == fault,
            Ok(geometry) => match head.content_type {
                None => result == Err::<ImageMetadata, InvocationError>(
                    InvocationError::MissingContentType,
                ),
                Some(content_type) => if accepted_content_type(content_type@) {
                    result == Ok::<ImageMetadata, InvocationError>(geometry)
                } else {
                    result == Err::<ImageMetadata, InvocationError>(
                        InvocationError::Transform(TransformError::UnsupportedFormat),
                    )
                },
            },
        },
    }
}

/// Looks at what a found object carries, before its bytes are read.
pub fn examine(head: &ObjectHead) -> (result: Result<ImageMetadata, InvocationError>)
    ensures
        examined_as(*head, result),
{
    let metadata = match &head.metadata {
        Some(metadata) => metadata,
        None => {
            return Err(InvocationError::MissingMetadata);
        },
    };
    let geometry = match ImageMetadata::new(metadata) {
        Ok(geometry) => geometry,
        Err(error) => {
            return Err(InvocationError::Metadata(error));
        },
    };
    let content_type = match &head.content_type {
        Some(content_type) => content_type,
        None => {
            return Err(InvocationError::MissingContentType);
        },
    };
    if accepts(content_type.as_str()) {
        Ok(geometry)
    } else {
        Err(InvocationError::Transform(TransformError::UnsupportedFormat))
    }
}

/// `result` is what producing the thumbnail from the bytes of an accepted
/// image gives: some outcome of decoding and rendering, as `decoded_as`
/// says, as the result of the step that made it.
pub open spec fn produced_as(geometry: ImageMetadata, result: Result<Vec<u8>, InvocationError>) -> bool {
    exists|transformed: Result<Vec<u8>, TransformError>|
        #[trigger] decoded_as(geometry, transformed) && result == lifted(transformed)
}

/// Produces the thumbnail from the bytes of an accepted image.
pub fn produce(bytes: &[u8], geometry: &ImageMetadata) -> (result: Result<
    Vec<u8>,
    InvocationError,
>)
    ensures
        produced_as(*geometry, result),
{
    let transformed = decode_and_render(bytes, geometry);
    let result = match transformed {
        Ok(bytes) => Ok(bytes),
        Err(error) => Err(InvocationError::Transform(error)),
    };
    assert(decoded_as(*geometry, transformed) && result == lifted(transformed));
    result
}

/// `next` and `action` are what follows once a found object was looked at
/// with the result `examined`: its bytes are read, or the invocation fails.
pub open spec fn after_examine(
    examined: Result<ImageMetadata, InvocationError>,
    next: Stage,
    action: Action,
) -> bool {
    match examined {
        Ok(geometry) => next == Stage::Reading(geometry) && action == Action::ReadBody,
        Err(error) => next == Stage::Done && action == Action::Fail(error),
    }
}

/// `next` and `action` are what follows once the thumbnail was produced
/// with the result `produced`: it is handed over to be put at the
/// destination under the same key, as `OUTPUT_CONTENT_TYPE`, or the
/// invocation fails.
pub open spec fn after_produce(
    request: TransformRequest,
    produced: Result<Vec<u8>, InvocationError>,
    next: Stage,
    action: Action,
) -> bool {
    match produced {
        Ok(bytes) => {
            &&& next == Stage::Uploading
            &&& action matches Action::Upload { bucket, key, bytes: handed, content_type }
            &&& bucket == request.destination
            &&& key == request.key
            &&& handed == bytes
            &&& content_type@ == OUTPUT_CONTENT_TYPE@
        },
        Err(error) => next == Stage::Done && action == Action::Fail(error),
    }
}

/// `next` and `action` are what follows when `event` arrives at `stage`.
///
/// - At `Start`, `Invoked` asks for the image at the source.
/// - At `Fetching`, a found object is looked at, as `examined_as` says: its
///   bytes are read, or the invocation fails with what is wrong with it,
///   and no byte is read. A failed fetch fails the invocation.
/// - At `Reading`, the bytes are turned into the thumbnail, as `produced_as`
///   says, and the result is handed over to be put at the destination, or
///   the invocation fails with what went wrong. Bytes that could not be
///   read fail the invocation.
/// - At `Uploading`, a done upload asks for the image at the source to be
///   deleted. A failed upload fails the invocation, and nothing is deleted.
/// - At `Cleaning`, the invocation succeeds whether or not the image at the
///   source could be deleted.
/// - Anything else fails the invocation as `OutOfOrder`.
pub open spec fn step_allows(
    stage: Stage,
    request: TransformRequest,
    event: Event,
    next: Stage,
    action: Action,
) -> bool {
    match (stage, event) {
        (Stage::Start, Event::Invoked) => next == Stage::Fetching && action == (Action::Fetch {
            bucket: request.source,
            key: request.key,
        }),
        (Stage::Fetching, Event::Found(head)) => exists|
            examined: Result<ImageMetadata, InvocationError>,
        |
            #[trigger] examined_as(head, examined) && after_examine(examined, next, action),
        (Stage::Fetching, Event::FetchFailed(diagnostic)) => next == Stage::Done && action
            == Action::Fail(InvocationError::Fetch(diagnostic)),
        (Stage::Reading(geometry), Event::Read(bytes)) => exists|
            produced: Result<Vec<u8>, InvocationError>,
        |
            #[trigger] produced_as(geometry, produced) && after_produce(
                request,
                produced,
                next,
                action,
            ),
        (Stage::Reading(_), Event::ReadFailed(diagnostic)) => next == Stage::Done && action
            == Action::Fail(InvocationError::Fetch(diagnostic)),
        (Stage::Uploading, Event::Uploaded) => next == Stage::Cleaning && action
            == (Action::Delete { bucket: request.source, key: request.key }),
        (Stage::Uploading, Event::UploadFailed(diagnostic)) => next == Stage::Done && action
            == Action::Fail(InvocationError::Upload(diagnostic)),
        (Stage::Cleaning, Event::Deleted) => next == Stage::Done && action == (Action::Succeed {
            cleanup_warning: None,
        }),
        (Stage::Cleaning, Event::DeleteFailed(diagnostic)) => next == Stage::Done && action
            == (Action::Succeed { cleanup_warning: Some(diagnostic) }),
        _ => next == Stage::Done && action == Action::Fail(InvocationError::OutOfOrder),
    }
}

/// Decides what follows when `event` arrives at `stage`.
pub fn step(stage: Stage, request: &TransformRequest, event: Event) -> (decided: (Stage, Action))
    ensures
        step_allows(stage, *request, event, decided.0, decided.1),
{
    match (stage, event) {
        (Stage::Start, Event::Invoked) => (
            Stage::Fetching,
            Action::Fetch { bucket: request.source.clone(), key: request.key.clone() },
        ),
        (Stage::Fetching, Event::Found(head)) => {
            let examined = examine(&head);
            let decided = match examined {
                Ok(geometry) => (Stage::Reading(geometry), Action::ReadBody),
                Err(error) => (Stage::Done, Action::Fail(error)),
            };
            assert(examined_as(head, examined) && after_examine(examined, decided.0, decided.1));
            decided
        },
        (Stage::Fetching, Event::FetchFailed(diagnostic)) => (
            Stage::Done,
            Action::Fail(InvocationError::Fetch(diagnostic)),
        ),
        (Stage::Reading(geometry), Event::Read(bytes)) => {
            let produced = produce(bytes.as_slice(), &geometry);
            let decided = match produced {
                Ok(thumbnail) => (
                    Stage::Uploading,
                    Action::Upload {
                        bucket: request.destination.clone(),
                        key: request.key.clone(),
                        bytes: thumbnail,
                        content_type: OUTPUT_CONTENT_TYPE.to_owned(),
                    },
                ),
                Err(error) => (Stage::Done, Action::Fail(error)),
            };
            assert(produced_as(geometry, produced) && after_produce(
                *request,
                produced,
                decided.0,
                decided.1,
            ));
            decided
        },
        (Stage::Reading(_), Event::ReadFailed(diagnostic)) => (
            Stage::Done,
            Action::Fail(InvocationError::Fetch(diagnostic)),
        ),
        (Stage::Uploading, Event::Uploaded) => (
            Stage::Cleaning,
            Action::Delete { bucket: request.source.clone(), key: request.key.clone() },
        ),
        (Stage::Uploading, Event::UploadFailed(diagnostic)) => (
            Stage::Done,
            Action::Fail(InvocationError::Upload(diagnostic)),
        ),
        (Stage::Cleaning, Event::Deleted) => (
            Stage::Done,
            Action::Succeed { cleanup_warning: None },
        ),
        (Stage::Cleaning, Event::DeleteFailed(diagnostic)) => (
            Stage::Done,
            Action::Succeed { cleanup_warning: Some(diagnostic) },
        ),
        _ => (Stage::Done, Action::Fail(InvocationError::OutOfOrder)),
    }
}

/// Once the result is at its destination the invocation succeeds: whether
/// the image at the source was deleted or the deletion failed, what follows
/// is `Succeed`, and the invocation is over.
pub proof fn lemma_cleanup_failure_keeps_success(
    request: TransformRequest,
    event: Event,
    next: Stage,
    action: Action,
)
    requires
        event is Deleted || event is DeleteFailed,
        step_allows(Stage::Cleaning, request, event, next, action),
    ensures
        action is Succeed,
        next == Stage::Done,
{
}

/// The image at the source is deleted only after the result was put at the
/// destination: `Delete` follows `Uploaded` at `Uploading` and nothing
/// else. In particular a failed upload leaves the source untouched.
pub proof fn lemma_delete_only_after_upload(
    stage: Stage,
    request: TransformRequest,
    event: Event,
    next: Stage,
    action: Action,
)
    requires
        step_allows(stage, request, event, next, action),
        action is Delete,
    ensures
        stage == Stage::Uploading,
        event is Uploaded,
        next == Stage::Cleaning,
{
}

/// The bytes of an image are read only once it is accepted: `ReadBody`
/// follows a found object at `Fetching` whose metadata describes the
/// geometry that the next stage holds, and nothing else.
pub proof fn lemma_read_only_after_examine(
    stage: Stage,
    request: TransformRequest,
    event: Event,
    next: Stage,
    action: Action,
)
    requires
        step_allows(stage, request, event, next, action),
        action is ReadBody,
    ensures
        stage == Stage::Fetching,
        event matches Event::Found(head) && next matches Stage::Reading(geometry) && examined_as(
            head,
            Ok(geometry),
        ),
{
}

} // verus!
