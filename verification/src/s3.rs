//! The storage as the transform sees it: what a stored image carries in its
//! object metadata, and the two capabilities, fetching and putting, that a
//! storage backend offers.

use vstd::prelude::*;
use vstd::hash_map::StringHashMap;
use vstd::string::StringExecFns;
use crate::metadata::{entry, geometry_of, read_geometry, MetadataError, MetadataFault};

verus! {

/// `aws_sdk_s3::operation::get_object::GetObjectError`, what fetching from
/// S3 fails with. It is handed through and never looked into.
#[verifier::external_type_specification]
#[verifier::external_body]
pub struct ExGetObjectError(aws_sdk_s3::operation::get_object::GetObjectError);

/// The metadata key of the content type.
pub const CONTENT_TYPE_KEY: &'static str = "Content-Type";

/// The metadata key of the crop height, as the storage spells it.
pub const HEIGHT_KEY: &'static str = "x-amz-meta-portraithight";

/// The metadata key of the crop width, as the storage spells it.
pub const WIDTH_KEY: &'static str = "x-amz-meta-portraitwidth";

/// The metadata key of the left edge of the crop rectangle, as the storage
/// spells it.
pub const X_KEY: &'static str = "x-amz-meta-x1";

/// The metadata key of the top edge of the crop rectangle, as the storage
/// spells it.
pub const Y_KEY: &'static str = "x-amz-meta-y1";

/// What a stored image carries with it: its content type and the crop
/// rectangle requested for it, in pixels.
#[derive(Clone, Debug, PartialEq, Eq)]
pub struct ImageMetadata {
    pub content_type: String,
    pub portrait_hight: u32,
    pub portrait_width: u32,
    pub x1: u32,
    pub y1: u32,
}

/// An `ImageMetadata` with its content type as a sequence of characters.
pub struct ImageMetadataView {
    pub content_type: Seq<char>,
    pub geometry: crate::metadata::ImageMetadata,
}

impl View for ImageMetadata {
    type V = ImageMetadataView;

    open spec fn view(&self) -> ImageMetadataView {
        ImageMetadataView {
            content_type: self.content_type@,
            geometry: crate::metadata::ImageMetadata {
                portrait_hight: self.portrait_hight,
                portrait_width: self.portrait_width,
                x1: self.x1,
                y1: self.y1,
            },
        }
    }
}

/// What the object metadata `map` describes.
///
/// A missing content type is reported first. The geometry is then read
/// under the four keys of this module, as `geometry_of` says.
pub open spec fn described_by(map: Map<Seq<char>, String>) -> Result<
    ImageMetadataView,
    MetadataFault,
> {
    if !map.contains_key(CONTENT_TYPE_KEY@) {
        Err(MetadataFault::MissingField(CONTENT_TYPE_KEY@))
    } else {
        match geometry_of(map, HEIGHT_KEY@, WIDTH_KEY@, X_KEY@, Y_KEY@) {
            Err(fault) => Err(fault),
            Ok(geometry) => Ok(
                ImageMetadataView { content_type: map[CONTENT_TYPE_KEY@]@, geometry },
            ),
        }
    }
}

/// A result of reading object metadata, with its texts as sequences of
/// characters.
pub open spec fn outcome_view(result: Result<ImageMetadata, MetadataError>) -> Result<
    ImageMetadataView,
    MetadataFault,
> {
    match result {
        Ok(described) => Ok(described@),
        Err(error) => Err(error@),
    }
}

impl ImageMetadata {
    /// Reads the content type and the geometry from the metadata of a stored
    /// object.
    pub fn read(metadata: &StringHashMap<String>) -> (result: Result<Self, MetadataError>)
        ensures
            outcome_view(result) == described_by(metadata@),
    {
        let content_type = match entry(metadata, CONTENT_TYPE_KEY) {
            Ok(text) => text.clone(),
            Err(error) => {
                return Err(error);
            },
        };
        match read_geometry(metadata, HEIGHT_KEY, WIDTH_KEY, X_KEY, Y_KEY) {
            Ok(geometry) => Ok(
                ImageMetadata {
                    content_type,
                    portrait_hight: geometry.portrait_hight,
                    portrait_width: geometry.portrait_width,
                    x1: geometry.x1,
                    y1: geometry.y1,
                },
            ),
            Err(error) => Err(error),
        }
    }

    /// The crop rectangle alone.
    pub fn geometry(&self) -> (geometry: crate::metadata::ImageMetadata)
        ensures
            geometry == self@.geometry,
    {
        crate::metadata::ImageMetadata {
            portrait_hight: self.portrait_hight,
            portrait_width: self.portrait_width,
            x1: self.x1,
            y1: self.y1,
        }
    }
}

/// A storage from which a stored image can be fetched, with what it carries.
pub trait GetFile {
    fn get_file(&self, bucket: &str, key: &str) -> Result<
        (Vec<u8>, ImageMetadata),
        aws_sdk_s3::operation::get_object::GetObjectError,
    >;
}

/// A storage into which bytes can be put. The answer is a report of the
/// upload, or the storage's diagnostic.
pub trait PutFile {
    fn put_file(&self, bucket: &str, key: &str, bytes: Vec<u8>) -> Result<String, String>;
}

/// The text of the report of an upload.
pub open spec fn upload_report_text(key: Seq<char>, bucket: Seq<char>) -> Seq<char> {
    "Uploaded a file with key "@ + key + " into "@ + bucket
}

/// The report of a successful upload of `key` into `bucket`.
pub fn upload_report(key: &str, bucket: &str) -> (report: String)
    ensures
        report@ == upload_report_text(key@, bucket@),
{
    String::from_str("Uploaded a file with key ").concat(key).concat(" into ").concat(bucket)
}

} // verus!
