//! The transform itself: from the bytes of a stored image and its geometry
//! to the bytes of a JPEG thumbnail.
//!
//! A crop rectangle that does not lie inside the image is no error here:
//! the whole image is scaled instead.

use vstd::prelude::*;
use vstd::string::{StringExecFns, StringSliceAdditionalSpecFns};
use vstd::utf8::encode_utf8_decode_utf8;
use crate::codec::{
    cropped, encode_jpeg, jpeg_encoding, rgb8_samples, thumbnail, ImageBuffer, ImageModel,
    JPEG_QUALITY, MAX_SHRINK,
};
use crate::geometry::{crop_fits, lemma_plan_within_bound, plan, plan_for, MAX_IMAGE_SIZE};
use crate::metadata::ImageMetadata;

verus! {

/// Why an image could not be transformed.
#[derive(Clone, Copy, Debug, PartialEq, Eq, Structural)]
pub enum TransformError {
    /// The content type is none of those accepted.
    UnsupportedFormat,
    /// The bytes are not an image that can be decoded.
    DecodeError,
    /// The result could not be encoded as JPEG.
    EncodeError,
}

impl TransformError {
    /// The error in words.
    pub open spec fn message_text(&self) -> Seq<char> {
        match self {
            TransformError::UnsupportedFormat => "unsupported content type"@,
            TransformError::DecodeError => "image cannot be decoded"@,
            TransformError::EncodeError => "image cannot be encoded"@,
        }
    }

    /// The error in words, for a log or a diagnostic.
    pub fn message(&self) -> (text: String)
        ensures
            text@ == self.message_text(),
    {
        match self {
            TransformError::UnsupportedFormat => String::from_str("unsupported content type"),
            TransformError::DecodeError => String::from_str("image cannot be decoded"),
            TransformError::EncodeError => String::from_str("image cannot be encoded"),
        }
    }
}

/// The content type of what is produced.
pub const OUTPUT_CONTENT_TYPE: &'static str = "image/jpeg";

/// The content types of the images that are accepted: JPEG under its two
/// names, PNG and WebP.
pub open spec fn accepted_content_type(content_type: Seq<char>) -> bool {
    ||| content_type == "image/jpg"@
    ||| content_type == "image/jpeg"@
    ||| content_type == "image/png"@
    ||| content_type == "image/webp"@
}

/// Tells whether two texts are the same, character by character.
pub fn same_text(a: &str, b: &str) -> (same: bool)
    ensures
        same == (a@ == b@),
{
    let left = a.as_bytes();
    let right = b.as_bytes();
    proof {
        encode_utf8_decode_utf8(a@);
        encode_utf8_decode_utf8(b@);
    }
    if left.len() != right.len() {
        return false;
    }
    let n = left.len();
    let mut i: usize = 0;
    while i < n
        invariant
            i <= n,
            n == left@.len(),
            n == right@.len(),
            left@ == a.spec_bytes(),
            right@ == b.spec_bytes(),
            forall|j: int| 0 <= j < i ==> left@[j] == right@[j],
        decreases n - i,
    {
        if left[i] != right[i] {
            return false;
        }
        i = i + 1;
    }
    assert(left@ =~= right@);
    true
}

/// Tells whether an image of this content type is accepted.
pub fn accepts(content_type: &str) -> (accepted: bool)
    ensures
        accepted == accepted_content_type(content_type@),
{
    same_text(content_type, "image/jpg") || same_text(content_type, "image/jpeg") || same_text(
        content_type,
        "image/png",
    ) || same_text(content_type, "image/webp")
}

/// The length to which one step of scaling down brings a side of `len`
/// pixels that is to end at `target`: `target` itself where that is within
/// reach, else the `MAX_SHRINK`-th part of `len`, rounded up.
pub open spec fn step_side(len: u32, target: u32) -> u32 {
    if len > MAX_SHRINK * target {
        ((len + MAX_SHRINK - 1) / (MAX_SHRINK as int)) as u32
    } else {
        target
    }
}

/// An image like `model` can be scaled down to `width` by `height` pixels:
/// neither side grows, and a side with pixels keeps some.
pub open spec fn can_shrink(model: ImageModel, width: u32, height: u32) -> bool {
    &&& width <= model.width
    &&& height <= model.height
    &&& model.width > 0 ==> width > 0
    &&& model.height > 0 ==> height > 0
}

/// `model` scaled down to `width` by `height` pixels.
///
/// An image of that size is left as it is. Any other is scaled in steps,
/// each as far as `step_side` says along either side, until it has that
/// size: one step for all but the most oblong images.
pub open spec fn shrunk(model: ImageModel, width: u32, height: u32) -> ImageModel
    decreases model.width + model.height,
{
    if (model.width == width && model.height == height) || !can_shrink(model, width, height) {
        model
    } else {
        shrunk(
            thumbnail(model, step_side(model.width, width), step_side(model.height, height)),
            width,
            height,
        )
    }
}

/// What is encoded of an image like `model` that comes with the geometry
/// `m`: the crop rectangle where it lies inside the image, else the whole
/// image, scaled down to the planned size.
pub open spec fn prepared(m: ImageMetadata, model: ImageModel) -> ImageModel {
    let decided = plan_for(m, model.width, model.height);
    let cut = if decided.crop {
        cropped(model, m.x1, m.y1, m.portrait_width, m.portrait_hight)
    } else {
        model
    };
    shrunk(cut, decided.width, decided.height)
}

/// The bytes that rendering an image like `model` with the geometry `m`
/// gives: the JPEG encoding, at `JPEG_QUALITY`, of the red, green and blue
/// samples of `prepared(m, model)`.
pub open spec fn rendering(m: ImageMetadata, model: ImageModel) -> Option<Seq<u8>> {
    let small = prepared(m, model);
    jpeg_encoding(
        rgb8_samples(small.pixels, small.format, small.width, small.height),
        small.width,
        small.height,
        JPEG_QUALITY,
    )
}

/// `result` is what rendering an image like `model` with the geometry `m`
/// gives.
///
/// Where the planned size has pixels, the result is `rendering(m, model)`;
/// where a side of it is 0, there is nothing to encode and the result is
/// `EncodeError`.
pub open spec fn rendered_as(
    m: ImageMetadata,
    model: ImageModel,
    result: Result<Vec<u8>, TransformError>,
) -> bool {
    let decided = plan_for(m, model.width, model.height);
    if decided.width >= 1 && decided.height >= 1 {
        result matches Ok(bytes) && rendering(m, model) == Some(bytes@)
    } else {
        result == Err::<Vec<u8>, TransformError>(TransformError::EncodeError)
    }
}

/// Scaling down ends at the size asked for and keeps the form of the image.
pub proof fn lemma_shrunk_size(model: ImageModel, width: u32, height: u32)
    requires
        can_shrink(model, width, height),
    ensures
        shrunk(model, width, height).width == width,
        shrunk(model, width, height).height == height,
        shrunk(model, width, height).format == model.format,
    decreases model.width + model.height,
{
    if !(model.width == width && model.height == height) {
        lemma_shrunk_size(
            thumbnail(model, step_side(model.width, width), step_side(model.height, height)),
            width,
            height,
        );
    }
}

/// A crop rectangle that lies inside the image and is no larger than
/// `MAX_IMAGE_SIZE` along either side is encoded as it is: what is encoded
/// is the rectangle cut out at `(x1, y1)`, neither scaled nor anything else.
pub proof fn lemma_small_crop_is_the_rectangle(m: ImageMetadata, model: ImageModel)
    requires
        crop_fits(m, model.width, model.height),
        m.portrait_width <= MAX_IMAGE_SIZE,
        m.portrait_hight <= MAX_IMAGE_SIZE,
    ensures
        prepared(m, model) == cropped(model, m.x1, m.y1, m.portrait_width, m.portrait_hight),
{
}

/// Where the crop rectangle does not lie inside the image, what is encoded
/// is the whole image scaled down, and the geometry has no part in it: two
/// geometries that both fail on an image render it to the same bytes.
pub proof fn lemma_fallback_renders_the_whole_image(
    a: ImageMetadata,
    b: ImageMetadata,
    model: ImageModel,
)
    requires
        !crop_fits(a, model.width, model.height),
        !crop_fits(b, model.width, model.height),
    ensures
        prepared(a, model) == shrunk(
            model,
            plan_for(a, model.width, model.height).width,
            plan_for(a, model.width, model.height).height,
        ),
        prepared(a, model) == prepared(b, model),
        rendering(a, model) == rendering(b, model),
{
}

/// One side of one step of scaling down.
fn next_side(len: u32, target: u32) -> (next: u32)
    requires
        target <= len,
        len > 0 ==> target > 0,
    ensures
        next == step_side(len, target),
        target <= next <= len,
        len <= MAX_SHRINK * next,
        next == len ==> len == target,
{
    if len as u64 > MAX_SHRINK as u64 * target as u64 {
        ((len as u64 + MAX_SHRINK as u64 - 1) / MAX_SHRINK as u64) as u32
    } else {
        target
    }
}

/// Scales an image down to `width` by `height` pixels, in as many steps as
/// it takes.
fn scale_down(image: ImageBuffer, width: u32, height: u32) -> (out: ImageBuffer)
    requires
        can_shrink(image@, width, height),
    ensures
        out@ == shrunk(image@, width, height),
{
    let mut current = image;
    while current.width() != width || current.height() != height
        invariant
            can_shrink(current@, width, height),
            shrunk(current@, width, height) == shrunk(image@, width, height),
        decreases current.width() + current.height(),
    {
        let next_width = next_side(current.width(), width);
        let next_height = next_side(current.height(), height);
        current = current.shrink(next_width, next_height);
    }
    current
}

/// `result` is what decoding some bytes and rendering the image with the
/// geometry `m` gives: `DecodeError` for bytes that do not decode, else the
/// result of rendering the decoded image, whatever image the decoder found
/// in the bytes.
pub open spec fn decoded_as(m: ImageMetadata, result: Result<Vec<u8>, TransformError>) -> bool {
    ||| result == Err::<Vec<u8>, TransformError>(TransformError::DecodeError)
    ||| exists|model: ImageModel| #[trigger] rendered_as(m, model, result)
}

/// `result` is what transforming an image of the given content type with
/// the geometry `m` gives.
///
/// A content type that is not accepted fails with `UnsupportedFormat`,
/// whatever the bytes are. Otherwise the bytes are decoded and the image is
/// rendered, as `decoded_as` says.
pub open spec fn transformed_as(
    m: ImageMetadata,
    content_type: Seq<char>,
    result: Result<Vec<u8>, TransformError>,
) -> bool {
    if !accepted_content_type(content_type) {
        result == Err::<Vec<u8>, TransformError>(TransformError::UnsupportedFormat)
    } else {
        decoded_as(m, result)
    }
}

/// Crops and scales a decoded image as its geometry asks, drops what is not
/// red, green or blue, and encodes the result as JPEG.
pub fn render(image: ImageBuffer, geometry: &ImageMetadata) -> (result: Result<
    Vec<u8>,
    TransformError,
>)
    ensures
        rendered_as(*geometry, image@, result),
{
    let decided = plan(geometry, image.width(), image.height());
    proof {
        lemma_plan_within_bound(*geometry, image.width(), image.height());
    }
    let cut = if decided.crop {
        image.crop(geometry.x1, geometry.y1, geometry.portrait_width, geometry.portrait_hight)
    } else {
        image
    };
    proof {
        lemma_shrunk_size(cut@, decided.width, decided.height);
    }
    let small = scale_down(cut, decided.width, decided.height);
    let samples = small.into_rgb();
    match encode_jpeg(&samples, decided.width, decided.height, JPEG_QUALITY) {
        Ok(bytes) => Ok(bytes),
        Err(_) => Err(TransformError::EncodeError),
    }
}

/// Decodes the bytes of an image and renders it: crops or falls back to the
/// whole image, scales down, and encodes.
pub fn decode_and_render(raw: &[u8], geometry: &ImageMetadata) -> (result: Result<
    Vec<u8>,
    TransformError,
>)
    ensures
        decoded_as(*geometry, result),
{
    match ImageBuffer::decode(raw) {
        Ok(image) => {
            let ghost model = image@;
            let result = render(image, geometry);
            assert(rendered_as(*geometry, model, result));
            result
        },
        Err(_) => Err(TransformError::DecodeError),
    }
}

/// Transforms the bytes of a stored image of the given content type into a
/// JPEG thumbnail: checks the content type, decodes, crops or falls back to
/// the whole image, scales down, and encodes.
pub fn transform(raw: &[u8], geometry: &ImageMetadata, content_type: &str) -> (result: Result<
    Vec<u8>,
    TransformError,
>)
    ensures
        transformed_as(*geometry, content_type@, result),
{
    if !accepts(content_type) {
        return Err(TransformError::UnsupportedFormat);
    }
    decode_and_render(raw, geometry)
}

} // verus!
