//! Decoded images and the pixel work on them, which the `image` crate does.
//!
//! The functions marked `external_body` call into `image`. Each states what
//! that crate's source shows of the call, over the pixels that an image
//! holds and over names for what comes back; none of it is proved here. The
//! rest of the library is verified against those statements.

use vstd::prelude::*;
use vstd::arithmetic::div_mod::lemma_fundamental_div_mod_converse;
use crate::transform::TransformError;

verus! {

/// `image::DynamicImage`, the pixels of a decoded image. It is handed from
/// one call into `image` to the next and never looked into.
#[verifier::external_type_specification]
#[verifier::external_body]
pub struct ExDynamicImage(image::DynamicImage);

/// `image::ImageError`, what a call into `image` fails with. Only the fact
/// of the failure is used.
#[verifier::external_type_specification]
#[verifier::external_body]
pub struct ExImageError(image::ImageError);

/// The quality, from 1 to 100, at which images are encoded as JPEG.
pub const JPEG_QUALITY: u8 = 75;

/// Number of samples of one pixel with a red, a green and a blue channel.
pub const RGB_CHANNELS: u32 = 3;

/// The largest factor by which one call into `image` shrinks a side.
///
/// `image` makes a pixel of the result from the mean of a block of pixels,
/// and adds the block up in 32 bits for samples of 8 and 16 bits. With this
/// factor a block is never more than 128 by 128 pixels (some 65 by 65, but
/// for sides of many millions of pixels, where the 32-bit floats that place
/// the block are coarse), and 16384 samples of 16 bits add up to a quarter
/// of what 32 bits hold.
pub const MAX_SHRINK: u32 = 64;

/// A decoded image in memory: its pixels, kept in the form in which the
/// decoder produced them, and its size in pixels.
///
/// A value is made only by decoding, cropping or scaling, so `width` and
/// `height` are always the size of `pixels`.
pub struct ImageBuffer {
    width: u32,
    height: u32,
    pixels: image::DynamicImage,
}

/// What an image is, as far as the transform goes.
pub struct ImageModel {
    /// Width in pixels.
    pub width: u32,
    /// Height in pixels.
    pub height: u32,
    /// The form of the pixels, as `format_of` numbers it.
    pub format: int,
    /// The pixels, as `pixels_of` lists them.
    pub pixels: Seq<Seq<u8>>,
}

/// The pixels that an `image::DynamicImage` holds: row by row from the top,
/// each row from the left, every pixel as the bytes of its samples in the
/// machine's byte order. These are the bytes of `DynamicImage::as_bytes`,
/// pixel by pixel.
pub uninterp spec fn pixels_of(pixels: image::DynamicImage) -> Seq<Seq<u8>>;

/// A number for the form in which an `image::DynamicImage` holds its pixels:
/// its colour type and its colour space. Two images have the same number
/// exactly if they agree in both.
pub uninterp spec fn format_of(pixels: image::DynamicImage) -> int;

/// The pixels that `image::DynamicImage::thumbnail_exact` gives for an image
/// of `width` by `height` pixels of the given form when it is scaled to
/// `new_width` by `new_height`.
pub uninterp spec fn thumbnail_pixels(pixels: Seq<Seq<u8>>, format: int, width: u32, height: u32, new_width: u32, new_height: u32) -> Seq<Seq<u8>>;

/// The samples that `image::DynamicImage::into_rgb8` gives for an image of
/// `width` by `height` pixels of the given form: for each pixel a byte of
/// red, of green and of blue.
pub uninterp spec fn rgb8_samples(pixels: Seq<Seq<u8>>, format: int, width: u32, height: u32) -> Seq<u8>;

/// The bytes of the JPEG file that encodes `samples` (rows of pixels, three
/// bytes each: red, green, blue) as an image of `width` by `height` pixels
/// at the given quality, or `None` where the encoder refuses.
pub uninterp spec fn jpeg_encoding(samples: Seq<u8>, width: u32, height: u32, quality: u8) -> Option<Seq<u8>>;

impl ImageBuffer {
    /// Width of the image in pixels.
    pub closed spec fn spec_width(&self) -> u32 {
        self.width
    }

    /// Height of the image in pixels.
    pub closed spec fn spec_height(&self) -> u32 {
        self.height
    }

    /// The form of the pixels.
    pub closed spec fn format(&self) -> int {
        format_of(self.pixels)
    }

    /// The pixels.
    pub closed spec fn pixels(&self) -> Seq<Seq<u8>> {
        pixels_of(self.pixels)
    }

    /// Width of the image in pixels.
    #[verifier::when_used_as_spec(spec_width)]
    pub fn width(&self) -> (width: u32)
        ensures
            width == self.spec_width(),
    {
        self.width
    }

    /// Height of the image in pixels.
    #[verifier::when_used_as_spec(spec_height)]
    pub fn height(&self) -> (height: u32)
        ensures
            height == self.spec_height(),
    {
        self.height
    }
}

impl View for ImageBuffer {
    type V = ImageModel;

    open spec fn view(&self) -> ImageModel {
        ImageModel {
            width: self.spec_width(),
            height: self.spec_height(),
            format: self.format(),
            pixels: self.pixels(),
        }
    }
}

/// The pixels of the rectangle of `width` by `height` pixels whose upper
/// left corner is the pixel `(x, y)` of an image that is `source_width`
/// pixels wide: pixel `(i, j)` of the result is pixel `(x + i, y + j)` of
/// the image. Meant for a rectangle inside the image.
pub open spec fn cropped_pixels(
    pixels: Seq<Seq<u8>>,
    source_width: u32,
    x: u32,
    y: u32,
    width: u32,
    height: u32,
) -> Seq<Seq<u8>> {
    Seq::new(
        (width * height) as nat,
        |i: int| pixels[(y + i / (width as int)) * source_width + x + i % (width as int)],
    )
}

/// The rectangle of `width` by `height` pixels whose upper left corner is
/// the pixel `(x, y)` of `model`, in the form of `model`.
pub open spec fn cropped(model: ImageModel, x: u32, y: u32, width: u32, height: u32) -> ImageModel {
    ImageModel {
        width,
        height,
        format: model.format,
        pixels: cropped_pixels(model.pixels, model.width, x, y, width, height),
    }
}

/// Pixel `(i, j)` of a rectangle cut out at `(x, y)` is pixel
/// `(x + i, y + j)` of the image, for every pixel of the rectangle; pixels
/// are counted row by row, so pixel `(i, j)` of an image is the one at
/// `j * width + i`.
pub proof fn lemma_cropped_pixel(
    model: ImageModel,
    x: u32,
    y: u32,
    width: u32,
    height: u32,
    i: int,
    j: int,
)
    requires
        0 <= i < width,
        0 <= j < height,
    ensures
        0 <= j * width + i < cropped(model, x, y, width, height).pixels.len(),
        cropped(model, x, y, width, height).pixels[j * width + i] == model.pixels[(y + j)
            * model.width + x + i],
{
    assert(0 <= j * width + i < width * height) by (nonlinear_arith)
        requires
            0 <= i < width,
            0 <= j < height,
    ;
    lemma_fundamental_div_mod_converse(j * width + i, width as int, j, i);
}

/// `model` scaled to `width` by `height` pixels in one call into `image`.
pub open spec fn thumbnail(model: ImageModel, width: u32, height: u32) -> ImageModel {
    ImageModel {
        width,
        height,
        format: model.format,
        pixels: thumbnail_pixels(
            model.pixels,
            model.format,
            model.width,
            model.height,
            width,
            height,
        ),
    }
}

/// Calls `image::load_from_memory`, which guesses the format from the first
/// bytes and decodes the image. Nothing is claimed of the outcome: the
/// formats that are recognised depend on how `image` was built and on the
/// hooks registered with it.
#[verifier::external_body]
fn load(bytes: &[u8]) -> (loaded: Result<ImageBuffer, image::ImageError>) {
    match image::load_from_memory(bytes) {
        Ok(pixels) => Ok(ImageBuffer { width: pixels.width(), height: pixels.height(), pixels }),
        Err(error) => Err(error),
    }
}

/// Calls `image::DynamicImage::crop_imm`. For a rectangle inside the image
/// the cut-out has exactly the rectangle's size (a rectangle that reaches
/// outside would be clamped, so it is excluded). It is made pixel by pixel
/// from the pixels of the rectangle and keeps the form of the image.
#[verifier::external_body]
fn crop_pixels(source: &ImageBuffer, x: u32, y: u32, width: u32, height: u32) -> (out: ImageBuffer)
    requires
        x + width <= source.width,
        y + height <= source.height,
    ensures
        out.width == width,
        out.height == height,
        format_of(out.pixels) == format_of(source.pixels),
        pixels_of(out.pixels) == cropped_pixels(
            pixels_of(source.pixels),
            source.width,
            x,
            y,
            width,
            height,
        ),
{
    let pixels = source.pixels.crop_imm(x, y, width, height);
    ImageBuffer { width: pixels.width(), height: pixels.height(), pixels }
}

/// Calls `image::DynamicImage::thumbnail_exact`, which scales the image to
/// exactly the size given and keeps its form. Each pixel of the result is
/// the mean of a block of pixels, which `image` adds up in 32 bits for
/// samples of 8 and 16 bits: the sum of too large a block would overflow.
/// So the call is made only to scale down, and by at most `MAX_SHRINK`
/// along each side.
#[verifier::external_body]
fn shrink_pixels(source: &ImageBuffer, width: u32, height: u32) -> (out: ImageBuffer)
    requires
        width <= source.width,
        height <= source.height,
        source.width <= MAX_SHRINK * width,
        source.height <= MAX_SHRINK * height,
    ensures
        out.width == width,
        out.height == height,
        format_of(out.pixels) == format_of(source.pixels),
        pixels_of(out.pixels) == thumbnail_pixels(
            pixels_of(source.pixels),
            format_of(source.pixels),
            source.width,
            source.height,
            width,
            height,
        ),
{
    let pixels = source.pixels.thumbnail_exact(width, height);
    ImageBuffer { width: pixels.width(), height: pixels.height(), pixels }
}

/// Calls `image::DynamicImage::into_rgb8` and takes the samples out of the
/// result with `into_raw`: three bytes for each pixel, an alpha channel
/// dropped. The buffers that decoding, cropping and scaling make hold their
/// pixels and nothing more, so the count is exact.
#[verifier::external_body]
fn rgb_samples(source: ImageBuffer) -> (samples: Vec<u8>)
    ensures
        samples@ == rgb8_samples(
            pixels_of(source.pixels),
            format_of(source.pixels),
            source.width,
            source.height,
        ),
        samples@.len() == RGB_CHANNELS * source.width * source.height,
{
    source.pixels.into_rgb8().into_raw()
}

impl ImageBuffer {
    /// Decodes an image, whose format is guessed from its first bytes.
    /// The only failure is `DecodeError`.
    pub fn decode(raw: &[u8]) -> (result: Result<ImageBuffer, TransformError>)
        ensures
            result matches Err(error) ==> error == TransformError::DecodeError,
    {
        match load(raw) {
            Ok(image) => Ok(image),
            Err(_) => Err(TransformError::DecodeError),
        }
    }

    /// Cuts a rectangle that lies inside the image out of it.
    pub(crate) fn crop(&self, x: u32, y: u32, width: u32, height: u32) -> (out: ImageBuffer)
        requires
            x + width <= self.width(),
            y + height <= self.height(),
        ensures
            out@ == cropped(self@, x, y, width, height),
    {
        crop_pixels(self, x, y, width, height)
    }

    /// Scales the image down, by at most `MAX_SHRINK` along each side.
    pub(crate) fn shrink(&self, width: u32, height: u32) -> (out: ImageBuffer)
        requires
            width <= self.width(),
            height <= self.height(),
            self.width() <= MAX_SHRINK * width,
            self.height() <= MAX_SHRINK * height,
        ensures
            out@ == thumbnail(self@, width, height),
    {
        shrink_pixels(self, width, height)
    }

    /// The red, green and blue samples of the image, three bytes for each
    /// pixel.
    pub(crate) fn into_rgb(self) -> (samples: Vec<u8>)
        ensures
            samples@ == rgb8_samples(self@.pixels, self@.format, self.width(), self.height()),
            samples@.len() == RGB_CHANNELS * self.width() * self.height(),
    {
        rgb_samples(self)
    }
}

/// Calls `image::codecs::jpeg::JpegEncoder::encode` on an encoder made with
/// `new_with_quality` that writes into a vector. The encoder panics on a
/// sample count that does not match the size, which is excluded. It refuses
/// exactly the sizes with a side of 0 or of more than 65535 pixels; writing
/// into a vector cannot fail.
#[verifier::external_body]
pub(crate) fn encode_jpeg(
    samples: &Vec<u8>,
    width: u32,
    height: u32,
    quality: u8,
) -> (encoded: Result<Vec<u8>, image::ImageError>)
    requires
        samples@.len() == RGB_CHANNELS * width * height,
    ensures
        encoded matches Ok(bytes) ==> jpeg_encoding(samples@, width, height, quality) == Some(
            bytes@,
        ),
        encoded.is_err() ==> jpeg_encoding(samples@, width, height, quality).is_none(),
        encoded.is_ok() == (1 <= width && width <= 65535 && 1 <= height && height <= 65535),
{
    let mut bytes = Vec::new();
    let mut encoder = image::codecs::jpeg::JpegEncoder::new_with_quality(&mut bytes, quality);
    match encoder.encode(samples, width, height, image::ExtendedColorType::Rgb8) {
        Ok(()) => Ok(bytes),
        Err(error) => Err(error),
    }
}

} // verus!
