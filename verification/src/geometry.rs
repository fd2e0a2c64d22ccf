//! Arithmetic of the transform: whether a crop rectangle lies inside an
//! image, and the size an image is scaled down to.

use vstd::prelude::*;
use crate::metadata::ImageMetadata;

verus! {

/// Largest width and largest height, in pixels, of a produced image.
pub const MAX_IMAGE_SIZE: u32 = 400;

/// The crop rectangle of `m` lies inside an image of `width` by `height`
/// pixels. The sums are taken in the integers, so they never wrap.
pub open spec fn crop_fits(m: ImageMetadata, width: u32, height: u32) -> bool {
    &&& m.x1 + m.portrait_width <= width
    &&& m.y1 + m.portrait_hight <= height
}

/// The length that `len` shrinks to when the longest side `longest` of an
/// image shrinks to `bound`: `len * bound / longest`, rounded to the nearest
/// integer (halves upwards), and never 0 for a side that has pixels.
pub open spec fn scaled(len: int, bound: int, longest: int) -> int {
    if len == 0 {
        0
    } else {
        let nearest = (2 * len * bound + longest) / (2 * longest);
        if nearest < 1 {
            1
        } else {
            nearest
        }
    }
}

/// The size to which an image of `width` by `height` pixels is brought so
/// that it fits a square of side `bound`. An image that fits already keeps
/// its size; a larger one has its longer side brought to `bound` and the
/// other side shrunk in proportion.
pub open spec fn fit_within(width: int, height: int, bound: int) -> (int, int) {
    if width <= bound && height <= bound {
        (width, height)
    } else if width >= height {
        (bound, scaled(height, bound, width))
    } else {
        (scaled(width, bound, height), bound)
    }
}

/// Bounds of `scaled` for a side that is no longer than the longest one.
pub proof fn lemma_scaled_bounds(len: int, bound: int, longest: int)
    requires
        0 <= len <= longest,
        1 <= bound <= longest,
    ensures
        0 <= scaled(len, bound, longest) <= bound,
        scaled(len, bound, longest) <= len,
        len > 0 ==> scaled(len, bound, longest) >= 1,
{
    if len > 0 {
        let n = 2 * len * bound + longest;
        let d = 2 * longest;
        let q = n / d;
        assert(0 <= q && q <= bound && q <= len) by (nonlinear_arith)
            requires
                n == 2 * len * bound + longest,
                d == 2 * longest,
                q == n / d,
                0 < len <= longest,
                1 <= bound <= longest,
        ;
    }
}

/// The proportion is kept as well as whole pixels allow: a scaled side is
/// within half a pixel of `len * bound / longest`, unless that is less than
/// half a pixel and the side is held at 1.
pub proof fn lemma_scaled_is_nearest(len: int, bound: int, longest: int)
    requires
        0 < len <= longest,
        1 <= bound <= longest,
    ensures
        scaled(len, bound, longest) == 1 && 2 * len * bound < longest || {
            &&& 2 * longest * scaled(len, bound, longest) <= 2 * len * bound + longest
            &&& 2 * len * bound - longest < 2 * longest * scaled(len, bound, longest)
        },
{
    let n = 2 * len * bound + longest;
    let d = 2 * longest;
    let q = n / d;
    assert(d * q <= n && n < d * q + d && (q < 1 ==> n < d)) by (nonlinear_arith)
        requires
            q == n / d,
            d > 0,
            n >= 0,
    ;
}

impl ImageMetadata {
    /// Tells whether the crop rectangle lies inside an image of the given
    /// size, without overflow for any field values.
    pub fn fits_within(&self, width: u32, height: u32) -> (ok: bool)
        ensures
            ok == crop_fits(*self, width, height),
    {
        self.x1 as u64 + self.portrait_width as u64 <= width as u64
            && self.y1 as u64 + self.portrait_hight as u64 <= height as u64
    }
}

/// One side of `thumbnail_size`.
fn scale_side(len: u32, longest: u32) -> (out: u32)
    requires
        len <= longest,
        MAX_IMAGE_SIZE < longest,
    ensures
        out == scaled(len as int, MAX_IMAGE_SIZE as int, longest as int),
{
    if len == 0 {
        0
    } else {
        proof {
            lemma_scaled_bounds(len as int, MAX_IMAGE_SIZE as int, longest as int);
        }
        let nearest: u64 = (2 * (len as u64) * (MAX_IMAGE_SIZE as u64) + longest as u64) / (2
            * (longest as u64));
        if nearest < 1 {
            1
        } else {
            nearest as u32
        }
    }
}

/// The size of the image that is produced from one of `width` by `height`
/// pixels: the image scaled down to fit `MAX_IMAGE_SIZE` in both directions,
/// never scaled up.
pub fn thumbnail_size(width: u32, height: u32) -> (size: (u32, u32))
    ensures
        (size.0 as int, size.1 as int) == fit_within(
            width as int,
            height as int,
            MAX_IMAGE_SIZE as int,
        ),
{
    if width <= MAX_IMAGE_SIZE && height <= MAX_IMAGE_SIZE {
        (width, height)
    } else if width >= height {
        (MAX_IMAGE_SIZE, scale_side(height, width))
    } else {
        (scale_side(width, height), MAX_IMAGE_SIZE)
    }
}

/// What is done to a decoded image before it is encoded.
#[derive(Clone, Copy, Debug, PartialEq, Eq, Structural)]
pub struct TransformPlan {
    /// Whether the image is cut to the crop rectangle first. If not, the
    /// whole image is used.
    pub crop: bool,
    /// Width of the produced image.
    pub width: u32,
    /// Height of the produced image.
    pub height: u32,
}

/// The size of what is scaled: the crop rectangle where it lies inside the
/// image, the whole image where it does not.
pub open spec fn source_size(m: ImageMetadata, width: u32, height: u32) -> (int, int) {
    if crop_fits(m, width, height) {
        (m.portrait_width as int, m.portrait_hight as int)
    } else {
        (width as int, height as int)
    }
}

/// The plan for an image of `width` by `height` pixels that comes with the
/// geometry `m`: crop exactly when the rectangle lies inside the image, then
/// bring what is left to fit `MAX_IMAGE_SIZE`.
pub open spec fn plan_for(m: ImageMetadata, width: u32, height: u32) -> TransformPlan {
    let source = source_size(m, width, height);
    let size = fit_within(source.0, source.1, MAX_IMAGE_SIZE as int);
    TransformPlan {
        crop: crop_fits(m, width, height),
        width: size.0 as u32,
        height: size.1 as u32,
    }
}

/// Decides what is done to an image of `width` by `height` pixels that comes
/// with the geometry `m`.
pub fn plan(m: &ImageMetadata, width: u32, height: u32) -> (decided: TransformPlan)
    ensures
        decided == plan_for(*m, width, height),
{
    if m.fits_within(width, height) {
        let size = thumbnail_size(m.portrait_width, m.portrait_hight);
        TransformPlan { crop: true, width: size.0, height: size.1 }
    } else {
        let size = thumbnail_size(width, height);
        TransformPlan { crop: false, width: size.0, height: size.1 }
    }
}

/// What `fit_within` promises of a size and a bound of at least 1: neither
/// side exceeds the bound, neither side grows, a size that fits is kept, and
/// of a size that does not fit one side becomes the bound. A side with
/// pixels keeps at least one.
pub proof fn lemma_fit_within(width: int, height: int, bound: int)
    requires
        0 <= width,
        0 <= height,
        1 <= bound,
    ensures
        0 <= fit_within(width, height, bound).0 <= bound,
        0 <= fit_within(width, height, bound).1 <= bound,
        fit_within(width, height, bound).0 <= width,
        fit_within(width, height, bound).1 <= height,
        width <= bound && height <= bound ==> fit_within(width, height, bound) == (width, height),
        width > bound || height > bound ==> fit_within(width, height, bound).0 == bound
            || fit_within(width, height, bound).1 == bound,
        width > 0 ==> fit_within(width, height, bound).0 > 0,
        height > 0 ==> fit_within(width, height, bound).1 > 0,
{
    if width <= bound && height <= bound {
    } else if width >= height {
        lemma_scaled_bounds(height, bound, width);
    } else {
        lemma_scaled_bounds(width, bound, height);
    }
}

/// The produced image is never larger than `MAX_IMAGE_SIZE` in either
/// direction and never larger than what it was scaled from, and a side with
/// pixels keeps at least one. What fits already keeps its size; of anything
/// larger, one side of the result is exactly `MAX_IMAGE_SIZE`.
pub proof fn lemma_plan_within_bound(m: ImageMetadata, width: u32, height: u32)
    ensures
        plan_for(m, width, height).width <= MAX_IMAGE_SIZE,
        plan_for(m, width, height).height <= MAX_IMAGE_SIZE,
        plan_for(m, width, height).width <= source_size(m, width, height).0,
        plan_for(m, width, height).height <= source_size(m, width, height).1,
        source_size(m, width, height).0 > 0 ==> plan_for(m, width, height).width > 0,
        source_size(m, width, height).1 > 0 ==> plan_for(m, width, height).height > 0,
        source_size(m, width, height).0 <= MAX_IMAGE_SIZE && source_size(m, width, height).1
            <= MAX_IMAGE_SIZE ==> (
        plan_for(m, width, height).width as int,
        plan_for(m, width, height).height as int,
    ) == source_size(m, width, height),
        source_size(m, width, height).0 > MAX_IMAGE_SIZE || source_size(m, width, height).1
            > MAX_IMAGE_SIZE ==> plan_for(m, width, height).width == MAX_IMAGE_SIZE || plan_for(
            m,
            width,
            height,
        ).height == MAX_IMAGE_SIZE,
{
    let source = source_size(m, width, height);
    lemma_fit_within(source.0, source.1, MAX_IMAGE_SIZE as int);
}

/// Where the crop rectangle does not lie inside the image, the plan is that
/// of the whole image: it depends on the image's size and on nothing that
/// the geometry holds. Two geometries that both fail on one image give one
/// plan.
pub proof fn lemma_fallback_ignores_geometry(
    a: ImageMetadata,
    b: ImageMetadata,
    width: u32,
    height: u32,
)
    requires
        !crop_fits(a, width, height),
        !crop_fits(b, width, height),
    ensures
        plan_for(a, width, height) == plan_for(b, width, height),
        !plan_for(a, width, height).crop,
        (plan_for(a, width, height).width as int, plan_for(a, width, height).height as int)
            == fit_within(width as int, height as int, MAX_IMAGE_SIZE as int),
{
    lemma_fit_within(width as int, height as int, MAX_IMAGE_SIZE as int);
}

} // verus!
