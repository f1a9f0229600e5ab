//! Resampling of RGB frames through the `image` crate.
//!
//! The resampling algorithms themselves (nearest-neighbour, triangle and
//! Lanczos kernels over floating-point weights) are the outside crate's work;
//! their result is given a name here and the rest of the pipeline is verified
//! against that name.

use vstd::prelude::*;

use crate::quality::ResampleFilter;

verus! {

/// The RGB bytes that resampling a `w × h` RGB buffer to `tw × th` with the
/// given filter produces. The result depends on the arguments alone.
pub uninterp spec fn resample_of(
    pixels: Seq<u8>,
    w: int,
    h: int,
    tw: int,
    th: int,
    filter: int,
) -> Seq<u8>;

impl ResampleFilter {
    /// Numeric tag of the filter, used to index the named resampling result.
    pub open spec fn spec_code(self) -> int {
        match self {
            ResampleFilter::Nearest => 0,
            ResampleFilter::Triangle => 1,
            ResampleFilter::Lanczos3 => 2,
        }
    }
}

/// Relies on `image::DynamicImage::resize_exact` (via `imageops::resize`):
/// it returns a buffer of exactly the requested dimensions, and its sampling
/// weights are normalised to sum to one per output sample before use, so a
/// buffer whose samples all hold one value resamples to that value. The
/// bound on the scale ratio keeps the floating-point rounding of the weight
/// sums well below one half of a sample step.
#[verifier::external_body]
pub(crate) fn resample_rgb(
    pixels: &Vec<u8>,
    w: u32,
    h: u32,
    tw: u32,
    th: u32,
    filter: ResampleFilter,
) -> (r: Vec<u8>)
    requires
        pixels@.len() == 3 * w * h,
        1 <= w <= 16384,
        1 <= h <= 16384,
        1 <= tw <= 16384,
        1 <= th <= 16384,
        w <= 1024 * tw,
        h <= 1024 * th,
    ensures
        r@.len() == 3 * tw * th,
        r@ == resample_of(pixels@, w as int, h as int, tw as int, th as int, filter.spec_code()),
        (forall|i: int, j: int|
            0 <= i < pixels@.len() && 0 <= j < pixels@.len() ==> pixels@[i] == pixels@[j])
            ==> (forall|j: int| 0 <= j < r@.len() ==> r@[j] == pixels@[0]),
{
    let ft = match filter {
        ResampleFilter::Nearest => image::imageops::FilterType::Nearest,
        ResampleFilter::Triangle => image::imageops::FilterType::Triangle,
        ResampleFilter::Lanczos3 => image::imageops::FilterType::Lanczos3,
    };
    let buf = image::RgbImage::from_raw(w, h, pixels.clone())
        .expect("buffer length matches the dimensions");
    let resized = image::DynamicImage::ImageRgb8(buf).resize_exact(tw, th, ft);
    resized.into_rgb8().into_raw()
}

} // verus!
