//! Scaling a picture, and bringing two pictures to a common size.

use crate::dimension::{get_smallest_dimension, smallest_dimension};
use crate::floating::buffer_capacity;
use crate::raster::{Image, ImageView};
use vstd::prelude::*;

verus! {

/// Longest side, of a picture or of a target size, that is handed to the
/// filter. The filter places its samples with single-precision coordinates;
/// up to this side they are off by less than an eighth of a pixel, so that
/// every sample has a pixel under it.
pub const MAX_SIDE: u32 = 1_048_576;

/// A side of a target size as the filter takes it: a side of zero pixels
/// yields one pixel.
pub open spec fn side_or_one(side: u32) -> nat {
    if side == 0 {
        1
    } else {
        side as nat
    }
}

/// The inputs on which the filter is known to run to its end: a picture that
/// is not empty, sides within [`MAX_SIDE`], and buffers (the intermediate one
/// holds four 4-byte samples for each pixel) that an allocation can hold.
pub open spec fn resize_admits(width: u32, height: u32, nwidth: u32, nheight: u32) -> bool {
    &&& 0 < width <= MAX_SIDE
    &&& 0 < height <= MAX_SIDE
    &&& nwidth <= MAX_SIDE
    &&& nheight <= MAX_SIDE
    &&& 16 * (width as nat) * side_or_one(nheight) <= isize::MAX
    &&& 4 * side_or_one(nwidth) * side_or_one(nheight) <= isize::MAX
}

/// What the triangle filter makes of an RGBA picture of `width` by `height`
/// pixels with bytes `data`, scaled to fit into `nwidth` by `nheight` with
/// its aspect ratio kept: the new width, the new height, the new bytes.
pub uninterp spec fn triangle_resized(
    width: u32,
    height: u32,
    data: Seq<u8>,
    nwidth: u32,
    nheight: u32,
) -> (u32, u32, Seq<u8>);

/// Whether a picture of `width` by `height` pixels lies within the target
/// size `nwidth` by `nheight`, a target side of zero counting as one.
pub open spec fn fits_within(width: u32, height: u32, nwidth: u32, nheight: u32) -> bool {
    &&& width <= side_or_one(nwidth)
    &&& height <= side_or_one(nheight)
}

/// Calls `image::DynamicImage::resize` with the filter
/// `image::imageops::FilterType::Triangle` on the RGBA picture made of
/// `width`, `height` and `data`, and hands back the size and the bytes of
/// the picture that it returns.
///
/// Believed, not proved: the result depends on the arguments alone; the
/// picture that comes back has at least one pixel and lies within the target
/// size; and its bytes are exactly those of a picture of its size, four for
/// each pixel. Outside of [`resize_admits`] the call may end in a panic, so
/// it is not made there.
#[verifier::external_body]
fn resize_triangle(width: u32, height: u32, data: Vec<u8>, nwidth: u32, nheight: u32) -> (out: (
    u32,
    u32,
    Vec<u8>,
))
    requires
        data@.len() == buffer_capacity(width, height),
        resize_admits(width, height, nwidth, nheight),
    ensures
        (out.0, out.1, out.2@) == triangle_resized(width, height, data@, nwidth, nheight),
        out.0 >= 1 && out.1 >= 1,
        fits_within(out.0, out.1, nwidth, nheight),
        out.2@.len() == buffer_capacity(out.0, out.1),
{
    let pixels = image::RgbaImage::from_raw(width, height, data).unwrap();
    let filter = image::imageops::FilterType::Triangle;
    let scaled = image::DynamicImage::ImageRgba8(pixels).resize(nwidth, nheight, filter);
    (scaled.width(), scaled.height(), scaled.into_bytes())
}

/// Whether the filter can be run on a picture of `width` by `height` pixels
/// for the target size `nwidth` by `nheight`.
pub fn can_resize(width: u32, height: u32, nwidth: u32, nheight: u32) -> (admitted: bool)
    ensures
        admitted == resize_admits(width, height, nwidth, nheight),
{
    if width == 0 || width > MAX_SIDE || height == 0 || height > MAX_SIDE || nwidth > MAX_SIDE
        || nheight > MAX_SIDE {
        return false;
    }
    let target_width: u64 = if nwidth == 0 {
        1
    } else {
        nwidth as u64
    };
    let target_height: u64 = if nheight == 0 {
        1
    } else {
        nheight as u64
    };
    assert(16 * (width as nat) * side_or_one(nheight) <= 16 * 1_048_576 * 1_048_576 && 4
        * side_or_one(nwidth) * side_or_one(nheight) <= 4 * 1_048_576 * 1_048_576)
        by (nonlinear_arith)
        requires
            width <= 1_048_576,
            side_or_one(nwidth) <= 1_048_576,
            side_or_one(nheight) <= 1_048_576,
    ;
    let limit: u64 = isize::MAX as u64;
    16 * (width as u64) * target_height <= limit && 4 * target_width * target_height <= limit
}

/// The picture that [`resize`] gives: the picture itself when it already has
/// the target size, else what the triangle filter makes of it.
pub open spec fn resampled(image: ImageView, nwidth: u32, nheight: u32) -> ImageView {
    if image.width == nwidth && image.height == nheight {
        image
    } else {
        let scaled = triangle_resized(image.width, image.height, image.data, nwidth, nheight);
        ImageView { width: scaled.0, height: scaled.1, data: scaled.2 }
    }
}

/// Scales a picture with the triangle filter so that it fits into `nwidth`
/// by `nheight` pixels, keeping its aspect ratio. A picture that already has
/// that size is handed back as it is, untouched by the filter.
///
/// Where the size differs, the filter must be known to run to its end on
/// the picture (see [`resize_admits`]); a run that fails is not survived.
pub fn resize(image: Image, nwidth: u32, nheight: u32) -> (out: Image)
    requires
        image@.dimensions() != (nwidth, nheight) ==> resize_admits(
            image@.width,
            image@.height,
            nwidth,
            nheight,
        ),
    ensures
        out@ == resampled(image@, nwidth, nheight),
        image@.dimensions() == (nwidth, nheight) ==> out@ == image@,
        fits_within(out@.width, out@.height, nwidth, nheight),
        out@.well_formed(),
{
    proof {
        use_type_invariant(&image);
    }
    let width: u32 = image.width();
    let height: u32 = image.height();
    if width == nwidth && height == nheight {
        return image;
    }
    let scaled = resize_triangle(width, height, image.into_vec(), nwidth, nheight);
    Image::from_raw(scaled.0, scaled.1, scaled.2)
}

/// Whether [`standardize_size`] can run on the two pictures: the one that it
/// scales, if it scales one, is admitted by the filter for the common size.
pub open spec fn standardize_admits(image_1: ImageView, image_2: ImageView) -> bool {
    let dim = smallest_dimension(image_1.dimensions(), image_2.dimensions());
    if dim == image_1.dimensions() {
        image_2.dimensions() != dim ==> resize_admits(image_2.width, image_2.height, dim.0, dim.1)
    } else {
        resize_admits(image_1.width, image_1.height, dim.0, dim.1)
    }
}

/// The two pictures as [`standardize_size`] hands them back.
pub open spec fn standardized(image_1: ImageView, image_2: ImageView) -> (ImageView, ImageView) {
    let dim = smallest_dimension(image_1.dimensions(), image_2.dimensions());
    if dim == image_1.dimensions() {
        (image_1, resampled(image_2, dim.0, dim.1))
    } else {
        (resampled(image_1, dim.0, dim.1), image_2)
    }
}

/// Whether [`standardize_size`] can run on the two pictures.
pub fn can_standardize(image_1: &Image, image_2: &Image) -> (admitted: bool)
    ensures
        admitted == standardize_admits(image_1@, image_2@),
{
    let dim = get_smallest_dimension(image_1.dimensions(), image_2.dimensions());
    if dim.0 == image_1.width() && dim.1 == image_1.height() {
        (image_2.width() == dim.0 && image_2.height() == dim.1) || can_resize(
            image_2.width(),
            image_2.height(),
            dim.0,
            dim.1,
        )
    } else {
        can_resize(image_1.width(), image_1.height(), dim.0, dim.1)
    }
}

/// Brings two pictures to a common size: that of the one with fewer pixels,
/// the first on a tie. The picture that has the common size is handed back
/// untouched; the other one is scaled towards it with [`resize`]. The order
/// of the two is kept.
pub fn standardize_size(image_1: Image, image_2: Image) -> (out: (Image, Image))
    requires
        standardize_admits(image_1@, image_2@),
    ensures
        (out.0@, out.1@) == standardized(image_1@, image_2@),
        ({
            let dim = smallest_dimension(image_1@.dimensions(), image_2@.dimensions());
            &&& fits_within(out.0@.width, out.0@.height, dim.0, dim.1)
            &&& fits_within(out.1@.width, out.1@.height, dim.0, dim.1)
        }),
        out.0@.well_formed(),
        out.1@.well_formed(),
{
    proof {
        use_type_invariant(&image_1);
        use_type_invariant(&image_2);
    }
    let dim = get_smallest_dimension(image_1.dimensions(), image_2.dimensions());
    if dim.0 == image_1.width() && dim.1 == image_1.height() {
        (image_1, resize(image_2, dim.0, dim.1))
    } else {
        (resize(image_1, dim.0, dim.1), image_2)
    }
}

/// Scaling a picture to the size that it has gives the same picture, pixel
/// for pixel.
pub proof fn lemma_resample_identity(image: ImageView)
    ensures
        resampled(image, image.width, image.height) == image,
{
}

/// Two pictures of the same size pass through unchanged.
pub proof fn lemma_standardize_same_size(image_1: ImageView, image_2: ImageView)
    requires
        image_1.dimensions() == image_2.dimensions(),
    ensures
        standardize_admits(image_1, image_2),
        standardized(image_1, image_2) == (image_1, image_2),
{
}

/// Of the two pictures that come back, at least one is a picture that went
/// in: the one with the common size is never scaled.
pub proof fn lemma_standardize_keeps_one(image_1: ImageView, image_2: ImageView)
    ensures
        standardized(image_1, image_2).0 == image_1 || standardized(image_1, image_2).1
            == image_2,
{
}

} // verus!
