//! From two decoded pictures to the output picture.

use crate::error::ImageDataErrors;
use crate::floating::{lemma_capacity_whole_pixels, FloatingImage, FloatingImageView};
use crate::format::ImageFormat;
use crate::interleave::{alternate_pixels, common_len, interleaved};
use crate::raster::{Image, ImageView};
use crate::resample::{standardize_admits, standardize_size, standardized};
use vstd::prelude::*;

verus! {

/// The output of two pictures that already went through
/// [`standardize_size`]: it has the size of the second picture, the given
/// name, and the interleaved bytes of the two.
pub open spec fn combined_sized(image_1: ImageView, image_2: ImageView, name: Seq<char>)
    -> FloatingImageView {
    FloatingImageView {
        width: image_2.width,
        height: image_2.height,
        data: interleaved(image_1.data, image_2.data),
        name,
    }
}

/// The output of two pictures of one container format: the two are brought
/// to a common size and then merged.
pub open spec fn combined(image_1: ImageView, image_2: ImageView, name: Seq<char>)
    -> FloatingImageView {
    let sized = standardized(image_1, image_2);
    combined_sized(sized.0, sized.1, name)
}

/// Interleaves the pixels of two pictures: even pixels from the first, odd
/// pixels from the second, as many bytes as the smaller picture has.
pub fn combine_images(image1: Image, image2: Image) -> (combined_data: Vec<u8>)
    ensures
        combined_data@ == interleaved(image1@.data, image2@.data),
        combined_data@.len() == common_len(image1@.data.len(), image2@.data.len()),
{
    proof {
        use_type_invariant(&image1);
        use_type_invariant(&image2);
        lemma_capacity_whole_pixels(image1@.width, image1@.height);
        lemma_capacity_whole_pixels(image2@.width, image2@.height);
    }
    let vec1 = image1.into_vec();
    let vec2 = image2.into_vec();
    alternate_pixels(vec1, vec2)
}

/// Merges two pictures as they are, without scaling either: the output is
/// made for the size of the second picture and filled with the interleaved
/// bytes of the two. The bytes never exceed what that size allows, so the
/// output is always made.
pub fn combine_sized(image_1: Image, image_2: Image, name: String) -> (res: Result<
    FloatingImage,
    ImageDataErrors,
>)
    ensures
        res is Ok,
        res matches Ok(output) ==> output@ == combined_sized(image_1@, image_2@, name@),
{
    proof {
        use_type_invariant(&image_2);
    }
    let mut output = FloatingImage::new(image_2.width(), image_2.height(), name);
    let combined_data = combine_images(image_1, image_2);
    match output.set_data(combined_data) {
        Ok(()) => Ok(output),
        Err(e) => Err(e),
    }
}

/// Merges two decoded pictures into the output picture called `name`.
///
/// The container formats are compared first: if they differ, the call ends
/// with `DifferentImageFormats` and neither picture is looked at. Otherwise
/// the picture with more pixels is scaled towards the size of the other, and
/// the two are interleaved into an output of the size of the second.
///
/// With equal formats the scaling must be known to run to its end (see
/// [`standardize_admits`]); a run that fails is not survived.
pub fn combine(
    image_1: Image,
    format_1: ImageFormat,
    image_2: Image,
    format_2: ImageFormat,
    name: String,
) -> (res: Result<FloatingImage, ImageDataErrors>)
    requires
        format_1 == format_2 ==> standardize_admits(image_1@, image_2@),
    ensures
        res is Err <==> format_1 != format_2,
        res matches Err(e) ==> e == ImageDataErrors::DifferentImageFormats,
        res matches Ok(output) ==> output@ == combined(image_1@, image_2@, name@),
{
    if format_1 != format_2 {
        return Err(ImageDataErrors::DifferentImageFormats);
    }
    let (image_1, image_2) = standardize_size(image_1, image_2);
    combine_sized(image_1, image_2, name)
}

/// The output of two pictures of the same size has that size, and as many
/// bytes as either picture: nothing is scaled and nothing is cut.
pub proof fn lemma_combined_same_size(image_1: ImageView, image_2: ImageView, name: Seq<char>)
    requires
        image_1.well_formed(),
        image_2.well_formed(),
        image_1.dimensions() == image_2.dimensions(),
    ensures
        combined(image_1, image_2, name) == combined_sized(image_1, image_2, name),
        combined(image_1, image_2, name).data.len() == image_1.data.len(),
        combined(image_1, image_2, name).data.len() == combined(
            image_1,
            image_2,
            name,
        ).capacity(),
{
}

/// The merged bytes of two pictures always fit the output made for the
/// second: they are no more than the second picture has.
pub proof fn lemma_combined_sized_fits(image_1: ImageView, image_2: ImageView, name: Seq<char>)
    requires
        image_2.well_formed(),
    ensures
        combined_sized(image_1, image_2, name).data.len() <= combined_sized(
            image_1,
            image_2,
            name,
        ).capacity(),
{
}

} // verus!
