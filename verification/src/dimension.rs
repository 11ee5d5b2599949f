//! Choosing the common size of two pictures.

use vstd::prelude::*;

verus! {

/// Number of pixels of a picture of size `dim` (width, height).
pub open spec fn area(dim: (u32, u32)) -> nat {
    (dim.0 as nat) * (dim.1 as nat)
}

/// The size with fewer pixels; the first one when both have as many.
pub open spec fn smallest_dimension(dim1: (u32, u32), dim2: (u32, u32)) -> (u32, u32) {
    if area(dim1) > area(dim2) {
        dim2
    } else {
        dim1
    }
}

/// Picks, of two sizes, the one that covers fewer pixels. On a tie the first
/// size wins. The pixel counts are formed in 64 bits, so no pair of sizes is
/// out of range.
pub fn get_smallest_dimension(dim1: (u32, u32), dim2: (u32, u32)) -> (dim: (u32, u32))
    ensures
        dim == smallest_dimension(dim1, dim2),
        area(dim1) > area(dim2) ==> dim == dim2,
        area(dim1) <= area(dim2) ==> dim == dim1,
{
    let pix1: u64 = pixel_count(dim1);
    let pix2: u64 = pixel_count(dim2);
    if pix1 > pix2 {
        dim2
    } else {
        dim1
    }
}

/// Number of pixels of a picture of size `dim`, as a machine integer.
pub fn pixel_count(dim: (u32, u32)) -> (count: u64)
    ensures
        count == area(dim),
{
    assert((dim.0 as nat) * (dim.1 as nat) <= 0xFFFF_FFFF * 0xFFFF_FFFF) by (nonlinear_arith)
        requires
            dim.0 <= 0xFFFF_FFFF,
            dim.1 <= 0xFFFF_FFFF,
    ;
    (dim.0 as u64) * (dim.1 as u64)
}

/// The chosen size is always one of the two that were offered.
pub proof fn lemma_smallest_is_one_of(dim1: (u32, u32), dim2: (u32, u32))
    ensures
        smallest_dimension(dim1, dim2) == dim1 || smallest_dimension(dim1, dim2) == dim2,
{
}

/// The chosen size covers no more pixels than either of the two.
pub proof fn lemma_smallest_is_minimal(dim1: (u32, u32), dim2: (u32, u32))
    ensures
        area(smallest_dimension(dim1, dim2)) <= area(dim1),
        area(smallest_dimension(dim1, dim2)) <= area(dim2),
{
}

/// Swapping the arguments may change which size is chosen (on a tie each call
/// returns its own first argument) but never how many pixels it covers.
pub proof fn lemma_smallest_area_symmetric(dim1: (u32, u32), dim2: (u32, u32))
    ensures
        area(smallest_dimension(dim1, dim2)) == area(smallest_dimension(dim2, dim1)),
        area(dim1) != area(dim2) ==> smallest_dimension(dim1, dim2) == smallest_dimension(
            dim2,
            dim1,
        ),
        area(dim1) == area(dim2) ==> smallest_dimension(dim1, dim2) == dim1,
{
}

} // verus!
