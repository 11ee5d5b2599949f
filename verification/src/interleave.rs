//! Interleaving two RGBA byte buffers pixel by pixel.
//!
//! A pixel takes [`PIXEL_BYTES`] consecutive bytes. The merged buffer repeats
//! every [`GROUP_BYTES`] bytes: the first pixel of each group is copied from
//! the first buffer, the second pixel from the second buffer.

use vstd::prelude::*;

verus! {

/// Bytes of one RGBA pixel.
pub const PIXEL_BYTES: usize = 4;

/// Bytes after which the alternation starts over: two pixels.
pub const GROUP_BYTES: usize = 8;

/// Index of the pixel that byte `k` of a buffer belongs to.
pub open spec fn pixel_of(k: int) -> int {
    k / (PIXEL_BYTES as int)
}

/// Whether byte `k` of the merged buffer is copied from the first buffer:
/// it is when its pixel has an even index.
pub open spec fn from_first(k: int) -> bool {
    pixel_of(k) % 2 == 0
}

/// Length that two buffers of lengths `len1` and `len2` have in common.
pub open spec fn common_len(len1: nat, len2: nat) -> nat {
    if len1 < len2 {
        len1
    } else {
        len2
    }
}

/// The merged buffer of `a` and `b`: as long as the shorter of the two, with
/// even pixels from `a` and odd pixels from `b`.
pub open spec fn interleaved(a: Seq<u8>, b: Seq<u8>) -> Seq<u8> {
    Seq::new(
        common_len(a.len(), b.len()),
        |k: int|
            if from_first(k) {
                a[k]
            } else {
                b[k]
            },
    )
}

/// Whether `out` is a merged buffer of `a` and `b`, said byte by byte.
pub open spec fn is_interleaving(a: Seq<u8>, b: Seq<u8>, out: Seq<u8>) -> bool {
    &&& out.len() == common_len(a.len(), b.len())
    &&& forall|k: int| 0 <= k < out.len() && from_first(k) ==> out[k] == a[k]
    &&& forall|k: int| 0 <= k < out.len() && !from_first(k) ==> out[k] == b[k]
}

/// Copies the bytes `start ..= end` of `vec` into a new buffer. With
/// `start > end` the range is empty and so is the result.
///
/// The whole range must lie inside `vec`: a range that reaches past the end
/// of the buffer is a fault of the caller, not a value to be reported.
pub fn set_rgba(vec: &Vec<u8>, start: usize, end: usize) -> (rgba: Vec<u8>)
    requires
        start <= end ==> end < vec@.len(),
    ensures
        start <= end ==> rgba@ == vec@.subrange(start as int, end + 1),
        start > end ==> rgba@ == Seq::<u8>::empty(),
{
    let mut rgba: Vec<u8> = Vec::new();
    if start > end {
        return rgba;
    }
    let mut i: usize = start;
    while i <= end
        invariant
            start <= i <= end + 1,
            end < vec.len(),
            rgba@ == vec@.subrange(start as int, i as int),
        decreases end + 1 - i,
    {
        rgba.push(vec[i]);
        i += 1;
    }
    rgba
}

/// Overwrites the bytes of `target` that start at `start` with `block`.
/// The length of `target` stays as it was.
pub fn put_rgba(target: &mut Vec<u8>, start: usize, block: &Vec<u8>)
    requires
        start + block@.len() <= old(target)@.len(),
    ensures
        final(target)@.len() == old(target)@.len(),
        forall|k: int|
            start <= k < start + block@.len() ==> final(target)@[k] == block@[k - start],
        forall|k: int|
            0 <= k < start || start + block@.len() <= k < old(target)@.len()
                ==> final(target)@[k] == old(target)@[k],
{
    let mut j: usize = 0;
    while j < block.len()
        invariant
            j <= block.len(),
            start + block.len() <= target.len(),
            target@.len() == old(target)@.len(),
            forall|k: int| start <= k < start + j ==> target@[k] == block@[k - start],
            forall|k: int|
                0 <= k < start || start + j <= k < target@.len()
                    ==> target@[k] == old(target)@[k],
        decreases block@.len() - j,
    {
        target.set(start + j, block[j]);
        j += 1;
    }
}

/// Merges two RGBA buffers: the result is as long as the shorter one, its
/// even pixels are those of `v1` and its odd pixels those of `v2`.
///
/// The common length must be a whole number of pixels. A buffer that ends in
/// the middle of a pixel cannot be merged, and no padding or cutting is done
/// in its place: such a call is a fault of the caller.
pub fn alternate_pixels(v1: Vec<u8>, v2: Vec<u8>) -> (combined_data: Vec<u8>)
    requires
        common_len(v1@.len(), v2@.len()) % 4 == 0,
    ensures
        combined_data@ == interleaved(v1@, v2@),
        is_interleaving(v1@, v2@, combined_data@),
{
    let sample: u8 = 0;
    let size: usize = if v1.len() < v2.len() {
        v1.len()
    } else {
        v2.len()
    };
    let mut combined_data: Vec<u8> = vec![sample; size];
    let mut i: usize = 0;
    while i < size
        invariant
            size == common_len(v1@.len(), v2@.len()),
            size % 4 == 0,
            i % 4 == 0,
            i <= size,
            combined_data@.len() == size,
            forall|k: int| 0 <= k < i && from_first(k) ==> combined_data@[k] == v1@[k],
            forall|k: int| 0 <= k < i && !from_first(k) ==> combined_data@[k] == v2@[k],
        decreases size - i,
    {
        if i % GROUP_BYTES == 0 {
            let block = set_rgba(&v1, i, i + 3);
            put_rgba(&mut combined_data, i, &block);
            assert forall|k: int| i <= k < i + 4 implies from_first(k) && combined_data@[k]
                == v1@[k] by {
                assert(block@[k - i] == v1@[k]);
            }
        } else {
            let block = set_rgba(&v2, i, i + 3);
            put_rgba(&mut combined_data, i, &block);
            assert forall|k: int| i <= k < i + 4 implies !from_first(k) && combined_data@[k]
                == v2@[k] by {
                assert(block@[k - i] == v2@[k]);
            }
        }
        i += PIXEL_BYTES;
    }
    assert(combined_data@ =~= interleaved(v1@, v2@));
    combined_data
}

/// The merged buffer is as long as the shorter of the two buffers.
pub proof fn lemma_interleaved_len(a: Seq<u8>, b: Seq<u8>)
    ensures
        interleaved(a, b).len() == common_len(a.len(), b.len()),
        interleaved(a, b).len() <= a.len(),
        interleaved(a, b).len() <= b.len(),
{
}

/// The byte-by-byte description has one solution only: two buffers that both
/// are merged buffers of `a` and `b` are equal, and equal to
/// `interleaved(a, b)`. Merging the same buffers again gives the same bytes.
pub proof fn lemma_interleaving_unique(a: Seq<u8>, b: Seq<u8>, out1: Seq<u8>, out2: Seq<u8>)
    requires
        is_interleaving(a, b, out1),
        is_interleaving(a, b, out2),
    ensures
        out1 == out2,
        out1 == interleaved(a, b),
{
    assert(out1 =~= interleaved(a, b));
    assert(out2 =~= interleaved(a, b));
}

/// Pixel `p` of the merged buffer is pixel `p` of the first buffer when `p`
/// is even and pixel `p` of the second buffer when `p` is odd.
pub proof fn lemma_interleaved_pixel(a: Seq<u8>, b: Seq<u8>, p: int)
    requires
        0 <= p,
        4 * p + 4 <= common_len(a.len(), b.len()),
    ensures
        p % 2 == 0 ==> interleaved(a, b).subrange(4 * p, 4 * p + 4) == a.subrange(
            4 * p,
            4 * p + 4,
        ),
        p % 2 != 0 ==> interleaved(a, b).subrange(4 * p, 4 * p + 4) == b.subrange(
            4 * p,
            4 * p + 4,
        ),
{
    assert forall|k: int| 4 * p <= k < 4 * p + 4 implies pixel_of(k) == p by {}
    if p % 2 == 0 {
        assert(interleaved(a, b).subrange(4 * p, 4 * p + 4) =~= a.subrange(4 * p, 4 * p + 4));
    } else {
        assert(interleaved(a, b).subrange(4 * p, 4 * p + 4) =~= b.subrange(4 * p, 4 * p + 4));
    }
}

/// Only the common prefix of the two buffers counts: what the longer buffer
/// holds beyond the length of the shorter one has no part in the result.
pub proof fn lemma_interleaved_truncates(a: Seq<u8>, b: Seq<u8>)
    ensures
        interleaved(a, b) == interleaved(
            a.take(common_len(a.len(), b.len()) as int),
            b.take(common_len(a.len(), b.len()) as int),
        ),
{
    let n = common_len(a.len(), b.len()) as int;
    assert(interleaved(a, b) =~= interleaved(a.take(n), b.take(n)));
}

/// A buffer merged with itself is that buffer.
pub proof fn lemma_interleaved_same(a: Seq<u8>)
    ensures
        interleaved(a, a) == a,
{
    assert(interleaved(a, a) =~= a);
}

} // verus!
