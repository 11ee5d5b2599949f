//! The container formats that a picture can be decoded from.

use vstd::prelude::*;

verus! {

/// The encoding of a picture on disk. It says nothing of how the pixels lie
/// in memory; two pictures are merged only when they came in the same one.
#[derive(Debug, Clone, Copy, PartialEq, Eq, Structural)]
pub enum ImageFormat {
    Png,
    Jpeg,
    Gif,
    WebP,
    Pnm,
    Tiff,
    Tga,
    Dds,
    Bmp,
    Ico,
    Hdr,
    OpenExr,
    Farbfeld,
    Avif,
    Qoi,
}

} // verus!
