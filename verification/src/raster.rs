//! A decoded picture: its size and its pixels as RGBA bytes.

use crate::floating::{buffer_capacity, capacity_for};
use vstd::prelude::*;

verus! {

/// A picture in memory: `width` by `height` pixels, stored row by row with
/// four bytes (red, green, blue, alpha) for each pixel.
#[derive(Debug)]
pub struct Image {
    width: u32,
    height: u32,
    data: Vec<u8>,
}

/// What an [`Image`] stands for.
pub struct ImageView {
    pub width: u32,
    pub height: u32,
    pub data: Seq<u8>,
}

impl ImageView {
    /// The size as a pair, width first.
    pub open spec fn dimensions(self) -> (u32, u32) {
        (self.width, self.height)
    }

    /// Whether the bytes are exactly those of `width * height` RGBA pixels.
    pub open spec fn well_formed(self) -> bool {
        self.data.len() == buffer_capacity(self.width, self.height)
    }
}

impl View for Image {
    type V = ImageView;

    closed spec fn view(&self) -> ImageView {
        ImageView { width: self.width, height: self.height, data: self.data@ }
    }
}

impl Image {
    /// Every picture holds exactly the bytes of its pixels.
    #[verifier::type_invariant]
    pub open spec fn complete(self) -> bool {
        self@.well_formed()
    }

    /// A picture from its size and its RGBA bytes, or `None` when `data` is
    /// not exactly `4 * width * height` bytes long.
    pub fn new(width: u32, height: u32, data: Vec<u8>) -> (image: Option<Image>)
        ensures
            image is Some <==> data@.len() == buffer_capacity(width, height),
            image matches Some(i) ==> i@ == (ImageView { width, height, data: data@ }),
    {
        if data.len() as u128 == capacity_for(width, height) {
            Some(Image { width, height, data })
        } else {
            None
        }
    }

    /// A picture from its size and its RGBA bytes, where the caller knows
    /// that the bytes are those of `width * height` pixels.
    pub fn from_raw(width: u32, height: u32, data: Vec<u8>) -> (image: Image)
        requires
            data@.len() == buffer_capacity(width, height),
        ensures
            image@ == (ImageView { width, height, data: data@ }),
    {
        Image { width, height, data }
    }

    /// Width in pixels.
    pub fn width(&self) -> (width: u32)
        ensures
            width == self@.width,
    {
        self.width
    }

    /// Height in pixels.
    pub fn height(&self) -> (height: u32)
        ensures
            height == self@.height,
    {
        self.height
    }

    /// The size as a pair, width first.
    pub fn dimensions(&self) -> (dim: (u32, u32))
        ensures
            dim == self@.dimensions(),
    {
        (self.width, self.height)
    }

    /// The RGBA bytes, four for each pixel.
    pub fn data(&self) -> (data: &Vec<u8>)
        ensures
            data@ == self@.data,
            self@.well_formed(),
    {
        proof {
            use_type_invariant(self);
        }
        &self.data
    }

    /// Gives up the picture for its RGBA bytes.
    pub fn into_vec(self) -> (data: Vec<u8>)
        ensures
            data@ == self@.data,
            self@.well_formed(),
    {
        proof {
            use_type_invariant(&self);
        }
        self.data
    }
}

} // verus!
