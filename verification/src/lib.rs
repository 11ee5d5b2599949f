//! Merging two pictures into one by interleaving their pixels.
//!
//! Two decoded pictures are brought to a common size (the size of the one
//! with fewer pixels), their RGBA bytes are interleaved pixel by pixel, and
//! the result is handed out as a [`FloatingImage`] ready to be encoded.

pub mod dimension;
pub mod error;
pub mod floating;
pub mod format;
pub mod interleave;
pub mod pipeline;
pub mod raster;
pub mod resample;

pub use dimension::get_smallest_dimension;
pub use error::ImageDataErrors;
pub use floating::{assemble, FloatingImage};
pub use format::ImageFormat;
pub use interleave::{alternate_pixels, set_rgba};
pub use pipeline::{combine, combine_images, combine_sized};
pub use raster::Image;
pub use resample::{resize, standardize_size};
