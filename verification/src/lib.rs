//! Hiding one raster image inside another by least-significant-bit
//! substitution, and recovering it again.
//!
//! Each channel of a merged pixel keeps the high-order bits of the cover and
//! carries the high-order bits of the secret in its low-order positions. The
//! number of cover bits kept, `merge_bits`, lies between 0 and 7.
//!
//! The library works on decoded images. Reading and writing image files is
//! left to the caller.
//!
//! - [`pixel`]: the transform of one channel and of one pixel, and what holds
//!   of it.
//! - [`raster`]: RGB images as a grid of pixels over one sample buffer.
//! - [`resize`]: nearest-neighbour resizing, the one thing taken unproved
//!   from the `image` crate.
//! - [`pipeline`]: merging and unmerging whole images.
//! - [`config`] and [`error`]: the parameters of a run and the ways it fails.

pub mod config;
pub mod error;
pub mod pipeline;
pub mod pixel;
pub mod raster;
pub mod resize;

pub use config::{MergeConfig, UnmergeConfig};
pub use error::StegError;
pub use pipeline::{merge_images, merge_rasters, unmerge_images};
pub use pixel::{
    merge_channel, merge_pixels, unmerge_channel, unmerge_pixels, Pixel, MAX_MERGE_BITS,
};
pub use raster::{RasterImage, RasterView};
