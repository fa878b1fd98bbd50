//! Nearest-neighbour resizing, done by the `image` crate.

use vstd::prelude::*;
use crate::raster::RasterView;

verus! {

/// The samples that `image::imageops::resize` with `FilterType::Nearest`
/// produces from a `width` x `height` RGB image with the samples `data` when
/// asked for `nwidth` x `nheight`. Every sample of the result is computed from
/// these five values alone.
pub uninterp spec fn nearest_resized(
    width: nat,
    height: nat,
    data: Seq<u8>,
    nwidth: nat,
    nheight: nat,
) -> Seq<u8>;

/// A raster resized to `width` x `height` by nearest-neighbour sampling.
pub open spec fn resized_view(source: RasterView, width: nat, height: nat) -> RasterView {
    RasterView {
        width,
        height,
        data: nearest_resized(source.width, source.height, source.data, width, height),
    }
}

/// Whether `image::imageops::resize` can make the buffers it needs to bring a
/// `width` x `height` image to `nwidth` x `nheight`.
///
/// The length of a buffer is computed as samples per pixel times width times
/// height, in this order and in `usize`, so three times either width must fit
/// a `usize` even where the height is zero. The result takes three bytes per
/// pixel. An image that has pixels and not yet the dimensions asked for is
/// sampled anew, through an intermediate of `width` x `nheight` pixels of
/// sixteen bytes each. One allocation holds at most `isize::MAX` bytes.
pub open spec fn resize_fits(width: nat, height: nat, nwidth: nat, nheight: nat) -> bool {
    let sampled_anew = width != 0 && height != 0 && (width != nwidth || height != nheight);
    &&& 3 * width <= usize::MAX
    &&& 3 * nwidth <= usize::MAX
    &&& 3 * nwidth * nheight <= isize::MAX
    &&& sampled_anew ==> 16 * width * nheight <= isize::MAX
}

/// Calls `image::imageops::resize` with `image::imageops::FilterType::Nearest`
/// on the RGB image of `width` x `height` pixels that `data` holds.
///
/// Taken from the crate, not proved: the buffer that comes back is the one
/// named `nearest_resized`; it holds three samples for each of the
/// `nwidth * nheight` pixels asked for; and an image that already has the
/// dimensions asked for is copied, not sampled. The call panics where the
/// length of one of its buffers does not fit a `usize` or the buffer cannot
/// be allocated, so the inputs that `resize_fits` refuses are left out. The
/// source buffer is one allocation itself, which bounds four times the width
/// of an image that has a row: the intermediate has four samples per pixel.
#[verifier::external_body]
pub(crate) fn resize_samples(
    width: u32,
    height: u32,
    data: &Vec<u8>,
    nwidth: u32,
    nheight: u32,
) -> (out: Vec<u8>)
    requires
        data@.len() == 3 * width * height,
        data@.len() <= isize::MAX,
        resize_fits(width as nat, height as nat, nwidth as nat, nheight as nat),
    ensures
        out@ == nearest_resized(width as nat, height as nat, data@, nwidth as nat, nheight as nat),
        out@.len() == 3 * nwidth * nheight,
        width == nwidth && height == nheight ==> out@ == data@,
{
    let source = image::ImageBuffer::<image::Rgb<u8>, &[u8]>::from_raw(
        width,
        height,
        data.as_slice(),
    ).unwrap();
    image::imageops::resize(&source, nwidth, nheight, image::imageops::FilterType::Nearest)
        .into_raw()
}

} // verus!
