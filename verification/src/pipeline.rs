//! The two pipelines on decoded images: merging a secret into a container,
//! and recovering it from a merged image.

use vstd::prelude::*;
use crate::config::{MergeConfig, UnmergeConfig};
use crate::error::StegError;
use crate::pixel::{
    clear_low_bits,
    lemma_merge_zero_bits,
    lemma_unmerge_after_merge,
    merge_channel_spec,
    merge_pixel_spec,
    merge_pixels,
    unmerge_channel_spec,
    unmerge_pixel_spec,
    unmerge_pixels,
    MAX_MERGE_BITS,
};
use crate::raster::{RasterImage, RasterView};
use crate::resize::{resize_fits, resized_view};

verus! {

/// The raster of the cover's dimensions in which every sample is the merge of
/// the two samples found at its place.
pub open spec fn merged_view(cover: RasterView, secret: RasterView, bits: u8) -> RasterView {
    RasterView {
        width: cover.width,
        height: cover.height,
        data: Seq::new(
            cover.data.len(),
            |k: int| merge_channel_spec(cover.data[k], secret.data[k], bits),
        ),
    }
}

/// The raster of the same dimensions in which every sample is recovered from
/// the sample found at its place.
pub open spec fn unmerged_view(merged: RasterView, bits: u8) -> RasterView {
    RasterView {
        width: merged.width,
        height: merged.height,
        data: Seq::new(merged.data.len(), |k: int| unmerge_channel_spec(merged.data[k], bits)),
    }
}

/// The raster of the same dimensions in which every sample has lost its
/// `bits` low-order bits.
pub open spec fn cleared_view(source: RasterView, bits: u8) -> RasterView {
    RasterView {
        width: source.width,
        height: source.height,
        data: Seq::new(source.data.len(), |k: int| clear_low_bits(source.data[k], bits)),
    }
}

/// A merged raster holds, at every position, the merge of the two pixels
/// found there.
pub proof fn lemma_merged_view_pixel(
    cover: RasterView,
    secret: RasterView,
    bits: u8,
    x: int,
    y: int,
)
    requires
        cover.wf(),
        secret.wf(),
        cover.same_size(secret),
        cover.contains(x, y),
    ensures
        merged_view(cover, secret, bits).pixel(x, y) == merge_pixel_spec(
            cover.pixel(x, y),
            secret.pixel(x, y),
            bits,
        ),
{
    cover.lemma_offset_bounds(x, y);
}

/// An unmerged raster holds, at every position, the pixel recovered from the
/// pixel found there.
pub proof fn lemma_unmerged_view_pixel(merged: RasterView, bits: u8, x: int, y: int)
    requires
        merged.wf(),
        merged.contains(x, y),
    ensures
        unmerged_view(merged, bits).pixel(x, y) == unmerge_pixel_spec(merged.pixel(x, y), bits),
{
    merged.lemma_offset_bounds(x, y);
}

/// A merge that keeps no bit of the cover gives the secret raster.
pub proof fn lemma_merged_view_zero_bits(cover: RasterView, secret: RasterView)
    requires
        cover.wf(),
        secret.wf(),
        cover.same_size(secret),
    ensures
        merged_view(cover, secret, 0) == secret,
{
    assert forall|k: int| 0 <= k < cover.data.len() implies merge_channel_spec(
        cover.data[k],
        secret.data[k],
        0,
    ) == secret.data[k] by {
        lemma_merge_zero_bits(cover.data[k], secret.data[k]);
    }
    assert(merged_view(cover, secret, 0).data =~= secret.data);
}

/// Unmerging a merged raster gives a raster of the cover's dimensions: the
/// secret with the `bits` low-order bits of every sample cleared, and the
/// secret itself at zero bits.
pub proof fn lemma_unmerge_after_merge_view(cover: RasterView, secret: RasterView, bits: u8)
    requires
        cover.wf(),
        secret.wf(),
        cover.same_size(secret),
        bits <= MAX_MERGE_BITS,
    ensures
        unmerged_view(merged_view(cover, secret, bits), bits) == cleared_view(secret, bits),
        unmerged_view(merged_view(cover, secret, bits), bits).same_size(cover),
        bits == 0 ==> unmerged_view(merged_view(cover, secret, bits), bits) == secret,
{
    let merged = merged_view(cover, secret, bits);
    assert forall|k: int| 0 <= k < cover.data.len() implies unmerge_channel_spec(
        merged.data[k],
        bits,
    ) == clear_low_bits(secret.data[k], bits) && (bits == 0 ==> clear_low_bits(
        secret.data[k],
        bits,
    ) == secret.data[k]) by {
        lemma_unmerge_after_merge(cover.data[k], secret.data[k], bits);
    }
    assert(unmerged_view(merged, bits).data =~= cleared_view(secret, bits).data);
    if bits == 0 {
        assert(cleared_view(secret, bits).data =~= secret.data);
    }
}

/// What a merge gives: the container merged with the secret brought to the
/// container's dimensions.
pub open spec fn merge_images_view(container: RasterView, secret: RasterView, bits: u8) -> RasterView {
    merged_view(container, resized_view(secret, container.width, container.height), bits)
}

/// What comes out of a merge followed by an unmerge.
pub open spec fn round_trip_view(container: RasterView, secret: RasterView, bits: u8) -> RasterView {
    unmerged_view(merge_images_view(container, secret, bits), bits)
}

/// A merged image has the dimensions of the container, and so not those of
/// the secret where the two differ: the secret is resized, the container
/// never.
pub proof fn lemma_merge_keeps_container_dimensions(
    container: RasterView,
    secret: RasterView,
    bits: u8,
)
    ensures
        merge_images_view(container, secret, bits).same_size(container),
        !secret.same_size(container) ==> !merge_images_view(container, secret, bits).same_size(
            secret,
        ),
{
}

/// With no bit of the container kept, a merged image is the secret brought to
/// the container's dimensions, whatever the samples of the container.
pub proof fn lemma_merge_zero_bits_gives_resized_secret(container: RasterView, secret: RasterView)
    requires
        container.wf(),
        resized_view(secret, container.width, container.height).wf(),
    ensures
        merge_images_view(container, secret, 0) == resized_view(
            secret,
            container.width,
            container.height,
        ),
{
    lemma_merged_view_zero_bits(
        container,
        resized_view(secret, container.width, container.height),
    );
}

/// The dimensions that come out of a merge followed by an unmerge are those
/// of the container, and so not those of the secret where the two differ.
pub proof fn lemma_round_trip_dimensions(container: RasterView, secret: RasterView, bits: u8)
    ensures
        round_trip_view(container, secret, bits).same_size(container),
        !secret.same_size(container) ==> !round_trip_view(container, secret, bits).same_size(
            secret,
        ),
{
}

/// Merges two images of the same dimensions, position by position.
pub fn merge_rasters(
    cover: &RasterImage,
    secret: &RasterImage,
    merge_bits: u8,
) -> (merged: RasterImage)
    requires
        merge_bits <= MAX_MERGE_BITS,
        cover@.same_size(secret@),
    ensures
        merged@ == merged_view(cover@, secret@, merge_bits),
        merged@.wf(),
        merged@.same_size(cover@),
        forall|x: int, y: int|
            cover@.contains(x, y) ==> #[trigger] merged@.pixel(x, y) == merge_pixel_spec(
                cover@.pixel(x, y),
                secret@.pixel(x, y),
                merge_bits,
            ),
        merge_bits == 0 ==> merged@ == secret@,
{
    let (width, height) = cover.dimensions();
    let _ = secret.dimensions();  // tells that `secret` is well formed too
    let mut merged = RasterImage::new(width, height);
    let ghost goal = merged_view(cover@, secret@, merge_bits);
    assert(0 * width == 0);
    for y in 0..height
        invariant
            merge_bits <= MAX_MERGE_BITS,
            cover@.wf(),
            secret@.wf(),
            merged@.wf(),
            cover@.same_size(secret@),
            cover@.same_size(merged@),
            width == cover@.width,
            height == cover@.height,
            goal == merged_view(cover@, secret@, merge_bits),
            forall|k: int| 0 <= k < 3 * (y * width) ==> merged@.data[k] == goal.data[k],
    {
        for x in 0..width
            invariant
                merge_bits <= MAX_MERGE_BITS,
                y < height,
                cover@.wf(),
                secret@.wf(),
                merged@.wf(),
                cover@.same_size(secret@),
                cover@.same_size(merged@),
                width == cover@.width,
                height == cover@.height,
                goal == merged_view(cover@, secret@, merge_bits),
                forall|k: int| 0 <= k < 3 * (y * width + x) ==> merged@.data[k] == goal.data[k],
        {
            proof {
                cover@.lemma_offset_bounds(x as int, y as int);
            }
            let cover_pixel = cover.get_pixel(x, y);
            let secret_pixel = secret.get_pixel(x, y);
            let merged_pixel = merge_pixels(cover_pixel, secret_pixel, merge_bits);
            merged.put_pixel(x, y, merged_pixel);
        }
        proof {
            assert(y * width + width == (y + 1) * width) by (nonlinear_arith);
        }
    }
    proof {
        assert(3 * (height * width) == 3 * width * height) by (nonlinear_arith);
        assert(merged@.data =~= goal.data);
        assert forall|x: int, y: int| cover@.contains(x, y) implies #[trigger] merged@.pixel(x, y)
            == merge_pixel_spec(cover@.pixel(x, y), secret@.pixel(x, y), merge_bits) by {
            lemma_merged_view_pixel(cover@, secret@, merge_bits, x, y);
        }
        if merge_bits == 0 {
            lemma_merged_view_zero_bits(cover@, secret@);
        }
    }
    merged
}

/// Hides `secret` in `container`: rejects a number of merge bits above 7,
/// brings the secret to the container's dimensions by nearest-neighbour
/// sampling, and merges the two position by position. The container is never
/// resized, so the result always has its dimensions.
pub fn merge_images(
    config: &MergeConfig,
    container: &RasterImage,
    secret: &RasterImage,
) -> (outcome: Result<RasterImage, StegError>)
    requires
        config.valid() ==> resize_fits(
            secret@.width,
            secret@.height,
            container@.width,
            container@.height,
        ),
    ensures
        outcome is Ok <==> config.valid(),
        outcome matches Err(e) ==> e == StegError::InvalidConfig,
        outcome matches Ok(merged) ==> {
            let resized = resized_view(secret@, container@.width, container@.height);
            &&& merged@ == merge_images_view(container@, secret@, config.merge_bits)
            &&& merged@.wf()
            &&& merged@.same_size(container@)
            &&& !secret@.same_size(container@) ==> !merged@.same_size(secret@)
            &&& forall|x: int, y: int|
                container@.contains(x, y) ==> #[trigger] merged@.pixel(x, y) == merge_pixel_spec(
                    container@.pixel(x, y),
                    resized.pixel(x, y),
                    config.merge_bits,
                )
            &&& config.merge_bits == 0 ==> merged@ == resized
            &&& secret@.same_size(container@) ==> merged@ == merged_view(
                container@,
                secret@,
                config.merge_bits,
            )
        },
{
    match config.validate() {
        Err(e) => Err(e),
        Ok(()) => {
            let (width, height) = container.dimensions();
            let resized = secret.resize_nearest(width, height);
            Ok(merge_rasters(container, &resized, config.merge_bits))
        },
    }
}

/// Recovers the image hidden in `merged`: rejects a number of merge bits
/// above 7, and unmerges position by position. The result has the dimensions
/// of `merged`.
pub fn unmerge_images(
    config: &UnmergeConfig,
    merged: &RasterImage,
) -> (outcome: Result<RasterImage, StegError>)
    ensures
        outcome is Ok <==> config.valid(),
        outcome matches Err(e) ==> e == StegError::InvalidConfig,
        outcome matches Ok(secret) ==> {
            &&& secret@ == unmerged_view(merged@, config.merge_bits)
            &&& secret@.wf()
            &&& secret@.same_size(merged@)
            &&& forall|x: int, y: int|
                merged@.contains(x, y) ==> #[trigger] secret@.pixel(x, y) == unmerge_pixel_spec(
                    merged@.pixel(x, y),
                    config.merge_bits,
                )
        },
{
    if let Err(e) = config.validate() {
        return Err(e);
    }
    let merge_bits = config.merge_bits;
    let (width, height) = merged.dimensions();
    let mut secret = RasterImage::new(width, height);
    let ghost goal = unmerged_view(merged@, merge_bits);
    assert(0 * width == 0);
    for y in 0..height
        invariant
            merge_bits <= MAX_MERGE_BITS,
            merged@.wf(),
            secret@.wf(),
            merged@.same_size(secret@),
            width == merged@.width,
            height == merged@.height,
            goal == unmerged_view(merged@, merge_bits),
            forall|k: int| 0 <= k < 3 * (y * width) ==> secret@.data[k] == goal.data[k],
    {
        for x in 0..width
            invariant
                merge_bits <= MAX_MERGE_BITS,
                y < height,
                merged@.wf(),
                secret@.wf(),
                merged@.same_size(secret@),
                width == merged@.width,
                height == merged@.height,
                goal == unmerged_view(merged@, merge_bits),
                forall|k: int| 0 <= k < 3 * (y * width + x) ==> secret@.data[k] == goal.data[k],
        {
            proof {
                merged@.lemma_offset_bounds(x as int, y as int);
            }
            let merged_pixel = merged.get_pixel(x, y);
            let secret_pixel = unmerge_pixels(merged_pixel, merge_bits);
            secret.put_pixel(x, y, secret_pixel);
        }
        proof {
            assert(y * width + width == (y + 1) * width) by (nonlinear_arith);
        }
    }
    proof {
        assert(3 * (height * width) == 3 * width * height) by (nonlinear_arith);
        assert(secret@.data =~= goal.data);
        assert forall|x: int, y: int| merged@.contains(x, y) implies #[trigger] secret@.pixel(x, y)
            == unmerge_pixel_spec(merged@.pixel(x, y), merge_bits) by {
            lemma_unmerged_view_pixel(merged@, merge_bits, x, y);
        }
    }
    Ok(secret)
}

} // verus!
