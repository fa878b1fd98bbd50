//! The per-channel bit transform and its lifting to RGB pixels.

use vstd::prelude::*;
use vstd::arithmetic::power2::{lemma2_to64, pow2};

verus! {

/// The largest number of cover bits that a merge may keep in a channel.
pub const MAX_MERGE_BITS: u8 = 7;

/// An RGB pixel: three independent 8-bit channels, no alpha.
#[derive(Clone, Copy, Debug, PartialEq, Eq, Structural)]
pub struct Pixel {
    pub r: u8,
    pub g: u8,
    pub b: u8,
}

/// The mask that selects the `bits` high-order bits of a channel.
pub open spec fn high_mask(bits: u8) -> u8 {
    !(0xFFu8 >> bits)
}

/// A merged channel: the `bits` high-order bits of `cover`, followed by the
/// `8 - bits` high-order bits of `secret`.
pub open spec fn merge_channel_spec(cover: u8, secret: u8, bits: u8) -> u8 {
    (cover & high_mask(bits)) | (secret >> bits)
}

/// The channel recovered from `merged`: its `8 - bits` low-order bits moved
/// to the top, zeros below.
pub open spec fn unmerge_channel_spec(merged: u8, bits: u8) -> u8 {
    merged << bits
}

/// The merge of two pixels, channel by channel.
pub open spec fn merge_pixel_spec(cover: Pixel, secret: Pixel, bits: u8) -> Pixel {
    Pixel {
        r: merge_channel_spec(cover.r, secret.r, bits),
        g: merge_channel_spec(cover.g, secret.g, bits),
        b: merge_channel_spec(cover.b, secret.b, bits),
    }
}

/// The pixel recovered from a merged pixel, channel by channel.
pub open spec fn unmerge_pixel_spec(merged: Pixel, bits: u8) -> Pixel {
    Pixel {
        r: unmerge_channel_spec(merged.r, bits),
        g: unmerge_channel_spec(merged.g, bits),
        b: unmerge_channel_spec(merged.b, bits),
    }
}

/// The number that the `count` high-order bits of `channel` spell.
pub open spec fn high_bits(channel: u8, count: int) -> int
    recommends
        0 <= count <= 8,
{
    channel as int / pow2((8 - count) as nat) as int
}

/// The number that the `count` low-order bits of `channel` spell.
pub open spec fn low_bits(channel: u8, count: int) -> int
    recommends
        0 <= count <= 8,
{
    channel as int % pow2(count as nat) as int
}

/// Whether `merged` has the `bits` high-order bits of `cover` above the
/// `8 - bits` high-order bits of `secret`.
pub open spec fn keeps_cover_above_secret(merged: u8, cover: u8, secret: u8, bits: u8) -> bool {
    &&& high_bits(merged, bits as int) == high_bits(cover, bits as int)
    &&& low_bits(merged, 8 - bits) == high_bits(secret, 8 - bits)
}

/// Whether `secret` has the `8 - bits` low-order bits of `merged` above
/// `bits` zeros.
pub open spec fn lifts_low_bits(secret: u8, merged: u8, bits: u8) -> bool {
    &&& high_bits(secret, 8 - bits) == low_bits(merged, 8 - bits)
    &&& low_bits(secret, bits as int) == 0
}

/// `channel` with its `bits` low-order bits cleared.
pub open spec fn clear_low_bits(channel: u8, bits: u8) -> u8
    recommends
        bits <= 8,
{
    (channel - low_bits(channel, bits as int)) as u8
}

/// `pixel` with the `bits` low-order bits of every channel cleared.
pub open spec fn clear_low_bits_pixel(pixel: Pixel, bits: u8) -> Pixel {
    Pixel {
        r: clear_low_bits(pixel.r, bits),
        g: clear_low_bits(pixel.g, bits),
        b: clear_low_bits(pixel.b, bits),
    }
}

/// Whether merging with `bits` bits and merging with the two widths
/// exchanged, `8 - bits` bits of cover above `bits` bits of secret, give the
/// same channel. Eight bits of cover above none of the secret is the cover
/// itself.
pub open spec fn merges_alike_exchanged(cover: u8, secret: u8, bits: u8) -> bool {
    merge_channel_spec(cover, secret, bits) == if bits == 0 {
        cover
    } else {
        merge_channel_spec(cover, secret, (8 - bits) as u8)
    }
}

/// Merges one channel of a secret into one channel of a cover: the result
/// keeps the `merge_bits` high-order bits of the cover and carries the
/// `8 - merge_bits` high-order bits of the secret below them. With no bit kept
/// it is the secret; with seven kept it is the cover but for its lowest bit,
/// which is the highest bit of the secret.
pub fn merge_channel(cover: u8, secret: u8, merge_bits: u8) -> (merged: u8)
    requires
        merge_bits <= MAX_MERGE_BITS,
    ensures
        merged == merge_channel_spec(cover, secret, merge_bits),
        keeps_cover_above_secret(merged, cover, secret, merge_bits),
        merge_bits == 0 ==> merged == secret,
        merge_bits == 7 ==> merged / 2 == cover / 2 && merged % 2 == secret / 128,
{
    proof {
        lemma_merge_channel_layout(cover, secret, merge_bits);
        if merge_bits == 0 {
            lemma_merge_zero_bits(cover, secret);
        }
        if merge_bits == 7 {
            lemma_merge_seven_bits(cover, secret);
        }
    }
    (cover & !(0xFFu8 >> merge_bits)) | (secret >> merge_bits)
}

/// Recovers one channel of a secret from one merged channel: the
/// `8 - merge_bits` low-order bits move to the top, above zeros.
pub fn unmerge_channel(merged: u8, merge_bits: u8) -> (secret: u8)
    requires
        merge_bits <= MAX_MERGE_BITS,
    ensures
        secret == unmerge_channel_spec(merged, merge_bits),
        lifts_low_bits(secret, merged, merge_bits),
{
    proof {
        lemma_unmerge_channel_layout(merged, merge_bits);
    }
    merged << merge_bits
}

/// Merges a secret pixel into a cover pixel: every channel keeps the
/// `merge_bits` high-order bits of the cover and carries the `8 - merge_bits`
/// high-order bits of the secret below them.
pub fn merge_pixels(
    cover_pixel: Pixel,
    secret_pixel: Pixel,
    merge_bits: u8,
) -> (merged_pixel: Pixel)
    requires
        merge_bits <= MAX_MERGE_BITS,
    ensures
        merged_pixel == merge_pixel_spec(cover_pixel, secret_pixel, merge_bits),
        keeps_cover_above_secret(merged_pixel.r, cover_pixel.r, secret_pixel.r, merge_bits),
        keeps_cover_above_secret(merged_pixel.g, cover_pixel.g, secret_pixel.g, merge_bits),
        keeps_cover_above_secret(merged_pixel.b, cover_pixel.b, secret_pixel.b, merge_bits),
        merge_bits == 0 ==> merged_pixel == secret_pixel,
{
    Pixel {
        r: merge_channel(cover_pixel.r, secret_pixel.r, merge_bits),
        g: merge_channel(cover_pixel.g, secret_pixel.g, merge_bits),
        b: merge_channel(cover_pixel.b, secret_pixel.b, merge_bits),
    }
}

/// Recovers the secret pixel that a merged pixel carries: every channel is
/// shifted up by `merge_bits`, which drops the cover bits and leaves zeros in
/// the low-order positions.
pub fn unmerge_pixels(merged_pixel: Pixel, merge_bits: u8) -> (secret_pixel: Pixel)
    requires
        merge_bits <= MAX_MERGE_BITS,
    ensures
        secret_pixel == unmerge_pixel_spec(merged_pixel, merge_bits),
        lifts_low_bits(secret_pixel.r, merged_pixel.r, merge_bits),
        lifts_low_bits(secret_pixel.g, merged_pixel.g, merge_bits),
        lifts_low_bits(secret_pixel.b, merged_pixel.b, merge_bits),
{
    Pixel {
        r: unmerge_channel(merged_pixel.r, merge_bits),
        g: unmerge_channel(merged_pixel.g, merge_bits),
        b: unmerge_channel(merged_pixel.b, merge_bits),
    }
}

/// Shifts of constants by up to eight places, as powers of two.
proof fn lemma_shifted_powers(bits: u8)
    requires
        bits <= 8,
    ensures
        (256u32 >> bits) == pow2((8 - bits) as nat),
        (1u32 << bits) == pow2(bits as nat),
{
    lemma2_to64();
    assert(bits <= 8 ==> {
        &&& bits == 0 ==> (256u32 >> bits) == 256 && (1u32 << bits) == 1
        &&& bits == 1 ==> (256u32 >> bits) == 128 && (1u32 << bits) == 2
        &&& bits == 2 ==> (256u32 >> bits) == 64 && (1u32 << bits) == 4
        &&& bits == 3 ==> (256u32 >> bits) == 32 && (1u32 << bits) == 8
        &&& bits == 4 ==> (256u32 >> bits) == 16 && (1u32 << bits) == 16
        &&& bits == 5 ==> (256u32 >> bits) == 8 && (1u32 << bits) == 32
        &&& bits == 6 ==> (256u32 >> bits) == 4 && (1u32 << bits) == 64
        &&& bits == 7 ==> (256u32 >> bits) == 2 && (1u32 << bits) == 128
        &&& bits == 8 ==> (256u32 >> bits) == 1 && (1u32 << bits) == 256
    }) by (bit_vector);
}

/// The two parts of a merged channel: its `bits` high-order bits are those
/// of the cover, and its `8 - bits` low-order bits are the `8 - bits`
/// high-order bits of the secret.
pub proof fn lemma_merge_channel_layout(cover: u8, secret: u8, bits: u8)
    requires
        bits <= MAX_MERGE_BITS,
    ensures
        keeps_cover_above_secret(merge_channel_spec(cover, secret, bits), cover, secret, bits),
{
    lemma_shifted_powers(bits);
    let m = merge_channel_spec(cover, secret, bits);
    assert(bits <= 7 && m == (cover & !(0xFFu8 >> bits)) | (secret >> bits) ==> {
        &&& (m as u32) / (256u32 >> bits) == (cover as u32) / (256u32 >> bits)
        &&& (m as u32) % (256u32 >> bits) == (secret as u32) / (1u32 << bits)
    }) by (bit_vector);
}

/// The two parts pin the channel down: no other channel keeps the same bits
/// of the cover above the same bits of the secret.
pub proof fn lemma_layout_is_unique(merged: u8, other: u8, cover: u8, secret: u8, bits: u8)
    requires
        bits <= 8,
        keeps_cover_above_secret(merged, cover, secret, bits),
        keeps_cover_above_secret(other, cover, secret, bits),
    ensures
        merged == other,
{
    lemma_shifted_powers(bits);
    assert({
        &&& bits <= 8
        &&& (merged as u32) / (256u32 >> bits) == (other as u32) / (256u32 >> bits)
        &&& (merged as u32) % (256u32 >> bits) == (other as u32) % (256u32 >> bits)
    } ==> merged == other) by (bit_vector);
}

/// The two parts of an unmerged channel: its `8 - bits` high-order bits are
/// the `8 - bits` low-order bits of the merged channel, and its `bits`
/// low-order bits are zero.
pub proof fn lemma_unmerge_channel_layout(merged: u8, bits: u8)
    requires
        bits <= MAX_MERGE_BITS,
    ensures
        lifts_low_bits(unmerge_channel_spec(merged, bits), merged, bits),
{
    lemma_shifted_powers(bits);
    let u = unmerge_channel_spec(merged, bits);
    assert(bits <= 7 && u == merged << bits ==> {
        &&& (u as u32) / (1u32 << bits) == (merged as u32) % (256u32 >> bits)
        &&& (u as u32) % (1u32 << bits) == 0
    }) by (bit_vector);
}

/// Clearing the `bits` low-order bits of a channel subtracts the number they
/// spell, and leaves its `8 - bits` high-order bits in place above zeros. It
/// changes nothing exactly when those low-order bits were zero already, as
/// they always are at zero bits.
pub proof fn lemma_clear_low_bits(channel: u8, bits: u8)
    requires
        bits <= 8,
    ensures
        0 <= low_bits(channel, bits as int) <= channel,
        clear_low_bits(channel, bits) == channel - low_bits(channel, bits as int),
        high_bits(clear_low_bits(channel, bits), 8 - bits) == high_bits(channel, 8 - bits),
        low_bits(clear_low_bits(channel, bits), bits as int) == 0,
        clear_low_bits(channel, bits) == channel <==> low_bits(channel, bits as int) == 0,
        bits == 0 ==> clear_low_bits(channel, bits) == channel,
{
    lemma_shifted_powers(bits);
    let cleared = clear_low_bits(channel, bits);
    assert(bits <= 8 ==> 0 <= (channel as u32) % (1u32 << bits) <= channel) by (bit_vector);
    assert(bits <= 8 && cleared == channel - (channel as u32) % (1u32 << bits) ==> {
        &&& (cleared as u32) / (1u32 << bits) == (channel as u32) / (1u32 << bits)
        &&& (cleared as u32) % (1u32 << bits) == 0
        &&& bits == 0 ==> cleared == channel
    }) by (bit_vector);
}

/// Unmerging what was merged gives the secret with its `bits` low-order bits
/// cleared: its `8 - bits` high-order bits are back in place above zeros. The
/// secret itself comes back exactly when those low-order bits were zero
/// already, and so always at zero bits.
pub proof fn lemma_unmerge_after_merge(cover: u8, secret: u8, bits: u8)
    requires
        bits <= MAX_MERGE_BITS,
    ensures
        unmerge_channel_spec(merge_channel_spec(cover, secret, bits), bits) == clear_low_bits(
            secret,
            bits,
        ),
        high_bits(unmerge_channel_spec(merge_channel_spec(cover, secret, bits), bits), 8 - bits)
            == high_bits(secret, 8 - bits),
        low_bits(unmerge_channel_spec(merge_channel_spec(cover, secret, bits), bits), bits as int)
            == 0,
        unmerge_channel_spec(merge_channel_spec(cover, secret, bits), bits) == secret
            <==> low_bits(secret, bits as int) == 0,
        bits == 0 ==> unmerge_channel_spec(merge_channel_spec(cover, secret, bits), bits)
            == secret,
{
    lemma_shifted_powers(bits);
    lemma_clear_low_bits(secret, bits);
    let m = merge_channel_spec(cover, secret, bits);
    let u = unmerge_channel_spec(m, bits);
    assert(bits <= 7 && m == (cover & !(0xFFu8 >> bits)) | (secret >> bits) && u == m << bits ==> {
        (u as u32) == (secret as u32) - (secret as u32) % (1u32 << bits)
    }) by (bit_vector);
}

/// The round trip, pixel by pixel.
pub proof fn lemma_unmerge_after_merge_pixel(cover: Pixel, secret: Pixel, bits: u8)
    requires
        bits <= MAX_MERGE_BITS,
    ensures
        unmerge_pixel_spec(merge_pixel_spec(cover, secret, bits), bits) == clear_low_bits_pixel(
            secret,
            bits,
        ),
        bits == 0 ==> unmerge_pixel_spec(merge_pixel_spec(cover, secret, bits), bits) == secret,
{
    lemma_unmerge_after_merge(cover.r, secret.r, bits);
    lemma_unmerge_after_merge(cover.g, secret.g, bits);
    lemma_unmerge_after_merge(cover.b, secret.b, bits);
}

/// A merge that keeps no bit of the cover gives the secret.
pub proof fn lemma_merge_zero_bits(cover: u8, secret: u8)
    ensures
        merge_channel_spec(cover, secret, 0) == secret,
{
    assert((cover & !(0xFFu8 >> 0u8)) | (secret >> 0u8) == secret) by (bit_vector);
}

/// A merge that keeps no bit of the cover pixel gives the secret pixel.
pub proof fn lemma_merge_zero_bits_pixel(cover: Pixel, secret: Pixel)
    ensures
        merge_pixel_spec(cover, secret, 0) == secret,
{
    lemma_merge_zero_bits(cover.r, secret.r);
    lemma_merge_zero_bits(cover.g, secret.g);
    lemma_merge_zero_bits(cover.b, secret.b);
}

/// At seven bits, the most that a merge may keep, the merged channel is the
/// cover with its lowest bit replaced by the highest bit of the secret, so it
/// is at most one away from the cover.
pub proof fn lemma_merge_seven_bits(cover: u8, secret: u8)
    ensures
        merge_channel_spec(cover, secret, 7) / 2 == cover / 2,
        merge_channel_spec(cover, secret, 7) % 2 == secret / 128,
        -1 <= merge_channel_spec(cover, secret, 7) - cover <= 1,
{
    lemma2_to64();
    lemma_merge_channel_layout(cover, secret, 7);
}

/// The fewer bits a merge keeps, the further it may move the channel from
/// the cover: by less than `2^(8 - bits)`, which is least at seven bits.
pub proof fn lemma_merge_stays_near_cover(cover: u8, secret: u8, bits: u8)
    requires
        bits <= MAX_MERGE_BITS,
    ensures
        -pow2((8 - bits) as nat) < merge_channel_spec(cover, secret, bits) - cover < pow2(
            (8 - bits) as nat,
        ),
        2 <= pow2((8 - bits) as nat),
        bits == 7 ==> pow2((8 - bits) as nat) == 2,
{
    lemma_shifted_powers(bits);
    let m = merge_channel_spec(cover, secret, bits);
    assert(bits <= 7 && m == (cover & !(0xFFu8 >> bits)) | (secret >> bits) ==> {
        &&& (m as u32) < (cover as u32) + (256u32 >> bits)
        &&& (cover as u32) < (m as u32) + (256u32 >> bits)
        &&& 2 <= (256u32 >> bits)
        &&& bits == 7 ==> (256u32 >> bits) == 2
    }) by (bit_vector);
}

/// With the two widths exchanged, the layout holds of the channel values for
/// which the exchange makes no difference to the merge: there the `8 - bits`
/// high-order bits of the merged channel are those of the cover, and its
/// `bits` low-order bits are the `bits` high-order bits of the secret.
pub proof fn lemma_merge_channel_layout_exchanged(cover: u8, secret: u8, bits: u8)
    requires
        bits <= MAX_MERGE_BITS,
        merges_alike_exchanged(cover, secret, bits),
    ensures
        keeps_cover_above_secret(
            merge_channel_spec(cover, secret, bits),
            cover,
            secret,
            (8 - bits) as u8,
        ),
        high_bits(merge_channel_spec(cover, secret, bits), 8 - bits) == high_bits(
            cover,
            8 - bits,
        ),
        low_bits(merge_channel_spec(cover, secret, bits), bits as int) == high_bits(
            secret,
            bits as int,
        ),
{
    if bits == 0 {
        lemma2_to64();
        assert(cover as int % 1 == 0 && secret as int / 256 == 0);
    } else {
        lemma_merge_channel_layout(cover, secret, (8 - bits) as u8);
    }
}

/// The exchanged layout holds of no other channel values, and at four bits
/// it holds of all.
pub proof fn lemma_merges_alike_exchanged(cover: u8, secret: u8, bits: u8)
    requires
        bits <= MAX_MERGE_BITS,
    ensures
        keeps_cover_above_secret(
            merge_channel_spec(cover, secret, bits),
            cover,
            secret,
            (8 - bits) as u8,
        ) ==> merges_alike_exchanged(cover, secret, bits),
        bits == 4 ==> merges_alike_exchanged(cover, secret, bits),
{
    let merged = merge_channel_spec(cover, secret, bits);
    let rest = (8 - bits) as u8;
    if keeps_cover_above_secret(merged, cover, secret, rest) {
        if bits == 0 {
            lemma2_to64();
            assert(cover as int % 1 == 0 && secret as int / 256 == 0);
            lemma_layout_is_unique(merged, cover, cover, secret, rest);
        } else {
            lemma_merge_channel_layout(cover, secret, rest);
            lemma_layout_is_unique(
                merged,
                merge_channel_spec(cover, secret, rest),
                cover,
                secret,
                rest,
            );
        }
    }
}

/// With the two widths exchanged, the round trip holds of the secrets whose
/// `bits` and `8 - bits` low-order bits spell the same number: there the
/// `bits` high-order bits of the secret are back in place above `8 - bits`
/// zeros.
pub proof fn lemma_unmerge_after_merge_exchanged(cover: u8, secret: u8, bits: u8)
    requires
        bits <= MAX_MERGE_BITS,
        low_bits(secret, bits as int) == low_bits(secret, 8 - bits),
    ensures
        unmerge_channel_spec(merge_channel_spec(cover, secret, bits), bits) == clear_low_bits(
            secret,
            (8 - bits) as u8,
        ),
        high_bits(unmerge_channel_spec(merge_channel_spec(cover, secret, bits), bits), bits as int)
            == high_bits(secret, bits as int),
        low_bits(unmerge_channel_spec(merge_channel_spec(cover, secret, bits), bits), 8 - bits)
            == 0,
{
    lemma_unmerge_after_merge(cover, secret, bits);
    lemma_clear_low_bits(secret, (8 - bits) as u8);
}

/// The exchanged round trip holds of no other secrets, and at four bits it
/// holds of all.
pub proof fn lemma_round_trips_alike_exchanged(cover: u8, secret: u8, bits: u8)
    requires
        bits <= MAX_MERGE_BITS,
    ensures
        unmerge_channel_spec(merge_channel_spec(cover, secret, bits), bits) == clear_low_bits(
            secret,
            (8 - bits) as u8,
        ) ==> low_bits(secret, bits as int) == low_bits(secret, 8 - bits),
        bits == 4 ==> low_bits(secret, bits as int) == low_bits(secret, 8 - bits),
{
    lemma_unmerge_after_merge(cover, secret, bits);
    lemma_clear_low_bits(secret, bits);
    lemma_clear_low_bits(secret, (8 - bits) as u8);
}

} // verus!
