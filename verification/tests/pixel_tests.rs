use steg::{merge_channel, merge_pixels, unmerge_channel, unmerge_pixels, Pixel};

fn rgb(channels: [u8; 3]) -> Pixel {
    Pixel { r: channels[0], g: channels[1], b: channels[2] }
}

#[test]
fn merge_pixels_merges_nibble() {
    let cover = rgb([240, 240, 240]); // 11110000
    let secret = rgb([15, 15, 15]); // 00001111
    let merged = merge_pixels(cover, secret, 4);
    assert_eq!(merged, rgb([240, 240, 240])); // high 4 bits of cover, high 4 bits of secret
}

#[test]
fn merge_pixels_merges_zeroed_pixels() {
    let cover = rgb([0, 0, 0]);
    let secret = rgb([0, 0, 0]);
    let merged = merge_pixels(cover, secret, 4);
    assert_eq!(merged, rgb([0, 0, 0]));
}

#[test]
fn merge_pixels_merges_pixels_with_all_bits_set() {
    let cover = rgb([255, 255, 255]);
    let secret = rgb([255, 255, 255]);
    let merged = merge_pixels(cover, secret, 4);
    assert_eq!(merged, rgb([255, 255, 255]));
}

#[test]
fn merge_pixels_merges_pixels_with_mixed_channels() {
    let cover = rgb([255, 128, 64]);
    let secret = rgb([15, 15, 15]);
    let merged = merge_pixels(cover, secret, 4);
    assert_eq!(merged, rgb([240, 128, 64]));
}

#[test]
fn merge_pixels_merges_pixels_using_different_bitmasks() {
    let cover = rgb([240, 240, 240]); // 11110000
    let secret = rgb([15, 15, 15]); // 00001111

    assert_eq!(merge_pixels(cover, secret, 0), rgb([15, 15, 15])); // 00001111
    assert_eq!(merge_pixels(cover, secret, 1), rgb([135, 135, 135])); // 10000111
    assert_eq!(merge_pixels(cover, secret, 2), rgb([195, 195, 195])); // 11000011
    assert_eq!(merge_pixels(cover, secret, 3), rgb([225, 225, 225])); // 11100001
    assert_eq!(merge_pixels(cover, secret, 4), rgb([240, 240, 240])); // 11110000
    assert_eq!(merge_pixels(cover, secret, 5), rgb([240, 240, 240])); // 11110000
    assert_eq!(merge_pixels(cover, secret, 6), rgb([240, 240, 240])); // 11110000
    assert_eq!(merge_pixels(cover, secret, 7), rgb([240, 240, 240])); // 11110000
}

#[test]
fn unmerge_pixels_merges_nibble() {
    let merged = rgb([255, 255, 255]); // 11111111
    let secret = unmerge_pixels(merged, 4);
    assert_eq!(secret, rgb([240, 240, 240])); // 11110000
}

#[test]
fn unmerge_pixels_merges_zeroed_pixels() {
    let merged = rgb([0, 0, 0]);
    let secret = unmerge_pixels(merged, 4);
    assert_eq!(secret, rgb([0, 0, 0]));
}

#[test]
fn unmerge_pixels_merges_pixels_with_mixed_channels() {
    let merged = rgb([240, 128, 64]); // 11110000, 10000000, 01000000
    let secret = unmerge_pixels(merged, 4);
    assert_eq!(secret, rgb([0, 0, 0]));
}

#[test]
fn unmerge_pixels_merges_pixels_using_different_bitmasks() {
    let merged = rgb([15, 15, 15]); // 00001111

    assert_eq!(unmerge_pixels(merged, 0), rgb([15, 15, 15])); // 00001111
    assert_eq!(unmerge_pixels(merged, 1), rgb([30, 30, 30])); // 00011110
    assert_eq!(unmerge_pixels(merged, 2), rgb([60, 60, 60])); // 00111100
    assert_eq!(unmerge_pixels(merged, 3), rgb([120, 120, 120])); // 01111000
    assert_eq!(unmerge_pixels(merged, 4), rgb([240, 240, 240])); // 11110000
    assert_eq!(unmerge_pixels(merged, 5), rgb([224, 224, 224])); // 11100000
    assert_eq!(unmerge_pixels(merged, 6), rgb([192, 192, 192])); // 11000000
    assert_eq!(unmerge_pixels(merged, 7), rgb([128, 128, 128])); // 10000000
}

#[test]
fn merge_pixels_treats_channels_independently() {
    let cover = rgb([0b1010_1010, 0b0101_0101, 0b1111_0000]);
    let secret = rgb([0b1100_1100, 0b0011_0011, 0b0000_1111]);
    let merged = merge_pixels(cover, secret, 3);
    // three bits of cover above five bits of secret
    assert_eq!(merged, rgb([0b1011_1001, 0b0100_0110, 0b1110_0001]));
}

#[test]
fn merge_channel_keeps_cover_above_secret_for_every_input() {
    for bits in 0u8..=7 {
        let rest = 8 - u32::from(bits);
        for cover in 0u8..=255 {
            for secret in [0u8, 1, 15, 85, 127, 128, 170, 200, 254, 255] {
                let merged = merge_channel(cover, secret, bits);
                // the `bits` high-order bits are the cover's
                assert_eq!(u32::from(merged) >> rest, u32::from(cover) >> rest);
                // the other bits are the secret's high-order bits
                assert_eq!(u32::from(merged) % (1 << rest), u32::from(secret) >> bits);
            }
        }
    }
}

#[test]
fn merge_channel_with_widths_exchanged_differs_off_four_bits() {
    // cover 0, secret 255, one bit kept: 0_1111111
    let merged = merge_channel(0, 255, 1);
    assert_eq!(merged, 127);
    // its seven high-order bits are not the cover's
    assert_ne!(merged >> 1, 0);
    // at four bits both halves are nibbles, whatever the values
    for cover in 0u8..=255 {
        for secret in 0u8..=255 {
            let nibbles = merge_channel(cover, secret, 4);
            assert_eq!(nibbles >> 4, cover >> 4);
            assert_eq!(nibbles & 0x0F, secret >> 4);
        }
    }
}

#[test]
fn unmerge_after_merge_clears_low_bits_of_secret() {
    for bits in 0u8..=7 {
        for cover in [0u8, 1, 77, 128, 255] {
            for secret in 0u8..=255 {
                let back = unmerge_channel(merge_channel(cover, secret, bits), bits);
                let low = u32::from(secret) % (1 << bits);
                assert_eq!(u32::from(back), u32::from(secret) - low);
                assert_eq!(back == secret, low == 0);
            }
        }
    }
}

#[test]
fn unmerge_after_merge_with_widths_exchanged_differs_off_four_bits() {
    // secret 255, one bit kept: seven bits of the secret come back, not one
    let back = unmerge_channel(merge_channel(0, 255, 1), 1);
    assert_eq!(back, 254);
    assert_ne!(back % 128, 0);
    // at four bits the high nibble comes back above a zero nibble
    for secret in 0u8..=255 {
        let back = unmerge_channel(merge_channel(90, secret, 4), 4);
        assert_eq!(back >> 4, secret >> 4);
        assert_eq!(back & 0x0F, 0);
    }
}

#[test]
fn unmerge_after_merge_is_exact_at_zero_bits() {
    let cover = rgb([1, 2, 3]);
    let secret = rgb([201, 102, 53]);
    assert_eq!(unmerge_pixels(merge_pixels(cover, secret, 0), 0), secret);
}

#[test]
fn unmerge_after_merge_is_approximate() {
    let cover = rgb([200, 100, 50]);
    let secret = rgb([0b1011_0111, 0b0110_0000, 0b0000_0001]);
    let back = unmerge_pixels(merge_pixels(cover, secret, 4), 4);
    assert_eq!(back, rgb([0b1011_0000, 0b0110_0000, 0]));
}

#[test]
fn merge_with_zero_bits_is_the_secret() {
    for cover in [0u8, 90, 255] {
        for secret in 0u8..=255 {
            assert_eq!(merge_channel(cover, secret, 0), secret);
        }
    }
}

#[test]
fn merge_with_seven_bits_changes_the_lowest_bit_only() {
    for cover in 0u8..=255 {
        for secret in 0u8..=255 {
            let merged = merge_channel(cover, secret, 7);
            assert_eq!(merged >> 1, cover >> 1);
            assert_eq!(merged & 1, secret >> 7);
        }
    }
    assert_eq!(merge_pixels(rgb([254, 255, 0]), rgb([128, 127, 255]), 7), rgb([255, 254, 1]));
}

#[test]
fn unmerge_channel_shifts_out_the_cover() {
    assert_eq!(unmerge_channel(0b1010_0110, 3), 0b0011_0000);
    assert_eq!(unmerge_channel(255, 7), 128);
    assert_eq!(unmerge_channel(255, 0), 255);
}
