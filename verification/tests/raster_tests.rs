use steg::{Pixel, RasterImage};

fn rgb(channels: [u8; 3]) -> Pixel {
    Pixel { r: channels[0], g: channels[1], b: channels[2] }
}

/// A `width` x `height` image whose samples count up from `start`.
fn counting(width: u32, height: u32, start: u8) -> RasterImage {
    let len = 3 * width as usize * height as usize;
    let data: Vec<u8> = (0..len).map(|k| start.wrapping_add(k as u8)).collect();
    RasterImage::from_raw(width, height, data).unwrap()
}

#[test]
fn new_image_is_black() {
    let img = RasterImage::new(3, 2);
    assert_eq!(img.dimensions(), (3, 2));
    assert_eq!(img.width(), 3);
    assert_eq!(img.height(), 2);
    assert_eq!(img.into_raw(), vec![0u8; 18]);
}

#[test]
fn new_image_may_be_empty() {
    assert_eq!(RasterImage::new(0, 5).into_raw(), Vec::<u8>::new());
    assert_eq!(RasterImage::new(5, 0).dimensions(), (5, 0));
}

#[test]
fn from_raw_takes_exactly_three_samples_per_pixel() {
    assert!(RasterImage::from_raw(2, 2, vec![0; 12]).is_some());
    assert!(RasterImage::from_raw(2, 2, vec![0; 11]).is_none());
    assert!(RasterImage::from_raw(2, 2, vec![0; 13]).is_none());
    assert!(RasterImage::from_raw(0, 7, vec![]).is_some());
    assert!(RasterImage::from_raw(0, 7, vec![1]).is_none());
    assert!(RasterImage::from_raw(u32::MAX, u32::MAX, vec![0; 3]).is_none());
}

#[test]
fn from_raw_and_into_raw_keep_the_samples() {
    let data: Vec<u8> = (1..=24).collect();
    let img = RasterImage::from_raw(4, 2, data.clone()).unwrap();
    assert_eq!(img.dimensions(), (4, 2));
    assert_eq!(img.into_raw(), data);
}

#[test]
fn get_pixel_reads_row_major() {
    let img = counting(3, 2, 0);
    assert_eq!(img.get_pixel(0, 0), rgb([0, 1, 2]));
    assert_eq!(img.get_pixel(2, 0), rgb([6, 7, 8]));
    assert_eq!(img.get_pixel(0, 1), rgb([9, 10, 11]));
    assert_eq!(img.get_pixel(2, 1), rgb([15, 16, 17]));
}

#[test]
fn put_pixel_replaces_one_pixel() {
    let mut img = counting(2, 2, 0);
    img.put_pixel(1, 1, rgb([200, 201, 202]));
    assert_eq!(img.get_pixel(1, 1), rgb([200, 201, 202]));
    assert_eq!(img.get_pixel(0, 1), rgb([6, 7, 8]));
    assert_eq!(img.into_raw(), vec![0, 1, 2, 3, 4, 5, 6, 7, 8, 200, 201, 202]);
}

#[test]
fn resize_nearest_doubles_each_pixel() {
    // a b
    // c d
    let img = RasterImage::from_raw(2, 2, vec![10, 11, 12, 20, 21, 22, 30, 31, 32, 40, 41, 42])
        .unwrap();
    assert!(img.can_resize_to(4, 4));
    let big = img.resize_nearest(4, 4);
    assert_eq!(big.dimensions(), (4, 4));
    let a = rgb([10, 11, 12]);
    let b = rgb([20, 21, 22]);
    let c = rgb([30, 31, 32]);
    let d = rgb([40, 41, 42]);
    let expected = [[a, a, b, b], [a, a, b, b], [c, c, d, d], [c, c, d, d]];
    for y in 0..4u32 {
        for x in 0..4u32 {
            assert_eq!(big.get_pixel(x, y), expected[y as usize][x as usize]);
        }
    }
}

#[test]
fn resize_nearest_picks_one_source_pixel_when_shrinking() {
    let img = counting(4, 4, 0);
    let small = img.resize_nearest(2, 2);
    assert_eq!(small.dimensions(), (2, 2));
    // the centre of each output pixel falls on the source pixels 1 and 3
    assert_eq!(small.get_pixel(0, 0), img.get_pixel(1, 1));
    assert_eq!(small.get_pixel(1, 0), img.get_pixel(3, 1));
    assert_eq!(small.get_pixel(0, 1), img.get_pixel(1, 3));
    assert_eq!(small.get_pixel(1, 1), img.get_pixel(3, 3));
}

#[test]
fn resize_nearest_agrees_with_the_image_crate() {
    let img = counting(5, 3, 17);
    let direct = image::imageops::resize(
        &image::RgbImage::from_raw(5, 3, counting(5, 3, 17).into_raw()).unwrap(),
        7,
        4,
        image::imageops::FilterType::Nearest,
    );
    let ours = img.resize_nearest(7, 4);
    assert_eq!(ours.dimensions(), (7, 4));
    assert_eq!(ours.into_raw(), direct.into_raw());
}

#[test]
fn resize_nearest_gives_the_same_result_each_time() {
    let img = counting(6, 5, 3);
    let first = img.resize_nearest(4, 9).into_raw();
    let second = img.resize_nearest(4, 9).into_raw();
    assert_eq!(first.len(), 3 * 4 * 9);
    assert_eq!(first, second);
}

#[test]
fn resize_nearest_to_the_same_dimensions_changes_nothing() {
    let img = counting(3, 5, 100);
    let same = img.resize_nearest(3, 5);
    assert_eq!(same.dimensions(), (3, 5));
    assert_eq!(same.into_raw(), counting(3, 5, 100).into_raw());
}

#[test]
fn resize_nearest_of_an_empty_image_is_black() {
    let img = RasterImage::new(0, 0);
    assert!(img.can_resize_to(2, 2));
    let out = img.resize_nearest(2, 2);
    assert_eq!(out.dimensions(), (2, 2));
    assert_eq!(out.into_raw(), vec![0u8; 12]);
}

#[test]
fn resize_nearest_to_nothing_is_empty() {
    let out = counting(3, 3, 0).resize_nearest(0, 4);
    assert_eq!(out.dimensions(), (0, 4));
    assert!(out.into_raw().is_empty());
}

#[test]
fn resize_nearest_of_a_wide_image_without_rows() {
    let img = RasterImage::from_raw(2_000_000_000, 0, Vec::new()).unwrap();
    // three times the width fits a usize of 64 bits, not one of 32
    assert_eq!(img.can_resize_to(1, 1), usize::BITS >= 64);
    if img.can_resize_to(1, 1) {
        let out = img.resize_nearest(1, 1);
        assert_eq!(out.dimensions(), (1, 1));
        assert_eq!(out.into_raw(), vec![0u8; 3]);
    }
}

#[test]
fn resize_nearest_to_a_wide_image_without_rows() {
    let img = counting(1, 1, 9);
    assert_eq!(img.can_resize_to(2_000_000_000, 0), usize::BITS >= 64);
    assert!(img.can_resize_to(5000, 0));
    let out = img.resize_nearest(5000, 0);
    assert_eq!(out.dimensions(), (5000, 0));
    assert!(out.into_raw().is_empty());
}

#[test]
fn can_resize_to_refuses_what_cannot_be_allocated() {
    let img = counting(2, 2, 0);
    assert!(img.can_resize_to(1000, 1000));
    // more than isize::MAX bytes on any machine
    assert!(!img.can_resize_to(u32::MAX, u32::MAX));
}
