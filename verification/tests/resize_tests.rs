use image::imageops::FilterType;
use image::DynamicImage;
use wincam::{
    bgr_to_rgb, encode_bitmap, picture_target_fits, resize_decoded, resize_image_from_bytes,
    target_fits, try_resize_decoded, CamError, PixelFormat, MAX_RESAMPLED,
};

/// A 4 x 2 picture of three bytes per pixel, as a bitmap file.
fn small_file() -> (Vec<u8>, Vec<u8>) {
    let pixels: Vec<u8> = (0..24).map(|v| 10 * v).collect();
    (encode_bitmap(4, 2, PixelFormat::Rgb, &pixels), pixels)
}

/// A grey picture, 2 wide and 1 high, in a plain text format.
fn grey_file() -> Vec<u8> {
    b"P2\n2 1\n255\n0 255\n".to_vec()
}

const FILTERS: [FilterType; 5] = [
    FilterType::Nearest,
    FilterType::Triangle,
    FilterType::CatmullRom,
    FilterType::Gaussian,
    FilterType::Lanczos3,
];

#[test]
fn empty_buffer_is_a_decode_error() {
    assert_eq!(
        resize_image_from_bytes(&[], 4, 4, FilterType::Nearest),
        Some(Err(CamError::DecodeError))
    );
    assert_eq!(
        resize_decoded(image::load_from_memory(&[]), 4, 4, FilterType::Nearest),
        Err(CamError::DecodeError)
    );
}

#[test]
fn arbitrary_bytes_are_a_decode_error() {
    let bytes = [0xDEu8, 0xAD, 0xBE, 0xEF, 0x01, 0x02, 0x03, 0x04];
    assert_eq!(
        resize_image_from_bytes(&bytes, 8, 8, FilterType::Triangle),
        Some(Err(CamError::DecodeError))
    );
    let bytes = [0x13u8, 0x37, 0xC0, 0xFF, 0xEE, 0x00, 0x42, 0x99, 0x01, 0x02, 0x03, 0x04];
    assert_eq!(
        resize_image_from_bytes(&bytes, 4, 4, FilterType::Lanczos3),
        Some(Err(CamError::DecodeError))
    );
}

#[test]
fn a_signature_alone_is_a_decode_error() {
    assert_eq!(
        resize_image_from_bytes(b"BM", 1, 1, FilterType::Nearest),
        Some(Err(CamError::DecodeError))
    );
}

#[test]
fn raw_pixels_are_a_decode_error() {
    let (_, pixels) = small_file();
    assert_eq!(
        resize_image_from_bytes(&pixels, 4, 2, FilterType::Nearest),
        Some(Err(CamError::DecodeError))
    );
}

#[test]
fn a_truncated_file_is_a_decode_error() {
    let (file, _) = small_file();
    assert_eq!(
        resize_image_from_bytes(&file[..60], 4, 2, FilterType::Nearest),
        Some(Err(CamError::DecodeError))
    );
}

#[test]
fn a_failed_decode_is_a_decode_error_for_every_target() {
    for &(w, h) in &[(0u32, 0u32), (1, 1), (1, 134_217_729), (u32::MAX, u32::MAX)] {
        assert_eq!(
            resize_image_from_bytes(&[], w, h, FilterType::Nearest),
            Some(Err(CamError::DecodeError))
        );
        assert_eq!(
            try_resize_decoded(image::load_from_memory(&[1, 2, 3]), w, h, FilterType::Gaussian),
            Some(Err(CamError::DecodeError))
        );
        assert_eq!(
            resize_decoded(image::load_from_memory(b"BM"), w, h, FilterType::Triangle),
            Err(CamError::DecodeError)
        );
    }
}

#[test]
fn resized_picture_has_the_target_pixel_count() {
    let (file, _) = small_file();
    for &(w, h) in &[(1u32, 1u32), (8, 4), (3, 5), (4, 2), (16, 1), (1, 9)] {
        for &filter in &FILTERS {
            let out = resize_image_from_bytes(&file, w, h, filter).unwrap().unwrap();
            assert_eq!(out.len(), (w * h * 3) as usize);
        }
    }
}

#[test]
fn the_aspect_ratio_is_not_kept() {
    // 2 wide and 1 high becomes 1 wide and 2 high: two pixels of one byte
    let out = resize_image_from_bytes(&grey_file(), 1, 2, FilterType::Nearest);
    assert_eq!(out.unwrap().unwrap().len(), 2);
    let out = resize_image_from_bytes(&grey_file(), 2, 1, FilterType::Nearest);
    assert_eq!(out, Some(Ok(vec![0, 255])));
    let out = resize_image_from_bytes(&grey_file(), 5, 3, FilterType::Nearest);
    assert_eq!(out.unwrap().unwrap().len(), 15);
}

#[test]
fn every_filter_gives_the_same_shape() {
    for &filter in &FILTERS {
        let out = resize_image_from_bytes(&grey_file(), 3, 4, filter).unwrap().unwrap();
        assert_eq!(out.len(), 12);
        let (file, _) = small_file();
        let out = resize_image_from_bytes(&file, 3, 4, filter).unwrap().unwrap();
        assert_eq!(out.len(), 36);
    }
}

#[test]
fn resize_to_nothing_gives_no_bytes() {
    let (file, _) = small_file();
    assert_eq!(
        resize_image_from_bytes(&file, 0, 5, FilterType::Nearest),
        Some(Ok(Vec::new()))
    );
    assert_eq!(
        resize_image_from_bytes(&file, 5, 0, FilterType::Nearest),
        Some(Ok(Vec::new()))
    );
    assert_eq!(
        resize_image_from_bytes(&file, 0, 0, FilterType::Lanczos3),
        Some(Ok(Vec::new()))
    );
}

#[test]
fn resize_to_the_same_size_keeps_the_pixels() {
    // a bitmap file stores blue first, the decoder hands out red first
    let (file, pixels) = small_file();
    let out = resize_image_from_bytes(&file, 4, 2, FilterType::Nearest);
    assert_eq!(out, Some(Ok(bgr_to_rgb(&pixels))));
}

#[test]
fn the_written_bitmap_reads_back_and_resizes() {
    let pixels: Vec<u8> = (0..16).collect();
    let file = encode_bitmap(2, 2, PixelFormat::Rgba, &pixels);
    assert_eq!(file.len(), 70);
    let out = resize_image_from_bytes(&file, 2, 2, FilterType::Nearest).unwrap().unwrap();
    // the decoder drops the fourth byte of each pixel and hands out red first
    assert_eq!(out, vec![2, 1, 0, 6, 5, 4, 10, 9, 8, 14, 13, 12]);
}

#[test]
fn resize_of_one_colour_keeps_the_colour() {
    let mut pixels = Vec::new();
    for _ in 0..8 {
        pixels.extend_from_slice(&[30, 20, 10]);
    }
    let file = encode_bitmap(4, 2, PixelFormat::Rgb, &pixels);
    let out = resize_image_from_bytes(&file, 3, 3, FilterType::Nearest).unwrap().unwrap();
    assert_eq!(out.len(), 27);
    for pixel in out.chunks(3) {
        assert_eq!(pixel, &[10, 20, 30]);
    }
}

#[test]
fn resize_does_not_hand_the_input_back() {
    let (file, _) = small_file();
    let out = resize_image_from_bytes(&file, 2, 1, FilterType::Nearest).unwrap().unwrap();
    assert_eq!(out.len(), 6);
    assert_ne!(out, file);
}

#[test]
fn decoded_picture_is_resized_by_its_pixel_type() {
    assert!(target_fits(5, 7, 16, 10, 10));
    let out = resize_decoded(Ok(DynamicImage::new_rgb8(5, 7)), 3, 2, FilterType::Nearest);
    assert_eq!(out.unwrap().len(), 3 * 2 * 3);
    let out = resize_decoded(Ok(DynamicImage::new_rgba8(5, 7)), 3, 2, FilterType::Triangle);
    assert_eq!(out.unwrap().len(), 3 * 2 * 4);
    let out = resize_decoded(Ok(DynamicImage::new_luma8(5, 7)), 10, 10, FilterType::Gaussian);
    assert_eq!(out.unwrap().len(), 100);
    let out = resize_decoded(Ok(DynamicImage::new_luma16(5, 7)), 10, 10, FilterType::Nearest);
    assert_eq!(out.unwrap().len(), 200);
    let out = resize_decoded(Ok(DynamicImage::new_rgba32f(2, 2)), 3, 3, FilterType::Nearest);
    assert_eq!(out.unwrap().len(), 3 * 3 * 16);
}

#[test]
fn an_empty_picture_is_resized_to_blank_pixels() {
    let out = try_resize_decoded(Ok(DynamicImage::new_rgb8(0, 0)), 2, 2, FilterType::Nearest);
    assert_eq!(out, Some(Ok(vec![0u8; 12])));
}

#[test]
fn a_failed_decode_is_a_decode_error() {
    let failed = image::load_from_memory(&[1, 2, 3]);
    assert!(failed.is_err());
    assert_eq!(resize_decoded(failed, 2, 2, FilterType::Nearest), Err(CamError::DecodeError));
}

#[test]
fn a_target_that_does_not_fit_is_refused_after_decoding() {
    let (file, _) = small_file();
    // 3 * 2^32 * 2^32 bytes are more than any machine addresses
    assert!(!target_fits(4, 2, 3, u32::MAX, u32::MAX));
    assert_eq!(resize_image_from_bytes(&file, u32::MAX, u32::MAX, FilterType::Nearest), None);
    assert_eq!(
        try_resize_decoded(
            Ok(DynamicImage::new_luma8(1, 1)),
            u32::MAX,
            u32::MAX,
            FilterType::Nearest
        ),
        None
    );
    // more rows than the resampling can address
    assert_eq!(
        resize_image_from_bytes(&file, 1, MAX_RESAMPLED + 1, FilterType::Triangle),
        None
    );
    assert_eq!(
        try_resize_decoded(
            Ok(DynamicImage::new_luma8(1, 1)),
            MAX_RESAMPLED + 1,
            1,
            FilterType::CatmullRom
        ),
        None
    );
}

#[test]
fn a_picture_too_large_to_resample_is_refused() {
    // 2^23 + 1 rows of one grey pixel
    let tall = DynamicImage::new_luma8(1, MAX_RESAMPLED + 1);
    assert!(!picture_target_fits(&tall, 1, 4));
    assert_eq!(try_resize_decoded(Ok(tall), 1, 4, FilterType::Triangle), None);
    let wide = DynamicImage::new_luma8(MAX_RESAMPLED + 1, 1);
    assert!(!picture_target_fits(&wide, 4, 1));
    assert_eq!(try_resize_decoded(Ok(wide), 4, 1, FilterType::Triangle), None);
}

#[test]
fn a_picture_of_the_target_size_is_copied_whatever_its_size() {
    let tall = DynamicImage::new_luma8(1, MAX_RESAMPLED + 1);
    assert!(picture_target_fits(&tall, 1, MAX_RESAMPLED + 1));
    let out = try_resize_decoded(Ok(tall), 1, MAX_RESAMPLED + 1, FilterType::Triangle);
    assert_eq!(out.unwrap().unwrap().len(), (MAX_RESAMPLED + 1) as usize);
}

#[test]
fn a_picture_without_pixels_is_replaced_whatever_its_size() {
    let flat = DynamicImage::new_rgb8(MAX_RESAMPLED + 1, 0);
    assert!(picture_target_fits(&flat, 2, 3));
    assert_eq!(try_resize_decoded(Ok(flat), 2, 3, FilterType::Lanczos3), Some(Ok(vec![0; 18])));
}

#[test]
fn a_target_without_pixels_is_had_from_any_picture() {
    let tall = DynamicImage::new_luma8(1, MAX_RESAMPLED + 1);
    assert!(picture_target_fits(&tall, 0, 1));
    assert_eq!(try_resize_decoded(Ok(tall), 0, 1, FilterType::Triangle), Some(Ok(Vec::new())));
    let tall = DynamicImage::new_luma8(1, MAX_RESAMPLED + 1);
    assert_eq!(try_resize_decoded(Ok(tall), 3, 0, FilterType::Gaussian), Some(Ok(Vec::new())));
}

#[test]
fn a_long_picture_is_resampled() {
    // 2^20 rows of one grey pixel become 2^20 - 1 rows, and three rows
    let rows = 1u32 << 20;
    for &filter in &FILTERS {
        let tall = DynamicImage::new_luma8(1, rows);
        let out = try_resize_decoded(Ok(tall), 1, rows - 1, filter).unwrap().unwrap();
        assert_eq!(out.len(), (rows - 1) as usize);
        let tall = DynamicImage::new_luma8(1, rows);
        assert_eq!(try_resize_decoded(Ok(tall), 1, 3, filter), Some(Ok(vec![0, 0, 0])));
    }
}

#[test]
fn picture_test_reads_the_picture() {
    let picture = DynamicImage::new_rgba16(640, 480);
    assert!(picture_target_fits(&picture, 320, 240));
    assert_eq!(
        picture_target_fits(&picture, 0x4000, 0x4000),
        target_fits(640, 480, 8, 0x4000, 0x4000)
    );
    assert_eq!(
        picture_target_fits(&picture, 0x4000, 0x4000),
        8u128 << 28 <= isize::MAX as u128
    );
    assert!(!picture_target_fits(&picture, MAX_RESAMPLED + 1, 1));
}

#[test]
fn target_limit() {
    assert_eq!(MAX_RESAMPLED, 8_388_608);
    let limit = isize::MAX as u128;
    let top = MAX_RESAMPLED as u128;
    for &(sw, sh, pb, w, h) in &[
        (0u32, 0u32, 1u8, 0u32, 0u32),
        (1, 1, 1, 1, 1),
        (1920, 1080, 3, 640, 480),
        (1, 1, 1, 1, 8_388_608),
        (1, 1, 1, 1, 8_388_609),
        (1, 1, 1, 8_388_609, 1),
        (1, 8_388_609, 1, 1, 1),
        (8_388_609, 1, 1, 1, 1),
        (8_388_608, 8_388_608, 16, 8_388_608, 8_388_608),
        (8_388_608, 8_388_608, 1, 8_388_608, 1),
        (8_388_609, 7, 1, 8_388_609, 7),
        (8_388_609, 0, 4, 5, 5),
        (0, 8_388_609, 4, 5, 5),
        (8_388_609, 8_388_609, 1, 0, 5),
        (8_388_609, 8_388_609, 1, 5, 0),
        (u32::MAX, u32::MAX, 16, u32::MAX, u32::MAX),
        (u32::MAX, u32::MAX, 16, u32::MAX, 0),
        (u32::MAX, 1, 1, 0, u32::MAX),
        (4, 4, 16, 0x1000_0000, 1),
        (4, 4, 1, 0x1000_0000, 8),
    ] {
        let out_fits = pb as u128 * w as u128 * h as u128 <= limit;
        let resampled = sw != 0 && sh != 0 && !(sw == w && sh == h);
        let between_fits = 16 * sw as u128 * h as u128 <= limit;
        let sizes_fit = w == 0
            || h == 0
            || (sw as u128 <= top && sh as u128 <= top && w as u128 <= top && h as u128 <= top);
        let want = out_fits && (!resampled || (between_fits && sizes_fit));
        assert_eq!(target_fits(sw, sh, pb, w, h), want);
    }
    assert!(target_fits(1920, 1080, 3, 640, 480));
    assert!(target_fits(1, 1, 1, 1, 8_388_608));
    assert!(!target_fits(1, 1, 1, 1, 8_388_609));
    assert!(!target_fits(1, 8_388_609, 1, 1, 1));
    assert!(target_fits(8_388_609, 7, 1, 8_388_609, 7));
    assert!(target_fits(8_388_609, 0, 4, 5, 5));
    assert!(target_fits(8_388_609, 8_388_609, 1, 5, 0));
    assert!(!target_fits(u32::MAX, u32::MAX, 16, u32::MAX, u32::MAX));
}

#[test]
fn the_longest_picture_is_resampled_to_the_longest_target() {
    // one row less than 2^23 becomes 2^23 rows
    let tall = DynamicImage::new_luma8(1, MAX_RESAMPLED - 1);
    assert!(picture_target_fits(&tall, 1, MAX_RESAMPLED));
    let out = try_resize_decoded(Ok(tall), 1, MAX_RESAMPLED, FilterType::Triangle);
    assert_eq!(out.unwrap().unwrap().len(), MAX_RESAMPLED as usize);
}

#[test]
fn the_widest_picture_is_resampled_to_a_narrower_one() {
    // 2^23 pixels in a row become one less
    let wide = DynamicImage::new_luma8(MAX_RESAMPLED, 1);
    assert!(picture_target_fits(&wide, MAX_RESAMPLED - 1, 1));
    let out = try_resize_decoded(Ok(wide), MAX_RESAMPLED - 1, 1, FilterType::CatmullRom);
    assert_eq!(out.unwrap().unwrap().len(), (MAX_RESAMPLED - 1) as usize);
}
