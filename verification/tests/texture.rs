use teapot_scene::error::ResourceCreationError;
use teapot_scene::texture::TextureImage;

/// A PNG of 2 by 3 RGBA pixels. Top row: (10,11,12,13) (20,21,22,23);
/// middle row: (30,..) (40,..); bottom row: (50,..) (60,..).
fn rgba_png() -> Vec<u8> {
    vec![
        0x89, 0x50, 0x4e, 0x47, 0x0d, 0x0a, 0x1a, 0x0a, 0x00, 0x00, 0x00, 0x0d,
        0x49, 0x48, 0x44, 0x52, 0x00, 0x00, 0x00, 0x02, 0x00, 0x00, 0x00, 0x03,
        0x08, 0x06, 0x00, 0x00, 0x00, 0xb9, 0xea, 0xde, 0x81, 0x00, 0x00, 0x00,
        0x23, 0x49, 0x44, 0x41, 0x54, 0x78, 0xda, 0x63, 0xe0, 0xe2, 0xe6, 0xe1,
        0x15, 0x11, 0x15, 0x13, 0x67, 0x90, 0x93, 0x57, 0x50, 0xd4, 0xd0, 0xd4,
        0xd2, 0x66, 0x30, 0x32, 0x36, 0x31, 0xb5, 0xb1, 0xb5, 0xb3, 0x07, 0x00,
        0x21, 0xff, 0x03, 0x6d, 0xd5, 0x54, 0x30, 0xa6, 0x00, 0x00, 0x00, 0x00,
        0x49, 0x45, 0x4e, 0x44, 0xae, 0x42, 0x60, 0x82,
    ]
}

/// A PNG of 2 by 2 RGB pixels without alpha. Top row: (1,2,3) (4,5,6);
/// bottom row: (7,8,9) (10,11,12).
fn rgb_png() -> Vec<u8> {
    vec![
        0x89, 0x50, 0x4e, 0x47, 0x0d, 0x0a, 0x1a, 0x0a, 0x00, 0x00, 0x00, 0x0d,
        0x49, 0x48, 0x44, 0x52, 0x00, 0x00, 0x00, 0x02, 0x00, 0x00, 0x00, 0x02,
        0x08, 0x02, 0x00, 0x00, 0x00, 0xfd, 0xd4, 0x9a, 0x73, 0x00, 0x00, 0x00,
        0x16, 0x49, 0x44, 0x41, 0x54, 0x78, 0xda, 0x63, 0x60, 0x64, 0x62, 0x66,
        0x61, 0x65, 0x63, 0x60, 0xe7, 0xe0, 0xe4, 0xe2, 0xe6, 0x01, 0x00, 0x01,
        0x8f, 0x00, 0x4f, 0x06, 0xa8, 0xe5, 0x8a, 0x00, 0x00, 0x00, 0x00, 0x49,
        0x45, 0x4e, 0x44, 0xae, 0x42, 0x60, 0x82,
    ]
}

#[test]
fn top_down_rows_come_out_bottom_up() {
    let rows = vec![1, 2, 3, 4, 5, 6, 7, 8, 9, 10, 11, 12, 13, 14, 15, 16, 17, 18, 19, 20, 21, 22, 23, 24];
    let image = TextureImage::from_top_down(rows, 2, 3).unwrap();
    assert_eq!(image.width(), 2);
    assert_eq!(image.height(), 3);
    assert_eq!(
        image.data(),
        &vec![17, 18, 19, 20, 21, 22, 23, 24, 9, 10, 11, 12, 13, 14, 15, 16, 1, 2, 3, 4, 5, 6, 7, 8]
    );
}

#[test]
fn single_row_is_unchanged() {
    let image = TextureImage::from_top_down(vec![9, 8, 7, 6, 5, 4, 3, 2], 2, 1).unwrap();
    assert_eq!(image.data(), &vec![9, 8, 7, 6, 5, 4, 3, 2]);
}

#[test]
fn flipping_twice_gives_the_rows_back() {
    let rows: Vec<u8> = (0..48).collect();
    let once = TextureImage::from_top_down(rows.clone(), 3, 4).unwrap();
    assert_ne!(once.data(), &rows);
    let twice = TextureImage::from_top_down(once.into_data(), 3, 4).unwrap();
    assert_eq!(twice.into_data(), rows);
}

#[test]
fn pixel_of_bottom_row_is_source_pixel_of_last_row() {
    let rows: Vec<u8> = (0..48).collect();
    let image = TextureImage::from_top_down(rows.clone(), 3, 4).unwrap();
    // column 1 of the bottom row is column 1 of source row 3
    assert_eq!(&image.data()[4..8], &rows[4 * (3 * 3 + 1)..4 * (3 * 3 + 1) + 4]);
    // column 2 of row 1 from the bottom is column 2 of source row 2
    assert_eq!(&image.data()[4 * (3 + 2)..4 * (3 + 2) + 4], &rows[4 * (2 * 3 + 2)..4 * (2 * 3 + 2) + 4]);
}

#[test]
fn image_without_pixels_is_refused() {
    assert_eq!(
        TextureImage::from_top_down(Vec::new(), 0, 5).unwrap_err(),
        ResourceCreationError::EmptyImage
    );
    assert_eq!(
        TextureImage::from_top_down(Vec::new(), 5, 0).unwrap_err(),
        ResourceCreationError::EmptyImage
    );
    assert_eq!(
        TextureImage::from_top_down(vec![1, 2, 3, 4], 0, 0).unwrap_err(),
        ResourceCreationError::EmptyImage
    );
}

#[test]
fn byte_count_must_fit_the_size() {
    assert_eq!(
        TextureImage::from_top_down(vec![0; 7], 1, 2).unwrap_err(),
        ResourceCreationError::DimensionMismatch
    );
    assert_eq!(
        TextureImage::from_top_down(vec![0; 9], 1, 2).unwrap_err(),
        ResourceCreationError::DimensionMismatch
    );
    assert_eq!(
        TextureImage::from_top_down(Vec::new(), 1, 1).unwrap_err(),
        ResourceCreationError::DimensionMismatch
    );
    assert!(TextureImage::from_top_down(vec![0; 8], 1, 2).is_ok());
}

#[test]
fn huge_size_does_not_overflow() {
    assert_eq!(
        TextureImage::from_top_down(vec![0; 16], u32::MAX, u32::MAX).unwrap_err(),
        ResourceCreationError::DimensionMismatch
    );
}

#[test]
fn png_is_decoded_and_flipped() {
    let image = TextureImage::from_png(&rgba_png()).unwrap();
    assert_eq!(image.width(), 2);
    assert_eq!(image.height(), 3);
    assert_eq!(
        image.data(),
        &vec![
            50, 51, 52, 53, 60, 61, 62, 63, 30, 31, 32, 33, 40, 41, 42, 43, 10, 11, 12, 13, 20,
            21, 22, 23
        ]
    );
}

#[test]
fn png_without_alpha_becomes_opaque_rgba() {
    let image = TextureImage::from_png(&rgb_png()).unwrap();
    assert_eq!(image.width(), 2);
    assert_eq!(image.height(), 2);
    assert_eq!(
        image.into_data(),
        vec![7, 8, 9, 255, 10, 11, 12, 255, 1, 2, 3, 255, 4, 5, 6, 255]
    );
}

#[test]
fn bytes_that_are_no_png_are_refused() {
    assert_eq!(
        TextureImage::from_png(b"not a picture").unwrap_err(),
        ResourceCreationError::ImageDecode
    );
    assert_eq!(TextureImage::from_png(&[]).unwrap_err(), ResourceCreationError::ImageDecode);
}

#[test]
fn truncated_png_is_refused() {
    let whole = rgba_png();
    assert_eq!(
        TextureImage::from_png(&whole[..40]).unwrap_err(),
        ResourceCreationError::ImageDecode
    );
}
