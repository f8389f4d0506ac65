use media_compress::codec::{
    compress_image_lossless_to_png, compress_image_lossless_to_png_with_iterations,
    compress_image_lossy_to_jpeg,
};
use media_compress::error::Error;

fn png_of(img: image::RgbImage) -> Vec<u8> {
    let mut png: Vec<u8> = Vec::new();
    image::DynamicImage::ImageRgb8(img)
        .write_to(&mut std::io::Cursor::new(&mut png), image::ImageFormat::Png)
        .unwrap();
    png
}

fn small_test_image() -> image::RgbImage {
    image::RgbImage::from_fn(4, 3, |x, y| {
        image::Rgb([(x * 60) as u8, (y * 80) as u8, ((x + y) * 30) as u8])
    })
}

#[test]
fn lossy_output_is_nonempty_jpeg() {
    let input = png_of(small_test_image());
    let out = compress_image_lossy_to_jpeg(&input).unwrap();
    assert!(!out.is_empty());
    assert_eq!(out[0], 0xff);
    assert_eq!(out[1], 0xd8);
    assert_eq!(out[2], 0xff);
    // And it really is a decodable JPEG of the same dimensions.
    let decoded = image::load_from_memory(&out).unwrap();
    assert_eq!(decoded.width(), 4);
    assert_eq!(decoded.height(), 3);
}

#[test]
fn lossless_single_red_pixel_roundtrips() {
    let input = png_of(image::RgbImage::from_pixel(1, 1, image::Rgb([255, 0, 0])));
    let out = compress_image_lossless_to_png(&input).unwrap();
    assert!(!out.is_empty());
    assert_eq!(&out[0..4], &[0x89, 0x50, 0x4e, 0x47]);
    let decoded = image::load_from_memory(&out).unwrap().to_rgb8();
    assert_eq!(decoded.width(), 1);
    assert_eq!(decoded.height(), 1);
    assert_eq!(decoded.get_pixel(0, 0).0, [255, 0, 0]);
}

#[test]
fn lossless_roundtrip_preserves_pixel_data() {
    let source = small_test_image();
    let input = png_of(source.clone());
    let out = compress_image_lossless_to_png_with_iterations(&input, 2).unwrap();
    let direct = image::load_from_memory(&input).unwrap().to_rgb8();
    let reencoded = image::load_from_memory(&out).unwrap().to_rgb8();
    assert_eq!(direct.dimensions(), reencoded.dimensions());
    assert_eq!(direct.into_raw(), reencoded.into_raw());
    assert_eq!(source.into_raw().len(), 4 * 3 * 3);
}

#[test]
fn lossless_skipped_recompression_still_roundtrips() {
    let source = small_test_image();
    let input = png_of(source);
    let out = compress_image_lossless_to_png_with_iterations(&input, 0).unwrap();
    assert!(!out.is_empty());
    assert_eq!(&out[0..2], &[0x89, 0x50]);
    let direct = image::load_from_memory(&input).unwrap().to_rgb8();
    let reencoded = image::load_from_memory(&out).unwrap().to_rgb8();
    assert_eq!(direct.into_raw(), reencoded.into_raw());
}

#[test]
fn undecodable_input_is_a_decode_error() {
    let garbage: Vec<u8> = vec![0x00, 0x01, 0x02, 0x03, 0x04];
    assert!(matches!(
        compress_image_lossy_to_jpeg(&garbage),
        Err(Error::DecodeError)
    ));
    assert!(matches!(
        compress_image_lossless_to_png(&garbage),
        Err(Error::DecodeError)
    ));
}
