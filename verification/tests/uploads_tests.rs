use dulacmycamp_api::error::AppError;
use dulacmycamp_api::uploads::compress_image;
use image::codecs::jpeg::JpegEncoder;
use image::{DynamicImage, GenericImageView, ImageEncoder, ImageFormat, Rgb, RgbImage, Rgba, RgbaImage};
use std::io::Cursor;

fn photo(w: u32, h: u32) -> RgbImage {
    RgbImage::from_fn(w, h, |x, y| {
        let n = (x.wrapping_mul(7919) ^ y.wrapping_mul(104_729)) % 23;
        Rgb([(x % 256) as u8, (y % 256) as u8, (n * 11) as u8])
    })
}

fn jpeg(img: &RgbImage, quality: u8) -> Vec<u8> {
    let mut out = Vec::new();
    JpegEncoder::new_with_quality(&mut out, quality).encode_image(img).unwrap();
    out
}

fn png(img: &DynamicImage) -> Vec<u8> {
    let mut out = Vec::new();
    img.write_to(&mut Cursor::new(&mut out), ImageFormat::Png).unwrap();
    out
}

fn decoded(bytes: &[u8]) -> DynamicImage {
    image::load_from_memory(bytes).unwrap()
}

fn with_exif_orientation(jpeg: &[u8], orientation: u16) -> Vec<u8> {
    let mut tiff = vec![b'M', b'M', 0, 42, 0, 0, 0, 8];
    tiff.extend_from_slice(&1u16.to_be_bytes());
    tiff.extend_from_slice(&0x0112u16.to_be_bytes());
    tiff.extend_from_slice(&3u16.to_be_bytes());
    tiff.extend_from_slice(&1u32.to_be_bytes());
    tiff.extend_from_slice(&orientation.to_be_bytes());
    tiff.extend_from_slice(&[0, 0]);
    tiff.extend_from_slice(&0u32.to_be_bytes());
    let mut app1 = b"Exif\0\0".to_vec();
    app1.extend_from_slice(&tiff);
    let mut out = jpeg[..2].to_vec();
    out.extend_from_slice(&[0xFF, 0xE1]);
    out.extend_from_slice(&((app1.len() + 2) as u16).to_be_bytes());
    out.extend_from_slice(&app1);
    out.extend_from_slice(&jpeg[2..]);
    out
}

#[test]
fn a_portrait_jpeg_is_measured_on_its_long_edge() {
    let out = compress_image(jpeg(&photo(1500, 3000), 90)).unwrap();
    assert_eq!(decoded(&out.bytes).dimensions(), (1000, 2000));
}

#[test]
fn a_small_jpeg_keeps_its_size_but_is_still_re_encoded() {
    let original = with_exif_orientation(&jpeg(&photo(800, 600), 95), 1);
    let out = compress_image(original.clone()).unwrap();
    assert_eq!(decoded(&out.bytes).dimensions(), (800, 600));
    assert!(!out.bytes.windows(4).any(|w| w == b"Exif"));
}

#[test]
fn exif_orientation_is_applied_so_phone_photos_stay_upright() {
    let original = with_exif_orientation(&jpeg(&photo(3000, 1000), 90), 6);
    let out = compress_image(original).unwrap();
    assert_eq!(decoded(&out.bytes).dimensions(), (667, 2000));
}

#[test]
fn a_small_png_is_stored_byte_for_byte() {
    let original = png(&DynamicImage::ImageRgba8(RgbaImage::from_pixel(300, 200, Rgba([10, 20, 30, 0]))));
    let out = compress_image(original.clone()).unwrap();
    assert_eq!(out.ext, "png");
    assert_eq!(out.bytes, original);
}

#[test]
fn an_oversized_png_is_shrunk_but_keeps_its_transparency() {
    let original = png(&DynamicImage::ImageRgba8(RgbaImage::from_pixel(3000, 1000, Rgba([200, 100, 50, 0]))));
    let out = compress_image(original).unwrap();
    assert_eq!(out.ext, "png");
    let img = decoded(&out.bytes);
    assert_eq!(img.dimensions(), (2000, 667));
    assert!(img.color().has_alpha());
    assert_eq!(img.to_rgba8().get_pixel(10, 10)[3], 0);
}

#[test]
fn an_oversized_opaque_webp_becomes_a_jpeg() {
    let mut original = Vec::new();
    image::codecs::webp::WebPEncoder::new_lossless(&mut original)
        .write_image(photo(2400, 1200).as_raw(), 2400, 1200, image::ExtendedColorType::Rgb8)
        .unwrap();
    let out = compress_image(original).unwrap();
    assert_eq!(out.ext, "jpg");
    assert_eq!(decoded(&out.bytes).dimensions(), (2000, 1000));
}

#[test]
fn something_that_only_claims_to_be_an_image_is_refused() {
    for junk in [b"%PDF-1.7 not a photo at all".to_vec(), b"<html><body>hi</body></html>".to_vec(), vec![]] {
        assert!(matches!(compress_image(junk), Err(AppError::BadRequest(_))));
    }
}

#[test]
fn a_jpeg_with_no_image_data_is_refused_rather_than_stored() {
    let whole = jpeg(&photo(400, 300), 90);
    assert!(matches!(compress_image(whole[..24].to_vec()), Err(AppError::BadRequest(_))));
}
