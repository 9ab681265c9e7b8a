use filter::{encode_gray, has_png_signature, transform, GrayImage, TransformError};
use image::{DynamicImage, ImageBuffer, ImageFormat, Rgb};
use std::io::Cursor;

const SIGNATURE: [u8; 8] = [137, 80, 78, 71, 13, 10, 26, 10];

fn rgb_png(width: u32, height: u32, color: [u8; 3]) -> Vec<u8> {
    let img: ImageBuffer<Rgb<u8>, _> = ImageBuffer::from_fn(width, height, |_, _| Rgb(color));
    let mut buf = Vec::new();
    DynamicImage::ImageRgb8(img)
        .write_to(&mut Cursor::new(&mut buf), ImageFormat::Png)
        .unwrap();
    buf
}

#[test]
fn transform_of_well_formed_png_opens_with_signature() {
    let input = rgb_png(4, 3, [10, 200, 30]);
    let out = transform(&input).unwrap();
    assert_eq!(&out[..8], &SIGNATURE);
    assert_ne!(out, input);
}

#[test]
fn transform_of_empty_input_is_decode_failure() {
    assert_eq!(transform(&[]), Err(TransformError::Decode));
}

#[test]
fn transform_of_text_is_decode_failure() {
    assert_eq!(transform(b"not a png"), Err(TransformError::Decode));
}

#[test]
fn transform_of_bare_signature_is_decode_failure() {
    assert_eq!(transform(&SIGNATURE), Err(TransformError::Decode));
}

#[test]
fn transform_of_truncated_png_is_decode_failure() {
    let input = rgb_png(2, 2, [1, 2, 3]);
    assert_eq!(transform(&input[..input.len() / 2]), Err(TransformError::Decode));
}

#[test]
fn round_trip_keeps_dimensions_and_gives_luma() {
    let input = rgb_png(5, 3, [0, 0, 255]);
    let out = transform(&input).unwrap();
    let decoded = image::load_from_memory(&out).unwrap();
    assert_eq!(decoded.color(), image::ColorType::L8);
    assert_eq!(decoded.width(), 5);
    assert_eq!(decoded.height(), 3);
}

#[test]
fn single_saturated_pixel_becomes_single_luma_pixel() {
    let input = rgb_png(1, 1, [255, 0, 0]);
    let out = transform(&input).unwrap();
    assert_eq!(&out[..8], &SIGNATURE);
    let decoded = image::load_from_memory(&out).unwrap();
    assert_eq!(decoded.color(), image::ColorType::L8);
    assert_eq!((decoded.width(), decoded.height()), (1, 1));
}

#[test]
fn transform_keeps_black_and_white() {
    for v in [0u8, 255] {
        let input = rgb_png(2, 2, [v, v, v]);
        let out = transform(&input).unwrap();
        let decoded = image::load_from_memory(&out).unwrap().to_luma8();
        assert_eq!(decoded.into_raw(), vec![v; 4]);
    }
}

#[test]
fn signature_is_recognised() {
    assert!(has_png_signature(&SIGNATURE));
    assert!(has_png_signature(&rgb_png(1, 1, [0, 0, 0])));
    assert!(!has_png_signature(&SIGNATURE[..7]));
    assert!(!has_png_signature(b"GIF89a\0\0"));
    assert!(!has_png_signature(&[]));
}

#[test]
fn encode_gray_writes_png() {
    let img = GrayImage { width: 2, height: 1, pixels: vec![0, 255] };
    let out = encode_gray(&img).unwrap();
    assert_eq!(&out[..8], &SIGNATURE);
    let decoded = image::load_from_memory(&out).unwrap().to_luma8();
    assert_eq!(decoded.into_raw(), vec![0, 255]);
}

#[test]
fn encode_gray_refuses_wrong_sample_count() {
    let img = GrayImage { width: 2, height: 2, pixels: vec![1, 2, 3] };
    assert_eq!(encode_gray(&img), Err(TransformError::Encode));
}

#[test]
fn transform_is_deterministic() {
    let input = rgb_png(3, 3, [12, 34, 56]);
    assert_eq!(transform(&input).unwrap(), transform(&input).unwrap());
}

#[test]
fn transform_equals_encoding_of_luma_raster() {
    let input = rgb_png(2, 3, [200, 100, 50]);
    let luma = image::load_from_memory(&input).unwrap().to_luma8();
    let expected = encode_gray(&GrayImage { width: 2, height: 3, pixels: luma.into_raw() }).unwrap();
    assert_eq!(transform(&input).unwrap(), expected);
}
