use std::io::Cursor;

use image::codecs::jpeg::JpegEncoder;
use image::codecs::png::PngEncoder;
use image::codecs::webp::WebPEncoder;
use image::{ExtendedColorType, ImageEncoder};

use ipoc_rust::codec::Codec;
use ipoc_rust::processor::{ImageProcessor, TranscodeError, RESIZE_WIDTH};

fn make_rgb_jpeg(width: u32, height: u32) -> Vec<u8> {
    let img = image::RgbImage::from_pixel(width, height, image::Rgb([120, 140, 90]));
    let mut out = Vec::new();
    JpegEncoder::new_with_quality(&mut out, 90)
        .write_image(img.as_raw(), width, height, ExtendedColorType::Rgb8)
        .unwrap();
    out
}

fn make_rgba_png(width: u32, height: u32) -> Vec<u8> {
    let img = image::RgbaImage::from_pixel(width, height, image::Rgba([10, 20, 30, 128]));
    let mut out = Vec::new();
    PngEncoder::new(&mut out)
        .write_image(img.as_raw(), width, height, ExtendedColorType::Rgba8)
        .unwrap();
    out
}

fn make_gray_alpha_png(width: u32, height: u32) -> Vec<u8> {
    let img = image::GrayAlphaImage::from_pixel(width, height, image::LumaA([77, 200]));
    let mut out = Vec::new();
    PngEncoder::new(&mut out)
        .write_image(img.as_raw(), width, height, ExtendedColorType::La8)
        .unwrap();
    out
}

fn make_gray_png(width: u32, height: u32) -> Vec<u8> {
    let img = image::GrayImage::from_pixel(width, height, image::Luma([77]));
    let mut out = Vec::new();
    PngEncoder::new(&mut out)
        .write_image(img.as_raw(), width, height, ExtendedColorType::L8)
        .unwrap();
    out
}

fn make_rgb_webp(width: u32, height: u32) -> Vec<u8> {
    let img = image::RgbImage::from_pixel(width, height, image::Rgb([50, 60, 70]));
    let mut out = Vec::new();
    WebPEncoder::new_lossless(&mut out)
        .write_image(img.as_raw(), width, height, ExtendedColorType::Rgb8)
        .unwrap();
    out
}

fn decode_output(bytes: &[u8]) -> image::DynamicImage {
    image::ImageReader::new(Cursor::new(bytes))
        .with_guessed_format()
        .unwrap()
        .decode()
        .unwrap()
}

fn check_is_image_resized(bytes_vec: Vec<u8>) {
    let img = decode_output(&bytes_vec);
    assert_eq!(img.width(), RESIZE_WIDTH);
}

#[test]
fn resize_jpg() {
    let image_bytes = make_rgb_jpeg(640, 480);
    let procesor = ImageProcessor::new(image_bytes);
    let result = procesor.resize();
    check_is_image_resized(result.unwrap().bytes);
}

#[test]
fn resize_webp() {
    let image_bytes = make_rgb_webp(320, 200);
    let procesor = ImageProcessor::new(image_bytes);
    let result = procesor.resize();
    check_is_image_resized(result.unwrap().bytes);
}

#[test]
fn resize_png() {
    let image_bytes = make_rgba_png(400, 300);
    let procesor = ImageProcessor::new(image_bytes);
    let result = procesor.resize();
    check_is_image_resized(result.unwrap().bytes);
}

#[test]
fn every_format_gets_target_width() {
    let inputs = vec![
        make_rgb_jpeg(123, 77),
        make_rgba_png(99, 200),
        make_gray_alpha_png(64, 64),
        make_gray_png(300, 40),
        make_rgb_webp(150, 150),
    ];
    for bytes in inputs {
        let artifact = ImageProcessor::new(bytes).resize().unwrap();
        assert_eq!(decode_output(&artifact.bytes).width(), RESIZE_WIDTH);
    }
}

#[test]
fn alpha_inputs_take_lossless_path() {
    let rgba = ImageProcessor::new(make_rgba_png(80, 60)).resize().unwrap();
    assert_eq!(rgba.codec, Codec::Lossless);
    let gray_alpha = ImageProcessor::new(make_gray_alpha_png(80, 60)).resize().unwrap();
    assert_eq!(gray_alpha.codec, Codec::Lossless);
}

#[test]
fn opaque_inputs_take_lossy_path() {
    let rgb = ImageProcessor::new(make_rgb_jpeg(80, 60)).resize().unwrap();
    assert_eq!(rgb.codec, Codec::Lossy);
    let gray = ImageProcessor::new(make_gray_png(80, 60)).resize().unwrap();
    assert_eq!(gray.codec, Codec::Lossy);
    let webp = ImageProcessor::new(make_rgb_webp(80, 60)).resize().unwrap();
    assert_eq!(webp.codec, Codec::Lossy);
}

#[test]
fn zero_byte_payload_fails_decode() {
    let result = ImageProcessor::new(Vec::new()).resize();
    assert!(matches!(result, Err(TranscodeError::DecodeError)));
}

#[test]
fn random_noise_fails_decode() {
    let mut noise = Vec::new();
    let mut state: u64 = 0x12345678;
    for _ in 0..4096 {
        state = state.wrapping_mul(6364136223846793005).wrapping_add(1442695040888963407);
        noise.push((state >> 33) as u8);
    }
    let result = ImageProcessor::new(noise).resize();
    assert!(matches!(result, Err(TranscodeError::DecodeError)));
}

#[test]
fn truncated_file_fails_decode() {
    let mut bytes = make_rgb_jpeg(64, 64);
    bytes.truncate(20);
    let result = ImageProcessor::new(bytes).resize();
    assert!(matches!(result, Err(TranscodeError::DecodeError)));
}

#[test]
fn scenario_large_opaque_jpeg() {
    let artifact = ImageProcessor::new(make_rgb_jpeg(4928, 3279)).resize().unwrap();
    assert_eq!(artifact.codec, Codec::Lossy);
    let img = decode_output(&artifact.bytes);
    assert_eq!(img.width(), 1024);
    // round(1024 * 3279 / 4928) == 681
    assert_eq!(img.height(), 681);
}

#[test]
fn scenario_square_rgba_png() {
    let artifact = ImageProcessor::new(make_rgba_png(512, 512)).resize().unwrap();
    assert_eq!(artifact.codec, Codec::Lossless);
    let img = decode_output(&artifact.bytes);
    assert_eq!(img.width(), 1024);
    assert_eq!(img.height(), 1024);
    assert_eq!(img.color().channel_count(), 4);
}
