//! The boundary to the image codecs.
//!
//! Everything the pipeline learns about raw bytes comes through the trusted
//! declarations in this module: decoding and re-encoding are done by the
//! `image` crate and resampling by the `fast_image_resize` crate, and each
//! call is wrapped in one function whose contract states what the crate's
//! own source shows. Nothing here names pixel *content* (the resampler's
//! output values may differ across CPUs); the names and claims cover only
//! what is a function of the bytes alone: decodability, dimensions, the
//! pixel-format tag, buffer lengths, and when each codec call succeeds.

use std::io::Cursor;

use image::codecs::jpeg::JpegEncoder;
use image::codecs::png::PngEncoder;
use image::{ExtendedColorType, ImageEncoder, ImageReader};

use fast_image_resize::images::Image;
use fast_image_resize::{FilterType, IntoImageView, ResizeAlg, ResizeOptions, Resizer};

use vstd::prelude::*;

use crate::codec::ResampleAlg as Resample;

verus! {

/// What a successful decode reveals about a byte sequence: the pixel
/// dimensions and the pixel-format tag (channel count, bytes per pixel, and
/// whether the format carries an alpha channel).
pub struct ImageMeta {
    pub width: u32,
    pub height: u32,
    pub channels: u8,
    pub bytes_per_pixel: u8,
    pub alpha: bool,
}

/// The outcome of running the `image` crate's sniff-and-decode chain on a
/// byte sequence: `None` when the bytes are not a decodable image, otherwise
/// the decoded image's metadata. Decoding is a function of the bytes alone,
/// so the outcome gets a name rather than a definition.
pub uninterp spec fn decode_meta(bytes: Seq<u8>) -> Option<ImageMeta>;

/// An upper bound on `width * height` handed to the resampler, so that the
/// destination pixel buffer stays well under memory limits.
pub const MAX_PIXELS: u64 = 0x400_0000;

/// An upper bound on the byte length handed to an encoder; far below the
/// decoders' default allocation limit, so an encoded artifact stays readable.
pub const MAX_ENCODE_BYTES: u64 = 0x1000_0000;

/// The (channels, bytes-per-pixel) pairs the lossless path offers its codec:
/// the byte-aligned alpha-bearing color types.
pub open spec fn png_color_supported(channels: u8, bpp: u8) -> bool {
    ||| (channels == 2 && bpp == 2)  // 8-bit luminance + alpha
    ||| (channels == 4 && bpp == 4)  // 8-bit RGBA
    ||| (channels == 2 && bpp == 4)  // 16-bit luminance + alpha
    ||| (channels == 4 && bpp == 8)  // 16-bit RGBA
}

/// The (channels, bytes-per-pixel) pairs the lossy path offers its codec:
/// the color types the JPEG encoder accepts.
pub open spec fn jpeg_color_supported(channels: u8, bpp: u8) -> bool {
    ||| (channels == 1 && bpp == 1)  // 8-bit luminance
    ||| (channels == 3 && bpp == 3)  // 8-bit RGB
}

/// Relies on `image::ImageReader`: `with_guessed_format` sniffs the format
/// from the leading bytes (never from a file name) and `decode` returns the
/// image or an error; `ColorType::{channel_count, bytes_per_pixel,
/// has_alpha}` report the decoded pixel-format tag. The outcome is a
/// function of the bytes, named `decode_meta`; errors on every path come
/// back as `None`.
#[verifier::external_body]
pub(crate) fn decode_image(bytes: &Vec<u8>) -> (r: Option<ImageMeta>)
    ensures
        r == decode_meta(bytes@),
{
    let reader = match ImageReader::new(Cursor::new(bytes.as_slice())).with_guessed_format() {
        Ok(reader) => reader,
        Err(_) => return None,
    };
    let img = match reader.decode() {
        Ok(img) => img,
        Err(_) => return None,
    };
    let color = img.color();
    Some(ImageMeta { width: img.width(), height: img.height(), channels: color.channel_count(), bytes_per_pixel: color.bytes_per_pixel(), alpha: color.has_alpha() })
}

/// Relies on `image::ImageReader` (the same deterministic decode chain as
/// `decode_meta`) and `fast_image_resize::Resizer::resize`: for a decoded
/// source with positive dimensions the resize onto a `width` by `height`
/// destination of the same pixel type cannot fail, and the destination
/// buffer holds exactly `width * height * bytes_per_pixel` bytes. Pixel
/// values themselves are not claimed: only quality is at stake in them.
#[verifier::external_body]
pub(crate) fn resample_pixels(bytes: &Vec<u8>, width: u32, height: u32, alg: Resample) -> (r:
    Option<Vec<u8>>)
    requires
        1 <= width,
        1 <= height,
        width * height <= MAX_PIXELS,
    ensures
        r is None ==> !(decode_meta(bytes@) matches Some(m) && 1 <= m.width && 1 <= m.height),
        r matches Some(v) ==> (decode_meta(bytes@) matches Some(m) ==> v@.len() == width * height
            * m.bytes_per_pixel),
        r is Some ==> decode_meta(bytes@) is Some,
{
    let img = match ImageReader::new(Cursor::new(bytes.as_slice())).with_guessed_format() {
        Ok(reader) => match reader.decode() { Ok(img) => img, Err(_) => return None },
        Err(_) => return None,
    };
    let pixel_type = match img.pixel_type() { Some(p) => p, None => return None };
    let mut dst = Image::new(width, height, pixel_type);
    let algorithm = match alg {
        Resample::Nearest => ResizeAlg::Nearest,
        Resample::Lanczos3 => ResizeAlg::Convolution(FilterType::Lanczos3),
    };
    match Resizer::new().resize(&img, &mut dst, &ResizeOptions::new().resize_alg(algorithm)) {
        Ok(()) => Some(dst.into_vec()),
        Err(_) => None,
    }
}

/// Relies on `image::codecs::png::PngEncoder::write_image`: it demands a
/// buffer of exactly `width * height * bytes_per_pixel` bytes, succeeds for
/// exactly the four alpha-bearing color types offered here (writing to an
/// in-memory buffer, nothing else can fail), and writes a lossless PNG
/// carrying the given dimensions and color type faithfully, which the
/// `image` decoders read back.
#[verifier::external_body]
pub(crate) fn encode_png(buf: &Vec<u8>, width: u32, height: u32, channels: u8, bpp: u8) -> (r:
    Option<Vec<u8>>)
    requires
        1 <= width,
        1 <= height,
        buf@.len() == width * height * bpp,
        width * height * bpp <= MAX_ENCODE_BYTES,
    ensures
        r matches Some(out) ==> decode_meta(out@) == Some(
            (ImageMeta {
                width,
                height,
                channels,
                bytes_per_pixel: bpp,
                alpha: true,
            }),
        ),
        (r is Some) <==> png_color_supported(channels, bpp),
{
    let color = match (channels, bpp) {
        (2, 2) => ExtendedColorType::La8,
        (4, 4) => ExtendedColorType::Rgba8,
        (2, 4) => ExtendedColorType::La16,
        (4, 8) => ExtendedColorType::Rgba16,
        _ => return None,
    };
    let mut out = Vec::new();
    match PngEncoder::new(&mut out).write_image(buf.as_slice(), width, height, color) {
        Ok(()) => Some(out),
        Err(_) => None,
    }
}

/// Relies on `image::codecs::jpeg::JpegEncoder::new_with_quality(.., 80)`
/// and `write_image`: it demands a buffer of exactly
/// `width * height * bytes_per_pixel` bytes, succeeds for exactly the two
/// color types offered here with both dimensions in the format's
/// `1..=65535` range (writing to an in-memory buffer, nothing else can
/// fail), and writes a baseline JPEG carrying the given dimensions, which
/// the `image` decoders read back as 8-bit luminance or RGB: no alpha.
#[verifier::external_body]
pub(crate) fn encode_jpeg(buf: &Vec<u8>, width: u32, height: u32, channels: u8, bpp: u8) -> (r:
    Option<Vec<u8>>)
    requires
        1 <= width,
        1 <= height,
        buf@.len() == width * height * bpp,
        width * height * bpp <= MAX_ENCODE_BYTES,
    ensures
        r matches Some(out) ==> decode_meta(out@) == Some(
            (ImageMeta {
                width,
                height,
                channels,
                bytes_per_pixel: bpp,
                alpha: false,
            }),
        ),
        (r is Some) <==> (jpeg_color_supported(channels, bpp) && width <= 65535 && height
            <= 65535),
{
    let color = match (channels, bpp) {
        (1, 1) => ExtendedColorType::L8,
        (3, 3) => ExtendedColorType::Rgb8,
        _ => return None,
    };
    let mut out = Vec::new();
    match JpegEncoder::new_with_quality(&mut out, 80).write_image(buf.as_slice(), width, height, color) {
        Ok(()) => Some(out),
        Err(_) => None,
    }
}

} // verus!
