//! The image transcoder: raw upload bytes in, encoded artifact out.
//!
//! Decode, compute the target geometry, resample, pick the codec from the
//! alpha tag, and encode. Every outcome is classified exactly, success
//! included: the transcode returns `Ok` if and only if the bytes decode to
//! a source with accepted dimensions whose scaled form fits the pipeline's
//! size limits and whose pixel format the chosen codec accepts. Bytes that
//! do not decode fail with `DecodeError`, a source whose dimensions are
//! zero (or whose scaled height leaves the pixel grid) fails with
//! `InvalidDimensions`, and everything the codec path cannot take is
//! `EncodeError`.

use vstd::prelude::*;

use crate::codec::{codec_for_alpha, choose_codec, Codec, ResampleAlg};
use crate::geometry::rounded_height;
use crate::geometry::resized_height;
use crate::imageio::{
    decode_image, decode_meta, encode_jpeg, encode_png, jpeg_color_supported, png_color_supported,
    resample_pixels, ImageMeta, MAX_ENCODE_BYTES, MAX_PIXELS,
};

verus! {

/// The fixed width every stored image is normalized to.
pub const RESIZE_WIDTH: u32 = 1024;

/// One upload's worth of raw bytes, ready to be transcoded.
pub struct ImageProcessor {
    pub image_bytes: Vec<u8>,
}

/// The transcoder's output: the encoded bytes and the codec they carry.
pub struct EncodedArtifact {
    pub bytes: Vec<u8>,
    pub codec: Codec,
}

/// Why a transcode failed. All three kinds are non-retryable locally and
/// surface to the caller as one failed-transcode condition.
#[derive(Clone, Copy, PartialEq, Eq, Structural, Debug)]
pub enum TranscodeError {
    /// The bytes are not a recognizable, decodable image.
    DecodeError,
    /// A source dimension is zero, or the aspect-preserving target height
    /// has no representable pixel value.
    InvalidDimensions,
    /// The scaled image leaves the pipeline's size limits, or its pixel
    /// format is one the chosen codec cannot write.
    EncodeError,
}

/// A decoded source the pipeline accepts: positive dimensions, and a rounded
/// target height that lands in `1..=u32::MAX`.
pub open spec fn source_ok(m: ImageMeta) -> bool {
    &&& 1 <= m.width
    &&& 1 <= m.height
    &&& 1 <= rounded_height(RESIZE_WIDTH as int, m.width as int, m.height as int) <= u32::MAX
}

/// The height of the transcoder's output for a given source.
pub open spec fn output_height(m: ImageMeta) -> int {
    rounded_height(RESIZE_WIDTH as int, m.width as int, m.height as int)
}

/// The bytes decode but their dimensions are rejected.
pub open spec fn rejected_dims(bytes: Seq<u8>) -> bool {
    decode_meta(bytes) matches Some(m) && !source_ok(m)
}

/// The scaled image stays inside the pipeline's pixel and byte limits.
pub open spec fn fits_limits(m: ImageMeta) -> bool {
    &&& RESIZE_WIDTH * output_height(m) <= MAX_PIXELS
    &&& RESIZE_WIDTH * output_height(m) * m.bytes_per_pixel <= MAX_ENCODE_BYTES
}

/// The codec owed to the source's alpha tag accepts its pixel format (and,
/// on the lossy path, the scaled height fits the format's dimension range).
pub open spec fn encodable(m: ImageMeta) -> bool {
    if m.alpha {
        png_color_supported(m.channels, m.bytes_per_pixel)
    } else {
        jpeg_color_supported(m.channels, m.bytes_per_pixel) && output_height(m) <= 65535
    }
}

/// Exactly the inputs on which a transcode succeeds.
pub open spec fn transcode_accepts(bytes: Seq<u8>) -> bool {
    decode_meta(bytes) matches Some(m) && source_ok(m) && fits_limits(m) && encodable(m)
}

/// What a successful transcode guarantees: the input decodes to an accepted
/// source, the codec is the one its alpha tag owes, and the output decodes
/// to the fixed width, the aspect-preserving height, and the source's
/// pixel-format tag (channel count, bytes per pixel, alpha).
pub open spec fn transcode_ok(input: Seq<u8>, output: Seq<u8>, codec: Codec) -> bool {
    decode_meta(input) matches Some(m) && {
        &&& source_ok(m)
        &&& codec == codec_for_alpha(m.alpha)
        &&& decode_meta(output) matches Some(om) && om.width == RESIZE_WIDTH && om.height
            == output_height(m) && om.channels == m.channels && om.bytes_per_pixel
            == m.bytes_per_pixel && om.alpha == m.alpha
    }
}

/// Every successful transcode hits the fixed width exactly, and its height
/// deviates from the exact aspect ratio by at most half a pixel: multiplied
/// through by `RESIZE_WIDTH * src_width`, the bound
/// `|out_h / out_w - src_h / src_w| <= 1 / (2 * out_w)` reads
/// `|2 * (out_h * src_w - out_w * src_h)| <= src_w`.
pub proof fn lemma_transcode_aspect(input: Seq<u8>, output: Seq<u8>, codec: Codec)
    requires
        transcode_ok(input, output, codec),
    ensures
        ({
            let m = decode_meta(input).unwrap();
            let om = decode_meta(output).unwrap();
            &&& om.width == RESIZE_WIDTH
            &&& -(m.width as int) <= 2 * (om.height * m.width - RESIZE_WIDTH * m.height)
            &&& 2 * (om.height * m.width - RESIZE_WIDTH * m.height) <= m.width
        }),
{
    let m = decode_meta(input).unwrap();
    let om = decode_meta(output).unwrap();
    crate::geometry::lemma_aspect_ratio_bound(
        RESIZE_WIDTH as int,
        m.width as int,
        m.height as int,
        om.height as int,
    );
}

impl ImageProcessor {
    /// Wraps one upload's raw bytes.
    pub fn new(image_bytes: Vec<u8>) -> (r: Self)
        ensures
            r.image_bytes == image_bytes,
    {
        ImageProcessor { image_bytes }
    }

    /// The target geometry for a source size: the fixed width, and the
    /// source height scaled to it with rounding. `None` when a source
    /// dimension is zero or the rounded height leaves `1..=u32::MAX`.
    pub fn get_resized_dimensions(src_w: u32, src_h: u32) -> (r: Option<(u32, u32)>)
        ensures
            (r is Some) <==> (1 <= src_w && 1 <= src_h && 1 <= rounded_height(
                RESIZE_WIDTH as int,
                src_w as int,
                src_h as int,
            ) <= u32::MAX),
            r matches Some(d) ==> d.0 == RESIZE_WIDTH && d.1 == rounded_height(
                RESIZE_WIDTH as int,
                src_w as int,
                src_h as int,
            ),
    {
        match resized_height(RESIZE_WIDTH, src_w, src_h) {
            Some(h) => Some((RESIZE_WIDTH, h)),
            None => None,
        }
    }

    /// Transcodes with the default nearest-neighbor resampling.
    pub fn resize(&self) -> (r: Result<EncodedArtifact, TranscodeError>)
        ensures
            (r is Ok) <==> transcode_accepts(self.image_bytes@),
            r matches Ok(a) ==> transcode_ok(self.image_bytes@, a.bytes@, a.codec),
            r matches Err(TranscodeError::DecodeError) <==> decode_meta(self.image_bytes@)
                is None,
            r matches Err(TranscodeError::InvalidDimensions) <==> rejected_dims(
                self.image_bytes@,
            ),
            r matches Err(TranscodeError::EncodeError) <==> (decode_meta(self.image_bytes@)
                matches Some(m) && source_ok(m) && !(fits_limits(m) && encodable(m))),
    {
        self.resize_with(ResampleAlg::Nearest)
    }

    /// Transcodes with an explicit resampling algorithm.
    pub fn resize_with(&self, alg: ResampleAlg) -> (r: Result<EncodedArtifact, TranscodeError>)
        ensures
            (r is Ok) <==> transcode_accepts(self.image_bytes@),
            r matches Ok(a) ==> transcode_ok(self.image_bytes@, a.bytes@, a.codec),
            r matches Err(TranscodeError::DecodeError) <==> decode_meta(self.image_bytes@)
                is None,
            r matches Err(TranscodeError::InvalidDimensions) <==> rejected_dims(
                self.image_bytes@,
            ),
            r matches Err(TranscodeError::EncodeError) <==> (decode_meta(self.image_bytes@)
                matches Some(m) && source_ok(m) && !(fits_limits(m) && encodable(m))),
    {
        let m = match decode_image(&self.image_bytes) {
            Some(m) => m,
            None => return Err(TranscodeError::DecodeError),
        };
        let (width, height) = match Self::get_resized_dimensions(m.width, m.height) {
            Some(dims) => dims,
            None => return Err(TranscodeError::InvalidDimensions),
        };
        let pixels: u64 = (width as u64) * (height as u64);
        if pixels > MAX_PIXELS {
            return Err(TranscodeError::EncodeError);
        }
        proof {
            assert(pixels * (m.bytes_per_pixel as int) <= 0x400_0000 * 0xff) by (nonlinear_arith)
                requires
                    0 <= pixels <= 0x400_0000,
                    0 <= m.bytes_per_pixel <= 0xff,
            {}
        }
        let expected: u64 = pixels * (m.bytes_per_pixel as u64);
        proof {
            assert((width as int) * (height as int) * (m.bytes_per_pixel as int) == expected)
                by (nonlinear_arith)
                requires
                    pixels == (width as int) * (height as int),
                    expected == pixels * (m.bytes_per_pixel as int),
            {}
        }
        if expected > MAX_ENCODE_BYTES {
            return Err(TranscodeError::EncodeError);
        }
        let buf = match resample_pixels(&self.image_bytes, width, height, alg) {
            Some(b) => b,
            None => return Err(TranscodeError::EncodeError),
        };
        let codec = choose_codec(m.alpha);
        let encoded = match codec {
            Codec::Lossless => encode_png(&buf, width, height, m.channels, m.bytes_per_pixel),
            Codec::Lossy => encode_jpeg(&buf, width, height, m.channels, m.bytes_per_pixel),
        };
        match encoded {
            Some(bytes) => Ok(EncodedArtifact { bytes, codec }),
            None => Err(TranscodeError::EncodeError),
        }
    }
}

} // verus!
