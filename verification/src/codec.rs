//! The binary codec decision and the resample-quality choice.

use vstd::prelude::*;

verus! {

/// The output codec: lossless (a PNG-class codec, keeps alpha) or lossy (a
/// JPEG-class codec at fixed quality, no alpha).
#[derive(Clone, Copy, PartialEq, Eq, Structural, Debug)]
pub enum Codec {
    Lossless,
    Lossy,
}

/// The resampling algorithm: nearest-neighbor point sampling (fast, lower
/// quality) or a Lanczos convolution filter (much slower, high quality).
#[derive(Clone, Copy, PartialEq, Eq, Structural, Debug)]
pub enum ResampleAlg {
    Nearest,
    Lanczos3,
}

/// The codec owed to a pixel format: alpha-bearing sources must take the
/// lossless path, everything else takes the lossy path.
pub open spec fn codec_for_alpha(alpha: bool) -> Codec {
    if alpha {
        Codec::Lossless
    } else {
        Codec::Lossy
    }
}

/// Picks the output codec from the pixel format's alpha tag.
pub fn choose_codec(alpha: bool) -> (r: Codec)
    ensures
        r == codec_for_alpha(alpha),
{
    if alpha {
        Codec::Lossless
    } else {
        Codec::Lossy
    }
}

/// The file extension owed to each codec path.
pub open spec fn extension_spec(codec: Codec) -> Seq<char> {
    match codec {
        Codec::Lossy => "jpg"@,
        Codec::Lossless => "png"@,
    }
}

/// The file extension that matches a codec path.
pub fn extension_for(codec: Codec) -> (r: &'static str)
    ensures
        r@ == extension_spec(codec),
{
    match codec {
        Codec::Lossy => "jpg",
        Codec::Lossless => "png",
    }
}

} // verus!
