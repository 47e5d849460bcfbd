//! The decode gateway: asks the codec library to parse a file's bytes and
//! reports either the decoded image's dimensions and self-reported container
//! type, or a typed content fault. The codec's work is trusted; everything
//! around the two calls is verified against the names given to their results.

use vstd::prelude::*;
use crate::error::DecodeFault;
use crate::format::ImageFormat;

verus! {

/// What the codec library determines about a byte sequence: the dimensions
/// of the image the bytes encode, or the fault the codec reports. The
/// outcome depends on the bytes alone.
pub uninterp spec fn codec_probe(bytes: Seq<u8>) -> Result<(u32, u32), DecodeFault>;

/// The supported container format the codec library recognizes from the
/// magic bytes at the start of a byte sequence, if any. The outcome depends
/// on the bytes alone.
pub uninterp spec fn sniffed_format(bytes: Seq<u8>) -> Option<ImageFormat>;

/// Relies on image::guess_format, image::load_from_memory_with_format and
/// GenericImageView::dimensions. The format is guessed by the static
/// magic-byte table alone and the decoder is then chosen by that format
/// directly, so neither call consults the codec's process-global hook
/// registries and the outcome is a function of the bytes alone.
/// Unrecognized magic bytes mean no container; an unsupported-feature
/// failure of the chosen decoder means a recognized container in a variant
/// the codec does not handle; the remaining failures are malformed content.
#[verifier::external_body]
fn probe_bytes(bytes: &[u8]) -> (r: Result<(u32, u32), DecodeFault>)
    ensures
        r == codec_probe(bytes@),
{
    let format = match image::guess_format(bytes) {
        Ok(f) => f,
        Err(_) => return Err(DecodeFault::CorruptOrUnrecognized),
    };
    match image::load_from_memory_with_format(bytes, format) {
        Ok(img) => Ok(image::GenericImageView::dimensions(&img)),
        Err(image::ImageError::Unsupported(_)) => Err(DecodeFault::UnsupportedVariant),
        Err(_) => Err(DecodeFault::CorruptOrUnrecognized),
    }
}

/// Relies on image::guess_format: which container the magic bytes announce
/// is a function of the bytes alone. Containers outside the supported table
/// are reported as none.
#[verifier::external_body]
fn sniff_bytes(bytes: &[u8]) -> (r: Option<ImageFormat>)
    ensures
        r == sniffed_format(bytes@),
{
    match image::guess_format(bytes) {
        Ok(image::ImageFormat::Png) => Some(ImageFormat::Png),
        Ok(image::ImageFormat::Jpeg) => Some(ImageFormat::Jpeg),
        Ok(image::ImageFormat::Gif) => Some(ImageFormat::Gif),
        Ok(image::ImageFormat::WebP) => Some(ImageFormat::WebP),
        Ok(image::ImageFormat::Bmp) => Some(ImageFormat::Bmp),
        _ => None,
    }
}

/// What the decode gateway hands to the metadata extractor: the decoded
/// image's dimensions and the container type the codec self-reported.
/// The handle the codec itself decodes into never leaves the gateway.
#[derive(Clone, Copy, Debug)]
pub struct DecodedImage {
    pub width: u32,
    pub height: u32,
    pub container: Option<ImageFormat>,
}

/// What `decode` returns for a byte sequence. A decoded image without
/// pixels (zero width or height) is malformed content, never a success.
pub open spec fn decode_spec(bytes: Seq<u8>) -> Result<DecodedImage, DecodeFault> {
    match codec_probe(bytes) {
        Ok(dims) => if dims.0 > 0 && dims.1 > 0 {
            Ok(DecodedImage { width: dims.0, height: dims.1, container: sniffed_format(bytes) })
        } else {
            Err(DecodeFault::CorruptOrUnrecognized)
        },
        Err(f) => Err(f),
    }
}

/// Asks the codec library to parse `bytes` into an image, and reports its
/// dimensions and self-reported container type, or the codec's fault. The
/// decode is attempted exactly once; the decoded handle is released before
/// this returns. A successfully decoded image always has positive
/// dimensions.
pub fn decode(bytes: &[u8]) -> (r: Result<DecodedImage, DecodeFault>)
    ensures
        r == decode_spec(bytes@),
        r matches Ok(d) ==> d.width > 0 && d.height > 0,
{
    match probe_bytes(bytes) {
        Ok(dims) => if dims.0 > 0 && dims.1 > 0 {
            Ok(DecodedImage { width: dims.0, height: dims.1, container: sniff_bytes(bytes) })
        } else {
            Err(DecodeFault::CorruptOrUnrecognized)
        },
        Err(f) => Err(f),
    }
}

} // verus!
