//! The supported image formats and the static extension table that maps a
//! lower-cased file extension to its canonical format.

use vstd::prelude::*;

verus! {

/// A canonical container format the service supports.
#[derive(Clone, Copy, Debug, PartialEq, Eq, Structural)]
pub enum ImageFormat {
    Jpeg,
    Png,
    Gif,
    Bmp,
    WebP,
}

/// The canonical (normalized, lower-case) name of a format, independent of
/// the extension spelling that selected it.
pub open spec fn canonical_seq(f: ImageFormat) -> Seq<char> {
    match f {
        ImageFormat::Jpeg => "jpeg"@,
        ImageFormat::Png => "png"@,
        ImageFormat::Gif => "gif"@,
        ImageFormat::Bmp => "bmp"@,
        ImageFormat::WebP => "webp"@,
    }
}

/// The extension table: which canonical format, if any, a lower-cased
/// extension maps to. Both `jpg` and `jpeg` spell the JPEG format.
pub open spec fn format_of_extension(e: Seq<char>) -> Option<ImageFormat> {
    if e == "jpg"@ || e == "jpeg"@ {
        Some(ImageFormat::Jpeg)
    } else if e == "png"@ {
        Some(ImageFormat::Png)
    } else if e == "gif"@ {
        Some(ImageFormat::Gif)
    } else if e == "bmp"@ {
        Some(ImageFormat::Bmp)
    } else if e == "webp"@ {
        Some(ImageFormat::WebP)
    } else {
        None
    }
}

impl ImageFormat {
    /// The canonical name of this format.
    pub fn canonical_name(&self) -> (s: String)
        ensures
            s@ == canonical_seq(*self),
    {
        match self {
            ImageFormat::Jpeg => "jpeg".to_owned(),
            ImageFormat::Png => "png".to_owned(),
            ImageFormat::Gif => "gif".to_owned(),
            ImageFormat::Bmp => "bmp".to_owned(),
            ImageFormat::WebP => "webp".to_owned(),
        }
    }
}

} // verus!
