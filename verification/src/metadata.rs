//! The metadata extractor and the whole pipeline: resolve the expected
//! format from the path, decode the bytes through the codec gateway, and
//! assemble the immutable metadata record, or report exactly one typed
//! error.

use vstd::prelude::*;
use crate::codec::{DecodedImage, decode, decode_spec};
use crate::error::{
    ImageError,
    ReadFailure,
    decode_fault_error,
    read_failure_error,
};
use crate::format::{ImageFormat, canonical_seq, format_of_extension};
use crate::resolve::{ResolvedFormat, resolve, resolve_ok, has_extension, extension_of};

verus! {

/// The mathematical value of a metadata record.
pub ghost struct MetaView {
    pub path: Seq<char>,
    pub extension: Seq<char>,
    pub format: Seq<char>,
    pub width: u32,
    pub height: u32,
}

/// The only externally visible result of a successful request: the path as
/// given, the lower-cased extension, the canonical name of the container
/// format, and the pixel dimensions, always positive for a record the
/// pipeline returns. Immutable once constructed.
#[derive(Clone, Debug, PartialEq, Eq)]
pub struct ImageMetadata {
    pub path: String,
    pub extension: String,
    pub format: String,
    pub width: u32,
    pub height: u32,
}

impl View for ImageMetadata {
    type V = MetaView;

    open spec fn view(&self) -> MetaView {
        MetaView {
            path: self.path@,
            extension: self.extension@,
            format: self.format@,
            width: self.width,
            height: self.height,
        }
    }
}

/// The container format the record reports: the codec's self-reported
/// container type when it exposes one, else the resolver's canonical
/// format.
pub open spec fn reported_format(decoded: DecodedImage, resolved_format: ImageFormat) -> ImageFormat {
    match decoded.container {
        Some(f) => f,
        None => resolved_format,
    }
}

/// What `extract` returns.
pub open spec fn extract_spec(
    decoded: DecodedImage,
    extension: Seq<char>,
    resolved_format: ImageFormat,
    path: Seq<char>,
) -> MetaView {
    MetaView {
        path: path,
        extension: extension,
        format: canonical_seq(reported_format(decoded, resolved_format)),
        width: decoded.width,
        height: decoded.height,
    }
}

/// Metadata extractor: a total function over a decoded image. It never
/// fails: decoding succeeded before this stage runs, and the record is
/// assembled from values already in hand.
pub fn extract(decoded: DecodedImage, resolved: &ResolvedFormat, path: &str) -> (m: ImageMetadata)
    ensures
        m@ == extract_spec(decoded, resolved.extension@, resolved.format, path@),
{
    let format_name = match decoded.container {
        Some(f) => f.canonical_name(),
        None => resolved.format.canonical_name(),
    };
    ImageMetadata {
        path: path.to_owned(),
        extension: resolved.extension.clone(),
        format: format_name,
        width: decoded.width,
        height: decoded.height,
    }
}

/// What the pipeline returns for a path and the bytes read from it.
pub open spec fn inspect_bytes_spec(path: Seq<char>, bytes: Seq<u8>) -> Result<
    MetaView,
    ImageError,
> {
    if !has_extension(path) {
        Err(ImageError::MissingExtension)
    } else {
        match format_of_extension(extension_of(path)) {
            None => Err(ImageError::UnsupportedFormat),
            Some(rf) => match decode_spec(bytes) {
                Err(f) => Err(decode_fault_error(f)),
                Ok(d) => Ok(extract_spec(d, extension_of(path), rf, path)),
            },
        }
    }
}

/// A pipeline result, with the record replaced by its mathematical value.
pub open spec fn meta_result_view(r: Result<ImageMetadata, ImageError>) -> Result<
    MetaView,
    ImageError,
> {
    match r {
        Ok(m) => Ok(m@),
        Err(e) => Err(e),
    }
}

/// Runs the pipeline on a path and the bytes read from it: resolver, then
/// decode gateway, then metadata extractor. Each stage either passes its
/// result on or stops the run with its own error kind; no error is ever
/// swallowed or retried.
pub fn inspect_bytes(path: &str, bytes: &[u8]) -> (r: Result<ImageMetadata, ImageError>)
    ensures
        meta_result_view(r) == inspect_bytes_spec(path@, bytes@),
        !has_extension(path@) ==> r == Err::<ImageMetadata, ImageError>(
            ImageError::MissingExtension,
        ),
        has_extension(path@) && format_of_extension(extension_of(path@)) is None ==> r
            == Err::<ImageMetadata, ImageError>(ImageError::UnsupportedFormat),
        resolve_ok(path@) ==> (decode_spec(bytes@) matches Err(f) ==> r == Err::<
            ImageMetadata,
            ImageError,
        >(decode_fault_error(f))),
        r matches Ok(m) ==> m.width > 0 && m.height > 0,
{
    let resolved = match resolve(path) {
        Err(e) => {
            return Err(e);
        },
        Ok(rf) => rf,
    };
    let decoded = match decode(bytes) {
        Err(f) => {
            return Err(f.to_error());
        },
        Ok(d) => d,
    };
    Ok(extract(decoded, &resolved, path))
}

/// A read outcome, with the bytes replaced by their mathematical value.
pub open spec fn read_view(read: Result<Vec<u8>, ReadFailure>) -> Result<Seq<u8>, ReadFailure> {
    match read {
        Ok(b) => Ok(b@),
        Err(f) => Err(f),
    }
}

/// What the pipeline returns for a path and the outcome of reading it.
pub open spec fn inspect_read_spec(path: Seq<char>, read: Result<Seq<u8>, ReadFailure>) -> Result<
    MetaView,
    ImageError,
> {
    if !has_extension(path) {
        Err(ImageError::MissingExtension)
    } else {
        match format_of_extension(extension_of(path)) {
            None => Err(ImageError::UnsupportedFormat),
            Some(rf) => match read {
                Err(f) => Err(read_failure_error(f)),
                Ok(bytes) => inspect_bytes_spec(path, bytes),
            },
        }
    }
}

/// Runs the pipeline on a path and the outcome of the caller's file read.
///
/// The resolver runs first, so a path-shape error is reported even when
/// the read failed; a failed read is then reported as its environment
/// error (`NotFound` or `AccessDenied`); only then are the bytes decoded.
pub fn inspect_read(path: &str, read: Result<Vec<u8>, ReadFailure>) -> (r: Result<
    ImageMetadata,
    ImageError,
>)
    ensures
        meta_result_view(r) == inspect_read_spec(path@, read_view(read)),
        !has_extension(path@) ==> r == Err::<ImageMetadata, ImageError>(
            ImageError::MissingExtension,
        ),
        has_extension(path@) && format_of_extension(extension_of(path@)) is None ==> r
            == Err::<ImageMetadata, ImageError>(ImageError::UnsupportedFormat),
        resolve_ok(path@) ==> (read matches Err(f) ==> r == Err::<ImageMetadata, ImageError>(
            read_failure_error(f),
        )),
        r matches Ok(m) ==> m.width > 0 && m.height > 0,
{
    let resolved = match resolve(path) {
        Err(e) => {
            return Err(e);
        },
        Ok(rf) => rf,
    };
    let bytes = match read {
        Err(f) => {
            return Err(f.to_error());
        },
        Ok(b) => b,
    };
    let decoded = match decode(bytes.as_slice()) {
        Err(f) => {
            return Err(f.to_error());
        },
        Ok(d) => d,
    };
    Ok(extract(decoded, &resolved, path))
}

/// Idempotence: the pipeline is a function of the path and the file's
/// bytes alone, so two runs over the same path and the same unchanged
/// bytes yield identical results, record for record and error for error.
pub proof fn lemma_pipeline_idempotent(
    path: Seq<char>,
    bytes: Seq<u8>,
    r1: Result<MetaView, ImageError>,
    r2: Result<MetaView, ImageError>,
)
    requires
        r1 == inspect_bytes_spec(path, bytes),
        r2 == inspect_bytes_spec(path, bytes),
    ensures
        r1 == r2,
{
}

} // verus!
