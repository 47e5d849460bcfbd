//! The error taxonomy: every failure of the pipeline is reported to the
//! caller as exactly one of these kinds, never as a crash.

use vstd::prelude::*;

verus! {

/// The kinds a request can fail with.
///
/// `MissingExtension` and `UnsupportedFormat` are input-shape errors from
/// the resolver; `NotFound` and `AccessDenied` are environment errors from
/// the file read; `CorruptOrUnrecognized` and `UnsupportedVariant` are
/// content errors from the codec.
#[derive(Clone, Copy, Debug, PartialEq, Eq, Structural)]
pub enum ImageError {
    MissingExtension,
    UnsupportedFormat,
    NotFound,
    AccessDenied,
    CorruptOrUnrecognized,
    UnsupportedVariant,
}

/// A failure of the codec on the file's bytes: the bytes are not a
/// recognized container, or a recognized container in a variant the codec
/// does not support.
#[derive(Clone, Copy, Debug, PartialEq, Eq, Structural)]
pub enum DecodeFault {
    CorruptOrUnrecognized,
    UnsupportedVariant,
}

/// The outcome of the caller's attempt to read the file: the path names no
/// file, or the file exists but could not be read.
#[derive(Clone, Copy, Debug, PartialEq, Eq, Structural)]
pub enum ReadFailure {
    NotFound,
    Unreadable,
}

/// The error kind that a codec failure is reported as.
pub open spec fn decode_fault_error(f: DecodeFault) -> ImageError {
    match f {
        DecodeFault::CorruptOrUnrecognized => ImageError::CorruptOrUnrecognized,
        DecodeFault::UnsupportedVariant => ImageError::UnsupportedVariant,
    }
}

/// The error kind that a read failure is reported as.
pub open spec fn read_failure_error(f: ReadFailure) -> ImageError {
    match f {
        ReadFailure::NotFound => ImageError::NotFound,
        ReadFailure::Unreadable => ImageError::AccessDenied,
    }
}

impl DecodeFault {
    /// The reported kind of this codec failure.
    pub fn to_error(&self) -> (e: ImageError)
        ensures
            e == decode_fault_error(*self),
    {
        match self {
            DecodeFault::CorruptOrUnrecognized => ImageError::CorruptOrUnrecognized,
            DecodeFault::UnsupportedVariant => ImageError::UnsupportedVariant,
        }
    }
}

impl ReadFailure {
    /// The reported kind of this read failure.
    pub fn to_error(&self) -> (e: ImageError)
        ensures
            e == read_failure_error(*self),
    {
        match self {
            ReadFailure::NotFound => ImageError::NotFound,
            ReadFailure::Unreadable => ImageError::AccessDenied,
        }
    }
}

} // verus!
