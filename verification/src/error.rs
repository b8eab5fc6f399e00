//! The error taxonomy of the host/worker protocol.
//!
//! A decoder reports a [`DecoderError`]; the worker runtime translates it to
//! the wire enumeration [`RemoteError`]; the host maps wire errors into its
//! own [`Error`].  Tag identities are stable: each decoder error maps to the
//! wire variant of the same name, and only the transport itself produces
//! [`RemoteError::ZBus`].

use vstd::prelude::*;
use vstd::string::StringExecFns;

verus! {

/// Error a decoder implementation reports to the worker runtime.
#[derive(Debug)]
pub enum DecoderError {
    /// The decoder parsed part of the data and then failed; the message is
    /// informational.
    DecodingError(String),
    /// Unexpected failure inside the worker; carries no content.
    InternalDecoderError,
    /// The format was identified but this file or variant is refused.
    UnsupportedImageFormat(String),
    /// A dimension does not fit the platform's size type.  The spelling is a
    /// stable wire identifier and is kept as it is.
    ConversionTooLargerError,
}

/// Error sent over the wire from the worker to the host.
#[derive(Debug)]
pub enum RemoteError {
    /// Reserved for framing, authentication, and transport shutdown; carries
    /// the transport's own description of the failure.
    ZBus(String),
    DecodingError(String),
    InternalDecoderError,
    UnsupportedImageFormat(String),
    ConversionTooLargerError,
}

/// Host-side error surfaced to the caller of an image request.
#[derive(Debug)]
pub enum Error {
    /// No loader is registered for the media type, or the media-type sniff
    /// failed altogether.
    UnknownImageFormat(Vec<u8>),
    DecodingError(String),
    InternalDecoderError,
    UnsupportedImageFormat(String),
    ConversionTooLargerError,
    /// The source file could not be read on the host side.
    SourceIO(String),
    /// Bus framing, authentication, or disconnection.
    Transport(String),
}

/// A value does not fit the requested machine integer type.  The spelling is
/// a stable wire identifier and is kept as it is.
#[derive(Debug)]
pub struct ConversionTooLargerError;

impl RemoteError {
    /// How a decoder error appears on the wire: each variant maps to the wire
    /// variant of the same name.
    pub open spec fn spec_from_decoder(err: DecoderError) -> RemoteError {
        match err {
            DecoderError::DecodingError(msg) => RemoteError::DecodingError(msg),
            DecoderError::InternalDecoderError => RemoteError::InternalDecoderError,
            DecoderError::UnsupportedImageFormat(msg) => RemoteError::UnsupportedImageFormat(msg),
            DecoderError::ConversionTooLargerError => RemoteError::ConversionTooLargerError,
        }
    }
}

impl From<DecoderError> for RemoteError {
    fn from(err: DecoderError) -> (r: Self)
        ensures
            r == RemoteError::spec_from_decoder(err),
    {
        match err {
            DecoderError::DecodingError(msg) => Self::DecodingError(msg),
            DecoderError::InternalDecoderError => Self::InternalDecoderError,
            DecoderError::UnsupportedImageFormat(msg) => Self::UnsupportedImageFormat(msg),
            DecoderError::ConversionTooLargerError => Self::ConversionTooLargerError,
        }
    }
}

impl vstd::std_specs::convert::FromSpecImpl<DecoderError> for RemoteError {
    open spec fn obeys_from_spec() -> bool {
        true
    }

    open spec fn from_spec(err: DecoderError) -> Self {
        RemoteError::spec_from_decoder(err)
    }
}

impl Error {
    /// How a wire error appears to the host's caller: the transport variant
    /// becomes [`Error::Transport`], every other variant keeps its tag.
    pub open spec fn spec_from_remote(err: RemoteError) -> Error {
        match err {
            RemoteError::ZBus(e) => Error::Transport(e),
            RemoteError::DecodingError(msg) => Error::DecodingError(msg),
            RemoteError::InternalDecoderError => Error::InternalDecoderError,
            RemoteError::UnsupportedImageFormat(msg) => Error::UnsupportedImageFormat(msg),
            RemoteError::ConversionTooLargerError => Error::ConversionTooLargerError,
        }
    }
}

impl From<RemoteError> for Error {
    fn from(err: RemoteError) -> (r: Self)
        ensures
            r == Error::spec_from_remote(err),
    {
        match err {
            RemoteError::ZBus(e) => Self::Transport(e),
            RemoteError::DecodingError(msg) => Self::DecodingError(msg),
            RemoteError::InternalDecoderError => Self::InternalDecoderError,
            RemoteError::UnsupportedImageFormat(msg) => Self::UnsupportedImageFormat(msg),
            RemoteError::ConversionTooLargerError => Self::ConversionTooLargerError,
        }
    }
}

impl vstd::std_specs::convert::FromSpecImpl<RemoteError> for Error {
    open spec fn obeys_from_spec() -> bool {
        true
    }

    open spec fn from_spec(err: RemoteError) -> Self {
        Error::spec_from_remote(err)
    }
}

impl From<ConversionTooLargerError> for DecoderError {
    fn from(err: ConversionTooLargerError) -> (r: Self)
        ensures
            r is ConversionTooLargerError,
    {
        Self::ConversionTooLargerError
    }
}

impl vstd::std_specs::convert::FromSpecImpl<ConversionTooLargerError> for DecoderError {
    open spec fn obeys_from_spec() -> bool {
        true
    }

    open spec fn from_spec(err: ConversionTooLargerError) -> Self {
        DecoderError::ConversionTooLargerError
    }
}

impl DecoderError {
    /// Human-readable description of the error.
    pub fn message(&self) -> (r: String)
        ensures
            self is DecodingError ==> r@ == self->DecodingError_0@,
            self is UnsupportedImageFormat ==> r@ == "Unsupported image format: "@
                + self->UnsupportedImageFormat_0@,
            self is InternalDecoderError ==> r@ == "Internal error while interpreting image"@,
            self is ConversionTooLargerError ==> r@ == "Dimension too large for system"@,
    {
        match self {
            Self::DecodingError(msg) => msg.clone(),
            Self::InternalDecoderError => "Internal error while interpreting image".to_owned(),
            Self::UnsupportedImageFormat(msg) => {
                let mut out = "Unsupported image format: ".to_owned();
                out.append(msg.as_str());
                out
            },
            Self::ConversionTooLargerError => "Dimension too large for system".to_owned(),
        }
    }
}

impl ConversionTooLargerError {
    /// Human-readable description of the error.
    pub fn message(&self) -> (r: String)
        ensures
            r@ == "Dimension too large for system"@,
    {
        "Dimension too large for system".to_owned()
    }
}

} // verus!
