//! The worker side of the protocol: the decoder capability set and the
//! dispatch rules the worker runtime follows for `init` and `decode_frame`.
//!
//! The runtime serializes the two methods around the one decoder value; the
//! dispatch here decides what is asked of the decoder and what goes back on
//! the wire.  A decoder error is mapped to the wire variant of the same tag,
//! so a worker-side failure never masquerades as a transport error.

use vstd::prelude::*;

use crate::error::DecoderError;
use crate::error::RemoteError;
use crate::frame::Frame;
use crate::frame::FrameRequest;
use crate::frame::ImageInfo;

verus! {

/// What the host tells the worker about the image source.
#[derive(Debug)]
pub struct DecodingDetails {
    /// The negotiated media type.
    pub mime_type: Vec<u8>,
    /// Directory of the image file, present only when the loader declaration
    /// asks for it.
    pub base_dir: Option<Vec<u8>>,
}

/// The `init` message: the read end of the byte stream (the worker owns the
/// descriptor after the transfer) and the details.
#[derive(Debug)]
pub struct DecodingRequest {
    /// Source from which the loader reads the image data.
    pub fd: i32,
    pub details: DecodingDetails,
}

/// The capability set a decoder implementation provides to the worker
/// runtime.  `init` reads the image header from the byte stream behind the
/// descriptor; `decode_frame` produces one picture.  Nothing is assumed of an
/// implementation beyond its signatures.
pub trait Decoder: Send {
    fn init(&self, stream_fd: i32, details: DecodingDetails) -> Result<ImageInfo, DecoderError>;

    fn decode_frame(&self, frame_request: FrameRequest) -> Result<Frame, DecoderError>;
}

/// A frame request that asks for no pixels at all: a scale target or a clip
/// with a zero width or height.  Such a request is refused before the decoder
/// sees it.
pub open spec fn frame_request_acceptable(req: FrameRequest) -> bool {
    &&& match req.scale {
        Some(s) => s.0 > 0 && s.1 > 0,
        None => true,
    }
    &&& match req.clip {
        Some(c) => c.2 > 0 && c.3 > 0,
        None => true,
    }
}

/// Checks a frame request before decoding.
pub fn validate_frame_request(req: &FrameRequest) -> (r: bool)
    ensures
        r == frame_request_acceptable(*req),
{
    let scale_ok = match req.scale {
        Some((w, h)) => w > 0 && h > 0,
        None => true,
    };
    let clip_ok = match req.clip {
        Some((_, _, w, h)) => w > 0 && h > 0,
        None => true,
    };
    scale_ok && clip_ok
}

/// The worker's reply to `init` for each outcome of the decoder: the image
/// metadata unchanged, or the error mapped to the wire variant of the same
/// tag.
pub fn init_reply(result: Result<ImageInfo, DecoderError>) -> (r: Result<ImageInfo, RemoteError>)
    ensures
        r is Ok <==> result is Ok,
        r is Ok ==> r->Ok_0 == result->Ok_0,
        result is Err ==> r->Err_0 == RemoteError::spec_from_decoder(result->Err_0),
        r is Err ==> !(r->Err_0 is ZBus),
{
    match result {
        Ok(info) => Ok(info),
        Err(err) => Err(RemoteError::from(err)),
    }
}

/// The worker's reply to `decode_frame` for each outcome of the decoder: the
/// frame when it satisfies the stride law, an internal error when it does
/// not, and otherwise the decoder's error mapped to the wire variant of the
/// same tag.
pub fn decode_frame_reply(result: Result<Frame, DecoderError>) -> (r: Result<Frame, RemoteError>)
    ensures
        r is Ok <==> (result is Ok && result->Ok_0.wf()),
        r is Ok ==> r->Ok_0 == result->Ok_0,
        result is Ok && !result->Ok_0.wf() ==> r->Err_0 is InternalDecoderError,
        result is Err ==> r->Err_0 == RemoteError::spec_from_decoder(result->Err_0),
        r is Err ==> !(r->Err_0 is ZBus),
{
    match result {
        Ok(frame) => {
            if frame.stride_ok() {
                Ok(frame)
            } else {
                Err(RemoteError::InternalDecoderError)
            }
        },
        Err(err) => Err(RemoteError::from(err)),
    }
}

/// Dispatches `init` to the decoder.  Whatever the decoder does, the reply is
/// never a transport error.
pub fn handle_init<D: Decoder>(decoder: &D, request: DecodingRequest) -> (r: Result<
    ImageInfo,
    RemoteError,
>)
    ensures
        r is Err ==> !(r->Err_0 is ZBus),
{
    init_reply(decoder.init(request.fd, request.details))
}

/// Dispatches `decode_frame` to the decoder.  A request for no pixels is
/// refused with a decoding error before the decoder runs; a frame that
/// breaks the stride law never leaves the worker; and whatever the decoder
/// does, the reply is never a transport error.
pub fn handle_decode_frame<D: Decoder>(decoder: &D, frame_request: FrameRequest) -> (r: Result<
    Frame,
    RemoteError,
>)
    ensures
        !frame_request_acceptable(frame_request) ==> r is Err && r->Err_0 is DecodingError,
        r is Ok ==> r->Ok_0.wf(),
        r is Err ==> !(r->Err_0 is ZBus),
{
    if !validate_frame_request(&frame_request) {
        return Err(RemoteError::DecodingError("Requested image area is empty".to_owned()));
    }
    decode_frame_reply(decoder.decode_frame(frame_request))
}

} // verus!
