//! The request/reply protocol: sniffing, frames, the shared-memory carrier,
//! and the worker dispatch, driven by a small in-process decoder.

use std::cell::Cell;

use glycin::api::accept_frame;
use glycin::api::base_dir_for;
use glycin::api::resolve_sandbox_mechanism;
use glycin::api::FrameRequest as FrameRequestBuilder;
use glycin::api::SandboxMechanism;
use glycin::error::DecoderError;
use glycin::error::Error;
use glycin::error::RemoteError;
use glycin::format::MemoryFormat;
use glycin::frame::Frame;
use glycin::frame::FrameRequest;
use glycin::frame::ImageInfo;
use glycin::frame::Texture;
use glycin::shm::new_frame_carrier;
use glycin::shm::SharedMemory;
use glycin::sniff::needs_filename_resniff;
use glycin::sniff::select_mime_type;
use glycin::worker::handle_decode_frame;
use glycin::worker::handle_init;
use glycin::worker::Decoder;
use glycin::worker::DecodingDetails;
use glycin::worker::DecodingRequest;

fn read_back(texture: &Texture, len: usize) -> Vec<u8> {
    let Texture::MemFd(fd) = texture;
    let mut buf = vec![0u8; len + 1];
    let n = nix::sys::uio::pread(*fd, &mut buf, 0).unwrap();
    buf.truncate(n);
    buf
}

/// Decodes a fixed 2x2 opaque picture; pixel bytes are a function of the
/// "input" it was created over.
struct TinyDecoder {
    input: Vec<u8>,
    calls: Cell<u32>,
}

impl TinyDecoder {
    fn over(input: &[u8]) -> TinyDecoder {
        TinyDecoder { input: input.to_vec(), calls: Cell::new(0) }
    }

    fn pixels(&self) -> Vec<u8> {
        let mut out = Vec::new();
        for row in 0..2u8 {
            for col in 0..2u8 {
                for ch in 0..3u8 {
                    let seed = self.input.iter().copied().fold(0u8, u8::wrapping_add);
                    out.push(seed.wrapping_add(row * 64 + col * 16 + ch));
                }
            }
        }
        out
    }
}

impl Decoder for TinyDecoder {
    fn init(&self, _stream_fd: i32, _details: DecodingDetails) -> Result<ImageInfo, DecoderError> {
        Ok(ImageInfo::new(2, 2, String::from("TINY")))
    }

    fn decode_frame(&self, _req: FrameRequest) -> Result<Frame, DecoderError> {
        self.calls.set(self.calls.get() + 1);
        let mut carrier = new_frame_carrier(MemoryFormat::R8g8b8, 2, 2)?;
        carrier.write_at(0, &self.pixels());
        let texture = carrier.into_texture()?;
        let mut frame = Frame::new(2, 2, MemoryFormat::R8g8b8, texture);
        if self.calls.get() >= 2 {
            frame.delay = Some(100_000);
        }
        Ok(frame)
    }
}

#[test]
fn sniff_tiff_needs_resniff() {
    assert!(needs_filename_resniff(&Some(b"image/tiff".to_vec()), false));
    assert!(!needs_filename_resniff(&Some(b"image/png".to_vec()), false));
}

#[test]
fn sniff_unsure_needs_resniff() {
    assert!(needs_filename_resniff(&Some(b"image/png".to_vec()), true));
    assert!(needs_filename_resniff(&None, true));
    assert!(!needs_filename_resniff(&None, false));
}

#[test]
fn select_mime_prefers_hint() {
    // the container sniff said TIFF, the filename hint names the raw format
    let picked = select_mime_type(
        Some(b"image/tiff".to_vec()),
        b"image/tiff".to_vec(),
        false,
        Some((Some(b"image/x-canon-cr2".to_vec()), b"image/x-canon-cr2".to_vec())),
    )
    .unwrap();
    assert_eq!(picked, b"image/x-canon-cr2".to_vec());
}

#[test]
fn select_mime_without_hint() {
    let picked =
        select_mime_type(Some(b"image/png".to_vec()), b"image/png".to_vec(), false, None)
            .unwrap();
    assert_eq!(picked, b"image/png".to_vec());
}

#[test]
fn select_mime_unknown_error() {
    match select_mime_type(None, b"application/octet-stream".to_vec(), true, None) {
        Err(Error::UnknownImageFormat(name)) => {
            assert_eq!(name, b"application/octet-stream".to_vec())
        },
        other => panic!("unexpected: {other:?}"),
    }
}

#[test]
fn raw_in_tiff_container_fails_without_loader() {
    // the hinted sniff picks the raw media type; no loader is registered for
    // it, so the request fails as an unknown format
    let cfg = glycin::config::Config::load_from_data(&vec![
        b"[loader:image/tiff]\nExec=/tiff\n".to_vec(),
    ]);
    let mime = select_mime_type(
        Some(b"image/tiff".to_vec()),
        b"image/tiff".to_vec(),
        false,
        Some((Some(b"image/x-nikon-nef".to_vec()), b"image/x-nikon-nef".to_vec())),
    )
    .unwrap();
    match cfg.get(&mime) {
        Err(Error::UnknownImageFormat(m)) => assert_eq!(m, b"image/x-nikon-nef".to_vec()),
        other => panic!("unexpected: {other:?}"),
    }
}

#[test]
fn frame_new_stride() {
    let frame = Frame::new(32, 32, MemoryFormat::R8g8b8, Texture::MemFd(-1));
    assert_eq!(frame.stride, 96);
    assert!(frame.stride_ok());
    let frame = Frame::new(32, 32, MemoryFormat::R8g8b8a8, Texture::MemFd(-1));
    assert_eq!(frame.stride, 128);
}

#[test]
fn accept_frame_rejects_bad_stride() {
    let mut frame = Frame::new(32, 32, MemoryFormat::R8g8b8, Texture::MemFd(-1));
    frame.stride = 97;
    assert!(matches!(accept_frame(Ok(frame)), Err(Error::InternalDecoderError)));
}

#[test]
fn accept_frame_maps_remote_errors() {
    match accept_frame(Err(RemoteError::ZBus(String::from("gone")))) {
        Err(Error::Transport(msg)) => assert_eq!(msg, "gone"),
        other => panic!("unexpected: {other:?}"),
    }
}

#[test]
fn frame_request_builder() {
    let req = FrameRequestBuilder::new().scale(640, 480).clip(1, 2, 3, 4);
    assert_eq!(req.request.scale, Some((640, 480)));
    assert_eq!(req.request.clip, Some((1, 2, 3, 4)));
    let req = FrameRequestBuilder::new();
    assert_eq!(req.request.scale, None);
    assert_eq!(req.request.clip, None);
}

#[test]
fn reject_zero_scale() {
    let decoder = TinyDecoder::over(b"x");
    let req = FrameRequest { scale: Some((0, 0)), clip: None };
    match handle_decode_frame(&decoder, req) {
        Err(RemoteError::DecodingError(_)) => {},
        other => panic!("unexpected: {other:?}"),
    }
    assert_eq!(decoder.calls.get(), 0);
}

#[test]
fn reject_zero_clip() {
    let decoder = TinyDecoder::over(b"x");
    let req = FrameRequest { scale: None, clip: Some((5, 5, 0, 7)) };
    match handle_decode_frame(&decoder, req) {
        Err(RemoteError::DecodingError(_)) => {},
        other => panic!("unexpected: {other:?}"),
    }
}

/// A decoder whose source broke off mid-stream.
struct TruncatedDecoder;

impl Decoder for TruncatedDecoder {
    fn init(&self, _stream_fd: i32, _details: DecodingDetails) -> Result<ImageInfo, DecoderError> {
        Err(DecoderError::DecodingError(String::from("unexpected end of stream")))
    }

    fn decode_frame(&self, _req: FrameRequest) -> Result<Frame, DecoderError> {
        Err(DecoderError::DecodingError(String::from("unexpected end of stream")))
    }
}

#[test]
fn truncated_source_is_decoding_error_not_transport() {
    let decoder = TruncatedDecoder;
    match handle_decode_frame(&decoder, FrameRequest { scale: None, clip: None }) {
        Err(RemoteError::DecodingError(msg)) => assert_eq!(msg, "unexpected end of stream"),
        other => panic!("unexpected: {other:?}"),
    }
    let req = DecodingRequest {
        fd: -1,
        details: DecodingDetails { mime_type: b"image/png".to_vec(), base_dir: None },
    };
    match handle_init(&decoder, req) {
        Err(RemoteError::DecodingError(msg)) => assert_eq!(msg, "unexpected end of stream"),
        other => panic!("unexpected: {other:?}"),
    }
}

#[test]
fn shared_memory_roundtrip() {
    let mut carrier = SharedMemory::new(8).unwrap();
    assert_eq!(carrier.len(), 8);
    carrier.write_at(0, &[1, 2, 3, 4]);
    carrier.write_at(4, &[5, 6, 7, 8]);
    let texture = carrier.into_texture().unwrap();
    assert_eq!(read_back(&texture, 8), vec![1, 2, 3, 4, 5, 6, 7, 8]);
}

#[test]
fn fresh_carrier_reads_zero() {
    let carrier = SharedMemory::new(6).unwrap();
    let texture = carrier.into_texture().unwrap();
    assert_eq!(read_back(&texture, 6), vec![0u8; 6]);
}

#[test]
fn oversized_carrier_refused() {
    assert!(matches!(
        SharedMemory::new(u64::MAX),
        Err(DecoderError::ConversionTooLargerError)
    ));
}

#[test]
fn frame_carrier_size() {
    let carrier = new_frame_carrier(MemoryFormat::R8g8b8a8, 32, 32).unwrap();
    assert_eq!(carrier.len(), 4 * 32 * 32);
    assert!(matches!(
        new_frame_carrier(MemoryFormat::R32g32b32a32Float, u32::MAX, u32::MAX),
        Err(DecoderError::ConversionTooLargerError)
    ));
}

#[test]
fn decode_twice_identical() {
    // the same input decoded on two separate handles yields byte-identical
    // pixel buffers
    let first = TinyDecoder::over(b"the image bytes");
    let second = TinyDecoder::over(b"the image bytes");
    let req = FrameRequest { scale: None, clip: None };
    let frame_a = accept_frame(handle_decode_frame(&first, req)).unwrap();
    let frame_b = accept_frame(handle_decode_frame(&second, req)).unwrap();
    let len = (frame_a.stride * frame_a.height) as usize;
    assert_eq!(read_back(&frame_a.texture, len), read_back(&frame_b.texture, len));
}

#[test]
fn info_matches_frame_dimensions() {
    // un-scaled, un-clipped: the frame has the dimensions init announced
    let decoder = TinyDecoder::over(b"img");
    let req = DecodingRequest {
        fd: -1,
        details: DecodingDetails { mime_type: b"image/tiny".to_vec(), base_dir: None },
    };
    let info = handle_init(&decoder, req).unwrap();
    let frame =
        accept_frame(handle_decode_frame(&decoder, FrameRequest { scale: None, clip: None }))
            .unwrap();
    assert_eq!(info.width, frame.width);
    assert_eq!(info.height, frame.height);
}

#[test]
fn animation_second_frame_delay() {
    let decoder = TinyDecoder::over(b"anim");
    let req = FrameRequest { scale: None, clip: None };
    let first = handle_decode_frame(&decoder, req).unwrap();
    let second = handle_decode_frame(&decoder, req).unwrap();
    assert_eq!(first.delay, None);
    assert_eq!(second.delay, Some(100_000));
}

#[test]
fn iccp_forwarded_unchanged() {
    let profile = vec![0u8, 1, 2, 3, 254, 255];
    let mut frame = Frame::new(2, 2, MemoryFormat::R8g8b8, Texture::MemFd(-1));
    frame.iccp = Some(profile.clone());
    let delivered = accept_frame(Ok(frame)).unwrap();
    assert_eq!(delivered.iccp, Some(profile));
    assert!(delivered.iccp.as_ref().is_some_and(|p| !p.is_empty()));
}

#[test]
fn orientation_already_applied() {
    // a decoder that applies EXIF orientation six reports swapped dimensions
    // and sets the flag; the core carries both through unchanged
    let mut info = ImageInfo::new(480, 640, String::from("JPEG"));
    info.transformations_applied = true;
    let reply = glycin::worker::init_reply(Ok(info)).unwrap();
    assert!(reply.transformations_applied);
    assert_eq!(reply.width, 480);
}

#[test]
fn sandbox_mechanism_detection() {
    assert_eq!(SandboxMechanism::detect(true), SandboxMechanism::FlatpakSpawn);
    assert_eq!(SandboxMechanism::detect(false), SandboxMechanism::Bwrap);
    assert_eq!(
        resolve_sandbox_mechanism(Some(SandboxMechanism::NotSandboxed), true),
        SandboxMechanism::NotSandboxed
    );
    assert_eq!(resolve_sandbox_mechanism(None, true), SandboxMechanism::FlatpakSpawn);
    assert_eq!(resolve_sandbox_mechanism(None, false), SandboxMechanism::Bwrap);
}

#[test]
fn base_dir_only_when_exposed() {
    let parent = Some(b"/home/user/pictures".to_vec());
    assert_eq!(base_dir_for(true, parent.clone()), parent);
    assert_eq!(base_dir_for(false, parent), None);
}

#[test]
fn image_info_defaults() {
    let info = ImageInfo::new(32, 32, String::from("PNG"));
    assert_eq!(info.width, 32);
    assert_eq!(info.height, 32);
    assert_eq!(info.format_name, "PNG");
    assert!(info.exif.is_none());
    assert!(info.xmp.is_none());
    assert!(!info.transformations_applied);
}
