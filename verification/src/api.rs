//! The host side of an image request: how the sandbox mechanism is chosen,
//! what directory a loader may see, the frame-request builder, and the
//! validation every frame reply must pass before the host trusts it.

use vstd::prelude::*;

use crate::error::Error;
use crate::error::RemoteError;
use crate::frame::Frame;

verus! {

/// How the worker process is isolated.
#[derive(Debug, Clone, Copy, PartialEq, Eq, Structural)]
pub enum SandboxMechanism {
    /// Bracketed-namespace sandbox: fresh user, mount and PID namespaces, an
    /// empty read-only root, no network, and a restrictive syscall policy.
    Bwrap,
    /// A fresh sandbox spawned by the desktop portal, sibling to the caller's
    /// own container.
    FlatpakSpawn,
    /// No isolation; only for callers that bring their own.
    NotSandboxed,
}

/// The mechanism auto-detection picks: portal spawn when the host itself runs
/// inside a containerized desktop runtime, the bracketed-namespace sandbox
/// otherwise.
pub open spec fn detected_mechanism(flatpaked: bool) -> SandboxMechanism {
    if flatpaked {
        SandboxMechanism::FlatpakSpawn
    } else {
        SandboxMechanism::Bwrap
    }
}

impl SandboxMechanism {
    /// Auto-detects the mechanism.  Whether the container marker file exists
    /// is a probe of the process environment; the application hands its
    /// result in.
    pub fn detect(flatpaked: bool) -> (r: SandboxMechanism)
        ensures
            r == detected_mechanism(flatpaked),
    {
        if flatpaked {
            SandboxMechanism::FlatpakSpawn
        } else {
            SandboxMechanism::Bwrap
        }
    }
}

/// The mechanism a request uses: the caller's override when there is one,
/// auto-detection otherwise.
pub fn resolve_sandbox_mechanism(requested: Option<SandboxMechanism>, flatpaked: bool) -> (r:
    SandboxMechanism)
    ensures
        r == match requested {
            Some(m) => m,
            None => detected_mechanism(flatpaked),
        },
{
    match requested {
        Some(m) => m,
        None => SandboxMechanism::detect(flatpaked),
    }
}

/// The directory handed to the loader: the image file's parent directory if
/// and only if the loader declaration asks for it.
pub fn base_dir_for(expose_base_dir: bool, parent_dir: Option<Vec<u8>>) -> (r: Option<Vec<u8>>)
    ensures
        expose_base_dir ==> r == parent_dir,
        !expose_base_dir ==> r is None,
{
    if expose_base_dir {
        parent_dir
    } else {
        None
    }
}

/// Builder for a frame request: scale and clip both default to absent.
#[derive(Debug)]
#[must_use]
pub struct FrameRequest {
    pub request: crate::frame::FrameRequest,
}

impl Default for FrameRequest {
    fn default() -> (r: FrameRequest)
        ensures
            r.request.scale is None,
            r.request.clip is None,
    {
        FrameRequest { request: crate::frame::FrameRequest { scale: None, clip: None } }
    }
}

impl FrameRequest {
    pub fn new() -> (r: FrameRequest)
        ensures
            r.request.scale is None,
            r.request.clip is None,
    {
        Self::default()
    }

    /// Asks for the frame scaled to the target size.
    pub fn scale(self, width: u32, height: u32) -> (r: FrameRequest)
        ensures
            r.request.scale == Some((width, height)),
            r.request.clip == self.request.clip,
    {
        FrameRequest {
            request: crate::frame::FrameRequest {
                scale: Some((width, height)),
                clip: self.request.clip,
            },
        }
    }

    /// Asks for only a part of the image, in un-scaled coordinates.
    pub fn clip(self, x: u32, y: u32, width: u32, height: u32) -> (r: FrameRequest)
        ensures
            r.request.clip == Some((x, y, width, height)),
            r.request.scale == self.request.scale,
    {
        FrameRequest {
            request: crate::frame::FrameRequest {
                scale: self.request.scale,
                clip: Some((x, y, width, height)),
            },
        }
    }
}

/// What the host makes of a frame reply: the frame when the worker succeeded
/// and the frame satisfies the stride law, the wire error mapped to the
/// host's otherwise.  A frame that breaks the stride law is refused as an
/// internal decoder error; the host never trusts its buffer layout.
pub fn accept_frame(reply: Result<Frame, RemoteError>) -> (r: Result<Frame, Error>)
    ensures
        r is Ok <==> (reply is Ok && reply->Ok_0.wf()),
        r is Ok ==> r->Ok_0 == reply->Ok_0,
        reply is Ok && !reply->Ok_0.wf() ==> r->Err_0 is InternalDecoderError,
        reply is Err ==> r->Err_0 == Error::spec_from_remote(reply->Err_0),
{
    match reply {
        Ok(frame) => {
            if frame.stride_ok() {
                Ok(frame)
            } else {
                Err(Error::InternalDecoderError)
            }
        },
        Err(err) => Err(Error::from(err)),
    }
}

} // verus!
