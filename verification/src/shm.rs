//! The shared-memory frame carrier: a sealable anonymous memory object that
//! the worker fills with pixels and then hands to the host as a descriptor.
//!
//! Turning the carrier into a [`Texture`] consumes it, so no write can follow
//! the transfer; that is the descriptor-ownership rule of the protocol.

use vstd::prelude::*;

use crate::error::DecoderError;
use crate::format::MemoryFormat;
use crate::frame::Texture;

verus! {

/// Relies on `nix::sys::memfd::memfd_create`: creates an anonymous memory
/// object (named "glycin-frame" for the kernel's bookkeeping), close-on-exec
/// and with sealing allowed, and returns its non-negative file descriptor.
#[verifier::external_body]
fn memfd_create_sealable() -> (r: Result<i32, ()>)
    ensures
        r is Ok ==> r->Ok_0 >= 0,
{
    match nix::sys::memfd::memfd_create(
        c"glycin-frame",
        nix::sys::memfd::MemFdCreateFlag::MFD_CLOEXEC
            | nix::sys::memfd::MemFdCreateFlag::MFD_ALLOW_SEALING,
    ) {
        Ok(fd) => Ok(fd),
        Err(_) => Err(()),
    }
}

/// Relies on `nix::unistd::ftruncate`: on success the file behind the
/// descriptor is exactly `len` bytes long.
#[verifier::external_body]
fn fd_set_len(fd: i32, len: i64) -> (r: Result<(), ()>)
    ensures
        r is Ok ==> len >= 0,
{
    match nix::unistd::ftruncate(fd, len) {
        Ok(()) => Ok(()),
        Err(_) => Err(()),
    }
}

/// Relies on `nix::unistd::write`: writes some prefix of the buffer after
/// `offset` to the descriptor and returns how many bytes it wrote, never
/// more than were handed to it.
#[verifier::external_body]
fn fd_write_from(fd: i32, buf: &Vec<u8>, offset: usize) -> (r: Result<usize, ()>)
    requires
        offset <= buf@.len(),
    ensures
        r is Ok ==> offset + r->Ok_0 <= buf@.len(),
{
    match nix::unistd::write(fd, &buf[offset..]) {
        Ok(n) => Ok(n),
        Err(_) => Err(()),
    }
}

/// A frame carrier under construction: a kernel memory object of a fixed
/// size, and the pixel bytes to go into it.  The view of the carrier is the
/// pixel bytes.
#[derive(Debug)]
pub struct SharedMemory {
    memfd: i32,
    data: Vec<u8>,
}

impl View for SharedMemory {
    type V = Seq<u8>;

    closed spec fn view(&self) -> Seq<u8> {
        self.data@
    }
}

impl SharedMemory {
    /// The descriptor of the memory object behind the carrier.
    pub closed spec fn descriptor(self) -> i32 {
        self.memfd
    }

    /// Allocates a sealable anonymous memory object of `size` bytes together
    /// with a writable buffer of the same length, zero-filled like the object
    /// itself.  A size beyond what the platform can address is refused; a
    /// kernel failure is an internal error.
    pub fn new(size: u64) -> (r: Result<SharedMemory, DecoderError>)
        ensures
            r is Ok ==> r->Ok_0@.len() == size,
            r is Ok ==> forall|i: int| 0 <= i < size ==> r->Ok_0@[i] == 0,
            r is Ok ==> r->Ok_0.descriptor() >= 0,
            r is Err && r->Err_0 is ConversionTooLargerError <==> size > i64::MAX as u64 || size
                > usize::MAX as u64,
            r is Err ==> (r->Err_0 is ConversionTooLargerError
                || r->Err_0 is InternalDecoderError),
    {
        if size > i64::MAX as u64 || size > usize::MAX as u64 {
            return Err(DecoderError::ConversionTooLargerError);
        }
        let memfd = match memfd_create_sealable() {
            Ok(fd) => fd,
            Err(_) => {
                return Err(DecoderError::InternalDecoderError);
            },
        };
        match fd_set_len(memfd, size as i64) {
            Ok(_) => {},
            Err(_) => {
                return Err(DecoderError::InternalDecoderError);
            },
        }
        let len = size as usize;
        let mut data: Vec<u8> = Vec::new();
        while data.len() < len
            invariant
                data@.len() <= len,
                forall|i: int| 0 <= i < data@.len() ==> data@[i] == 0,
            decreases len - data@.len(),
        {
            data.push(0u8);
        }
        Ok(SharedMemory { memfd, data })
    }

    /// How many pixel bytes the carrier holds.
    pub fn len(&self) -> (r: usize)
        ensures
            r == self@.len(),
    {
        self.data.len()
    }

    /// Writes bytes into the pixel buffer at the offset; everything outside
    /// the written range keeps its value.
    pub fn write_at(&mut self, offset: usize, bytes: &[u8])
        requires
            offset + bytes@.len() <= old(self)@.len(),
        ensures
            final(self)@.len() == old(self)@.len(),
            forall|k: int| 0 <= k < bytes@.len() ==> final(self)@[offset + k] == bytes@[k],
            forall|k: int|
                0 <= k < old(self)@.len() && !(offset <= k < offset + bytes@.len())
                    ==> final(self)@[k] == old(self)@[k],
    {
        let end = self.data.len();
        let mut k: usize = 0;
        while k < bytes.len()
            invariant
                k <= bytes@.len(),
                offset + bytes@.len() <= end,
                offset + bytes@.len() <= self.data@.len(),
                self.data@.len() == old(self).data@.len(),
                self.memfd == old(self).memfd,
                forall|j: int| 0 <= j < k ==> self.data@[offset + j] == bytes@[j],
                forall|j: int|
                    0 <= j < self.data@.len() && !(offset <= j < offset + k)
                        ==> self.data@[j] == old(self).data@[j],
            decreases bytes@.len() - k,
        {
            self.data[offset + k] = bytes[k];
            k += 1;
        }
    }

    /// Consumes the carrier: flushes the pixel bytes into the memory object
    /// and yields the transferable descriptor.  The value is gone afterwards,
    /// so the producer cannot write once the descriptor is handed on.
    pub fn into_texture(self) -> (r: Result<Texture, DecoderError>)
        ensures
            r is Ok ==> r->Ok_0 == Texture::MemFd(self.descriptor()),
            r is Err ==> r->Err_0 is InternalDecoderError,
    {
        let mut offset: usize = 0;
        while offset < self.data.len()
            invariant
                offset <= self.data@.len(),
            decreases self.data@.len() - offset,
        {
            match fd_write_from(self.memfd, &self.data, offset) {
                Ok(n) => {
                    if n == 0 {
                        return Err(DecoderError::InternalDecoderError);
                    }
                    offset += n;
                },
                Err(_) => {
                    return Err(DecoderError::InternalDecoderError);
                },
            }
        }
        Ok(Texture::MemFd(self.memfd))
    }
}

/// Allocates the carrier for a frame of the given layout and size: exactly
/// one stride of `bytes_per_pixel * width` bytes for each of the `height`
/// rows.  A frame too large for the platform is refused.
pub fn new_frame_carrier(memory_format: MemoryFormat, width: u32, height: u32) -> (r: Result<
    SharedMemory,
    DecoderError,
>)
    ensures
        r is Ok ==> r->Ok_0@.len() == memory_format.bytes_per_pixel() * width * height,
        r is Err && r->Err_0 is ConversionTooLargerError <==> memory_format.bytes_per_pixel()
            * width * height > i64::MAX || memory_format.bytes_per_pixel() * width * height
            > usize::MAX,
        r is Err ==> (r->Err_0 is ConversionTooLargerError || r->Err_0 is InternalDecoderError),
{
    let bytes_per_pixel = memory_format.n_bytes().u64();
    proof {
        assert(bytes_per_pixel <= 16);
        assert((bytes_per_pixel as int) * (width as int) <= 0x10_0000_0000) by (nonlinear_arith)
            requires
                bytes_per_pixel <= 16,
                width <= 0xFFFF_FFFFu32,
        ;
    }
    let stride = bytes_per_pixel * (width as u64);
    proof {
        assert((stride as int) * (height as int) <= 0x10_0000_0000 * 0xFFFF_FFFF)
            by (nonlinear_arith)
            requires
                stride <= 0x10_0000_0000u64,
                height <= 0xFFFF_FFFFu32,
        ;
    }
    let size = (stride as u128) * (height as u128);
    if size > u64::MAX as u128 {
        return Err(DecoderError::ConversionTooLargerError);
    }
    proof {
        assert(size == memory_format.bytes_per_pixel() * width * height);
    }
    SharedMemory::new(size as u64)
}

/// The stride law, stated once for a frame and the memory behind it: a frame
/// that satisfies [`Frame::wf`] has `stride == bytes_per_pixel * width`, and
/// a carrier allocated by [`new_frame_carrier`] for the same layout and size
/// holds exactly one stride per row — no fewer bytes than the frame needs.
pub proof fn lemma_stride_law(frame: crate::frame::Frame, carrier_len: int)
    requires
        frame.wf(),
        carrier_len == frame.memory_format.bytes_per_pixel() * frame.width * frame.height,
    ensures
        frame.stride == frame.memory_format.bytes_per_pixel() * frame.width,
        carrier_len == frame.min_texture_bytes(),
{
}

} // verus!
