//! Sandboxed image decoding: the host/worker protocol and its supporting
//! machinery.
//!
//! Image bytes are parsed by a decoder running in a separate, sandboxed
//! process; the host receives validated metadata and pixel buffers delivered
//! through sealed anonymous memory objects.  This crate holds the
//! format-agnostic core: the loader-configuration registry, pixel-format
//! accounting, the shared-memory frame carrier, the request/reply message
//! types, and the worker-side dispatch rules.  Process spawning, the socket
//! transport, and all file I/O live with the embedding application.

pub mod api;
pub mod config;
pub mod convert;
pub mod error;
pub mod format;
pub mod frame;
pub mod shm;
pub mod sniff;
pub mod worker;

pub use config::Config;
pub use config::ImageDecoderConfig;
pub use config::MimeType;
pub use convert::GenericContexts;
pub use convert::SafeConversion;
pub use error::ConversionTooLargerError;
pub use error::DecoderError;
pub use error::Error;
pub use error::RemoteError;
pub use api::SandboxMechanism;
pub use format::MemoryFormat;
pub use format::MemoryFormatBytes;
pub use frame::Frame;
pub use frame::ImageInfo;
pub use frame::Texture;
pub use shm::SharedMemory;
pub use worker::Decoder;
pub use worker::DecodingDetails;
pub use worker::DecodingRequest;
