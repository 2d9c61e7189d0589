//! Streaming ChaCha20-Poly1305 adapters.
//!
//! A [`Sink`] encrypts or decrypts everything written through it before the
//! bytes reach the stream it wraps; a [`Source`] does the same to everything
//! read through it. Both work a chunk at a time on a scratch buffer, so the
//! payload is never held in memory as a whole.
//!
//! The cipher itself is OpenSSL's. What it computes is named, not defined, in
//! [`cha`]: the contracts of this crate say which bytes are handed to the
//! cipher, in which order, and where its output goes.

pub mod bytes;
pub mod cha;
pub mod ext;
pub mod ffi;
pub mod key;
mod private;
pub mod stream;
pub mod stream_async;


pub use cha::keygen;
pub use key::{Key, IV};
pub use stream::Sink;
pub use stream::Source;
pub use stream_async::Sink as AsyncSink;
pub use stream_async::Source as AsyncSource;
