//! Stream adapters for streams that are polled.
//!
//! A polled stream may answer that it is not ready, and is then asked again
//! later with the same bytes. What stands here is what the adapters do around
//! such a poll: before it, they make ready what the stream is to be offered;
//! after it, they take note of how it ended. The poll itself is the caller's.

pub mod sink;
pub mod source;

pub use sink::Sink;
pub use source::Source;
