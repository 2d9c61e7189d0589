//! Synchronous stream adapters.

use vstd::prelude::*;

use crate::cha::TransformError;

pub mod buffer;
pub mod io;
pub mod laws;
pub mod sink;
pub mod source;

pub use buffer::{BufferVec, BUFFER_SIZE};
pub use io::{Cursor, Read, StdRead, StdWrite, Write};
pub use sink::Sink;
pub use source::Source;

verus! {

/// Why a sink or source could not be set up: the cipher's own error.
pub type Error = openssl::error::ErrorStack;

/// Why a chunk did not get through an adapter.
#[derive(Debug)]
pub enum IoError<E> {
    /// The chunk was stopped on its way through the cipher.
    Transform(TransformError),
    /// The wrapped stream failed.
    Stream(E),
}

/// What an adapter returns where its stream has answered `inner`: the
/// stream's own value, or the stream's own error.
pub open spec fn stream_answer<T, E>(inner: Result<T, E>) -> Result<T, IoError<E>> {
    match inner {
        Ok(v) => Ok(v),
        Err(e) => Err(IoError::Stream(e)),
    }
}

} // verus!
