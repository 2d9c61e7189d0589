//! The scratch buffer of the stream adapters.

use vstd::prelude::*;

use crate::bytes::resized;

verus! {

/// Size of the in-structure buffer
pub const BUFFER_SIZE: usize = 32;

/// A growable byte buffer that keeps its first `BUFFER_SIZE` bytes inside the
/// structure that owns it.
#[verifier::external_body]
pub struct BufferVec {
    inner: smallvec::SmallVec<[u8; BUFFER_SIZE]>,
}

/// The bytes that `buffer` holds, in order.
pub uninterp spec fn buffer_bytes(buffer: BufferVec) -> Seq<u8>;

impl View for BufferVec {
    type V = Seq<u8>;

    open spec fn view(&self) -> Seq<u8> {
        buffer_bytes(*self)
    }
}

impl BufferVec {
    /// `SmallVec::new`: an empty buffer.
    #[verifier::external_body]
    pub(crate) fn new() -> (buffer: BufferVec)
        ensures
            buffer_bytes(buffer) == Seq::<u8>::empty(),
    {
        BufferVec { inner: smallvec::SmallVec::new() }
    }

    /// `SmallVec::with_capacity`: an empty buffer with room for `cap` bytes.
    /// The call panics where the room asked for cannot be addressed.
    #[verifier::external_body]
    pub(crate) fn with_capacity(cap: usize) -> (buffer: BufferVec)
        requires
            cap <= isize::MAX,
        ensures
            buffer_bytes(buffer) == Seq::<u8>::empty(),
    {
        BufferVec { inner: smallvec::SmallVec::with_capacity(cap) }
    }

    /// `SmallVec::len`: the number of bytes held.
    #[verifier::external_body]
    pub(crate) fn len(&self) -> (len: usize)
        ensures
            len == buffer_bytes(*self).len(),
    {
        self.inner.len()
    }

    /// `SmallVec::capacity`: the room the buffer has, of which nothing is
    /// stated.
    #[verifier::external_body]
    pub(crate) fn capacity(&self) -> usize {
        self.inner.capacity()
    }

    /// `SmallVec::resize`: cuts the buffer to `len` bytes, or appends `value`
    /// until it holds `len` bytes. The call panics where `len` bytes cannot be
    /// addressed.
    #[verifier::external_body]
    pub(crate) fn resize(&mut self, len: usize, value: u8)
        requires
            len <= isize::MAX,
        ensures
            buffer_bytes(*final(self)) == resized(buffer_bytes(*old(self)), len as nat, value),
    {
        self.inner.resize(len, value)
    }

    /// `SmallVec::clear`: drops every byte and keeps the room.
    #[verifier::external_body]
    pub(crate) fn clear(&mut self)
        ensures
            buffer_bytes(*final(self)) == Seq::<u8>::empty(),
    {
        self.inner.clear()
    }

    /// `SmallVec::as_slice`: the bytes held.
    #[verifier::external_body]
    pub(crate) fn as_slice(&self) -> (bytes: &[u8])
        ensures
            bytes@ == buffer_bytes(*self),
    {
        self.inner.as_slice()
    }

    /// `SmallVec::as_mut_slice`: the bytes held, to be written to in place.
    #[verifier::external_body]
    pub(crate) fn as_mut_slice(&mut self) -> (bytes: &mut [u8])
        ensures
            bytes@ == buffer_bytes(*old(self)),
            buffer_bytes(*final(self)) == final(bytes)@,
    {
        self.inner.as_mut_slice()
    }
}

} // verus!
