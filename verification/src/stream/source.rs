//! Syncronous stream `Read` componant.

use vstd::prelude::*;
use vstd::slice::slice_subrange;

use super::buffer::BufferVec;
use super::io::Read;
use super::{stream_answer, IoError};
use crate::bytes::{explicit_prune, zeros};
use crate::cha::{
    chunk_result, cipher_state, decrypter, encrypter, transform, update_output, CipherState, Mode,
};
use crate::key::{Key, IV};
use crate::private::Sealed;
use openssl::error::ErrorStack;
use openssl::symm::Crypter;

verus! {

/// Max number of bytes to stackalloc
///
/// Only used with `UseBufferExternal`.
pub const STACK_MAX_BYTES: usize = 4096;

/// What holds after one attempt to read a chunk through the cipher.
///
/// `raw` stands for the bytes that the wrapped stream handed out during the
/// attempt: those by which `delivered_after` is longer than
/// `delivered_before`. On success they have gone through the cipher as one
/// chunk, and what the cipher wrote for them is the front of `buf_after`;
/// behind the place of the last raw byte the caller's buffer is as it was. If
/// the stream failed, nothing was handed out and nothing has changed. If the
/// cipher stopped the chunk, the raw bytes are lost.
pub open spec fn read_result<E>(
    cipher_before: CipherState,
    delivered_before: Seq<u8>,
    buf_before: Seq<u8>,
    r: Result<usize, IoError<E>>,
    cipher_after: CipherState,
    delivered_after: Seq<u8>,
    buf_after: Seq<u8>,
) -> bool {
    let raw = delivered_after.skip(delivered_before.len() as int);
    &&& buf_after.len() == buf_before.len()
    &&& delivered_before.len() <= delivered_after.len()
    &&& delivered_after == delivered_before + raw
    &&& raw.len() <= buf_before.len()
    &&& buf_after.skip(raw.len() as int) == buf_before.skip(raw.len() as int)
    &&& match r {
        Ok(n) => {
            &&& n == update_output(cipher_before, raw).len()
            &&& n <= raw.len()
            &&& buf_after.take(n as int) == update_output(cipher_before, raw)
            &&& cipher_after == cipher_before.after_chunk(raw)
        },
        Err(IoError::Stream(_)) => {
            &&& raw.len() == 0
            &&& cipher_after == cipher_before
            &&& buf_after == buf_before
        },
        Err(IoError::Transform(e)) => chunk_result(
            cipher_before,
            raw,
            Err(e),
            cipher_after,
            buf_after.take(raw.len() as int),
        ),
    }
}

/// The stream's part in a read that returned `r`: the stream `before` was
/// given the room `offered` to fill, it left the room holding `filled` and
/// answered `inner`, and is `after` from then on.
///
/// Where the stream failed, the read fails with the stream's own error. Where
/// it answered with a count, the read does not fail on the stream's account,
/// and the raw bytes of the read are that many bytes from the front of
/// `filled`.
pub open spec fn read_answer<R: Read>(
    before: &R,
    offered: Seq<u8>,
    filled: Seq<u8>,
    inner: Result<usize, R::Error>,
    r: Result<usize, IoError<R::Error>>,
    after: &R,
) -> bool {
    &&& filled.len() == offered.len()
    &&& before.read_step(offered, inner, after, filled)
    &&& match inner {
        Ok(read) => {
            &&& read <= offered.len()
            &&& after.delivered() == before.delivered() + filled.take(read as int)
            &&& !(r matches Err(IoError::Stream(_)))
        },
        Err(e) => r == stream_answer(inner),
    }
}

/// The stream `before` was given the room `offered` to fill, once, and the
/// read that returned `r` went by its answer.
pub open spec fn read_from<R: Read>(
    before: &R,
    offered: Seq<u8>,
    r: Result<usize, IoError<R::Error>>,
    after: &R,
) -> bool {
    exists|filled: Seq<u8>, inner: Result<usize, R::Error>| #[trigger]
        read_answer(before, offered, filled, inner, r, after)
}

/// The stream `before` was given room for `room` bytes to fill, once, and
/// the read that returned `r` went by its answer.
pub open spec fn read_with_room<R: Read>(
    before: &R,
    room: nat,
    r: Result<usize, IoError<R::Error>>,
    after: &R,
) -> bool {
    exists|offered: Seq<u8>| offered.len() == room && #[trigger] read_from(before, offered, r, after)
}

/// Read a chunk from `stream` into `scratch`, send it through the cipher into
/// `buf`, and zero what was read if `clear` asks for it.
///
/// This is the body of a read, whatever buffer strategy found the scratch
/// space: `scratch` is as long as `buf`, so that the stream can be offered as
/// much room as the caller has.
pub fn read_through<R: Read>(
    crypter: &mut Crypter,
    stream: &mut R,
    clear: bool,
    scratch: &mut [u8],
    buf: &mut [u8],
) -> (r: Result<usize, IoError<R::Error>>)
    requires
        cipher_state(*old(crypter)).is_stream(),
        old(scratch)@.len() == old(buf)@.len(),
        old(buf)@.len() <= i32::MAX,
    ensures
        cipher_state(*final(crypter)).is_stream(),
        final(scratch)@.len() == old(scratch)@.len(),
        read_result(
            cipher_state(*old(crypter)),
            (*old(stream)).delivered(),
            old(buf)@,
            r,
            cipher_state(*final(crypter)),
            (*final(stream)).delivered(),
            final(buf)@,
        ),
        read_from(&*old(stream), old(scratch)@, r, &*final(stream)),
        clear ==> (r matches Ok(n) ==> final(scratch)@.take(n as int) == zeros(n as nat)),
{
    let answer = stream.read(scratch);
    let ghost inner = answer;
    let ghost filled = scratch@;
    let read = match answer {
        Ok(read) => read,
        Err(e) => {
            assert(stream.delivered().skip(stream.delivered().len() as int) =~= Seq::<u8>::empty());
            assert(stream.delivered() + Seq::<u8>::empty() =~= stream.delivered());
            let failed = Err(IoError::Stream(e));
            assert(read_answer(&*old(stream), old(scratch)@, filled, inner, failed, &*stream));
            return failed;
        },
    };
    let ghost raw = scratch@.take(read as int);
    proof {
        let before = (*old(stream)).delivered();
        assert((before + raw).skip(before.len() as int) =~= raw);
    }
    let (out, rest) = buf.split_at_mut(read);
    let ghost rest_before = rest@;
    let r = transform(crypter, slice_subrange(scratch, 0, read), out);
    proof {
        assert(buf@ == out@ + rest_before);
        assert(buf@.take(read as int) =~= out@);
        assert(buf@.skip(read as int) =~= old(buf)@.skip(read as int));
    }
    match r {
        Ok(n) => {
            proof {
                assert(buf@.take(n as int) =~= out@.take(n as int));
            }
            if clear {
                let (seen, _) = scratch.split_at_mut(n);
                explicit_prune(seen);
                proof {
                    assert(scratch@.take(n as int) =~= seen@);
                }
            }
            let done = Ok(n);
            assert(read_answer(&*old(stream), old(scratch)@, filled, inner, done, &*stream));
            done
        },
        Err(e) => {
            let stopped = Err(IoError::Transform(e));
            assert(read_answer(&*old(stream), old(scratch)@, filled, inner, stopped, &*stream));
            stopped
        },
    }
}

/// `stackalloc::alloca_zeroed`: runs `read_through` with a zeroed scratch
/// buffer of the length of `buf` that lives on the stack for the time of the
/// call, and returns what `read_through` returned. The buffer is only asked
/// for where it is no longer than `STACK_MAX_BYTES`.
#[verifier::external_body]
fn read_on_stack<R: Read>(crypter: &mut Crypter, stream: &mut R, clear: bool, buf: &mut [u8]) -> (r:
    Result<usize, IoError<R::Error>>)
    requires
        cipher_state(*old(crypter)).is_stream(),
        old(buf)@.len() <= STACK_MAX_BYTES,
    ensures
        cipher_state(*final(crypter)).is_stream(),
        read_result(
            cipher_state(*old(crypter)),
            (*old(stream)).delivered(),
            old(buf)@,
            r,
            cipher_state(*final(crypter)),
            (*final(stream)).delivered(),
            final(buf)@,
        ),
        read_from(&*old(stream), zeros(old(buf)@.len()), r, &*final(stream)),
{
    stackalloc::alloca_zeroed(buf.len(), |temp| read_through(crypter, stream, clear, temp, buf))
}

/// Read a chunk with scratch space that lasts for this call only: on the
/// stack where `buf` is no longer than `STACK_MAX_BYTES`, on the heap
/// otherwise.
fn try_alloca<R: Read>(crypter: &mut Crypter, stream: &mut R, clear: bool, buf: &mut [u8]) -> (r:
    Result<usize, IoError<R::Error>>)
    requires
        cipher_state(*old(crypter)).is_stream(),
        old(buf)@.len() <= i32::MAX,
    ensures
        cipher_state(*final(crypter)).is_stream(),
        read_result(
            cipher_state(*old(crypter)),
            (*old(stream)).delivered(),
            old(buf)@,
            r,
            cipher_state(*final(crypter)),
            (*final(stream)).delivered(),
            final(buf)@,
        ),
        read_from(&*old(stream), zeros(old(buf)@.len()), r, &*final(stream)),
{
    if buf.len() > STACK_MAX_BYTES {
        let mut bytes = vec![0u8; buf.len()];
        assert(bytes@ =~= zeros(buf@.len()));
        read_through(crypter, stream, clear, bytes.as_mut_slice(), buf)
    } else {
        read_on_stack(crypter, stream, clear, buf)
    }
}

/// How buffers are used.
pub trait BufferKind: Sealed + Sized {
    /// What a source of this kind keeps between reads.
    type InternalBuffer;

    /// The bytes that `buffer` holds.
    spec fn held(buffer: &Self::InternalBuffer) -> Seq<u8>;

    /// A buffer that holds nothing yet, with room for `cap` bytes where the
    /// kind keeps any and that much room can be addressed.
    fn create_buffer(cap: usize) -> (buffer: Self::InternalBuffer)
        ensures
            Self::held(&buffer) == Seq::<u8>::empty(),
    ;

    /// The room that `buffer` has; `0` where the kind keeps none.
    fn buffer_cap(buffer: &Self::InternalBuffer) -> usize;

    /// Read a chunk from `stream` and send it through the cipher into `buf`.
    /// Every kind does the same to the stream, to the cipher and to `buf`:
    /// the stream is given room for as many bytes as `buf` has, once. The
    /// kinds differ in where the raw bytes wait. A buffer that is kept only
    /// ever grows.
    fn read<R: Read>(
        crypter: &mut Crypter,
        buffer: &mut Self::InternalBuffer,
        stream: &mut R,
        clear: bool,
        buf: &mut [u8],
    ) -> (r: Result<usize, IoError<R::Error>>)
        requires
            cipher_state(*old(crypter)).is_stream(),
            Self::held(old(buffer)).len() <= i32::MAX,
            old(buf)@.len() <= i32::MAX,
        ensures
            cipher_state(*final(crypter)).is_stream(),
            Self::held(final(buffer)).len() <= i32::MAX,
            Self::held(final(buffer)).len() >= Self::held(old(buffer)).len(),
            read_result(
                cipher_state(*old(crypter)),
                (*old(stream)).delivered(),
                old(buf)@,
                r,
                cipher_state(*final(crypter)),
                (*final(stream)).delivered(),
                final(buf)@,
            ),
            read_with_room(&*old(stream), old(buf)@.len(), r, &*final(stream)),
    ;

    /// Zero what `buffer` holds.
    fn prune(buffer: &mut Self::InternalBuffer)
        ensures
            Self::held(final(buffer)) == zeros(Self::held(old(buffer)).len()),
    ;
}

/// Use struct-internal buffer for `Read`s
#[derive(Debug)]
pub struct UseBufferInternal;

/// Reuse the output buffer for `Read`s
#[derive(Debug)]
pub struct UseBufferExternal;

/// The kind of buffer that a source has unless it is asked for another.
pub type DefaultBuffer = UseBufferInternal;

/// ChaCha Source
///
/// Wraps a stream and sends everything that is read from it through the
/// cipher before the caller sees it.
pub struct Source<R, K: BufferKind = DefaultBuffer> {
    crypter: Crypter,
    buffer: K::InternalBuffer,
    explicit_clear: bool,
    stream: R,
}

impl<R, K: BufferKind> Source<R, K> {
    /// The state of the source's cipher context.
    pub open spec fn cipher(&self) -> CipherState {
        cipher_state(*self.spec_crypter())
    }

    /// The source's cipher context.
    pub closed spec fn spec_crypter(&self) -> &Crypter {
        &self.crypter
    }

    /// What the source keeps of its scratch space between reads.
    pub closed spec fn scratch(&self) -> Seq<u8> {
        K::held(&self.buffer)
    }

    /// The wrapped stream.
    pub closed spec fn spec_inner(&self) -> &R {
        &self.stream
    }

    /// Whether a read zeroes the raw bytes once they have gone through the
    /// cipher.
    pub closed spec fn spec_explicit_clear(&self) -> bool {
        self.explicit_clear
    }

    /// The source can take a chunk: its context belongs to a stream cipher,
    /// and its scratch buffer is no longer than the cipher accepts.
    pub open spec fn wf(&self) -> bool {
        &&& self.cipher().is_stream()
        &&& self.scratch().len() <= i32::MAX
    }

    /// The source is `old` but for what its scratch buffer holds.
    pub open spec fn same_but_scratch(&self, old: &Self) -> bool {
        &&& self.spec_inner() == old.spec_inner()
        &&& self.spec_explicit_clear() == old.spec_explicit_clear()
        &&& self.spec_crypter() == old.spec_crypter()
    }

    /// The crypter of this instance
    #[verifier::when_used_as_spec(spec_crypter)]
    pub fn crypter(&self) -> (c: &Crypter)
        ensures
            c == self.spec_crypter(),
    {
        &self.crypter
    }

    /// The crypter of this instance
    pub fn crypter_mut(&mut self) -> (c: &mut Crypter)
        ensures
            *c == *old(self).spec_crypter(),
            *final(self).spec_crypter() == *final(c),
            final(self).spec_inner() == old(self).spec_inner(),
            final(self).spec_explicit_clear() == old(self).spec_explicit_clear(),
            final(self).scratch() == old(self).scratch(),
    {
        &mut self.crypter
    }

    /// The inner stream
    #[verifier::when_used_as_spec(spec_inner)]
    pub fn inner(&self) -> (stream: &R)
        ensures
            stream == self.spec_inner(),
    {
        &self.stream
    }

    /// The inner stream
    pub fn inner_mut(&mut self) -> (stream: &mut R)
        ensures
            *stream == *old(self).spec_inner(),
            *final(self).spec_inner() == *final(stream),
            final(self).spec_crypter() == old(self).spec_crypter(),
            final(self).spec_explicit_clear() == old(self).spec_explicit_clear(),
            final(self).scratch() == old(self).scratch(),
    {
        &mut self.stream
    }

    /// Whether a read zeroes the raw bytes once they have gone through the
    /// cipher.
    #[verifier::when_used_as_spec(spec_explicit_clear)]
    pub fn explicit_clear(&self) -> (on: bool)
        ensures
            on == self.spec_explicit_clear(),
    {
        self.explicit_clear
    }

    /// Tell the source whether a read is to zero the raw bytes once they have
    /// gone through the cipher.
    pub fn set_explicit_clear(&mut self, on: bool)
        ensures
            final(self).spec_explicit_clear() == on,
            final(self).spec_inner() == old(self).spec_inner(),
            final(self).spec_crypter() == old(self).spec_crypter(),
            final(self).scratch() == old(self).scratch(),
    {
        self.explicit_clear = on;
    }

    /// Clear the internal buffer while keeping it allocated for further use.
    ///
    /// This does not affect operations at all, all it does is 0 out the
    /// left-over temporary buffer from the last operation(s). A source that
    /// keeps no buffer has nothing to clear.
    pub fn prune(&mut self)
        ensures
            final(self).scratch() == zeros(old(self).scratch().len()),
            final(self).same_but_scratch(old(self)),
    {
        K::prune(&mut self.buffer)
    }

    /// Create a new Chacha Source stream wrapper from a reader
    fn new(stream: R, crypter: Crypter) -> (source: Self)
        ensures
            source.spec_inner() == stream,
            source.spec_crypter() == crypter,
            source.scratch() == Seq::<u8>::empty(),
            !source.spec_explicit_clear(),
    {
        Source { stream, crypter, explicit_clear: false, buffer: K::create_buffer(0) }
    }

    /// Create an encrypting Chacha Source stream wrapper
    ///
    /// Fails only where the cipher cannot be set up.
    pub fn encrypt(stream: R, key: Key, iv: IV) -> (r: Result<Self, ErrorStack>)
        ensures
            r matches Ok(source) ==> {
                &&& source.wf()
                &&& source.spec_inner() == stream
                &&& source.cipher() == CipherState::fresh(Mode::Encrypt, key@, iv@)
                &&& source.scratch() == Seq::<u8>::empty()
                &&& !source.spec_explicit_clear()
            },
    {
        match encrypter(key, iv) {
            Ok(crypter) => Ok(Self::new(stream, crypter)),
            Err(e) => Err(e),
        }
    }

    /// Create a decrypting Chacha Source stream wrapper
    ///
    /// Fails only where the cipher cannot be set up.
    pub fn decrypt(stream: R, key: Key, iv: IV) -> (r: Result<Self, ErrorStack>)
        ensures
            r matches Ok(source) ==> {
                &&& source.wf()
                &&& source.spec_inner() == stream
                &&& source.cipher() == CipherState::fresh(Mode::Decrypt, key@, iv@)
                &&& source.scratch() == Seq::<u8>::empty()
                &&& !source.spec_explicit_clear()
            },
    {
        match decrypter(key, iv) {
            Ok(crypter) => Ok(Self::new(stream, crypter)),
            Err(e) => Err(e),
        }
    }

    /// Consume into the inner stream
    pub fn into_inner(self) -> (stream: R)
        ensures
            stream == self.spec_inner(),
    {
        self.stream
    }

    /// Consume into the inner stream and crypter
    pub fn into_parts(self) -> (parts: (R, Crypter))
        ensures
            parts.0 == self.spec_inner(),
            parts.1 == self.spec_crypter(),
    {
        (self.stream, self.crypter)
    }
}

impl<R: Read, K: BufferKind> Source<R, K> {
    /// Read a chunk from the wrapped stream, at most as long as `buf`, send
    /// it through the cipher into the front of `buf` and return how many
    /// bytes the cipher wrote.
    pub fn read(&mut self, buf: &mut [u8]) -> (r: Result<usize, IoError<R::Error>>)
        requires
            old(self).wf(),
            old(buf)@.len() <= i32::MAX,
        ensures
            final(self).wf(),
            final(self).spec_explicit_clear() == old(self).spec_explicit_clear(),
            final(self).scratch().len() >= old(self).scratch().len(),
            read_result(
                old(self).cipher(),
                old(self).spec_inner().delivered(),
                old(buf)@,
                r,
                final(self).cipher(),
                final(self).spec_inner().delivered(),
                final(buf)@,
            ),
            read_with_room(old(self).spec_inner(), old(buf)@.len(), r, final(self).spec_inner()),
    {
        K::read(&mut self.crypter, &mut self.buffer, &mut self.stream, self.explicit_clear, buf)
    }
}

impl<R> Source<R, UseBufferInternal> {
    /// Convert this instance to use external buffer (instead of internal.)
    ///
    /// What the internal buffer held is zeroed first if the source was told
    /// to clear explicitly.
    pub fn with_reused_buffer(self) -> (source: Source<R, UseBufferExternal>)
        ensures
            source.spec_inner() == self.spec_inner(),
            source.spec_crypter() == self.spec_crypter(),
            source.spec_explicit_clear() == self.spec_explicit_clear(),
            source.scratch() == Seq::<u8>::empty(),
    {
        let mut this = self;
        if this.explicit_clear {
            this.prune();
        }
        let cap = UseBufferInternal::buffer_cap(&this.buffer);
        Source {
            buffer: UseBufferExternal::create_buffer(cap),
            crypter: this.crypter,
            explicit_clear: this.explicit_clear,
            stream: this.stream,
        }
    }
}

impl<R> Source<R, UseBufferExternal> {
    /// Convert this instance to use internal buffer (instead of external.)
    pub fn with_internal_buffer(self) -> (source: Source<R, UseBufferInternal>)
        ensures
            source.spec_inner() == self.spec_inner(),
            source.spec_crypter() == self.spec_crypter(),
            source.spec_explicit_clear() == self.spec_explicit_clear(),
            source.scratch() == Seq::<u8>::empty(),
    {
        Source {
            buffer: UseBufferInternal::create_buffer(UseBufferExternal::buffer_cap(&self.buffer)),
            crypter: self.crypter,
            explicit_clear: self.explicit_clear,
            stream: self.stream,
        }
    }
}

impl Sealed for UseBufferInternal {

}

/// Grow the inner buffer to fix this size, if needed.
fn grow_to_fit(buffer: &mut BufferVec, sz: usize)
    requires
        sz <= i32::MAX,
    ensures
        final(buffer)@ == crate::bytes::resized(
            old(buffer)@,
            vstd::math::max(old(buffer)@.len() as int, sz as int) as nat,
            0u8,
        ),
{
    if sz > buffer.len() {
        buffer.resize(sz, 0);
    } else {
        assert(buffer@ =~= crate::bytes::resized(buffer@, buffer@.len(), 0u8));
    }
}

impl BufferKind for UseBufferInternal {
    type InternalBuffer = BufferVec;

    open spec fn held(buffer: &BufferVec) -> Seq<u8> {
        buffer@
    }

    fn create_buffer(cap: usize) -> (buffer: BufferVec) {
        if cap == 0 || cap > isize::MAX as usize {
            BufferVec::new()
        } else {
            BufferVec::with_capacity(cap)
        }
    }

    fn buffer_cap(buffer: &BufferVec) -> usize {
        buffer.capacity()
    }

    /// The raw bytes wait in the source's own buffer, which grows to the
    /// length of `buf` where it is shorter and is never cut. Where `clear`
    /// is set, the place of what went through the cipher is zeroed.
    fn read<R: Read>(
        crypter: &mut Crypter,
        buffer: &mut BufferVec,
        stream: &mut R,
        clear: bool,
        buf: &mut [u8],
    ) -> (r: Result<usize, IoError<R::Error>>)
        ensures
            final(buffer)@.len() == vstd::math::max(
                old(buffer)@.len() as int,
                old(buf)@.len() as int,
            ),
            clear ==> (r matches Ok(n) ==> final(buffer)@.take(n as int) == zeros(n as nat)),
    {
        grow_to_fit(buffer, buf.len());
        let (scratch, _) = buffer.as_mut_slice().split_at_mut(buf.len());
        let ghost offered = scratch@;
        let r = read_through(crypter, stream, clear, scratch, buf);
        proof {
            assert(read_from(&*old(stream), offered, r, &*stream));
            if clear {
                if let Ok(n) = r {
                    assert(buffer@.take(n as int) =~= scratch@.take(n as int));
                }
            }
        }
        r
    }

    fn prune(buffer: &mut BufferVec) {
        explicit_prune(buffer.as_mut_slice());
    }
}

impl Sealed for UseBufferExternal {

}

impl BufferKind for UseBufferExternal {
    type InternalBuffer = ();

    open spec fn held(buffer: &()) -> Seq<u8> {
        Seq::<u8>::empty()
    }

    fn create_buffer(cap: usize) -> (buffer: ()) {
        ()
    }

    fn buffer_cap(buffer: &()) -> (cap: usize)
        ensures
            cap == 0,
    {
        0
    }

    /// The raw bytes wait in scratch space that is gone when the call
    /// returns.
    fn read<R: Read>(
        crypter: &mut Crypter,
        buffer: &mut (),
        stream: &mut R,
        clear: bool,
        buf: &mut [u8],
    ) -> (r: Result<usize, IoError<R::Error>>) {
        let r = try_alloca(crypter, stream, clear, buf);
        proof {
            assert(read_from(&*old(stream), zeros(old(buf)@.len()), r, &*stream));
        }
        r
    }

    fn prune(buffer: &mut ()) {
        assert(Self::held(buffer) =~= zeros(0));
    }
}

} // verus!
