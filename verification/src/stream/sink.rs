//! Syncronous stream `Write` componant.

use vstd::prelude::*;
use vstd::slice::slice_subrange;

use super::buffer::BufferVec;
use super::io::Write;
use super::{stream_answer, IoError};
use crate::bytes::{explicit_prune, zeros};
use crate::cha::{
    chunk_result, cipher_state, decrypter, encrypter, transform, update_output, CipherState, Mode,
    TransformError,
};
use crate::key::{Key, IV};
use openssl::error::ErrorStack;
use openssl::symm::Crypter;

verus! {

/// ChaCha Sink
///
/// Wraps a stream and sends everything that is written through the cipher
/// before the stream sees it.
///
/// # Note
/// When writing, a temporary buffer stored in the structure is used. This
/// buffer is **not** cleared after a write, for efficiency reasons. This may
/// leave sensitive information in the buffer after the write operation.
/// The `flush()` implementation drops what the buffer holds, and zeroes it
/// first if the sink was told to clear explicitly.
/// You can use the `prune()` function to zero out this buffer manually too.
pub struct Sink<W> {
    crypter: Crypter,
    buffer: BufferVec,
    explicit_clear: bool,
    stream: W,
}

impl<W> Sink<W> {
    /// The state of the sink's cipher context.
    pub open spec fn cipher(&self) -> CipherState {
        cipher_state(*self.spec_crypter())
    }

    /// The sink's cipher context.
    pub closed spec fn spec_crypter(&self) -> &Crypter {
        &self.crypter
    }

    /// What the scratch buffer holds.
    pub closed spec fn scratch(&self) -> Seq<u8> {
        self.buffer@
    }

    /// The wrapped stream.
    pub closed spec fn spec_inner(&self) -> &W {
        &self.stream
    }

    /// Whether `flush` zeroes the scratch buffer before it drops its contents.
    pub closed spec fn spec_explicit_clear(&self) -> bool {
        self.explicit_clear
    }

    /// The sink can take a chunk: its context belongs to a stream cipher, and
    /// its scratch buffer is no longer than the cipher accepts.
    pub open spec fn wf(&self) -> bool {
        &&& self.cipher().is_stream()
        &&& self.scratch().len() <= i32::MAX
    }

    /// The sink is `old` but for its scratch buffer and the state of its
    /// context.
    pub open spec fn same_stream(&self, old: &Self) -> bool {
        &&& self.spec_inner() == old.spec_inner()
        &&& self.spec_explicit_clear() == old.spec_explicit_clear()
    }

    /// The sink is `old` but for what its scratch buffer holds.
    pub open spec fn same_but_scratch(&self, old: &Self) -> bool {
        &&& self.same_stream(old)
        &&& self.spec_crypter() == old.spec_crypter()
    }

    /// The crypter of this instance
    #[verifier::when_used_as_spec(spec_crypter)]
    pub fn crypter(&self) -> (c: &Crypter)
        ensures
            c == self.spec_crypter(),
    {
        &self.crypter
    }

    /// The crypter of this instance
    pub fn crypter_mut(&mut self) -> (c: &mut Crypter)
        ensures
            *c == *old(self).spec_crypter(),
            *final(self).spec_crypter() == *final(c),
            final(self).same_stream(old(self)),
            final(self).scratch() == old(self).scratch(),
    {
        &mut self.crypter
    }

    /// The inner stream
    #[verifier::when_used_as_spec(spec_inner)]
    pub fn inner(&self) -> (stream: &W)
        ensures
            stream == self.spec_inner(),
    {
        &self.stream
    }

    /// The inner stream
    pub fn inner_mut(&mut self) -> (stream: &mut W)
        ensures
            *stream == *old(self).spec_inner(),
            *final(self).spec_inner() == *final(stream),
            final(self).spec_crypter() == old(self).spec_crypter(),
            final(self).scratch() == old(self).scratch(),
            final(self).spec_explicit_clear() == old(self).spec_explicit_clear(),
    {
        &mut self.stream
    }

    /// Whether `flush` zeroes the scratch buffer before it drops its contents.
    #[verifier::when_used_as_spec(spec_explicit_clear)]
    pub fn explicit_clear(&self) -> (on: bool)
        ensures
            on == self.spec_explicit_clear(),
    {
        self.explicit_clear
    }

    /// Tell the sink whether `flush` is to zero the scratch buffer before it
    /// drops its contents.
    pub fn set_explicit_clear(&mut self, on: bool)
        ensures
            final(self).spec_explicit_clear() == on,
            final(self).spec_inner() == old(self).spec_inner(),
            final(self).spec_crypter() == old(self).spec_crypter(),
            final(self).scratch() == old(self).scratch(),
    {
        self.explicit_clear = on;
    }

    /// Perform the cipher transform on this input to the inner buffer,
    /// returning the number of bytes updated.
    ///
    /// The buffer grows to the length of `buf` where it is shorter, and is
    /// never cut.
    fn transform(&mut self, buf: &[u8]) -> (r: Result<usize, TransformError>)
        requires
            old(self).wf(),
            buf@.len() <= i32::MAX,
        ensures
            final(self).wf(),
            final(self).same_stream(old(self)),
            final(self).scratch().len() == vstd::math::max(
                old(self).scratch().len() as int,
                buf@.len() as int,
            ),
            chunk_result(old(self).cipher(), buf@, r, final(self).cipher(), final(self).scratch()),
    {
        if buf.len() > self.buffer.len() {
            self.buffer.resize(buf.len(), 0);
        }
        transform(&mut self.crypter, buf, self.buffer.as_mut_slice())
    }

    /// Clear the internal buffer while keeping it allocated for further use.
    ///
    /// This does not affect operations at all, all it does is 0 out the
    /// left-over temporary buffer from the last operation(s).
    pub fn prune(&mut self)
        ensures
            final(self).scratch() == zeros(old(self).scratch().len()),
            final(self).same_but_scratch(old(self)),
    {
        explicit_prune(self.buffer.as_mut_slice());
    }

    /// Create a new Chacha Sink stream wrapper
    fn new(stream: W, crypter: Crypter) -> (sink: Self)
        ensures
            sink.spec_inner() == stream,
            sink.spec_crypter() == crypter,
            sink.scratch() == Seq::<u8>::empty(),
            !sink.spec_explicit_clear(),
    {
        Sink { stream, crypter, explicit_clear: false, buffer: BufferVec::new() }
    }

    /// Create an encrypting Chacha Sink stream wrapper
    ///
    /// Fails only where the cipher cannot be set up.
    pub fn encrypt(stream: W, key: Key, iv: IV) -> (r: Result<Self, ErrorStack>)
        ensures
            r matches Ok(sink) ==> {
                &&& sink.wf()
                &&& sink.spec_inner() == stream
                &&& sink.cipher() == CipherState::fresh(Mode::Encrypt, key@, iv@)
                &&& sink.scratch() == Seq::<u8>::empty()
                &&& !sink.spec_explicit_clear()
            },
    {
        match encrypter(key, iv) {
            Ok(crypter) => Ok(Self::new(stream, crypter)),
            Err(e) => Err(e),
        }
    }

    /// Create a decrypting Chacha Sink stream wrapper
    ///
    /// Fails only where the cipher cannot be set up.
    pub fn decrypt(stream: W, key: Key, iv: IV) -> (r: Result<Self, ErrorStack>)
        ensures
            r matches Ok(sink) ==> {
                &&& sink.wf()
                &&& sink.spec_inner() == stream
                &&& sink.cipher() == CipherState::fresh(Mode::Decrypt, key@, iv@)
                &&& sink.scratch() == Seq::<u8>::empty()
                &&& !sink.spec_explicit_clear()
            },
    {
        match decrypter(key, iv) {
            Ok(crypter) => Ok(Self::new(stream, crypter)),
            Err(e) => Err(e),
        }
    }

    /// Consume into the inner stream
    pub fn into_inner(self) -> (stream: W)
        ensures
            stream == self.spec_inner(),
    {
        self.stream
    }

    /// Consume into the inner stream and crypter
    pub fn into_parts(self) -> (parts: (W, Crypter))
        ensures
            parts.0 == self.spec_inner(),
            parts.1 == self.spec_crypter(),
    {
        (self.stream, self.crypter)
    }

    /// Create a sink from a stream and a crypter
    ///
    /// The counterpart to `into_parts()`.
    pub fn from_parts(stream: W, crypter: Crypter) -> (sink: Self)
        ensures
            sink.spec_inner() == stream,
            sink.spec_crypter() == crypter,
            sink.cipher() == cipher_state(crypter),
            sink.scratch() == Seq::<u8>::empty(),
            !sink.spec_explicit_clear(),
    {
        Self::new(stream, crypter)
    }
}

impl<W: Write> Sink<W> {
    /// What `write` may do with `buf`: it returns `r` and leaves the sink as
    /// `after`.
    ///
    /// Nothing is done for an empty `buf`. Otherwise the whole of `buf` goes
    /// through the cipher, and the scratch buffer has grown to hold it. If
    /// the cipher stops the chunk, the stream has not been touched. If the
    /// cipher wrote nothing, the stream has not been touched either, and the
    /// count is zero. In every other case the stream was offered all that the
    /// cipher wrote, once, and its answer is the result.
    pub open spec fn write_outcome(
        &self,
        buf: Seq<u8>,
        r: Result<usize, IoError<W::Error>>,
        after: &Self,
    ) -> bool {
        let out = update_output(self.cipher(), buf);
        if buf.len() == 0 {
            &&& r matches Ok(n) && n == 0
            &&& after == self
        } else {
            &&& after.spec_explicit_clear() == self.spec_explicit_clear()
            &&& after.scratch().len() == vstd::math::max(
                self.scratch().len() as int,
                buf.len() as int,
            )
            &&& match r {
                Err(IoError::Transform(e)) => {
                    &&& after.spec_inner() == self.spec_inner()
                    &&& chunk_result(self.cipher(), buf, Err(e), after.cipher(), after.scratch())
                },
                _ => {
                    &&& after.cipher() == self.cipher().after_chunk(buf)
                    &&& after.scratch().take(out.len() as int) == out
                    &&& if out.len() == 0 {
                        &&& r matches Ok(n) && n == 0
                        &&& after.spec_inner() == self.spec_inner()
                    } else {
                        exists|inner: Result<usize, W::Error>| #[trigger]
                            self.spec_inner().write_step(out, inner, after.spec_inner()) && r
                                == stream_answer(inner)
                    }
                },
            }
        }
    }

    /// What `write_all` may do with `buf`: it returns `r` and leaves the sink
    /// as `after`.
    ///
    /// The whole of `buf` goes through the cipher, and the scratch buffer has
    /// grown to hold it. If the cipher stops the chunk, the stream has not
    /// been touched. Otherwise the stream was made to take all that the
    /// cipher wrote, once, and its answer is the result.
    pub open spec fn write_all_outcome(
        &self,
        buf: Seq<u8>,
        r: Result<(), IoError<W::Error>>,
        after: &Self,
    ) -> bool {
        let out = update_output(self.cipher(), buf);
        &&& after.spec_explicit_clear() == self.spec_explicit_clear()
        &&& after.scratch().len() == vstd::math::max(self.scratch().len() as int, buf.len() as int)
        &&& match r {
            Err(IoError::Transform(e)) => {
                &&& after.spec_inner() == self.spec_inner()
                &&& chunk_result(self.cipher(), buf, Err(e), after.cipher(), after.scratch())
            },
            _ => {
                &&& after.cipher() == self.cipher().after_chunk(buf)
                &&& after.scratch().take(out.len() as int) == out
                &&& exists|inner: Result<(), W::Error>| #[trigger]
                    self.spec_inner().write_all_step(out, inner, after.spec_inner()) && r
                        == stream_answer(inner)
            },
        }
    }

    /// Send `buf` through the cipher and offer the result to the stream.
    ///
    /// The whole of `buf` goes through the cipher, whatever the stream then
    /// accepts: the count returned is that of the transformed bytes that the
    /// stream took, and the rest of them is dropped. An empty `buf` is
    /// answered with zero at once; where the cipher wrote nothing, the stream
    /// is not called.
    pub fn write(&mut self, buf: &[u8]) -> (r: Result<usize, IoError<W::Error>>)
        requires
            old(self).wf(),
            buf@.len() <= i32::MAX,
        ensures
            final(self).wf(),
            old(self).write_outcome(buf@, r, final(self)),
            buf@.len() == 0 ==> (r matches Ok(n) && n == 0 && *final(self) == *old(self)),
            r matches Ok(n) ==> {
                let out = update_output(old(self).cipher(), buf@);
                &&& n <= out.len()
                &&& final(self).spec_inner().written() == old(self).spec_inner().written()
                    + out.take(n as int)
            },
            r matches Err(IoError::Stream(_)) ==> final(self).spec_inner().written() == old(
                self,
            ).spec_inner().written(),
    {
        if buf.len() == 0 {
            proof {
                let out = update_output(self.cipher(), buf@);
                assert(out.take(0) =~= Seq::<u8>::empty());
                assert(self.stream.written() + Seq::<u8>::empty() =~= self.stream.written());
            }
            return Ok(0);
        }
        let n = match self.transform(buf) {
            Ok(n) => n,
            Err(e) => {
                return Err(IoError::Transform(e));
            },
        };
        if n == 0 {
            assert(update_output(old(self).cipher(), buf@).take(0) =~= Seq::<u8>::empty());
            assert(self.stream.written() + Seq::<u8>::empty() =~= self.stream.written());
            return Ok(0);
        }
        let out = slice_subrange(self.buffer.as_slice(), 0, n);
        let answer = self.stream.write(out);
        proof {
            let sent = update_output(old(self).cipher(), buf@);
            assert(out@ == sent);
            assert(sent.len() > 0);
            assert(old(self).spec_inner().write_step(sent, answer, self.spec_inner()));
            assert(self.cipher() == old(self).cipher().after_chunk(buf@));
            assert(self.scratch().take(sent.len() as int) == sent);
            assert(old(self).write_outcome(buf@, stream_answer(answer), &*self));
        }
        match answer {
            Ok(k) => Ok(k),
            Err(e) => Err(IoError::Stream(e)),
        }
    }

    /// Send `buf` through the cipher and make the stream take all of the
    /// result.
    pub fn write_all(&mut self, buf: &[u8]) -> (r: Result<(), IoError<W::Error>>)
        requires
            old(self).wf(),
            buf@.len() <= i32::MAX,
        ensures
            final(self).wf(),
            old(self).write_all_outcome(buf@, r, final(self)),
            r is Ok ==> final(self).spec_inner().written() == old(self).spec_inner().written()
                + update_output(old(self).cipher(), buf@),
            r matches Err(IoError::Stream(_)) ==> exists|n: int|
                0 <= n <= update_output(old(self).cipher(), buf@).len() && final(
                    self
                ).spec_inner().written() == old(self).spec_inner().written()
                    + #[trigger] update_output(old(self).cipher(), buf@).take(n),
    {
        let n = match self.transform(buf) {
            Ok(n) => n,
            Err(e) => {
                return Err(IoError::Transform(e));
            },
        };
        let out = slice_subrange(self.buffer.as_slice(), 0, n);
        let answer = self.stream.write_all(out);
        proof {
            let sent = update_output(old(self).cipher(), buf@);
            assert(out@ == sent);
            assert(old(self).spec_inner().write_all_step(sent, answer, self.spec_inner()));
            assert(old(self).write_all_outcome(buf@, stream_answer(answer), &*self));
        }
        match answer {
            Ok(()) => Ok(()),
            Err(e) => Err(IoError::Stream(e)),
        }
    }

    /// Drop what the scratch buffer holds, zeroing it first if the sink was
    /// told to clear explicitly, then flush the stream and return what the
    /// stream answers.
    pub fn flush(&mut self) -> (r: Result<(), W::Error>)
        ensures
            old(self).spec_inner().flush_step(r, final(self).spec_inner()),
            final(self).scratch() == Seq::<u8>::empty(),
            final(self).spec_crypter() == old(self).spec_crypter(),
            final(self).spec_explicit_clear() == old(self).spec_explicit_clear(),
            final(self).spec_inner().written() == old(self).spec_inner().written(),
    {
        if self.explicit_clear {
            self.prune();
        }
        self.buffer.clear();
        self.stream.flush()
    }
}

} // verus!
