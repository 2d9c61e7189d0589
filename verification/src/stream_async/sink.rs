//! Asyncronous `AsyncWrite` wrapper.

use vstd::prelude::*;

use crate::bytes::{explicit_prune, zeros};
use crate::cha::{
    chunk_result, cipher_state, decrypter, encrypter, update_output, CipherState, Mode,
    TransformError,
};
use crate::key::{Key, IV};
use crate::stream::buffer::BufferVec;
use openssl::error::ErrorStack;
use openssl::symm::Crypter;

verus! {

/// Async ChaCha Sink
///
/// Wraps a polled stream and sends everything that is written through the
/// cipher before the stream sees it. A chunk that has gone through the cipher
/// waits in the sink's buffer until the stream has answered a poll for it.
pub struct Sink<W> {
    stream: W,
    crypter: Crypter,
    buffer: BufferVec,
    explicit_clear: bool,
}

/// Perform the cipher transform on this input to the inner buffer, which then
/// holds what the cipher wrote and nothing else.
pub fn transform(crypter: &mut Crypter, buffer: &mut BufferVec, buf: &[u8]) -> (r: Result<
    (),
    TransformError,
>)
    requires
        cipher_state(*old(crypter)).is_stream(),
        buf@.len() <= i32::MAX,
    ensures
        cipher_state(*final(crypter)).is_stream(),
        final(buffer)@.len() <= i32::MAX,
        match r {
            Ok(_) => {
                &&& final(buffer)@ == update_output(cipher_state(*old(crypter)), buf@)
                &&& cipher_state(*final(crypter)) == cipher_state(*old(crypter)).after_chunk(buf@)
            },
            Err(e) => {
                &&& final(buffer)@.len() == buf@.len()
                &&& chunk_result(
                    cipher_state(*old(crypter)),
                    buf@,
                    Err(e),
                    cipher_state(*final(crypter)),
                    final(buffer)@,
                )
            },
        },
{
    buffer.resize(buf.len(), 0);
    let n = match crate::cha::transform(crypter, buf, buffer.as_mut_slice()) {
        Ok(n) => n,
        Err(e) => {
            return Err(e);
        },
    };
    let ghost full = buffer@;
    buffer.resize(n, 0);
    assert(buffer@ =~= full.take(n as int));
    Ok(())
}

impl<W> Sink<W> {
    /// The state of the sink's cipher context.
    pub open spec fn cipher(&self) -> CipherState {
        cipher_state(*self.spec_crypter())
    }

    /// The sink's cipher context.
    pub closed spec fn spec_crypter(&self) -> &Crypter {
        &self.crypter
    }

    /// The transformed bytes that wait for the stream.
    pub closed spec fn pending(&self) -> Seq<u8> {
        self.buffer@
    }

    /// The wrapped stream.
    pub closed spec fn spec_inner(&self) -> &W {
        &self.stream
    }

    /// Whether the buffer is zeroed before its contents are dropped.
    pub closed spec fn spec_explicit_clear(&self) -> bool {
        self.explicit_clear
    }

    /// The sink can take a chunk: its context belongs to a stream cipher, and
    /// what waits in its buffer is no longer than the cipher accepts.
    pub open spec fn wf(&self) -> bool {
        &&& self.cipher().is_stream()
        &&& self.pending().len() <= i32::MAX
    }

    /// Create a new async Chacha Sink stream wrapper
    fn new(stream: W, crypter: Crypter) -> (sink: Self)
        ensures
            sink.spec_inner() == stream,
            sink.spec_crypter() == crypter,
            sink.pending() == Seq::<u8>::empty(),
            !sink.spec_explicit_clear(),
    {
        Self { stream, crypter, explicit_clear: false, buffer: BufferVec::new() }
    }

    /// Create an encrypting Chacha Sink stream wrapper
    ///
    /// Fails only where the cipher cannot be set up.
    pub fn encrypt(stream: W, key: Key, iv: IV) -> (r: Result<Self, ErrorStack>)
        ensures
            r matches Ok(sink) ==> {
                &&& sink.wf()
                &&& sink.spec_inner() == stream
                &&& sink.cipher() == CipherState::fresh(Mode::Encrypt, key@, iv@)
                &&& sink.pending() == Seq::<u8>::empty()
                &&& !sink.spec_explicit_clear()
            },
    {
        match encrypter(key, iv) {
            Ok(crypter) => Ok(Self::new(stream, crypter)),
            Err(e) => Err(e),
        }
    }

    /// Create a decrypting Chacha Sink stream wrapper
    ///
    /// Fails only where the cipher cannot be set up.
    pub fn decrypt(stream: W, key: Key, iv: IV) -> (r: Result<Self, ErrorStack>)
        ensures
            r matches Ok(sink) ==> {
                &&& sink.wf()
                &&& sink.spec_inner() == stream
                &&& sink.cipher() == CipherState::fresh(Mode::Decrypt, key@, iv@)
                &&& sink.pending() == Seq::<u8>::empty()
                &&& !sink.spec_explicit_clear()
            },
    {
        match decrypter(key, iv) {
            Ok(crypter) => Ok(Self::new(stream, crypter)),
            Err(e) => Err(e),
        }
    }

    /// Consume into the inner stream
    pub fn into_inner(self) -> (stream: W)
        ensures
            stream == self.spec_inner(),
    {
        self.stream
    }

    /// Consume into the inner stream and crypter
    pub fn into_parts(self) -> (parts: (W, Crypter))
        ensures
            parts.0 == self.spec_inner(),
            parts.1 == self.spec_crypter(),
    {
        (self.stream, self.crypter)
    }

    /// Create a sink from a stream and a crypter
    ///
    /// The counterpart to `into_parts()`.
    pub fn from_parts(stream: W, crypter: Crypter) -> (sink: Self)
        ensures
            sink.spec_inner() == stream,
            sink.spec_crypter() == crypter,
            sink.pending() == Seq::<u8>::empty(),
            !sink.spec_explicit_clear(),
    {
        Self::new(stream, crypter)
    }

    /// The crypter of this instance
    #[verifier::when_used_as_spec(spec_crypter)]
    pub fn crypter(&self) -> (c: &Crypter)
        ensures
            c == self.spec_crypter(),
    {
        &self.crypter
    }

    /// The crypter of this instance
    pub fn crypter_mut(&mut self) -> (c: &mut Crypter)
        ensures
            *c == *old(self).spec_crypter(),
            *final(self).spec_crypter() == *final(c),
            final(self).spec_inner() == old(self).spec_inner(),
            final(self).spec_explicit_clear() == old(self).spec_explicit_clear(),
            final(self).pending() == old(self).pending(),
    {
        &mut self.crypter
    }

    /// The inner stream
    #[verifier::when_used_as_spec(spec_inner)]
    pub fn inner(&self) -> (stream: &W)
        ensures
            stream == self.spec_inner(),
    {
        &self.stream
    }

    /// The inner stream
    pub fn inner_mut(&mut self) -> (stream: &mut W)
        ensures
            *stream == *old(self).spec_inner(),
            *final(self).spec_inner() == *final(stream),
            final(self).spec_crypter() == old(self).spec_crypter(),
            final(self).spec_explicit_clear() == old(self).spec_explicit_clear(),
            final(self).pending() == old(self).pending(),
    {
        &mut self.stream
    }

    /// Whether the buffer is zeroed before its contents are dropped.
    #[verifier::when_used_as_spec(spec_explicit_clear)]
    pub fn explicit_clear(&self) -> (on: bool)
        ensures
            on == self.spec_explicit_clear(),
    {
        self.explicit_clear
    }

    /// Tell the sink whether the buffer is to be zeroed before its contents
    /// are dropped.
    pub fn set_explicit_clear(&mut self, on: bool)
        ensures
            final(self).spec_explicit_clear() == on,
            final(self).spec_inner() == old(self).spec_inner(),
            final(self).spec_crypter() == old(self).spec_crypter(),
            final(self).pending() == old(self).pending(),
    {
        self.explicit_clear = on;
    }

    /// Clear the internal buffer while keeping it allocated for further use.
    ///
    /// This does not affect operations at all, all it does is 0 out the
    /// left-over temporary buffer from the last operation(s).
    pub fn prune(&mut self)
        ensures
            final(self).pending() == zeros(old(self).pending().len()),
            final(self).spec_inner() == old(self).spec_inner(),
            final(self).spec_crypter() == old(self).spec_crypter(),
            final(self).spec_explicit_clear() == old(self).spec_explicit_clear(),
    {
        explicit_prune(self.buffer.as_mut_slice());
    }

    /// Before the stream is polled for a write of `buf`: makes ready the
    /// bytes to offer it, and hands them out together with the stream.
    ///
    /// Where nothing waits in the buffer, `buf` goes through the cipher and
    /// what the cipher wrote waits from now on. Where something waits, a poll
    /// for it has not been answered yet: it is offered again as it is, and
    /// `buf` is not looked at.
    pub fn poll_write(&mut self, buf: &[u8]) -> (r: Result<(&[u8], &mut W), TransformError>)
        requires
            old(self).wf(),
            buf@.len() <= i32::MAX,
        ensures
            final(self).wf(),
            final(self).spec_explicit_clear() == old(self).spec_explicit_clear(),
            match r {
                Ok((offer, stream)) => {
                    &&& offer@ == final(self).pending()
                    &&& *stream == *old(self).spec_inner()
                    &&& *final(self).spec_inner() == *final(stream)
                    &&& if old(self).pending().len() == 0 {
                        &&& offer@ == update_output(old(self).cipher(), buf@)
                        &&& final(self).cipher() == old(self).cipher().after_chunk(buf@)
                    } else {
                        &&& offer@ == old(self).pending()
                        &&& final(self).spec_crypter() == old(self).spec_crypter()
                    }
                },
                Err(e) => {
                    &&& old(self).pending().len() == 0
                    &&& final(self).spec_inner() == old(self).spec_inner()
                    &&& chunk_result(
                        old(self).cipher(),
                        buf@,
                        Err(e),
                        final(self).cipher(),
                        final(self).pending(),
                    )
                },
            },
    {
        if self.buffer.len() == 0 {
            match transform(&mut self.crypter, &mut self.buffer, buf) {
                Ok(()) => {},
                Err(e) => {
                    return Err(e);
                },
            }
        }
        Ok((self.buffer.as_slice(), &mut self.stream))
    }

    /// After the stream has answered a poll for a write, a flush or a
    /// shutdown: where it was `ready`, what waited in the buffer is dropped,
    /// and zeroed first if the sink was told to clear explicitly. Where it was
    /// not, everything stays for the next poll.
    pub fn poll_done(&mut self, ready: bool)
        ensures
            final(self).pending() == if ready {
                Seq::<u8>::empty()
            } else {
                old(self).pending()
            },
            final(self).spec_inner() == old(self).spec_inner(),
            final(self).spec_crypter() == old(self).spec_crypter(),
            final(self).spec_explicit_clear() == old(self).spec_explicit_clear(),
    {
        if ready {
            if self.explicit_clear {
                self.prune();
            }
            self.buffer.clear();
        }
    }
}

} // verus!
