//! Asyncronous `AsyncRead` wrapper.

use vstd::prelude::*;
use vstd::slice::slice_subrange;

use crate::bytes::{explicit_prune, zeros};
use crate::cha::{
    chunk_result, cipher_state, decrypter, encrypter, update_output, CipherState, Mode,
    TransformError,
};
use crate::key::{Key, IV};
use crate::stream::buffer::BufferVec;
use openssl::error::ErrorStack;
use openssl::symm::Crypter;

verus! {

/// Asyncronous ChaCha source.
/// En/decrypts information from the source async reader.
///
/// This is the `Read` implementing counterpart to the async sink. The raw
/// bytes of a read wait in the source's buffer until the stream has answered
/// the poll for them.
pub struct Source<R> {
    stream: R,
    crypter: Crypter,
    buffer: BufferVec,
    explicit_clear: bool,
}

/// Perform the cipher transform on the inner buffer, writing to the output
/// buffer, returning the number of bytes updated.
pub fn transform(crypter: &mut Crypter, buf: &[u8], buffer: &mut [u8]) -> (r: Result<
    usize,
    TransformError,
>)
    requires
        cipher_state(*old(crypter)).is_stream(),
        buf@.len() <= old(buffer)@.len() <= i32::MAX,
    ensures
        final(buffer)@.len() == old(buffer)@.len(),
        cipher_state(*final(crypter)).is_stream(),
        chunk_result(
            cipher_state(*old(crypter)),
            buf@,
            r,
            cipher_state(*final(crypter)),
            final(buffer)@,
        ),
{
    crate::cha::transform(crypter, buf, buffer)
}

impl<R> Source<R> {
    /// The state of the source's cipher context.
    pub open spec fn cipher(&self) -> CipherState {
        cipher_state(*self.spec_crypter())
    }

    /// The source's cipher context.
    pub closed spec fn spec_crypter(&self) -> &Crypter {
        &self.crypter
    }

    /// The room in which raw bytes wait for the cipher.
    pub closed spec fn scratch(&self) -> Seq<u8> {
        self.buffer@
    }

    /// The wrapped stream.
    pub closed spec fn spec_inner(&self) -> &R {
        &self.stream
    }

    /// Whether the buffer is zeroed before its contents are dropped.
    pub closed spec fn spec_explicit_clear(&self) -> bool {
        self.explicit_clear
    }

    /// The source can take a chunk: its context belongs to a stream cipher,
    /// and its buffer is no longer than the cipher accepts.
    pub open spec fn wf(&self) -> bool {
        &&& self.cipher().is_stream()
        &&& self.scratch().len() <= i32::MAX
    }

    /// Create a new async Chacha Source stream wrapper
    fn new(stream: R, crypter: Crypter) -> (source: Self)
        ensures
            source.spec_inner() == stream,
            source.spec_crypter() == crypter,
            source.scratch() == Seq::<u8>::empty(),
            !source.spec_explicit_clear(),
    {
        Self { stream, crypter, explicit_clear: false, buffer: BufferVec::new() }
    }

    /// Create an encrypting Chacha Source stream wrapper
    ///
    /// Fails only where the cipher cannot be set up.
    pub fn encrypt(stream: R, key: Key, iv: IV) -> (r: Result<Self, ErrorStack>)
        ensures
            r matches Ok(source) ==> {
                &&& source.wf()
                &&& source.spec_inner() == stream
                &&& source.cipher() == CipherState::fresh(Mode::Encrypt, key@, iv@)
                &&& source.scratch() == Seq::<u8>::empty()
                &&& !source.spec_explicit_clear()
            },
    {
        match encrypter(key, iv) {
            Ok(crypter) => Ok(Self::new(stream, crypter)),
            Err(e) => Err(e),
        }
    }

    /// Create a decrypting Chacha Source stream wrapper
    ///
    /// Fails only where the cipher cannot be set up.
    pub fn decrypt(stream: R, key: Key, iv: IV) -> (r: Result<Self, ErrorStack>)
        ensures
            r matches Ok(source) ==> {
                &&& source.wf()
                &&& source.spec_inner() == stream
                &&& source.cipher() == CipherState::fresh(Mode::Decrypt, key@, iv@)
                &&& source.scratch() == Seq::<u8>::empty()
                &&& !source.spec_explicit_clear()
            },
    {
        match decrypter(key, iv) {
            Ok(crypter) => Ok(Self::new(stream, crypter)),
            Err(e) => Err(e),
        }
    }

    /// Consume into the inner stream
    pub fn into_inner(self) -> (stream: R)
        ensures
            stream == self.spec_inner(),
    {
        self.stream
    }

    /// Consume into the inner stream and crypter
    pub fn into_parts(self) -> (parts: (R, Crypter))
        ensures
            parts.0 == self.spec_inner(),
            parts.1 == self.spec_crypter(),
    {
        (self.stream, self.crypter)
    }

    /// The crypter of this instance
    #[verifier::when_used_as_spec(spec_crypter)]
    pub fn crypter(&self) -> (c: &Crypter)
        ensures
            c == self.spec_crypter(),
    {
        &self.crypter
    }

    /// The crypter of this instance
    pub fn crypter_mut(&mut self) -> (c: &mut Crypter)
        ensures
            *c == *old(self).spec_crypter(),
            *final(self).spec_crypter() == *final(c),
            final(self).spec_inner() == old(self).spec_inner(),
            final(self).spec_explicit_clear() == old(self).spec_explicit_clear(),
            final(self).scratch() == old(self).scratch(),
    {
        &mut self.crypter
    }

    /// The inner stream
    #[verifier::when_used_as_spec(spec_inner)]
    pub fn inner(&self) -> (stream: &R)
        ensures
            stream == self.spec_inner(),
    {
        &self.stream
    }

    /// The inner stream
    pub fn inner_mut(&mut self) -> (stream: &mut R)
        ensures
            *stream == *old(self).spec_inner(),
            *final(self).spec_inner() == *final(stream),
            final(self).spec_crypter() == old(self).spec_crypter(),
            final(self).spec_explicit_clear() == old(self).spec_explicit_clear(),
            final(self).scratch() == old(self).scratch(),
    {
        &mut self.stream
    }

    /// Whether the buffer is zeroed before its contents are dropped.
    #[verifier::when_used_as_spec(spec_explicit_clear)]
    pub fn explicit_clear(&self) -> (on: bool)
        ensures
            on == self.spec_explicit_clear(),
    {
        self.explicit_clear
    }

    /// Tell the source whether the buffer is to be zeroed before its contents
    /// are dropped.
    pub fn set_explicit_clear(&mut self, on: bool)
        ensures
            final(self).spec_explicit_clear() == on,
            final(self).spec_inner() == old(self).spec_inner(),
            final(self).spec_crypter() == old(self).spec_crypter(),
            final(self).scratch() == old(self).scratch(),
    {
        self.explicit_clear = on;
    }

    /// Clear the internal buffer while keeping it allocated for further use.
    ///
    /// This does not affect operations at all, all it does is 0 out the
    /// left-over temporary buffer from the last operation(s).
    pub fn prune(&mut self)
        ensures
            final(self).scratch() == zeros(old(self).scratch().len()),
            final(self).spec_inner() == old(self).spec_inner(),
            final(self).spec_crypter() == old(self).spec_crypter(),
            final(self).spec_explicit_clear() == old(self).spec_explicit_clear(),
    {
        explicit_prune(self.buffer.as_mut_slice());
    }

    /// Before the stream is polled for a read of up to `len` bytes: makes
    /// room for the raw bytes, and hands the room out together with the
    /// stream.
    ///
    /// Where the buffer is empty it is made `len` zero bytes long. Where it
    /// is not, a poll has not been answered yet, and the room stays as it
    /// was made for that poll.
    pub fn poll_read(&mut self, len: usize) -> (r: (&mut [u8], &mut R))
        requires
            len <= i32::MAX,
            old(self).scratch().len() <= i32::MAX,
        ensures
            r.0@ == if old(self).scratch().len() == 0 {
                zeros(len as nat)
            } else {
                old(self).scratch()
            },
            final(self).scratch() == final(r.0)@,
            *r.1 == *old(self).spec_inner(),
            *final(self).spec_inner() == *final(r.1),
            final(self).spec_crypter() == old(self).spec_crypter(),
            final(self).spec_explicit_clear() == old(self).spec_explicit_clear(),
    {
        if self.buffer.len() == 0 {
            self.buffer.resize(len, 0);
            assert(self.buffer@ =~= zeros(len as nat));
        }
        (self.buffer.as_mut_slice(), &mut self.stream)
    }

    /// After the stream has answered a poll with `read` raw bytes at the
    /// front of the buffer: sends them through the cipher into the front of
    /// `buf`, drops what the buffer holds (zeroed first if the source was
    /// told to clear explicitly) and returns how many bytes the cipher wrote.
    pub fn poll_read_ready(&mut self, read: usize, buf: &mut [u8]) -> (r: Result<
        usize,
        TransformError,
    >)
        requires
            old(self).wf(),
            read <= old(self).scratch().len(),
            read <= old(buf)@.len(),
        ensures
            final(self).wf(),
            final(buf)@.len() == old(buf)@.len(),
            final(buf)@.skip(read as int) == old(buf)@.skip(read as int),
            final(self).spec_inner() == old(self).spec_inner(),
            final(self).spec_explicit_clear() == old(self).spec_explicit_clear(),
            chunk_result(
                old(self).cipher(),
                old(self).scratch().take(read as int),
                r,
                final(self).cipher(),
                final(buf)@.take(read as int),
            ),
            r is Ok ==> final(self).scratch() == Seq::<u8>::empty(),
    {
        let (out, rest) = buf.split_at_mut(read);
        let ghost rest_before = rest@;
        let r = transform(&mut self.crypter, slice_subrange(self.buffer.as_slice(), 0, read), out);
        proof {
            assert(buf@ == out@ + rest_before);
            assert(buf@.take(read as int) =~= out@);
            assert(buf@.skip(read as int) =~= old(buf)@.skip(read as int));
        }
        match r {
            Ok(n) => {
                if self.explicit_clear {
                    self.prune();
                }
                self.buffer.clear();
                Ok(n)
            },
            Err(e) => Err(e),
        }
    }
}

} // verus!
