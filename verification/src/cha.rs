//! The cipher engine: OpenSSL's ChaCha20-Poly1305 context, and what this crate
//! takes for granted about it.
//!
//! A context is opaque here. What is known of one is its [`CipherState`]: how
//! it was set up and which calls it has answered since. What it writes on a
//! call is a function of that state and of the input, and has a name
//! ([`update_output`], [`finalize_output`]) but no definition: the contracts
//! of the stream adapters say which bytes go through the cipher and where its
//! output ends up, not what ChaCha20 computes.

use vstd::prelude::*;

use crate::key::{Key, RandomError, IV};
use openssl::error::ErrorStack;
use openssl::symm::Crypter;

verus! {

/// Size of the key used for the cipher
pub const KEY_SIZE: usize = 32;

/// Size of the IV used for the cipher
pub const IV_SIZE: usize = 12;

/// The direction a context was set up for.
#[derive(Debug, Clone, Copy, PartialEq, Eq, Structural)]
pub enum Mode {
    Encrypt,
    Decrypt,
}

/// One call that a context has answered.
pub enum CipherCall {
    /// `update` on these input bytes.
    Update(Seq<u8>),
    /// `finalize`.
    Finalize,
}

/// All that decides what a context writes next.
pub struct CipherState {
    pub mode: Mode,
    pub key: Seq<u8>,
    pub iv: Seq<u8>,
    /// The cipher's block size; `1` marks a stream cipher.
    pub block_size: nat,
    /// The calls answered so far, oldest first.
    pub calls: Seq<CipherCall>,
}

impl CipherState {
    /// A context that has just been set up and has answered nothing yet.
    pub open spec fn fresh(mode: Mode, key: Seq<u8>, iv: Seq<u8>) -> CipherState {
        CipherState { mode, key, iv, block_size: 1, calls: Seq::empty() }
    }

    /// The state after `update` has answered `input`.
    pub open spec fn after_update(self, input: Seq<u8>) -> CipherState {
        CipherState { calls: self.calls.push(CipherCall::Update(input)), ..self }
    }

    /// The state after `finalize` has answered.
    pub open spec fn after_finalize(self) -> CipherState {
        CipherState { calls: self.calls.push(CipherCall::Finalize), ..self }
    }

    /// The state after one chunk has gone through: `update`, then `finalize`.
    pub open spec fn after_chunk(self, input: Seq<u8>) -> CipherState {
        self.after_update(input).after_finalize()
    }

    /// The context belongs to a stream cipher, which needs no room beyond the
    /// input's length.
    pub open spec fn is_stream(self) -> bool {
        self.block_size == 1
    }
}

#[verifier::external_type_specification]
#[verifier::external_body]
pub struct ExCrypter(Crypter);

#[verifier::external_type_specification]
#[verifier::external_body]
pub struct ExErrorStack(ErrorStack);

/// How `c` was set up and what it has answered since.
pub uninterp spec fn cipher_state(c: Crypter) -> CipherState;

/// The bytes that `update` writes for `input` in a context in `state`.
pub uninterp spec fn update_output(state: CipherState, input: Seq<u8>) -> Seq<u8>;

/// The bytes that `finalize` writes in a context in `state`.
pub uninterp spec fn finalize_output(state: CipherState) -> Seq<u8>;

/// `Crypter::new` with `Cipher::chacha20_poly1305()`: a context for `mode`,
/// keyed with `key` and `iv`, that has answered no call yet. ChaCha20-Poly1305
/// is a stream cipher, for which OpenSSL reports a block size of 1. The call
/// panics on a key or IV shorter than the cipher's, which `requires` excludes.
#[verifier::external_body]
fn new_crypter(mode: Mode, key: &[u8], iv: &[u8]) -> (r: Result<Crypter, ErrorStack>)
    requires
        key@.len() == KEY_SIZE,
        iv@.len() == IV_SIZE,
    ensures
        r matches Ok(c) ==> cipher_state(c) == CipherState::fresh(mode, key@, iv@),
{
    let mode = match mode {
        Mode::Encrypt => openssl::symm::Mode::Encrypt,
        Mode::Decrypt => openssl::symm::Mode::Decrypt,
    };
    Crypter::new(openssl::symm::Cipher::chacha20_poly1305(), mode, key, Some(iv))
}

/// `Crypter::update`: feeds `input` through the cipher into `output` and
/// returns how many bytes it wrote, which are the first bytes of `output`; the
/// rest of `output` is left as it was.
/// Which bytes those are depends on the context's state and on `input` alone.
/// The call panics where `output` is shorter than `input` (for a stream
/// cipher) or longer than `c_int::MAX`, which `requires` excludes. A context
/// keeps its cipher whatever the call returns.
#[verifier::external_body]
pub(crate) fn crypter_update(c: &mut Crypter, input: &[u8], output: &mut [u8]) -> (r: Result<
    usize,
    ErrorStack,
>)
    requires
        cipher_state(*old(c)).is_stream(),
        input@.len() <= old(output)@.len() <= i32::MAX,
    ensures
        final(output)@.len() == old(output)@.len(),
        cipher_state(*final(c)).is_stream(),
        r matches Ok(n) ==> {
            &&& n <= final(output)@.len()
            &&& final(output)@.take(n as int) == update_output(cipher_state(*old(c)), input@)
            &&& final(output)@.skip(n as int) == old(output)@.skip(n as int)
            &&& cipher_state(*final(c)) == cipher_state(*old(c)).after_update(input@)
        },
{
    c.update(input, output)
}

/// `Crypter::finalize`: writes what the cipher still holds to the front of
/// `output` and returns how many bytes that were; the rest of `output` is
/// left as it was. For a stream cipher the call does not panic, whatever the
/// length of `output`. A context keeps its cipher whatever the call returns.
#[verifier::external_body]
pub(crate) fn crypter_finalize(c: &mut Crypter, output: &mut [u8]) -> (r: Result<
    usize,
    ErrorStack,
>)
    requires
        cipher_state(*old(c)).is_stream(),
    ensures
        final(output)@.len() == old(output)@.len(),
        cipher_state(*final(c)).is_stream(),
        r matches Ok(n) ==> {
            &&& n <= final(output)@.len()
            &&& final(output)@.take(n as int) == finalize_output(cipher_state(*old(c)))
            &&& final(output)@.skip(n as int) == old(output)@.skip(n as int)
            &&& cipher_state(*final(c)) == cipher_state(*old(c)).after_finalize()
        },
{
    c.finalize(output)
}

/// What can stop a chunk on its way through the cipher.
#[derive(Debug)]
pub enum TransformError {
    /// The cipher refused a call.
    Cipher(ErrorStack),
    /// `finalize` wrote this many bytes, where a stream cipher has none left
    /// to write.
    Trailing(usize),
}

/// What holds after a chunk `input` was sent through a context that was in
/// state `before`, if the attempt ended in `r`, left the context in state
/// `after` and the output buffer holding `output`.
///
/// On success the front of `output` is what `update` wrote for `input`,
/// `finalize` added nothing, and the context has answered both calls. If
/// `finalize` did write something, the context has answered both calls as
/// well, and the chunk is given up. If the cipher refused a call, nothing is
/// known of the context's state.
pub open spec fn chunk_result(
    before: CipherState,
    input: Seq<u8>,
    r: Result<usize, TransformError>,
    after: CipherState,
    output: Seq<u8>,
) -> bool {
    match r {
        Ok(n) => {
            &&& n == update_output(before, input).len()
            &&& n <= output.len()
            &&& output.take(n as int) == update_output(before, input)
            &&& finalize_output(before.after_update(input)).len() == 0
            &&& after == before.after_chunk(input)
        },
        Err(TransformError::Trailing(extra)) => {
            &&& extra > 0
            &&& extra == finalize_output(before.after_update(input)).len()
            &&& after == before.after_chunk(input)
        },
        Err(TransformError::Cipher(_)) => true,
    }
}

/// What becomes of a chunk of which `update` wrote `updated` bytes, once
/// `finalize` has answered with `answer`: the count of `update` if `finalize`
/// added nothing, `Trailing` with its count if it added something, and its
/// error if it failed.
pub fn finalized(updated: usize, answer: Result<usize, ErrorStack>) -> (r: Result<
    usize,
    TransformError,
>)
    ensures
        match answer {
            Ok(extra) => if extra == 0 {
                r matches Ok(n) && n == updated
            } else {
                r matches Err(TransformError::Trailing(x)) && x == extra
            },
            Err(e) => r matches Err(TransformError::Cipher(got)) && got == e,
        },
{
    match answer {
        Ok(extra) => {
            if extra == 0 {
                Ok(updated)
            } else {
                Err(TransformError::Trailing(extra))
            }
        },
        Err(e) => Err(TransformError::Cipher(e)),
    }
}

/// Perform the cipher transform on `input` to the `output` buffer, returning
/// the number of bytes updated.
///
/// The chunk goes through `update`; `finalize` is then called on what
/// `update` wrote, and must add nothing to it. Behind what `update` wrote,
/// `output` is left as it was.
pub fn transform(crypter: &mut Crypter, input: &[u8], output: &mut [u8]) -> (r: Result<
    usize,
    TransformError,
>)
    requires
        cipher_state(*old(crypter)).is_stream(),
        input@.len() <= old(output)@.len() <= i32::MAX,
    ensures
        final(output)@.len() == old(output)@.len(),
        cipher_state(*final(crypter)).is_stream(),
        chunk_result(
            cipher_state(*old(crypter)),
            input@,
            r,
            cipher_state(*final(crypter)),
            final(output)@,
        ),
        r matches Ok(n) ==> final(output)@.skip(n as int) == old(output)@.skip(n as int),
{
    let n = match crypter_update(crypter, input, output) {
        Ok(n) => n,
        Err(e) => {
            return Err(TransformError::Cipher(e));
        },
    };
    let ghost updated = output@;
    let (head, tail) = output.split_at_mut(n);
    let ghost tail_before = tail@;
    let answer = crypter_finalize(crypter, head);
    proof {
        if answer == Ok::<usize, ErrorStack>(0) {
            assert(head@ =~= head@.skip(0));
            assert(updated.take(n as int) =~= updated.take(n as int).skip(0));
            assert(head@ == updated.take(n as int));
            assert(output@ == head@ + tail_before);
            assert(output@.take(n as int) =~= head@);
            assert(output@.skip(n as int) =~= tail_before);
            assert(updated.skip(n as int) =~= tail_before);
        }
    }
    finalized(n, answer)
}

/// A context that decrypts under `key` and `iv`.
pub fn decrypter(key: Key, iv: IV) -> (r: Result<Crypter, ErrorStack>)
    ensures
        r matches Ok(c) ==> cipher_state(c) == CipherState::fresh(Mode::Decrypt, key@, iv@),
{
    new_crypter(Mode::Decrypt, key.as_ref(), iv.as_ref())
}

/// A context that encrypts under `key` and `iv`.
pub fn encrypter(key: Key, iv: IV) -> (r: Result<Crypter, ErrorStack>)
    ensures
        r matches Ok(c) ==> cipher_state(c) == CipherState::fresh(Mode::Encrypt, key@, iv@),
{
    new_crypter(Mode::Encrypt, key.as_ref(), iv.as_ref())
}

/// Generate a random key and IV for the chacha20_poly1305 cipher
pub fn keygen() -> (r: Result<(Key, IV), RandomError>)
{
    let key = match Key::new() {
        Ok(key) => key,
        Err(e) => { return Err(e); },
    };
    match IV::new() {
        Ok(iv) => Ok((key, iv)),
        Err(e) => Err(e),
    }
}

} // verus!
