//! Key and IV structures for the cipher.

use vstd::prelude::*;

pub use crate::cha::{IV_SIZE, KEY_SIZE};
use crate::bytes::resized;
use crate::ext::{hex_chars, HexStringIter, HexStringIterExt};

verus! {

/// Why a text could not be decoded as base64.
#[derive(Debug, Clone, Copy, PartialEq, Eq)]
pub enum DecodeError {
    /// A byte outside the alphabet, with its offset in the text.
    InvalidByte(usize, u8),
    /// The text has a length that no encoding produces.
    InvalidLength,
    /// The last symbol carries bits that no encoding leaves set.
    InvalidLastSymbol(usize, u8),
}

/// The system's random source failed; `code` is what it reported.
#[derive(Debug, Clone, Copy, PartialEq, Eq)]
pub struct RandomError {
    pub code: u32,
}

/// The standard padded base64 text of `bytes`, as the `base64` crate writes it.
pub uninterp spec fn base64_text(bytes: Seq<u8>) -> Seq<char>;

/// What the `base64` crate decodes `text` to under its standard
/// configuration, or why it rejects it.
pub uninterp spec fn base64_bytes(text: Seq<char>) -> Result<Seq<u8>, DecodeError>;

/// `text` is accepted by the decoder, and stands for `bytes`.
pub open spec fn decodes_to(text: Seq<char>, bytes: Seq<u8>) -> bool {
    base64_bytes(text) == Ok::<Seq<u8>, DecodeError>(bytes)
}

/// `base64::encode`: the text is the standard encoding of `bytes`, and
/// decoding that text gives `bytes` back (the crate's own round-trip tests and
/// the example in its README).
#[verifier::external_body]
fn base64_encode(bytes: &[u8]) -> (text: String)
    ensures
        text@ == base64_text(bytes@),
        decodes_to(text@, bytes@),
{
    base64::encode(bytes)
}

/// `base64::decode_config_buf` with `base64::STANDARD`: on success the decoded
/// bytes are appended to `buffer`; on failure the crate's error is handed on,
/// variant for variant, and nothing is said of `buffer`.
#[verifier::external_body]
fn base64_decode_buf(text: &str, buffer: &mut Vec<u8>) -> (r: Result<(), DecodeError>)
    requires
        old(buffer)@.len() == 0,
    ensures
        match base64_bytes(text@) {
            Ok(bytes) => r is Ok && final(buffer)@ == bytes,
            Err(e) => r matches Err(got) && got == e,
        },
{
    base64::decode_config_buf(text.as_bytes(), base64::STANDARD, buffer).map_err(
        |e| match e {
            base64::DecodeError::InvalidByte(at, byte) => DecodeError::InvalidByte(at, byte),
            base64::DecodeError::InvalidLength => DecodeError::InvalidLength,
            base64::DecodeError::InvalidLastSymbol(at, byte) => DecodeError::InvalidLastSymbol(
                at,
                byte,
            ),
        },
    )
}

/// `getrandom::getrandom`: fills `dest` from the system's random source. Which
/// bytes arrive is not stated; on failure the error's code is handed on.
#[verifier::external_body]
fn fill_random(dest: &mut [u8]) -> (r: Result<(), u32>)
    ensures
        final(dest)@.len() == old(dest)@.len(),
{
    getrandom::getrandom(dest).map_err(|e| e.code().get())
}

/// `bytes` cut or zero-padded to exactly `size` bytes.
pub open spec fn fit(bytes: Seq<u8>, size: nat) -> Seq<u8> {
    resized(bytes, size, 0u8)
}

/// What parsing `text` as a value of `size` bytes gives.
pub open spec fn parsed(text: Seq<char>, size: nat) -> Result<Seq<u8>, DecodeError> {
    match base64_bytes(text) {
        Ok(bytes) => Ok(fit(bytes, size)),
        Err(e) => Err(e),
    }
}

/// A text that was encoded from exactly `size` bytes parses back to them.
pub proof fn lemma_fit_exact(bytes: Seq<u8>, size: nat)
    requires
        bytes.len() == size,
    ensures
        fit(bytes, size) == bytes,
{
    assert(fit(bytes, size) =~= bytes);
}

/// A 32 byte key for the chacha20_poly1305 cipher.
#[derive(Debug, Clone, Copy, PartialEq, Eq, Hash)]
pub struct Key([u8; KEY_SIZE]);

/// A 12 byte IV for the chacha20_poly1305 cipher.
#[derive(Debug, Clone, Copy, PartialEq, Eq, Hash)]
pub struct IV([u8; IV_SIZE]);

impl View for Key {
    type V = Seq<u8>;

    closed spec fn view(&self) -> Seq<u8> {
        self.0@
    }
}

impl View for IV {
    type V = Seq<u8>;

    closed spec fn view(&self) -> Seq<u8> {
        self.0@
    }
}

impl Key {
    /// Construct a `Key` from an exact length (32 bytes) buffer.
    pub fn from_bytes(k: [u8; KEY_SIZE]) -> (key: Key)
        ensures
            key@ == k@,
    {
        Key(k)
    }

    /// Create a new random 32 byte chacha20_poly1305 `Key`.
    pub fn new() -> (r: Result<Key, RandomError>)
    {
        let mut output = [0u8; 32];
        let filled = fill_random(&mut output);
        Self::from_random(output, filled)
    }

    /// What becomes of an attempt to fill `bytes` from the random source,
    /// once the source has answered with `filled`: the key that holds the
    /// bytes if it succeeded, and its code as the error if it failed.
    pub fn from_random(bytes: [u8; KEY_SIZE], filled: Result<(), u32>) -> (r: Result<Key, RandomError>)
        ensures
            match filled {
                Ok(_) => r matches Ok(made) && made@ == bytes@,
                Err(code) => r matches Err(e) && e.code == code,
            },
    {
        match filled {
            Ok(()) => Ok(Key::from_bytes(bytes)),
            Err(code) => Err(RandomError { code }),
        }
    }

    /// The bytes of the key.
    pub fn as_ref(&self) -> (bytes: &[u8])
        ensures
            bytes@ == self@,
            bytes@.len() == KEY_SIZE,
    {
        self.0.as_slice()
    }

    /// The bytes of the key, to be written to.
    pub fn as_mut(&mut self) -> (bytes: &mut [u8])
        ensures
            bytes@ == old(self)@,
            final(self)@ == final(bytes)@,
    {
        &mut self.0
    }

    /// Format this key as a hex string
    ///
    /// Returns a value that formats the key into a hex string as it is read.
    pub fn to_hex_string(&self) -> (it: HexStringIter<'_>)
        ensures
            it@ == hex_chars(self@),
    {
        self.0.as_slice().into_hex()
    }

    /// The key as base64 text. Parsing the text gives the key back.
    pub fn to_string(&self) -> (text: String)
        ensures
            text@ == base64_text(self@),
            parsed(text@, KEY_SIZE as nat) == Ok::<Seq<u8>, DecodeError>(self@),
    {
        proof {
            lemma_fit_exact(self@, KEY_SIZE as nat);
        }
        base64_encode(self.0.as_slice())
    }

    /// The key that `bytes` stand for: they are cut after `KEY_SIZE` bytes,
    /// and what they leave open is zero.
    pub fn from_decoded(bytes: &[u8]) -> (key: Key)
        ensures
            key@ == fit(bytes@, KEY_SIZE as nat),
    {
        let mut this = [0u8; 32];
        let sz: usize = if bytes.len() < KEY_SIZE {
            bytes.len()
        } else {
            KEY_SIZE
        };
        let mut at: usize = 0;
        while at < sz
            invariant
                at <= sz <= KEY_SIZE,
                sz <= bytes@.len(),
                forall|i: int| 0 <= i < at ==> this@[i] == bytes@[i],
                forall|i: int| at <= i < KEY_SIZE ==> this@[i] == 0u8,
            decreases sz - at,
        {
            this[at] = bytes[at];
            at += 1;
        }
        assert(this@ =~= fit(bytes@, KEY_SIZE as nat));
        Key(this)
    }

    /// Decode a key from base64 text.
    ///
    /// A text that decodes to fewer than `KEY_SIZE` bytes gives a key padded
    /// with zeros; of one that decodes to more, the rest is ignored.
    pub fn from_str(s: &str) -> (r: Result<Key, DecodeError>)
        ensures
            match parsed(s@, KEY_SIZE as nat) {
                Ok(bytes) => r matches Ok(key) && key@ == bytes,
                Err(e) => r == Err::<Key, DecodeError>(e),
            },
    {
        let mut buffer: Vec<u8> = Vec::with_capacity(KEY_SIZE);
        match base64_decode_buf(s, &mut buffer) {
            Ok(()) => Ok(Key::from_decoded(buffer.as_slice())),
            Err(e) => Err(e),
        }
    }
}

impl Default for Key {
    fn default() -> (key: Key)
        ensures
            key@ == crate::bytes::zeros(KEY_SIZE as nat),
    {
        let key = Key([0u8; 32]);
        assert(key@ =~= crate::bytes::zeros(KEY_SIZE as nat));
        key
    }
}

impl IV {
    /// Construct a `IV` from an exact length (12 bytes) buffer.
    pub fn from_bytes(k: [u8; IV_SIZE]) -> (iv: IV)
        ensures
            iv@ == k@,
    {
        IV(k)
    }

    /// Create a new random 12 byte chacha20_poly1305 `IV`.
    pub fn new() -> (r: Result<IV, RandomError>)
    {
        let mut output = [0u8; 12];
        let filled = fill_random(&mut output);
        Self::from_random(output, filled)
    }

    /// What becomes of an attempt to fill `bytes` from the random source,
    /// once the source has answered with `filled`: the IV that holds the
    /// bytes if it succeeded, and its code as the error if it failed.
    pub fn from_random(bytes: [u8; IV_SIZE], filled: Result<(), u32>) -> (r: Result<IV, RandomError>)
        ensures
            match filled {
                Ok(_) => r matches Ok(made) && made@ == bytes@,
                Err(code) => r matches Err(e) && e.code == code,
            },
    {
        match filled {
            Ok(()) => Ok(IV::from_bytes(bytes)),
            Err(code) => Err(RandomError { code }),
        }
    }

    /// The bytes of the IV.
    pub fn as_ref(&self) -> (bytes: &[u8])
        ensures
            bytes@ == self@,
            bytes@.len() == IV_SIZE,
    {
        self.0.as_slice()
    }

    /// The bytes of the IV, to be written to.
    pub fn as_mut(&mut self) -> (bytes: &mut [u8])
        ensures
            bytes@ == old(self)@,
            final(self)@ == final(bytes)@,
    {
        &mut self.0
    }

    /// Format this IV as a hex string
    ///
    /// Returns a value that formats the IV into a hex string as it is read.
    pub fn to_hex_string(&self) -> (it: HexStringIter<'_>)
        ensures
            it@ == hex_chars(self@),
    {
        self.0.as_slice().into_hex()
    }

    /// The IV as base64 text. Parsing the text gives the IV back.
    pub fn to_string(&self) -> (text: String)
        ensures
            text@ == base64_text(self@),
            parsed(text@, IV_SIZE as nat) == Ok::<Seq<u8>, DecodeError>(self@),
    {
        proof {
            lemma_fit_exact(self@, IV_SIZE as nat);
        }
        base64_encode(self.0.as_slice())
    }

    /// The IV that `bytes` stand for: they are cut after `IV_SIZE` bytes,
    /// and what they leave open is zero.
    pub fn from_decoded(bytes: &[u8]) -> (iv: IV)
        ensures
            iv@ == fit(bytes@, IV_SIZE as nat),
    {
        let mut this = [0u8; 12];
        let sz: usize = if bytes.len() < IV_SIZE {
            bytes.len()
        } else {
            IV_SIZE
        };
        let mut at: usize = 0;
        while at < sz
            invariant
                at <= sz <= IV_SIZE,
                sz <= bytes@.len(),
                forall|i: int| 0 <= i < at ==> this@[i] == bytes@[i],
                forall|i: int| at <= i < IV_SIZE ==> this@[i] == 0u8,
            decreases sz - at,
        {
            this[at] = bytes[at];
            at += 1;
        }
        assert(this@ =~= fit(bytes@, IV_SIZE as nat));
        IV(this)
    }

    /// Decode an IV from base64 text.
    ///
    /// A text that decodes to fewer than `IV_SIZE` bytes gives an IV padded
    /// with zeros; of one that decodes to more, the rest is ignored.
    pub fn from_str(s: &str) -> (r: Result<IV, DecodeError>)
        ensures
            match parsed(s@, IV_SIZE as nat) {
                Ok(bytes) => r matches Ok(iv) && iv@ == bytes,
                Err(e) => r == Err::<IV, DecodeError>(e),
            },
    {
        let mut buffer: Vec<u8> = Vec::with_capacity(IV_SIZE);
        match base64_decode_buf(s, &mut buffer) {
            Ok(()) => Ok(IV::from_decoded(buffer.as_slice())),
            Err(e) => Err(e),
        }
    }
}

impl Default for IV {
    fn default() -> (iv: IV)
        ensures
            iv@ == crate::bytes::zeros(IV_SIZE as nat),
    {
        let iv = IV([0u8; 12]);
        assert(iv@ =~= crate::bytes::zeros(IV_SIZE as nat));
        iv
    }
}

} // verus!
