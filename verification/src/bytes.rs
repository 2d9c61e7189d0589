//! Scrubbing of buffers that held key stream input or output.

use vstd::prelude::*;

verus! {

/// A sequence of `len` zero bytes.
pub open spec fn zeros(len: nat) -> Seq<u8> {
    Seq::new(len, |i: int| 0u8)
}

/// `bytes` cut to `len` bytes, or filled up with `value` to that length.
pub open spec fn resized(bytes: Seq<u8>, len: nat, value: u8) -> Seq<u8> {
    Seq::new(
        len,
        |i: int|
            if i < bytes.len() {
                bytes[i]
            } else {
                value
            },
    )
}

/// Overwrite every byte of `buffer` with zero.
///
/// The length of the buffer is kept; afterwards nothing of its old contents
/// can be read back through it.
pub fn explicit_prune(buffer: &mut [u8])
    ensures
        final(buffer)@ == zeros(old(buffer)@.len()),
{
    let len: usize = buffer.len();
    let mut at: usize = 0;
    while at < len
        invariant
            at <= len,
            buffer@.len() == len,
            len == old(buffer)@.len(),
            forall|i: int| 0 <= i < at ==> buffer@[i] == 0u8,
        decreases len - at,
    {
        buffer[at] = 0;
        at += 1;
    }
    assert(buffer@ =~= zeros(len as nat));
}

} // verus!
