//! Hex formatting of byte strings.

use vstd::prelude::*;
use vstd::slice::slice_subrange;

verus! {

/// `String::push`: appends `ch` to the end of the string.
pub assume_specification[ String::push ](s: &mut String, ch: char)
    ensures
        final(s)@ == old(s)@.push(ch),
;

/// `String::with_capacity`: an empty string, whatever room it has. The call
/// panics where that much room cannot be addressed.
pub assume_specification[ String::with_capacity ](capacity: usize) -> (s: String)
    requires
        capacity <= isize::MAX,
    ensures
        s@ == Seq::<char>::empty(),
;

/// The lower-case hex digit for a value below 16.
pub open spec fn hex_digit(nibble: u8) -> char {
    if nibble < 10 {
        (48 + nibble) as char
    } else {
        (87 + nibble) as char
    }
}

/// The hex text of `bytes`: two lower-case digits for each byte, the high
/// half first.
pub open spec fn hex_chars(bytes: Seq<u8>) -> Seq<char> {
    Seq::new(
        2 * bytes.len(),
        |i: int|
            if i % 2 == 0 {
                hex_digit(bytes[i / 2] / 16)
            } else {
                hex_digit(bytes[i / 2] % 16)
            },
    )
}

/// The text starts with the two digits of the first byte and goes on with the
/// text of the rest.
pub proof fn lemma_hex_chars_step(bytes: Seq<u8>)
    requires
        bytes.len() > 0,
    ensures
        hex_chars(bytes) == seq![hex_digit(bytes[0] / 16), hex_digit(bytes[0] % 16)] + hex_chars(
            bytes.skip(1),
        ),
{
    let head = seq![hex_digit(bytes[0] / 16), hex_digit(bytes[0] % 16)];
    let whole = hex_chars(bytes);
    let split = head + hex_chars(bytes.skip(1));
    assert(whole.len() == split.len());
    assert forall|i: int| 0 <= i < whole.len() implies whole[i] == split[i] by {
        if i >= 2 {
            assert((i - 2) / 2 == i / 2 - 1);
            assert((i - 2) % 2 == i % 2);
            assert(bytes.skip(1)[(i - 2) / 2] == bytes[i / 2]);
        }
    }
    assert(whole =~= split);
}

fn digit(nibble: u8) -> (c: char)
    requires
        nibble < 16,
    ensures
        c == hex_digit(nibble),
{
    if nibble < 10 {
        (48 + nibble) as char
    } else {
        (87 + nibble) as char
    }
}

/// Yields the hex text of a byte string one character at a time.
///
/// Its view is the text that is still to come.
#[derive(Debug, Clone)]
pub struct HexStringIter<'a> {
    rest: &'a [u8],
    held: Option<char>,
}

impl<'a> View for HexStringIter<'a> {
    type V = Seq<char>;

    closed spec fn view(&self) -> Seq<char> {
        match self.held {
            Some(c) => seq![c] + hex_chars(self.rest@),
            None => hex_chars(self.rest@),
        }
    }
}

impl<'a> HexStringIter<'a> {
    /// The next character of the text, if any is left.
    pub fn next(&mut self) -> (r: Option<char>)
        ensures
            match r {
                Some(c) => old(self)@.len() > 0 && c == old(self)@[0] && final(self)@ == old(
                    self,
                )@.skip(1),
                None => old(self)@.len() == 0 && final(self)@ == old(self)@,
            },
    {
        match self.held {
            Some(c) => {
                self.held = None;
                assert(old(self)@.skip(1) =~= self@);
                Some(c)
            },
            None => {
                if self.rest.len() == 0 {
                    None
                } else {
                    let byte: u8 = self.rest[0];
                    proof {
                        lemma_hex_chars_step(self.rest@);
                    }
                    self.rest = slice_subrange(self.rest, 1, self.rest.len());
                    self.held = Some(digit(byte % 16));
                    assert(old(self)@.skip(1) =~= self@);
                    Some(digit(byte / 16))
                }
            },
        }
    }

    /// How many characters are still to come, as far as the count fits.
    pub fn size_hint(&self) -> (r: (usize, Option<usize>))
        ensures
            self@.len() <= usize::MAX ==> r.0 == self@.len() && r.1 == Some(r.0),
            self@.len() > usize::MAX ==> r.0 == usize::MAX && r.1 is None,
    {
        let bytes: usize = self.rest.len();
        let extra: usize = match self.held {
            Some(_) => 1,
            None => 0,
        };
        if bytes <= (usize::MAX - extra) / 2 {
            let count: usize = bytes * 2 + extra;
            (count, Some(count))
        } else {
            (usize::MAX, None)
        }
    }

    /// Write this hex string iterator to a formattable buffer
    pub fn consume(self, f: &mut String)
        ensures
            final(f)@ == old(f)@ + self@,
    {
        let mut it = self;
        loop
            invariant
                f@ + it@ == old(f)@ + self@,
            ensures
                f@ == old(f)@ + self@,
            decreases it@.len(),
        {
            let ghost before = it@;
            match it.next() {
                Some(c) => {
                    f.push(c);
                    assert(f@ + it@ =~= old(f)@ + self@) by {
                        assert(seq![c] + before.skip(1) =~= before);
                    }
                },
                None => {
                    assert(f@ + it@ =~= f@);
                    break ;
                },
            }
        }
    }

    /// Consume into a string
    pub fn into_string(self) -> (s: String)
        ensures
            s@ == self@,
    {
        let mut output = match self.size_hint() {
            (0, None) => String::new(),
            (_, Some(x)) | (x, None) => if x <= isize::MAX as usize {
                String::with_capacity(x)
            } else {
                String::new()
            },
        };
        self.consume(&mut output);
        assert(Seq::<char>::empty() + self@ =~= self@);
        output
    }
}

/// Byte strings that can be read out as hex text, taken by value.
pub trait HexStringIterExt<'a>: Sized {
    /// The bytes that the text is made from.
    spec fn hex_source(self) -> Seq<u8>;

    fn into_hex(self) -> (it: HexStringIter<'a>)
        ensures
            it@ == hex_chars(self.hex_source()),
    ;
}

/// Byte strings that can be read out as hex text, taken by reference.
pub trait HexStringSliceIterExt {
    /// The bytes that the text is made from.
    spec fn hex_bytes(&self) -> Seq<u8>;

    fn hex(&self) -> (it: HexStringIter<'_>)
        ensures
            it@ == hex_chars(self.hex_bytes()),
    ;
}

impl<'a> HexStringIterExt<'a> for &'a [u8] {
    open spec fn hex_source(self) -> Seq<u8> {
        self@
    }

    fn into_hex(self) -> (it: HexStringIter<'a>) {
        HexStringIter { rest: self, held: None }
    }
}

impl HexStringSliceIterExt for [u8] {
    open spec fn hex_bytes(&self) -> Seq<u8> {
        self@
    }

    fn hex(&self) -> (it: HexStringIter<'_>) {
        self.into_hex()
    }
}

impl HexStringSliceIterExt for Vec<u8> {
    open spec fn hex_bytes(&self) -> Seq<u8> {
        self@
    }

    fn hex(&self) -> (it: HexStringIter<'_>) {
        self.as_slice().into_hex()
    }
}

} // verus!
