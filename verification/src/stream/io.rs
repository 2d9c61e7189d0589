//! The byte streams that the adapters wrap.
//!
//! A stream is known to the adapters by the bytes that have passed through
//! it: what a [`Write`] has accepted so far, what a [`Read`] has handed out so
//! far. The contracts of the trait methods say how a call extends that
//! history; the adapters' own contracts are stated over it.

use vstd::prelude::*;
use vstd::slice::slice_subrange;

use core::convert::Infallible;

verus! {

/// A stream that bytes can be written to.
pub trait Write {
    /// Why a call may fail.
    type Error;

    /// Every byte that the stream has accepted, oldest first.
    spec fn written(&self) -> Seq<u8>;

    /// What a stream of this kind may do when `buf` is offered to it: it
    /// answers `r` and is `after` from then on.
    spec fn write_step(&self, buf: Seq<u8>, r: Result<usize, Self::Error>, after: &Self) -> bool;

    /// What a stream of this kind may do when it is made to accept all of
    /// `buf`: it answers `r` and is `after` from then on.
    spec fn write_all_step(&self, buf: Seq<u8>, r: Result<(), Self::Error>, after: &Self) -> bool;

    /// What a stream of this kind may do when it is flushed: it answers `r`
    /// and is `after` from then on.
    spec fn flush_step(&self, r: Result<(), Self::Error>, after: &Self) -> bool;

    /// Offer `buf` to the stream. It accepts some first part of it and says
    /// how long that part is; if it fails, it has accepted nothing.
    fn write(&mut self, buf: &[u8]) -> (r: Result<usize, Self::Error>)
        ensures
            old(self).write_step(buf@, r, final(self)),
            match r {
                Ok(n) => n <= buf@.len() && final(self).written() == old(self).written()
                    + buf@.take(n as int),
                Err(_) => final(self).written() == old(self).written(),
            },
    ;

    /// Make the stream accept all of `buf`. If it fails, it has accepted some
    /// first part of `buf` that falls short of the whole.
    fn write_all(&mut self, buf: &[u8]) -> (r: Result<(), Self::Error>)
        ensures
            old(self).write_all_step(buf@, r, final(self)),
            match r {
                Ok(_) => final(self).written() == old(self).written() + buf@,
                Err(_) => exists|n: int|
                    0 <= n <= buf@.len() && final(self).written() == old(self).written()
                        + #[trigger] buf@.take(n),
            },
    ;

    /// Push on what the stream still holds back. Nothing is accepted anew.
    fn flush(&mut self) -> (r: Result<(), Self::Error>)
        ensures
            old(self).flush_step(r, final(self)),
            final(self).written() == old(self).written(),
    ;
}

/// A stream that bytes can be read from.
pub trait Read {
    /// Why a call may fail.
    type Error;

    /// Every byte that the stream has handed out, oldest first.
    spec fn delivered(&self) -> Seq<u8>;

    /// What a stream of this kind may do when it is given `buf` to fill: it
    /// answers `r`, leaves the buffer holding `filled`, and is `after` from
    /// then on.
    spec fn read_step(
        &self,
        buf: Seq<u8>,
        r: Result<usize, Self::Error>,
        after: &Self,
        filled: Seq<u8>,
    ) -> bool;

    /// Let the stream fill some first part of `buf` and say how long that part
    /// is. If it fails, it has handed out nothing.
    fn read(&mut self, buf: &mut [u8]) -> (r: Result<usize, Self::Error>)
        ensures
            old(self).read_step(old(buf)@, r, final(self), final(buf)@),
            final(buf)@.len() == old(buf)@.len(),
            match r {
                Ok(n) => {
                    &&& n <= old(buf)@.len()
                    &&& final(self).delivered() == old(self).delivered() + final(buf)@.take(
                        n as int,
                    )
                },
                Err(_) => final(self).delivered() == old(self).delivered(),
            },
    ;
}

/// A byte vector accepts everything, at its end, and never fails.
impl Write for Vec<u8> {
    type Error = Infallible;

    open spec fn written(&self) -> Seq<u8> {
        self@
    }

    open spec fn write_step(&self, buf: Seq<u8>, r: Result<usize, Infallible>, after: &Self) -> bool {
        &&& r == Ok::<usize, Infallible>(buf.len() as usize)
        &&& after@ == self@ + buf
    }

    open spec fn write_all_step(&self, buf: Seq<u8>, r: Result<(), Infallible>, after: &Self) -> bool {
        &&& r is Ok
        &&& after@ == self@ + buf
    }

    open spec fn flush_step(&self, r: Result<(), Infallible>, after: &Self) -> bool {
        &&& r is Ok
        &&& after@ == self@
    }

    fn write(&mut self, buf: &[u8]) -> (r: Result<usize, Infallible>)
        ensures
            r == Ok::<usize, Infallible>(buf@.len() as usize),
    {
        self.extend_from_slice(buf);
        assert(buf@.take(buf@.len() as int) =~= buf@);
        assert(self@ =~= old(self)@ + buf@);
        Ok(buf.len())
    }

    fn write_all(&mut self, buf: &[u8]) -> (r: Result<(), Infallible>)
        ensures
            r is Ok,
    {
        self.extend_from_slice(buf);
        assert(self@ =~= old(self)@ + buf@);
        Ok(())
    }

    fn flush(&mut self) -> (r: Result<(), Infallible>)
        ensures
            r is Ok,
    {
        Ok(())
    }
}

/// A borrowed stream is written to as the stream itself.
impl<W: Write> Write for &mut W {
    type Error = W::Error;

    open spec fn written(&self) -> Seq<u8> {
        (**self).written()
    }

    open spec fn write_step(&self, buf: Seq<u8>, r: Result<usize, W::Error>, after: &Self) -> bool {
        (**self).write_step(buf, r, &**after)
    }

    open spec fn write_all_step(&self, buf: Seq<u8>, r: Result<(), W::Error>, after: &Self) -> bool {
        (**self).write_all_step(buf, r, &**after)
    }

    open spec fn flush_step(&self, r: Result<(), W::Error>, after: &Self) -> bool {
        (**self).flush_step(r, &**after)
    }

    fn write(&mut self, buf: &[u8]) -> (r: Result<usize, W::Error>) {
        (**self).write(buf)
    }

    fn write_all(&mut self, buf: &[u8]) -> (r: Result<(), W::Error>) {
        (**self).write_all(buf)
    }

    fn flush(&mut self) -> (r: Result<(), W::Error>) {
        (**self).flush()
    }
}

/// A borrowed stream is read from as the stream itself.
impl<R: Read> Read for &mut R {
    type Error = R::Error;

    open spec fn delivered(&self) -> Seq<u8> {
        (**self).delivered()
    }

    open spec fn read_step(
        &self,
        buf: Seq<u8>,
        r: Result<usize, R::Error>,
        after: &Self,
        filled: Seq<u8>,
    ) -> bool {
        (**self).read_step(buf, r, &**after, filled)
    }

    fn read(&mut self, buf: &mut [u8]) -> (r: Result<usize, R::Error>) {
        (**self).read(buf)
    }
}

/// Reads a byte slice from its start to its end.
#[derive(Debug)]
pub struct Cursor<'a> {
    data: &'a [u8],
    pos: usize,
}

impl<'a> Cursor<'a> {
    #[verifier::type_invariant]
    spec fn inv(self) -> bool {
        self.pos <= self.data@.len()
    }

    /// The bytes that the cursor reads.
    pub closed spec fn data(self) -> Seq<u8> {
        self.data@
    }

    /// How many of them it has handed out.
    pub closed spec fn consumed(self) -> nat {
        self.pos as nat
    }

    /// A cursor at the start of `data`.
    pub fn new(data: &'a [u8]) -> (c: Cursor<'a>)
        ensures
            c.data() == data@,
            c.consumed() == 0,
    {
        Cursor { data, pos: 0 }
    }

    /// How many bytes have been read.
    pub fn position(&self) -> (pos: usize)
        ensures
            pos == self.consumed(),
            pos <= self.data().len(),
    {
        proof {
            use_type_invariant(self);
        }
        self.pos
    }

    /// The bytes that the cursor reads, read or not.
    pub fn get_ref(&self) -> (data: &'a [u8])
        ensures
            data@ == self.data(),
    {
        self.data
    }
}

/// A cursor hands out as much of what is left as `buf` has room for, and never
/// fails.
impl<'a> Read for Cursor<'a> {
    type Error = Infallible;

    open spec fn delivered(&self) -> Seq<u8> {
        self.data().take(self.consumed() as int)
    }

    open spec fn read_step(
        &self,
        buf: Seq<u8>,
        r: Result<usize, Infallible>,
        after: &Self,
        filled: Seq<u8>,
    ) -> bool {
        let n = vstd::math::min(buf.len() as int, self.data().len() - self.consumed());
        &&& r matches Ok(count) && count == n
        &&& after.data() == self.data()
        &&& after.consumed() == self.consumed() + n
        &&& filled == self.data().subrange(self.consumed() as int, self.consumed() + n) + buf.skip(
            n,
        )
    }

    fn read(&mut self, buf: &mut [u8]) -> (r: Result<usize, Infallible>)
        ensures
            final(self).data() == old(self).data(),
            r matches Ok(n) ==> final(buf)@.skip(n as int) == old(buf)@.skip(n as int),
            r matches Ok(n) && n == vstd::math::min(
                old(buf)@.len() as int,
                old(self).data().len() - old(self).consumed(),
            ) && final(self).consumed() == old(self).consumed() + n,
    {
        proof {
            use_type_invariant(&*self);
        }
        let left: usize = self.data.len() - self.pos;
        let n: usize = if buf.len() < left {
            buf.len()
        } else {
            left
        };
        let from: &[u8] = slice_subrange(self.data, self.pos, self.pos + n);
        let mut at: usize = 0;
        while at < n
            invariant
                at <= n <= buf@.len(),
                buf@.len() == old(buf)@.len(),
                from@.len() == n,
                forall|i: int| 0 <= i < at ==> buf@[i] == from@[i],
                forall|i: int| at <= i < buf@.len() ==> buf@[i] == old(buf)@[i],
            decreases n - at,
        {
            buf[at] = from[at];
            at += 1;
        }
        self.pos = self.pos + n;
        assert(buf@.take(n as int) =~= from@);
        assert(self.data@.take(self.pos as int) =~= old(self).data@.take(old(self).pos as int)
            + from@);
        assert(buf@.skip(n as int) =~= old(buf)@.skip(n as int));
        assert(buf@ =~= from@ + old(buf)@.skip(n as int));
        Ok(n)
    }
}

#[verifier::external_type_specification]
#[verifier::external_body]
pub struct ExIoError(std::io::Error);

/// A writer of the standard library, of whatever type.
#[verifier::external_body]
pub struct DynWrite<'a> {
    inner: Box<dyn std::io::Write + 'a>,
}

/// A reader of the standard library, of whatever type.
#[verifier::external_body]
pub struct DynRead<'a> {
    inner: Box<dyn std::io::Read + 'a>,
}

/// `Box::new`, on a writer.
#[verifier::external_body]
fn dyn_write<'a, W: std::io::Write + 'a>(stream: W) -> DynWrite<'a> {
    DynWrite { inner: Box::new(stream) }
}

/// `Box::new`, on a reader.
#[verifier::external_body]
fn dyn_read<'a, R: std::io::Read + 'a>(stream: R) -> DynRead<'a> {
    DynRead { inner: Box::new(stream) }
}

/// `std::io::Error::from`, on `ErrorKind::InvalidData`: the error for a
/// stream that claims more bytes than it was offered.
#[verifier::external_body]
fn invalid_data() -> std::io::Error {
    std::io::Error::from(std::io::ErrorKind::InvalidData)
}

/// `std::io::Write::write`: offers `buf` to the stream. Nothing is taken for
/// granted of the count that comes back.
#[verifier::external_body]
fn std_write(stream: &mut DynWrite, buf: &[u8]) -> Result<usize, std::io::Error> {
    stream.inner.write(buf)
}

/// `std::io::Write::write_all`: makes the stream take all of `buf`, or fails.
#[verifier::external_body]
fn std_write_all(stream: &mut DynWrite, buf: &[u8]) -> Result<(), std::io::Error> {
    stream.inner.write_all(buf)
}

/// `std::io::Write::flush`.
#[verifier::external_body]
fn std_flush(stream: &mut DynWrite) -> Result<(), std::io::Error> {
    stream.inner.flush()
}

/// `std::io::Read::read`: lets the stream write into `buf`, which keeps its
/// length. Nothing is taken for granted of the count that comes back.
#[verifier::external_body]
fn std_read(stream: &mut DynRead, buf: &mut [u8]) -> (r: Result<usize, std::io::Error>)
    ensures
        final(buf)@.len() == old(buf)@.len(),
{
    stream.inner.read(buf)
}

/// A writer of the standard library, under a sink.
///
/// Beside the writer it keeps, for the contracts only, the bytes that the
/// writer has said it accepted since it was wrapped. A writer that claims
/// more than it was offered is answered with an error. Where `write_all`
/// fails, how much of `buf` the writer took before is not known: the history
/// then goes on with some first part of `buf`.
pub struct StdWrite<'a> {
    inner: DynWrite<'a>,
    passed: Ghost<Seq<u8>>,
}

/// A reader of the standard library, under a source.
///
/// Beside the reader it keeps, for the contracts only, the bytes that the
/// reader has left in its callers' buffers since it was wrapped. A reader
/// that claims more than the buffer holds is answered with an error.
pub struct StdRead<'a> {
    inner: DynRead<'a>,
    passed: Ghost<Seq<u8>>,
}

impl<'a> StdWrite<'a> {
    /// Takes note of what the writer has answered to an offer of `buf`, and hands the
    /// answer on: a count within `buf` adds that many bytes from the front of
    /// `buf` to the history, an error adds nothing. A count beyond `buf` is
    /// no answer that a writer may give: it is turned into an error.
    fn note_write(&mut self, buf: &[u8], answer: Result<usize, std::io::Error>) -> (r: Result<
        usize,
        std::io::Error,
    >)
        ensures
            match answer {
                Ok(n) => if n <= buf@.len() {
                    r == answer && final(self).passed@ == old(self).passed@ + buf@.take(n as int)
                } else {
                    r is Err && final(self).passed@ == old(self).passed@
                },
                Err(_) => r == answer && final(self).passed@ == old(self).passed@,
            },
    {
        match answer {
            Ok(n) => {
                if n <= buf.len() {
                    proof {
                        self.passed@ = self.passed@ + buf@.take(n as int);
                    }
                    Ok(n)
                } else {
                    Err(invalid_data())
                }
            },
            Err(e) => Err(e),
        }
    }

    /// Wrap `stream`, which has accepted nothing yet.
    pub fn new<W: std::io::Write + 'a>(stream: W) -> (s: StdWrite<'a>)
        ensures
            s.written() == Seq::<u8>::empty(),
    {
        StdWrite { inner: dyn_write(stream), passed: Ghost(Seq::empty()) }
    }
}

impl<'a> StdRead<'a> {
    /// Takes note of what the reader has answered to a call that left `buf` as it is now, and hands the
    /// answer on: a count within `buf` adds that many bytes from the front of
    /// `buf` to the history, an error adds nothing. A count beyond `buf` is
    /// no answer that a reader may give: it is turned into an error.
    fn note_read(&mut self, buf: &[u8], answer: Result<usize, std::io::Error>) -> (r: Result<
        usize,
        std::io::Error,
    >)
        ensures
            match answer {
                Ok(n) => if n <= buf@.len() {
                    r == answer && final(self).passed@ == old(self).passed@ + buf@.take(n as int)
                } else {
                    r is Err && final(self).passed@ == old(self).passed@
                },
                Err(_) => r == answer && final(self).passed@ == old(self).passed@,
            },
    {
        match answer {
            Ok(n) => {
                if n <= buf.len() {
                    proof {
                        self.passed@ = self.passed@ + buf@.take(n as int);
                    }
                    Ok(n)
                } else {
                    Err(invalid_data())
                }
            },
            Err(e) => Err(e),
        }
    }

    /// Wrap `stream`, which has handed out nothing yet.
    pub fn new<R: std::io::Read + 'a>(stream: R) -> (s: StdRead<'a>)
        ensures
            s.delivered() == Seq::<u8>::empty(),
    {
        StdRead { inner: dyn_read(stream), passed: Ghost(Seq::empty()) }
    }
}

impl<'a> Write for StdWrite<'a> {
    type Error = std::io::Error;

    closed spec fn written(&self) -> Seq<u8> {
        self.passed@
    }

    open spec fn write_step(
        &self,
        buf: Seq<u8>,
        r: Result<usize, std::io::Error>,
        after: &Self,
    ) -> bool {
        match r {
            Ok(n) => n <= buf.len() && after.written() == self.written() + buf.take(n as int),
            Err(_) => after.written() == self.written(),
        }
    }

    open spec fn write_all_step(
        &self,
        buf: Seq<u8>,
        r: Result<(), std::io::Error>,
        after: &Self,
    ) -> bool {
        match r {
            Ok(_) => after.written() == self.written() + buf,
            Err(_) => exists|n: int|
                0 <= n <= buf.len() && after.written() == self.written() + #[trigger] buf.take(n),
        }
    }

    open spec fn flush_step(&self, r: Result<(), std::io::Error>, after: &Self) -> bool {
        after.written() == self.written()
    }

    fn write(&mut self, buf: &[u8]) -> (r: Result<usize, std::io::Error>) {
        let answer = std_write(&mut self.inner, buf);
        self.note_write(buf, answer)
    }

    fn write_all(&mut self, buf: &[u8]) -> (r: Result<(), std::io::Error>) {
        match std_write_all(&mut self.inner, buf) {
            Ok(()) => {
                proof {
                    self.passed@ = self.passed@ + buf@;
                }
                Ok(())
            },
            Err(e) => {
                proof {
                    assert(buf@.take(0).len() == 0);
                    let taken = choose|n: int|
                        0 <= n <= buf@.len() && #[trigger] buf@.take(n).len() == n;
                    self.passed@ = self.passed@ + buf@.take(taken);
                }
                Err(e)
            },
        }
    }

    fn flush(&mut self) -> (r: Result<(), std::io::Error>) {
        std_flush(&mut self.inner)
    }
}

impl<'a> Read for StdRead<'a> {
    type Error = std::io::Error;

    closed spec fn delivered(&self) -> Seq<u8> {
        self.passed@
    }

    open spec fn read_step(
        &self,
        buf: Seq<u8>,
        r: Result<usize, std::io::Error>,
        after: &Self,
        filled: Seq<u8>,
    ) -> bool {
        match r {
            Ok(n) => n <= buf.len() && after.delivered() == self.delivered() + filled.take(
                n as int,
            ),
            Err(_) => after.delivered() == self.delivered(),
        }
    }

    fn read(&mut self, buf: &mut [u8]) -> (r: Result<usize, std::io::Error>) {
        let answer = std_read(&mut self.inner, buf);
        self.note_read(buf, answer)
    }
}

} // verus!
