//! The stream cookie: what a native file stream made over a sink does when
//! it is read, written, sought or closed.

use vstd::prelude::*;

use super::{write_code, CSink};
use crate::stream::IoError;
use crate::stream::io::Write;

verus! {

/// Configuration for the `FILE*` wrapper
#[derive(Debug, Clone, Copy, PartialEq, Eq, Hash, PartialOrd, Ord, Structural)]
pub struct Config {
    /// Zero: the native stream under the sink is closed with the cookie.
    /// Anything else: it is left open.
    pub keep_alive: i32,
}

impl Default for Config {
    fn default() -> (c: Config)
        ensures
            c.keep_alive == 0,
    {
        Self { keep_alive: 0 }
    }
}

/// What the cookie's close callback has to do next.
pub enum Close<H, W> {
    /// There was no cookie: the callback fails with `-1`.
    Missing,
    /// The sink is gone and the native stream under it stays as it is,
    /// because it is to be kept alive or because there is none: the callback
    /// succeeds with `0`.
    Keep(W),
    /// The sink is gone and the native stream with this handle is to be
    /// closed: the callback returns what closing it returns.
    Release(W, H),
}

/// The read callback: reading through the cookie is not supported, whatever
/// room is offered.
pub fn read(size: usize) -> (r: isize)
    ensures
        r == -1,
{
    -1
}

/// What the write callback returns for a write that the sink has answered
/// with `n`: the count where there is one that fits below the largest result,
/// and `0` otherwise.
pub open spec fn write_count(n: Option<usize>) -> isize {
    match n {
        Some(n) => if n < isize::MAX {
            n as isize
        } else {
            0
        },
        None => 0,
    }
}

/// The count that the write callback returns for a write that the sink has
/// answered with `n`.
pub fn write_count_of(n: Option<usize>) -> (r: isize)
    ensures
        r == write_count(n),
        r >= 0,
{
    match n {
        Some(n) => {
            if n < isize::MAX as usize {
                n as isize
            } else {
                0
            }
        },
        None => 0,
    }
}

/// The write callback: writes `buf` through the sink behind the cookie and
/// returns how many transformed bytes its stream took.
///
/// A missing cookie or buffer and a buffer longer than the cipher accepts in
/// one call give `0` with nothing done. Otherwise the sink is written to,
/// once, and its answer decides: a count that fits is returned; a failure of
/// the cipher or of the stream and a count that does not fit give `0`. The
/// callback never returns a negative value.
pub fn write<H, W: Write>(cookie: Option<&mut CSink<H, W>>, buf: Option<&[u8]>) -> (r: isize)
    requires
        cookie matches Some(s) ==> s.wf(),
    ensures
        r >= 0,
        cookie is None || buf is None ==> r == 0,
        cookie matches Some(s) ==> final(s).wf() && final(s).same_but_sink(s),
        cookie matches Some(s) ==> (buf is None ==> *final(s) == *s),
        cookie matches Some(s) ==> (buf matches Some(b) ==> if b@.len() > i32::MAX {
            r == 0 && *final(s) == *s
        } else {
            exists|answer: Result<usize, IoError<W::Error>>| #[trigger]
                s.sink().write_outcome(b@, answer, final(s).sink()) && r == write_count(
                    write_code(answer).1,
                )
        }),
{
    let buf = match buf {
        Some(buf) => buf,
        None => {
            return 0;
        },
    };
    let sink = match cookie {
        Some(sink) => sink,
        None => {
            return 0;
        },
    };
    if buf.len() > i32::MAX as usize {
        return 0;
    }
    let (_, n) = super::cc20_write(Some(buf), Some(sink));
    write_count_of(n)
}

/// The seek callback: a sink cannot be sought in, wherever to.
pub fn seek(offset: i64, whence: i32) -> (r: i32)
    ensures
        r == -1,
{
    -1
}

/// The close callback: gives up the sink behind the cookie and says what is
/// to become of the native stream under it. The stream is to be closed where
/// the sink's cookie settings do not keep it alive and the sink's metadata
/// has a handle for it.
pub fn close<H, W>(cookie: Option<CSink<H, W>>) -> (r: Close<H, W>)
    ensures
        match cookie {
            None => r is Missing,
            Some(s) => match s.spec_meta().backing {
                Some(handle) if s.spec_cookie_settings().keep_alive == 0 => {
                    r matches Close::Release(stream, h) && stream == s.sink().spec_inner() && h
                        == handle
                },
                _ => r matches Close::Keep(stream) && stream == s.sink().spec_inner(),
            },
        },
{
    match cookie {
        None => Close::Missing,
        Some(sink) => {
            let keep_alive = sink.cookie_settings().keep_alive;
            match super::cc20_close_sink(Some(sink)) {
                Ok((stream, meta)) => match meta.backing {
                    Some(handle) => {
                        if keep_alive == 0 {
                            Close::Release(stream, handle)
                        } else {
                            Close::Keep(stream)
                        }
                    },
                    None => Close::Keep(stream),
                },
                Err(_) => Close::Missing,
            }
        },
    }
}

} // verus!
