//! The bridge to native callers.
//!
//! What stands here is what the entry points decide: which code a call ends
//! in, and what it does to a sink. A pointer that may be null arrives as an
//! `Option`, and a file stream as a value of whatever type the caller keeps
//! for it; reading and writing through pointers is the caller's part.

use vstd::prelude::*;

use crate::cha::{CipherState, Mode};
use crate::key::{Key, IV};
use crate::stream::io::Write;
use crate::stream::{IoError, Sink};

pub mod cookie;
pub mod error;

pub use cookie::Config;
pub use error::CErr;

verus! {

/// The direction of a sink that is made for a native caller.
#[derive(Debug, Clone, Copy, PartialEq, Eq, Hash, Structural)]
pub enum CMode {
    Encrypt,
    Decrypt,
}

impl CMode {
    /// The direction as the cipher knows it.
    pub open spec fn spec_mode(self) -> Mode {
        match self {
            CMode::Encrypt => Mode::Encrypt,
            CMode::Decrypt => Mode::Decrypt,
        }
    }

    /// The direction as the cipher knows it.
    #[verifier::when_used_as_spec(spec_mode)]
    pub fn mode(self) -> (mode: Mode)
        ensures
            mode == self.spec_mode(),
    {
        match self {
            CMode::Encrypt => Mode::Encrypt,
            CMode::Decrypt => Mode::Decrypt,
        }
    }
}

/// Non-encrypted wrapper
///
/// All that is needed to make a sink over a native file stream: the stream's
/// handle, a key, an IV and a direction. A null handle is `None`.
#[derive(Debug, Clone, PartialEq, Eq, Hash)]
pub struct CPassthrough<H> {
    pub backing: Option<H>,
    pub key: Key,
    pub iv: IV,
    pub mode: CMode,
}

impl<H> CPassthrough<H> {
    /// What a write to the native stream comes to, once the stream has said
    /// how many of the `asked` bytes it `accepted`, whether its error mark is
    /// set and whether it is at its end.
    ///
    /// A stream that took everything has succeeded. One that took less has
    /// failed if its error mark is set; otherwise the count stands, be it
    /// zero at the end of the stream.
    pub fn write_status(accepted: usize, asked: usize, error_set: bool, at_end: bool) -> (r:
        Option<usize>)
        ensures
            r == if accepted == asked || !error_set {
                Some(accepted)
            } else {
                None
            },
    {
        if accepted == asked {
            Some(accepted)
        } else if error_set {
            None
        } else if accepted == 0 && at_end {
            Some(0)
        } else {
            Some(accepted)
        }
    }

    /// What a flush of the native stream comes to, once the stream has
    /// answered with `status`: success on zero, else the status as the error.
    pub fn flush_status(status: i32) -> (r: Result<(), i32>)
        ensures
            r == if status == 0 {
                Ok::<(), i32>(())
            } else {
                Err::<(), i32>(status)
            },
    {
        if status == 0 {
            Ok(())
        } else {
            Err(status)
        }
    }
}

/// A sink wrapper of `CPassthrough`.
///
/// A sink over a native file stream, with the metadata that it was made from
/// and the settings of the stream cookie that may be bound to it.
pub struct CSink<H, W> {
    sink: Sink<W>,
    meta: CPassthrough<H>,
    cookie_settings: Config,
}

impl<H, W> CSink<H, W> {
    /// The sink can take a chunk. Every sink that `cc20_gen_sink` makes can,
    /// and no entry point takes that away.
    pub closed spec fn wf(&self) -> bool {
        self.sink.wf()
    }

    /// The sink.
    pub closed spec fn sink(&self) -> &Sink<W> {
        &self.sink
    }

    /// The metadata that the sink was made from.
    pub closed spec fn spec_meta(&self) -> &CPassthrough<H> {
        &self.meta
    }

    /// The settings of the stream cookie.
    pub closed spec fn spec_cookie_settings(&self) -> Config {
        self.cookie_settings
    }

    /// The metadata that the sink was made from.
    #[verifier::when_used_as_spec(spec_meta)]
    pub fn meta(&self) -> (meta: &CPassthrough<H>)
        ensures
            meta == self.spec_meta(),
    {
        &self.meta
    }

    /// The settings of the stream cookie.
    #[verifier::when_used_as_spec(spec_cookie_settings)]
    pub fn cookie_settings(&self) -> (c: Config)
        ensures
            c == self.spec_cookie_settings(),
    {
        self.cookie_settings
    }

    /// The wrapper is `old` but for its sink.
    pub open spec fn same_but_sink(&self, old: &Self) -> bool {
        &&& self.spec_meta() == old.spec_meta()
        &&& self.spec_cookie_settings() == old.spec_cookie_settings()
    }
}

/// The code and the count that `cc20_write` ends in where the sink has
/// answered the write with `answer`: `Success` with the sink's count, or `IO`
/// without one.
pub open spec fn write_code<E>(answer: Result<usize, IoError<E>>) -> (CErr, Option<usize>) {
    match answer {
        Ok(count) => (CErr::Success, Some(count)),
        Err(_) => (CErr::IO, None),
    }
}

/// The code and the count that `cc20_write` ends in where the sink has
/// answered the write with `answer`.
pub fn write_code_of<E>(answer: Result<usize, IoError<E>>) -> (r: (CErr, Option<usize>))
    ensures
        r == write_code(answer),
{
    match answer {
        Ok(count) => (CErr::Success, Some(count)),
        Err(_) => (CErr::IO, None),
    }
}

/// Fresh key material for a native caller: a key where `want_key` is set, an
/// IV where `want_iv` is set. What is not asked for is skipped.
///
/// Ends in `Success` if all that was asked for could be made, in `Panic` if
/// the random source failed. The key is made first, and stays made where the
/// IV then fails.
pub fn cc20_keygen(want_key: bool, want_iv: bool) -> (r: (CErr, Option<Key>, Option<IV>))
    ensures
        r.0 == CErr::Success || r.0 == CErr::Panic,
        r.1 is Some ==> want_key,
        r.2 is Some ==> want_iv,
        r.0 == CErr::Success <==> (r.1 is Some <==> want_key) && (r.2 is Some <==> want_iv),
        want_key && r.1 is None ==> r.2 is None,
{
    let key = if want_key {
        match Key::new() {
            Ok(key) => Some(key),
            Err(_) => {
                return (CErr::Panic, None, None);
            },
        }
    } else {
        None
    };
    let iv = if want_iv {
        match IV::new() {
            Ok(iv) => Some(iv),
            Err(_) => {
                return (CErr::Panic, key, None);
            },
        }
    } else {
        None
    };
    (CErr::Success, key, iv)
}

/// Write `data` through `sink` for a native caller, and say how many
/// transformed bytes the stream behind it took.
///
/// Ends in `NullPointer`, with nothing done, where the sink or the data is
/// missing; in `Panic`, with nothing done, where the data is longer than the
/// cipher accepts in one call. Otherwise the sink is written to, once: the
/// call ends in `Success` with the sink's count, or in `IO` where the sink's
/// write failed.
pub fn cc20_write<H, W: Write>(data: Option<&[u8]>, sink: Option<&mut CSink<H, W>>) -> (r: (
    CErr,
    Option<usize>,
))
    requires
        sink matches Some(s) ==> s.wf(),
    ensures
        sink matches Some(s) ==> final(s).wf() && final(s).same_but_sink(s),
        (sink is None || data is None) <==> r.0 == CErr::NullPointer,
        r.1 is Some <==> r.0 == CErr::Success,
        sink matches Some(s) ==> (data is None ==> *final(s) == *s),
        sink matches Some(s) ==> (data matches Some(d) ==> if d@.len() > i32::MAX {
            r.0 == CErr::Panic && *final(s) == *s
        } else {
            exists|answer: Result<usize, IoError<W::Error>>| #[trigger]
                s.sink().write_outcome(d@, answer, final(s).sink()) && r == write_code(answer)
        }),
{
    let sink = match sink {
        Some(sink) => sink,
        None => {
            return (CErr::NullPointer, None);
        },
    };
    let data = match data {
        Some(data) => data,
        None => {
            return (CErr::NullPointer, None);
        },
    };
    if data.len() > i32::MAX as usize {
        return (CErr::Panic, None);
    }
    let ghost before = *sink;
    let answer = sink.sink.write(data);
    proof {
        assert(before.sink().write_outcome(data@, answer, sink.sink()));
    }
    write_code_of(answer)
}

/// The metadata for a sink over the native file stream `file`.
///
/// A missing `file` ends in `InvalidFile`, whatever else is given. A key or
/// IV that is not given is made fresh; if the random source fails at that,
/// the call ends in `Panic`. Only then is it asked whether the caller has a
/// place for the result: if not, the call ends in `NullPointer`. In every
/// such case nothing is handed back, so nothing is written.
pub fn cc20_gen_meta<H>(
    file: Option<H>,
    key: Option<Key>,
    iv: Option<IV>,
    mode: CMode,
    has_output: bool,
) -> (r: Result<CPassthrough<H>, CErr>)
    ensures
        file is None ==> r == Err::<CPassthrough<H>, CErr>(CErr::InvalidFile),
        match r {
            Ok(meta) => {
                &&& has_output
                &&& file is Some
                &&& meta.backing == file
                &&& meta.mode == mode
                &&& key matches Some(k) ==> meta.key == k
                &&& iv matches Some(v) ==> meta.iv == v
            },
            Err(e) => {
                &&& e == CErr::InvalidFile || e == CErr::Panic || e == CErr::NullPointer
                &&& e == CErr::InvalidFile <==> file is None
                &&& e == CErr::Panic ==> key is None || iv is None
                &&& e == CErr::NullPointer ==> !has_output
                &&& file is Some && key is Some && iv is Some ==> e == CErr::NullPointer
            },
        },
        file is Some && key is Some && iv is Some && has_output ==> r is Ok,
{
    let backing = match file {
        Some(backing) => backing,
        None => {
            return Err(CErr::InvalidFile);
        },
    };
    let key = match key {
        Some(key) => key,
        None => match Key::new() {
            Ok(key) => key,
            Err(_) => {
                return Err(CErr::Panic);
            },
        },
    };
    let iv = match iv {
        Some(iv) => iv,
        None => match IV::new() {
            Ok(iv) => iv,
            Err(_) => {
                return Err(CErr::Panic);
            },
        },
    };
    let write = CPassthrough { backing: Some(backing), key, iv, mode };
    if !has_output {
        return Err(CErr::NullPointer);
    }
    Ok(write)
}

/// Create a `Sink` over `stream` from this metadata struct: one that encrypts
/// or decrypts as the metadata says, under its key and IV, with the default
/// cookie settings, and that keeps the metadata.
///
/// Ends in `NullPointer`, with nothing made, where the metadata or the stream
/// is missing or the caller has no place for the result; in `SslError` if the
/// cipher cannot be set up; and in nothing else.
pub fn cc20_gen_sink<H: Copy, W: Write>(
    meta: Option<&CPassthrough<H>>,
    stream: Option<W>,
    has_output: bool,
) -> (r: Result<CSink<H, W>, CErr>)
    ensures
        match r {
            Ok(sink) => {
                &&& has_output
                &&& meta matches Some(m) && *sink.spec_meta() == *m
                &&& stream matches Some(w) && *sink.sink().spec_inner() == w
                &&& sink.wf()
                &&& sink.sink().cipher() == CipherState::fresh(
                    sink.spec_meta().mode.spec_mode(),
                    sink.spec_meta().key@,
                    sink.spec_meta().iv@,
                )
                &&& sink.sink().scratch() == Seq::<u8>::empty()
                &&& sink.spec_cookie_settings().keep_alive == 0
            },
            Err(e) => {
                &&& e == CErr::NullPointer || e == CErr::SslError
                &&& e == CErr::NullPointer <==> (meta is None || stream is None || !has_output)
            },
        },
{
    let meta = match meta {
        Some(meta) => meta,
        None => {
            return Err(CErr::NullPointer);
        },
    };
    let stream = match stream {
        Some(stream) => stream,
        None => {
            return Err(CErr::NullPointer);
        },
    };
    if !has_output {
        return Err(CErr::NullPointer);
    }
    let made = match meta.mode {
        CMode::Encrypt => Sink::encrypt(stream, meta.key, meta.iv),
        CMode::Decrypt => Sink::decrypt(stream, meta.key, meta.iv),
    };
    match made {
        Ok(sink) => {
            let meta = CPassthrough {
                backing: meta.backing,
                key: meta.key,
                iv: meta.iv,
                mode: meta.mode,
            };
            Ok(CSink { sink, meta, cookie_settings: Config::default() })
        },
        Err(_) => Err(CErr::SslError),
    }
}

/// Closes the wrapper `sink` and hands back the stream that it wrote to and
/// the metadata that it was made from, by which the caller has the native
/// file handle again.
///
/// Ends in `NullPointer` where there is no sink.
pub fn cc20_close_sink<H, W>(sink: Option<CSink<H, W>>) -> (r: Result<(W, CPassthrough<H>), CErr>)
    ensures
        match sink {
            Some(s) => r matches Ok(parts) && parts.0 == s.sink().spec_inner() && parts.1
                == s.spec_meta(),
            None => r matches Err(e) && e == CErr::NullPointer,
        },
{
    match sink {
        Some(sink) => Ok((sink.sink.into_inner(), sink.meta)),
        None => Err(CErr::NullPointer),
    }
}

/// Make `sink` ready to be bound to a stream cookie: where a `config` is
/// given, it becomes the sink's cookie settings.
///
/// Returns whether there is a sink to bind; where there is none, the caller
/// has no stream to hand out.
pub fn cc20_wrap_sink<H, W>(sink: Option<&mut CSink<H, W>>, config: Option<Config>) -> (r: bool)
    ensures
        r == sink is Some,
        sink matches Some(s) ==> {
            &&& final(s).sink() == s.sink()
            &&& final(s).spec_meta() == s.spec_meta()
            &&& final(s).spec_cookie_settings() == match config {
                Some(c) => c,
                None => s.spec_cookie_settings(),
            }
        },
{
    match sink {
        None => false,
        Some(sink) => {
            if let Some(config) = config {
                sink.cookie_settings = config;
            }
            true
        },
    }
}

/// A sink gives back the metadata that it was made from: where `made` comes
/// from `cc20_gen_sink` on `meta`, has become `used` by writes and by being
/// wrapped, and `cc20_close_sink` has then handed out `recovered`, the
/// recovered metadata is `meta`, with its handle and its direction.
pub proof fn lemma_lifecycle_keeps_metadata<H, W>(
    meta: CPassthrough<H>,
    made: CSink<H, W>,
    used: CSink<H, W>,
    recovered: CPassthrough<H>,
)
    requires
        *made.spec_meta() == meta,
        used.spec_meta() == made.spec_meta(),
        recovered == *used.spec_meta(),
    ensures
        recovered == meta,
        recovered.backing == meta.backing,
        recovered.mode == meta.mode,
{
}

} // verus!
