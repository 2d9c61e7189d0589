use std::io;

use chacha20stream::stream::source::UseBufferExternal;
use chacha20stream::stream::{IoError, Read, StdRead, StdWrite, Write};
use chacha20stream::{Key, Sink, Source, IV};

const GOLDEN: [u8; 12] = [215, 98, 139, 210, 58, 113, 79, 21, 234, 214, 243, 93];

fn zero_key() -> (Key, IV) {
    (Key::from_bytes([0u8; 32]), IV::from_bytes([0u8; 12]))
}

/// Takes `take` bytes a call, counts its calls, and fails from the call
/// numbered `fail_at` on.
struct Counting<'a> {
    taken: &'a mut Vec<u8>,
    calls: &'a mut usize,
    take: usize,
    fail_at: usize,
}

impl io::Write for Counting<'_> {
    fn write(&mut self, buf: &[u8]) -> io::Result<usize> {
        *self.calls += 1;
        if *self.calls >= self.fail_at {
            return Err(io::Error::new(io::ErrorKind::Other, "full"));
        }
        let n = buf.len().min(self.take);
        self.taken.extend_from_slice(&buf[..n]);
        Ok(n)
    }

    fn flush(&mut self) -> io::Result<()> {
        Ok(())
    }
}

#[test]
fn std_writer_under_a_sink() {
    let (key, iv) = zero_key();
    let mut out: Vec<u8> = Vec::new();
    {
        let mut sink = Sink::encrypt(StdWrite::new(&mut out), key, iv).unwrap();
        sink.write_all(b"Hello world!").unwrap();
        sink.flush().unwrap();
    }
    assert_eq!(out, GOLDEN);
}

#[test]
fn std_reader_under_a_source() {
    let (key, iv) = zero_key();
    let input = io::Cursor::new(GOLDEN.to_vec());
    let mut source = Source::<_, UseBufferExternal>::decrypt(StdRead::new(input), key, iv).unwrap();
    let mut buf = [0u8; 32];
    assert_eq!(source.read(&mut buf).unwrap(), 12);
    assert_eq!(&buf[..12], b"Hello world!");
    assert_eq!(source.read(&mut buf).unwrap(), 0);
}

#[test]
fn std_adapters_hand_on_what_the_stream_says() {
    let mut taken = Vec::new();
    let mut calls = 0;
    {
        let mut w = StdWrite::new(Counting {
            taken: &mut taken,
            calls: &mut calls,
            take: 2,
            fail_at: 3,
        });
        assert_eq!(w.write(b"abcdef").unwrap(), 2);
        assert!(w.flush().is_ok());
        assert_eq!(w.write(b"cdef").unwrap(), 2);
        assert!(w.write(b"ef").is_err());
        assert!(w.write_all(b"ef").is_err());
    }
    assert_eq!(taken, b"abcd");
    assert_eq!(calls, 4);

    let mut r = StdRead::new(&b"abc"[..]);
    let mut buf = [0u8; 2];
    assert_eq!(r.read(&mut buf).unwrap(), 2);
    assert_eq!(&buf, b"ab");
    assert_eq!(r.read(&mut buf).unwrap(), 1);
    assert_eq!(buf[0], b'c');
    assert_eq!(r.read(&mut buf).unwrap(), 0);
}

#[test]
fn a_stream_that_takes_part_gets_part_of_the_chunk() {
    let (key, iv) = zero_key();
    let mut taken = Vec::new();
    let mut calls = 0;
    {
        let stream = StdWrite::new(Counting {
            taken: &mut taken,
            calls: &mut calls,
            take: 5,
            fail_at: usize::MAX,
        });
        let mut sink = Sink::encrypt(stream, key, iv).unwrap();
        // the whole chunk went through the cipher; the stream took five bytes
        assert_eq!(sink.write(b"Hello world!").unwrap(), 5);
    }
    assert_eq!(taken, &GOLDEN[..5]);
    assert_eq!(calls, 1);
}

#[test]
fn writing_nothing_does_not_call_the_stream() {
    let (key, iv) = zero_key();
    let mut taken = Vec::new();
    let mut calls = 0;
    {
        let stream = StdWrite::new(Counting {
            taken: &mut taken,
            calls: &mut calls,
            take: 5,
            fail_at: 1,
        });
        let mut sink = Sink::encrypt(stream, key, iv).unwrap();
        assert_eq!(sink.write(b"").unwrap(), 0);
    }
    assert!(taken.is_empty());
    assert_eq!(calls, 0);
}

#[test]
fn a_failing_stream_is_reported_as_such() {
    let (key, iv) = zero_key();
    let mut taken = Vec::new();
    let mut calls = 0;
    {
        let stream = StdWrite::new(Counting {
            taken: &mut taken,
            calls: &mut calls,
            take: 5,
            fail_at: 1,
        });
        let mut sink = Sink::encrypt(stream, key, iv).unwrap();
        assert!(matches!(sink.write(b"Hello"), Err(IoError::Stream(_))));
        assert!(matches!(sink.write_all(b"Hello"), Err(IoError::Stream(_))));
    }
    assert!(taken.is_empty());
}

/// Claims to have taken or given more than it was offered.
struct Liar;

impl io::Write for Liar {
    fn write(&mut self, buf: &[u8]) -> io::Result<usize> {
        Ok(buf.len() + 1)
    }

    fn flush(&mut self) -> io::Result<()> {
        Ok(())
    }
}

impl io::Read for Liar {
    fn read(&mut self, buf: &mut [u8]) -> io::Result<usize> {
        Ok(buf.len() + 1)
    }
}

#[test]
fn a_count_beyond_the_buffer_is_an_error() {
    let mut w = StdWrite::new(Liar);
    assert_eq!(
        w.write(b"abc").unwrap_err().kind(),
        io::ErrorKind::InvalidData
    );
    let mut r = StdRead::new(Liar);
    let mut buf = [0u8; 4];
    assert_eq!(
        r.read(&mut buf).unwrap_err().kind(),
        io::ErrorKind::InvalidData
    );

    let (key, iv) = zero_key();
    let mut source = Source::<_, UseBufferExternal>::decrypt(StdRead::new(Liar), key, iv).unwrap();
    assert!(matches!(source.read(&mut buf), Err(IoError::Stream(_))));
}
