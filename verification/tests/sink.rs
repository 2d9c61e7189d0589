use chacha20stream::stream::source::UseBufferInternal;
use chacha20stream::stream::{Cursor, Read, Write};
use chacha20stream::{keygen, Key, Sink, Source, IV};

const GOLDEN: [u8; 12] = [215, 98, 139, 210, 58, 113, 79, 21, 234, 214, 243, 93];

fn zero_key() -> (Key, IV) {
    (Key::from_bytes([0u8; 32]), IV::from_bytes([0u8; 12]))
}

#[test]
fn golden_value_of_hello_world() {
    let (key, iv) = zero_key();
    let mut sink = Sink::encrypt(Vec::new(), key, iv).unwrap();
    sink.write_all(b"Hello world!").unwrap();
    sink.flush().unwrap();
    let encrypted = sink.into_inner();
    assert_eq!(encrypted, GOLDEN);

    let mut sink = Sink::decrypt(Vec::new(), key, iv).unwrap();
    sink.write_all(&encrypted).unwrap();
    sink.flush().unwrap();
    assert_eq!(sink.into_inner(), b"Hello world!");
}

#[test]
fn writing_nothing_writes_nothing() {
    let (key, iv) = keygen().expect("rng fatal");
    let mut sink = Sink::encrypt(Vec::new(), key, iv).unwrap();
    assert_eq!(sink.write(b"").unwrap(), 0);
    assert!(sink.inner().is_empty());
    sink.write_all(b"").unwrap();
    assert!(sink.inner().is_empty());
    // and what follows is as if nothing had been written before
    let (key, iv) = zero_key();
    let mut sink = Sink::encrypt(Vec::new(), key, iv).unwrap();
    assert_eq!(sink.write(b"").unwrap(), 0);
    assert_eq!(sink.write(b"Hello world!").unwrap(), 12);
    assert_eq!(sink.into_inner(), GOLDEN);
}

#[test]
fn round_trip_of_many_lengths() {
    let (key, iv) = keygen().expect("rng fatal");
    for len in [0usize, 1, 2, 31, 32, 33, 63, 64, 65, 1000, 70_000] {
        let input: Vec<u8> = (0..len).map(|i| (i * 31 % 256) as u8).collect();
        let mut enc = Sink::encrypt(Vec::new(), key, iv).unwrap();
        enc.write_all(&input).unwrap();
        let encrypted = enc.into_inner();
        assert_eq!(encrypted.len(), len);
        let mut dec = Sink::decrypt(Vec::new(), key, iv).unwrap();
        dec.write_all(&encrypted).unwrap();
        assert_eq!(dec.into_inner(), input);
    }
}

#[test]
fn round_trip_between_sink_and_source() {
    let (key, iv) = keygen().expect("rng fatal");
    let input = b"The quick brown fox jumps over the lazy dog";
    let mut enc = Sink::encrypt(Vec::new(), key, iv).unwrap();
    enc.write_all(input).unwrap();
    let encrypted = enc.into_inner();

    let mut dec = Source::<_, UseBufferInternal>::decrypt(Cursor::new(&encrypted), key, iv).unwrap();
    let mut back = vec![0u8; input.len()];
    assert_eq!(dec.read(&mut back).unwrap(), input.len());
    assert_eq!(&back[..], &input[..]);
}

#[test]
fn a_single_write_gives_what_write_all_gives() {
    let (key, iv) = keygen().expect("rng fatal");
    let input: Vec<u8> = (0..500u32).map(|i| (i * 13) as u8).collect();
    let mut by_write_all = Sink::encrypt(Vec::new(), key, iv).unwrap();
    by_write_all.write_all(&input).unwrap();
    let mut by_write = Sink::encrypt(Vec::new(), key, iv).unwrap();
    assert_eq!(by_write.write(&input).unwrap(), input.len());
    assert_eq!(by_write_all.into_inner(), by_write.into_inner());
}

#[test]
fn the_scratch_buffer_leaves_no_trace_in_the_output() {
    // the same chunk after a longer one, after a shorter one, after a flush
    // and after a prune, in sinks with and without explicit clearing
    let (key, iv) = zero_key();
    let chunk = b"Hello world!";
    for before in [0usize, 3, 12, 40, 5000] {
        for clear in [false, true] {
            let mut sink = Sink::encrypt(Vec::new(), key, iv).unwrap();
            sink.set_explicit_clear(clear);
            assert_eq!(sink.explicit_clear(), clear);
            let filler = vec![0x55u8; before];
            sink.write_all(&filler).unwrap();
            if before % 2 == 0 {
                sink.flush().unwrap();
            } else {
                sink.prune();
            }
            sink.write_all(chunk).unwrap();
            let out = sink.into_inner();
            assert_eq!(out.len(), before + 12);
            assert_eq!(&out[before..], &GOLDEN[..]);
        }
    }
}

#[test]
fn every_chunk_goes_through_the_cipher_on_its_own() {
    // each write is one update and one finalize: the cipher answers the
    // second chunk as it answered the first
    let (key, iv) = zero_key();
    let mut sink = Sink::encrypt(Vec::new(), key, iv).unwrap();
    assert_eq!(sink.write(b"Hello ").unwrap(), 6);
    assert_eq!(sink.write(b"world!").unwrap(), 6);
    let out = sink.into_inner();
    assert_eq!(&out[..6], &GOLDEN[..6]);
    let mut other = Sink::encrypt(Vec::new(), key, iv).unwrap();
    other.write_all(b"world!").unwrap();
    assert_eq!(&out[6..], &other.into_inner()[..]);

    // chunks that are decrypted as they were encrypted come back
    let mut dec = Sink::decrypt(Vec::new(), key, iv).unwrap();
    dec.write_all(&out[..6]).unwrap();
    dec.write_all(&out[6..]).unwrap();
    assert_eq!(dec.into_inner(), b"Hello world!");
}

#[test]
fn sink_through_a_borrowed_stream() {
    let (key, iv) = zero_key();
    let mut backing: Vec<u8> = vec![1, 2, 3];
    {
        let mut sink = Sink::encrypt(&mut backing, key, iv).unwrap();
        assert_eq!(sink.write(b"Hello world!").unwrap(), 12);
        sink.flush().unwrap();
        assert_eq!(sink.inner().len(), 15);
    }
    assert_eq!(&backing[..3], &[1, 2, 3][..]);
    assert_eq!(&backing[3..], &GOLDEN[..]);
}

#[test]
fn sink_parts() {
    let (key, iv) = zero_key();
    let mut sink = Sink::encrypt(Vec::new(), key, iv).unwrap();
    sink.write_all(b"Hello ").unwrap();
    let _ = sink.crypter();
    sink.inner_mut().push(0);
    let (stream, crypter) = sink.into_parts();
    assert_eq!(stream.len(), 7);
    let mut again = Sink::from_parts(stream, crypter);
    let _ = again.crypter_mut();
    again.write_all(b"Hello ").unwrap();
    let out = again.into_inner();
    assert_eq!(out.len(), 13);
    assert_eq!(&out[..6], &out[7..]);
}

#[test]
fn vec_stream_takes_everything() {
    let mut v: Vec<u8> = Vec::new();
    assert_eq!(Write::write(&mut v, b"abc"), Ok(3));
    assert_eq!(Write::write_all(&mut v, b"de"), Ok(()));
    assert_eq!(Write::flush(&mut v), Ok(()));
    assert_eq!(Write::write(&mut v, b""), Ok(0));
    assert_eq!(v, b"abcde");
}

#[test]
fn cursor_reads_to_the_end() {
    let mut c = Cursor::new(b"abcde");
    let mut buf = [0u8; 3];
    assert_eq!(c.read(&mut buf), Ok(3));
    assert_eq!(&buf, b"abc");
    assert_eq!(c.position(), 3);
    let mut buf = [9u8; 3];
    assert_eq!(c.read(&mut buf), Ok(2));
    assert_eq!(&buf, &[b'd', b'e', 9]);
    assert_eq!(c.read(&mut buf), Ok(0));
    assert_eq!(c.position(), 5);
}

#[test]
fn an_empty_write_changes_nothing() {
    let (key, iv) = zero_key();
    let mut sink = Sink::encrypt(vec![9u8], key, iv).unwrap();
    assert_eq!(sink.write(b"").unwrap(), 0);
    assert_eq!(sink.inner(), &vec![9u8]);
    assert_eq!(sink.write(b"Hello world!").unwrap(), 12);
    assert_eq!(&sink.inner()[1..], &GOLDEN[..]);
}

#[test]
fn finalize_decides_what_becomes_of_a_chunk() {
    assert!(matches!(chacha20stream::cha::finalized(12, Ok(0)), Ok(12)));
    assert!(matches!(chacha20stream::cha::finalized(0, Ok(0)), Ok(0)));
    assert!(matches!(
        chacha20stream::cha::finalized(12, Ok(16)),
        Err(chacha20stream::cha::TransformError::Trailing(16))
    ));
    // an error of the cipher is handed on
    assert!(matches!(
        chacha20stream::cha::finalized(12, Err(openssl::error::ErrorStack::get())),
        Err(chacha20stream::cha::TransformError::Cipher(_))
    ));
}
