use chacha20stream::ffi::cookie::{self, Close};
use chacha20stream::cha::TransformError;
use chacha20stream::ffi::{
    cc20_close_sink, cc20_gen_meta, cc20_gen_sink, cc20_keygen, cc20_wrap_sink, cc20_write,
    write_code_of, CErr, CMode, CPassthrough, CSink, Config,
};
use chacha20stream::stream::IoError;
use chacha20stream::{Key, IV};

const GOLDEN: [u8; 12] = [215, 98, 139, 210, 58, 113, 79, 21, 234, 214, 243, 93];

fn zero_meta(mode: CMode) -> CPassthrough<usize> {
    CPassthrough {
        backing: Some(0x1000),
        key: Key::from_bytes([0u8; 32]),
        iv: IV::from_bytes([0u8; 12]),
        mode,
    }
}

fn zero_sink(mode: CMode) -> CSink<usize, Vec<u8>> {
    match cc20_gen_sink(Some(&zero_meta(mode)), Some(Vec::new()), true) {
        Ok(sink) => sink,
        Err(e) => panic!("no sink: {:?}", e),
    }
}

#[test]
fn error_codes() {
    assert_eq!(CErr::Success.code(), 0);
    assert_eq!(CErr::InvalidFile.code(), 1);
    assert_eq!(CErr::NullPointer.code(), 2);
    assert_eq!(CErr::SslError.code(), 3);
    assert_eq!(CErr::IO.code(), 4);
    assert_eq!(CErr::Panic.code(), -1);
    assert_eq!(i32::from(CErr::IO), 4);
    assert_eq!(i32::from(CErr::Panic), -1);
    assert_eq!(CErr::default(), CErr::Success);
}

#[test]
fn success_is_the_only_success() {
    assert!(CErr::Success.is_success());
    assert!(!CErr::Success.is_error());
    for e in [
        CErr::InvalidFile,
        CErr::NullPointer,
        CErr::SslError,
        CErr::IO,
        CErr::Panic,
    ] {
        assert!(e.is_error());
        assert!(!e.is_success());
    }
}

#[test]
fn error_codes_are_ordered_by_their_number() {
    assert!(CErr::Panic < CErr::Success);
    assert!(CErr::Success < CErr::InvalidFile);
    assert!(CErr::InvalidFile < CErr::NullPointer);
    assert!(CErr::NullPointer < CErr::SslError);
    assert!(CErr::SslError < CErr::IO);
}

#[test]
fn config_default_closes_the_stream() {
    assert_eq!(Config::default().keep_alive, 0);
    assert_eq!(Config::default(), Config { keep_alive: 0 });
}

#[test]
fn mode_maps_to_the_cipher_direction() {
    assert_eq!(
        CMode::Encrypt.mode(),
        chacha20stream::cha::Mode::Encrypt
    );
    assert_eq!(
        CMode::Decrypt.mode(),
        chacha20stream::cha::Mode::Decrypt
    );
}

#[test]
fn keygen_skips_what_is_not_asked_for() {
    let (e, key, iv) = cc20_keygen(false, false);
    assert_eq!(e, CErr::Success);
    assert!(key.is_none() && iv.is_none());
    let (e, key, iv) = cc20_keygen(true, false);
    assert_eq!(e, CErr::Success);
    assert!(key.is_some() && iv.is_none());
    let (e, key, iv) = cc20_keygen(false, true);
    assert_eq!(e, CErr::Success);
    assert!(key.is_none() && iv.is_some());
    let (e, key, iv) = cc20_keygen(true, true);
    assert_eq!(e, CErr::Success);
    assert_ne!(key.unwrap(), Key::default());
    assert_ne!(iv.unwrap(), IV::default());
}

#[test]
fn gen_meta_without_a_file_is_invalid_file() {
    let key = Key::from_bytes([1u8; 32]);
    let iv = IV::from_bytes([2u8; 12]);
    assert_eq!(
        cc20_gen_meta::<usize>(None, Some(key), Some(iv), CMode::Encrypt, true),
        Err(CErr::InvalidFile)
    );
    // whatever else is missing
    assert_eq!(
        cc20_gen_meta::<usize>(None, None, None, CMode::Decrypt, false),
        Err(CErr::InvalidFile)
    );
}

#[test]
fn gen_meta_without_a_place_for_the_result_is_null_pointer() {
    let key = Key::from_bytes([1u8; 32]);
    let iv = IV::from_bytes([2u8; 12]);
    assert_eq!(
        cc20_gen_meta(Some(7usize), Some(key), Some(iv), CMode::Encrypt, false),
        Err(CErr::NullPointer)
    );
    assert_eq!(
        cc20_gen_meta(Some(7usize), None, None, CMode::Encrypt, false),
        Err(CErr::NullPointer)
    );
}

#[test]
fn gen_meta_keeps_what_it_is_given() {
    let key = Key::from_bytes([1u8; 32]);
    let iv = IV::from_bytes([2u8; 12]);
    assert_eq!(
        cc20_gen_meta(Some(7usize), Some(key), Some(iv), CMode::Decrypt, true),
        Ok(CPassthrough {
            backing: Some(7usize),
            key,
            iv,
            mode: CMode::Decrypt
        })
    );
}

#[test]
fn gen_meta_makes_what_it_is_not_given() {
    let key = Key::from_bytes([1u8; 32]);
    let meta = cc20_gen_meta(Some(7usize), Some(key), None, CMode::Encrypt, true).unwrap();
    assert_eq!(meta.key, key);
    assert_ne!(meta.iv, IV::default());
    let a = cc20_gen_meta(Some(7usize), None, None, CMode::Encrypt, true).unwrap();
    let b = cc20_gen_meta(Some(7usize), None, None, CMode::Encrypt, true).unwrap();
    assert_eq!(a.backing, Some(7));
    assert_eq!(a.mode, CMode::Encrypt);
    assert_ne!(a.key, b.key);
    assert_ne!(a.iv, b.iv);
}

#[test]
fn sink_lifecycle() {
    let meta = zero_meta(CMode::Encrypt);
    let mut sink = cc20_gen_sink(Some(&meta), Some(Vec::new()), true).unwrap();
    assert_eq!(sink.cookie_settings(), Config::default());
    assert_eq!(sink.meta(), &meta);
    assert_eq!(
        cc20_write(Some(&b"Hello world!"[..]), Some(&mut sink)),
        (CErr::Success, Some(12))
    );
    let (stream, recovered) = cc20_close_sink(Some(sink)).unwrap();
    assert_eq!(stream, GOLDEN);
    // the metadata comes back as it went in: handle, key, IV and direction
    assert_eq!(recovered, meta);
    assert_eq!(recovered.backing, Some(0x1000));
    assert_eq!(recovered.mode, CMode::Encrypt);

    // and back, with a sink made from the same metadata but for its direction
    let back = CPassthrough {
        mode: CMode::Decrypt,
        ..meta.clone()
    };
    let mut sink = cc20_gen_sink(Some(&back), Some(Vec::new()), true).unwrap();
    assert_eq!(
        cc20_write(Some(&stream[..]), Some(&mut sink)),
        (CErr::Success, Some(12))
    );
    let (stream, recovered) = cc20_close_sink(Some(sink)).unwrap();
    assert_eq!(stream, b"Hello world!");
    assert_eq!(recovered.mode, CMode::Decrypt);
    assert_eq!(recovered.backing, meta.backing);
}

#[test]
fn gen_sink_without_metadata_stream_or_place_is_null_pointer() {
    let meta = zero_meta(CMode::Encrypt);
    assert!(matches!(
        cc20_gen_sink::<usize, Vec<u8>>(None, Some(Vec::new()), true),
        Err(CErr::NullPointer)
    ));
    assert!(matches!(
        cc20_gen_sink::<usize, Vec<u8>>(Some(&meta), None, true),
        Err(CErr::NullPointer)
    ));
    assert!(matches!(
        cc20_gen_sink(Some(&meta), Some(Vec::<u8>::new()), false),
        Err(CErr::NullPointer)
    ));
    assert!(matches!(
        cc20_gen_sink::<usize, Vec<u8>>(None, None, false),
        Err(CErr::NullPointer)
    ));
}

#[test]
fn write_code_follows_the_sink() {
    assert_eq!(write_code_of::<()>(Ok(0)), (CErr::Success, Some(0)));
    assert_eq!(write_code_of::<()>(Ok(12)), (CErr::Success, Some(12)));
    assert_eq!(
        write_code_of(Err(IoError::Stream(()))),
        (CErr::IO, None)
    );
    assert_eq!(
        write_code_of::<()>(Err(IoError::Transform(TransformError::Trailing(3)))),
        (CErr::IO, None)
    );
}

#[test]
fn write_without_sink_or_data_is_null_pointer() {
    let mut sink = zero_sink(CMode::Encrypt);
    assert_eq!(
        cc20_write::<usize, Vec<u8>>(Some(&b"abc"[..]), None),
        (CErr::NullPointer, None)
    );
    assert_eq!(
        cc20_write(None, Some(&mut sink)),
        (CErr::NullPointer, None)
    );
    assert_eq!(
        cc20_write::<usize, Vec<u8>>(None, None),
        (CErr::NullPointer, None)
    );
    // nothing was done to the sink
    assert_eq!(
        cc20_write(Some(&b"Hello world!"[..]), Some(&mut sink)),
        (CErr::Success, Some(12))
    );
    assert_eq!(cc20_close_sink(Some(sink)).unwrap().0, GOLDEN);
}

#[test]
fn write_of_nothing_succeeds_with_zero() {
    let mut sink = zero_sink(CMode::Encrypt);
    assert_eq!(
        cc20_write(Some(&b""[..]), Some(&mut sink)),
        (CErr::Success, Some(0))
    );
    assert_eq!(cc20_close_sink(Some(sink)).unwrap().0, b"");
}

#[test]
fn close_without_sink_is_null_pointer() {
    assert!(matches!(
        cc20_close_sink::<usize, Vec<u8>>(None),
        Err(CErr::NullPointer)
    ));
}

#[test]
fn wrap_sink_applies_the_config() {
    assert!(!cc20_wrap_sink::<usize, Vec<u8>>(None, None));
    assert!(!cc20_wrap_sink::<usize, Vec<u8>>(
        None,
        Some(Config { keep_alive: 1 })
    ));
    let mut sink = zero_sink(CMode::Encrypt);
    assert!(cc20_wrap_sink(Some(&mut sink), None));
    assert_eq!(sink.cookie_settings().keep_alive, 0);
    assert!(cc20_wrap_sink(Some(&mut sink), Some(Config { keep_alive: 5 })));
    assert_eq!(sink.cookie_settings().keep_alive, 5);
    assert!(cc20_wrap_sink(Some(&mut sink), None));
    assert_eq!(sink.cookie_settings().keep_alive, 5);
}

#[test]
fn cookie_read_and_seek_are_unsupported() {
    assert_eq!(cookie::read(0), -1);
    assert_eq!(cookie::read(4096), -1);
    assert_eq!(cookie::seek(0, 0), -1);
    assert_eq!(cookie::seek(-10, 2), -1);
}

#[test]
fn cookie_write_returns_the_count() {
    let mut sink = zero_sink(CMode::Encrypt);
    assert_eq!(cookie::write(Some(&mut sink), Some(&b"Hello world!"[..])), 12);
    assert_eq!(cookie::write(Some(&mut sink), Some(&b""[..])), 0);
    let (stream, _) = cc20_close_sink(Some(sink)).unwrap();
    assert_eq!(stream, GOLDEN);
}

#[test]
fn cookie_write_without_cookie_or_buffer_is_zero() {
    let mut sink = zero_sink(CMode::Encrypt);
    assert_eq!(cookie::write::<usize, Vec<u8>>(None, Some(&b"abc"[..])), 0);
    assert_eq!(cookie::write(Some(&mut sink), None), 0);
    assert_eq!(cookie::write::<usize, Vec<u8>>(None, None), 0);
    assert_eq!(cc20_close_sink(Some(sink)).unwrap().0, b"");
}

#[test]
fn cookie_write_count_fits_or_is_zero() {
    assert_eq!(cookie::write_count_of(None), 0);
    assert_eq!(cookie::write_count_of(Some(0)), 0);
    assert_eq!(cookie::write_count_of(Some(12)), 12);
    assert_eq!(
        cookie::write_count_of(Some(isize::MAX as usize - 1)),
        isize::MAX - 1
    );
    assert_eq!(cookie::write_count_of(Some(isize::MAX as usize)), 0);
    assert_eq!(cookie::write_count_of(Some(usize::MAX)), 0);
}

#[test]
fn cookie_close_follows_keep_alive() {
    assert!(matches!(
        cookie::close::<usize, Vec<u8>>(None),
        Close::Missing
    ));

    let mut sink = zero_sink(CMode::Encrypt);
    assert_eq!(cookie::write(Some(&mut sink), Some(&b"Hello world!"[..])), 12);
    match cookie::close(Some(sink)) {
        Close::Release(stream, handle) => {
            assert_eq!(stream, GOLDEN);
            assert_eq!(handle, 0x1000);
        }
        _ => panic!("the stream was to be released"),
    }

    let mut sink = zero_sink(CMode::Encrypt);
    assert!(cc20_wrap_sink(Some(&mut sink), Some(Config { keep_alive: 1 })));
    match cookie::close(Some(sink)) {
        Close::Keep(stream) => assert!(stream.is_empty()),
        _ => panic!("the stream was to be kept"),
    }

    let mut sink = zero_sink(CMode::Encrypt);
    assert!(cc20_wrap_sink(Some(&mut sink), Some(Config { keep_alive: -1 })));
    assert!(matches!(cookie::close(Some(sink)), Close::Keep(_)));
}

#[test]
fn cookie_close_leaves_a_missing_handle_alone() {
    let meta = CPassthrough::<usize> {
        backing: None,
        ..zero_meta(CMode::Encrypt)
    };
    let sink = cc20_gen_sink(Some(&meta), Some(Vec::<u8>::new()), true).unwrap();
    assert_eq!(sink.cookie_settings().keep_alive, 0);
    assert!(matches!(cookie::close(Some(sink)), Close::Keep(_)));
}

#[test]
fn native_write_status() {
    // everything was taken
    assert_eq!(CPassthrough::<usize>::write_status(10, 10, false, false), Some(10));
    assert_eq!(CPassthrough::<usize>::write_status(10, 10, true, true), Some(10));
    assert_eq!(CPassthrough::<usize>::write_status(0, 0, true, false), Some(0));
    // less was taken and the error mark is set
    assert_eq!(CPassthrough::<usize>::write_status(4, 10, true, false), None);
    assert_eq!(CPassthrough::<usize>::write_status(0, 10, true, true), None);
    // less was taken without an error
    assert_eq!(CPassthrough::<usize>::write_status(0, 10, false, true), Some(0));
    assert_eq!(CPassthrough::<usize>::write_status(0, 10, false, false), Some(0));
    assert_eq!(CPassthrough::<usize>::write_status(4, 10, false, false), Some(4));
    assert_eq!(CPassthrough::<usize>::write_status(4, 10, false, true), Some(4));
}

#[test]
fn native_flush_status() {
    assert_eq!(CPassthrough::<usize>::flush_status(0), Ok(()));
    assert_eq!(CPassthrough::<usize>::flush_status(-1), Err(-1));
    assert_eq!(CPassthrough::<usize>::flush_status(5), Err(5));
}
