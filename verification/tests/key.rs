use chacha20stream::key::{DecodeError, RandomError, IV_SIZE, KEY_SIZE};
use chacha20stream::{Key, IV};

#[test]
fn enc_dec() {
    let (key, iv) = chacha20stream::keygen().expect("rng fatal");

    let key_str = key.to_string();
    let iv_str = iv.to_string();

    let (key2, iv2): (Key, IV) = (
        Key::from_str(&key_str).expect("key"),
        IV::from_str(&iv_str).expect("iv"),
    );

    assert_eq!(key, key2);
    assert_eq!(iv, iv2);
}

#[test]
fn sizes_are_those_of_the_cipher() {
    assert_eq!(KEY_SIZE, 32);
    assert_eq!(IV_SIZE, 12);
    assert_eq!(Key::default().as_ref().len(), 32);
    assert_eq!(IV::default().as_ref().len(), 12);
}

#[test]
fn default_is_all_zero() {
    assert_eq!(Key::default(), Key::from_bytes([0u8; 32]));
    assert_eq!(IV::default(), IV::from_bytes([0u8; 12]));
}

#[test]
fn from_bytes_keeps_the_bytes() {
    let mut bytes = [0u8; 32];
    for (i, b) in bytes.iter_mut().enumerate() {
        *b = i as u8;
    }
    let key = Key::from_bytes(bytes);
    assert_eq!(key.as_ref(), &bytes[..]);
    let iv = IV::from_bytes([7u8; 12]);
    assert_eq!(iv.as_ref(), &[7u8; 12][..]);
}

#[test]
fn as_mut_writes_into_the_key() {
    let mut key = Key::default();
    key.as_mut().copy_from_slice(&[9u8; 32]);
    assert_eq!(key, Key::from_bytes([9u8; 32]));
    let mut iv = IV::default();
    iv.as_mut()[11] = 1;
    assert_eq!(iv.as_ref()[11], 1);
    assert_eq!(iv.as_ref()[0], 0);
}

#[test]
fn text_of_zero_key_is_pinned() {
    assert_eq!(
        Key::from_bytes([0u8; 32]).to_string(),
        "AAAAAAAAAAAAAAAAAAAAAAAAAAAAAAAAAAAAAAAAAAA="
    );
    assert_eq!(IV::from_bytes([0u8; 12]).to_string(), "AAAAAAAAAAAAAAAA");
}

#[test]
fn text_round_trip_of_a_fixed_key() {
    let mut bytes = [0u8; 32];
    for (i, b) in bytes.iter_mut().enumerate() {
        *b = 255 - (i as u8) * 3;
    }
    let key = Key::from_bytes(bytes);
    assert_eq!(Key::from_str(&key.to_string()), Ok(key));
    let iv = IV::from_bytes([1, 2, 3, 4, 5, 6, 7, 8, 9, 10, 11, 12]);
    assert_eq!(iv.to_string(), "AQIDBAUGBwgJCgsM");
    assert_eq!(IV::from_str("AQIDBAUGBwgJCgsM"), Ok(iv));
}

#[test]
fn short_text_is_padded_with_zeros() {
    // sixteen bytes of 0xff
    let key = Key::from_str("/////////////////////w==").expect("key");
    assert_eq!(&key.as_ref()[..16], &[0xffu8; 16][..]);
    assert_eq!(&key.as_ref()[16..32], &[0u8; 16][..]);
    // three bytes
    let iv = IV::from_str("AQID").expect("iv");
    assert_eq!(iv.as_ref(), &[1, 2, 3, 0, 0, 0, 0, 0, 0, 0, 0, 0][..]);
}

#[test]
fn empty_text_is_the_zero_key() {
    assert_eq!(Key::from_str(""), Ok(Key::default()));
    assert_eq!(IV::from_str(""), Ok(IV::default()));
}

#[test]
fn long_text_is_cut() {
    // the text of a key holds 32 bytes: an IV takes the first 12
    let key = Key::from_bytes([0xabu8; 32]);
    let iv = IV::from_str(&key.to_string()).expect("iv");
    assert_eq!(iv, IV::from_bytes([0xabu8; 12]));
    // 33 bytes cut to a key
    let mut long = vec![5u8; 33];
    long[32] = 77;
    assert_eq!(Key::from_decoded(&long), Key::from_bytes([5u8; 32]));
}

#[test]
fn from_decoded_pads_and_cuts() {
    assert_eq!(Key::from_decoded(&[]), Key::default());
    let key = Key::from_decoded(&[1, 2, 3]);
    assert_eq!(&key.as_ref()[..3], &[1, 2, 3][..]);
    assert_eq!(&key.as_ref()[3..], &[0u8; 29][..]);
    let iv = IV::from_decoded(&[4u8; 20]);
    assert_eq!(iv, IV::from_bytes([4u8; 12]));
    let iv = IV::from_decoded(&[4u8; 12]);
    assert_eq!(iv, IV::from_bytes([4u8; 12]));
}

#[test]
fn invalid_byte_is_reported() {
    assert_eq!(Key::from_str("AA!A"), Err(DecodeError::InvalidByte(2, b'!')));
    assert_eq!(IV::from_str(" AAA"), Err(DecodeError::InvalidByte(0, b' ')));
}

#[test]
fn invalid_length_is_reported() {
    assert_eq!(Key::from_str("A"), Err(DecodeError::InvalidLength));
    assert_eq!(IV::from_str("AAAAA"), Err(DecodeError::InvalidLength));
}

#[test]
fn invalid_last_symbol_is_reported() {
    assert_eq!(
        Key::from_str("AB=="),
        Err(DecodeError::InvalidLastSymbol(1, b'B'))
    );
}

#[test]
fn keygen_gives_keys_that_differ() {
    let (k1, i1) = chacha20stream::keygen().expect("rng fatal");
    let (k2, i2) = chacha20stream::keygen().expect("rng fatal");
    assert_ne!(k1, Key::default());
    assert_ne!(k1, k2);
    assert_ne!(i1, i2);
    assert_ne!(Key::new().expect("rng fatal"), Key::new().expect("rng fatal"));
    assert_ne!(IV::new().expect("rng fatal"), IV::new().expect("rng fatal"));
}

#[test]
fn key_hex_string() {
    let key = Key::from_bytes([0x0fu8; 32]);
    assert_eq!(key.to_hex_string().into_string(), "0f".repeat(32));
    let iv = IV::from_bytes([0, 1, 2, 3, 4, 5, 6, 7, 8, 9, 0xa0, 0xff]);
    assert_eq!(iv.to_hex_string().into_string(), "00010203040506070809a0ff");
}

#[test]
fn from_random_keeps_bytes_or_code() {
    assert_eq!(
        Key::from_random([3u8; 32], Ok(())),
        Ok(Key::from_bytes([3u8; 32]))
    );
    assert_eq!(
        Key::from_random([3u8; 32], Err(7)),
        Err(RandomError { code: 7 })
    );
    assert_eq!(
        IV::from_random([4u8; 12], Ok(())),
        Ok(IV::from_bytes([4u8; 12]))
    );
    assert_eq!(
        IV::from_random([4u8; 12], Err(0x8000_0001)),
        Err(RandomError { code: 0x8000_0001 })
    );
}
