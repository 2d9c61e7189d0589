use chacha20stream::ext::HexStringSliceIterExt;
use chacha20stream::{keygen, Key, Sink, IV};

const INPUT: &'static str = "Hello world!Hello world!Hello world!Hello world!Hello world!Hello world!Hello world!Hello world!Hello world!Hello world!Hello world!Hello world!Hello world!";

fn enc_stream(input: &[u8], key: Key, iv: IV) -> Sink<Vec<u8>> {
    let enc_buffer = Vec::new();

    println!(
        "(enc) Key: {}, IV: {}, Input: ({}, {})",
        key.to_string(),
        iv.to_string(),
        input.len(),
        input.hex().into_string()
    );

    let mut stream = Sink::encrypt(enc_buffer, key, iv).expect("sink::enc");
    assert_eq!(stream.write(input).unwrap(), input.len());
    stream.flush().unwrap();

    println!("Output encrypted: {}", stream.inner().hex().into_string());

    stream
}

#[test]
fn stream_enc() {
    let (key, iv) = keygen().expect("rng fatal");

    println!(
        "Sink ends: {:?}",
        enc_stream(INPUT.as_bytes(), key, iv).into_inner()
    );
}

#[test]
fn stream_dec() {
    println!(
        ">>> Sink's size with ref is {}",
        std::mem::size_of::<Sink<&mut Vec<u8>>>()
    );
    let (key, iv) = keygen().expect("rng fatal");
    println!("Input unencrypted: {}", INPUT.as_bytes().hex().into_string());

    let input = enc_stream(INPUT.as_bytes(), key.clone(), iv.clone()).into_inner();

    let mut dec_buffer = Vec::new();
    {
        let mut stream = Sink::decrypt(&mut dec_buffer, key, iv).expect("sink::dec");

        stream.write_all(&input[..]).unwrap();
        stream.flush().unwrap();

        println!("Output decrypted: {}", stream.inner().hex().into_string());
    }
    assert_eq!(&dec_buffer[..], INPUT.as_bytes());
}
