use cipher_echo::framing::{decode_frame, encode_frame, find_delimiter, DELIMITER, FRAME_CAPACITY};
use cipher_echo::ProtocolError;

#[test]
fn frame_is_lowercase_key_delimiter_message() {
    assert_eq!(encode_frame(b"abc", b"hello"), Ok(b"abc|hello".to_vec()));
    assert_eq!(encode_frame(b"AbC", b"Hello"), Ok(b"abc|Hello".to_vec()));
    assert_eq!(encode_frame(b"k", b""), Ok(b"k|".to_vec()));
    assert_eq!(DELIMITER, b'|');
    assert_eq!(FRAME_CAPACITY, 1024);
}

#[test]
fn frame_of_exactly_the_capacity_fits() {
    let message = vec![b'm'; 1020];
    let frame = encode_frame(b"abc", &message).unwrap();
    assert_eq!(frame.len(), 1024);
    assert_eq!(&frame[..4], b"abc|");
    assert_eq!(&frame[4..], &message[..]);
}

#[test]
fn frame_beyond_the_capacity_is_too_large() {
    let message = vec![b'm'; 1021];
    assert_eq!(encode_frame(b"abc", &message), Err(ProtocolError::FrameTooLarge));
    let key = vec![b'k'; 1024];
    assert_eq!(encode_frame(&key, b""), Err(ProtocolError::FrameTooLarge));
    let key = vec![b'k'; 1023];
    assert_eq!(encode_frame(&key, b"").map(|f| f.len()), Ok(1024));
    assert_eq!(encode_frame(&key, b"x"), Err(ProtocolError::FrameTooLarge));
}

#[test]
fn decode_splits_at_the_first_delimiter() {
    assert_eq!(decode_frame(b"abc|hello", 9), Ok((b"abc".to_vec(), b"hello".to_vec())));
    assert_eq!(decode_frame(b"a|b|c", 5), Ok((b"a".to_vec(), b"b|c".to_vec())));
    assert_eq!(decode_frame(b"|x", 2), Ok((Vec::new(), b"x".to_vec())));
    assert_eq!(decode_frame(b"abc|", 4), Ok((b"abc".to_vec(), Vec::new())));
    assert_eq!(find_delimiter(b"a|b|c", 5), Some(1));
}

#[test]
fn decode_without_delimiter_is_malformed() {
    assert_eq!(decode_frame(b"abchello", 8), Err(ProtocolError::MalformedFrame));
    assert_eq!(decode_frame(b"", 0), Err(ProtocolError::MalformedFrame));
    assert_eq!(find_delimiter(b"abchello", 8), None);
}

#[test]
fn delimiter_beyond_the_reported_length_does_not_count() {
    assert_eq!(decode_frame(b"abc|hello", 3), Err(ProtocolError::MalformedFrame));
    assert_eq!(decode_frame(b"abc|hello", 4), Ok((b"abc".to_vec(), Vec::new())));
    assert_eq!(decode_frame(b"abc|hello", 6), Ok((b"abc".to_vec(), b"he".to_vec())));
    assert_eq!(find_delimiter(b"abc|hello", 3), None);
}

#[test]
fn stale_bytes_of_a_reused_buffer_are_ignored() {
    let mut buffer = [0u8; 1024];
    buffer[..20].copy_from_slice(b"longerkey|older text");
    buffer[..7].copy_from_slice(b"ab|xyz!");
    assert_eq!(decode_frame(&buffer, 6), Ok((b"ab".to_vec(), b"xyz".to_vec())));
    let zeros = [0u8; 1024];
    assert_eq!(decode_frame(&zeros, 1024), Err(ProtocolError::MalformedFrame));
}

#[test]
fn decode_frame_recovers_what_encode_frame_took() {
    let cases: [(&[u8], &[u8]); 5] = [
        (b"abc", b"hello"),
        (b"KEY", b"with | inside | twice"),
        (b"z", b""),
        (b"MiXeD", b"\x00\xff binary \n"),
        (b"cat", b"|"),
    ];
    for (key, message) in cases {
        let frame = encode_frame(key, message).unwrap();
        let (k, m) = decode_frame(&frame, frame.len()).unwrap();
        assert_eq!(k, key.to_ascii_lowercase());
        assert_eq!(m, message.to_vec());
    }
}

#[test]
fn round_trip_holds_at_the_capacity() {
    let key = vec![b'Q'; 500];
    let message = vec![b'|'; 523];
    let frame = encode_frame(&key, &message).unwrap();
    assert_eq!(frame.len(), 1024);
    assert_eq!(decode_frame(&frame, 1024), Ok((vec![b'q'; 500], message)));
}

#[test]
fn key_with_a_delimiter_does_not_come_back() {
    let frame = encode_frame(b"a|b", b"m").unwrap();
    assert_eq!(decode_frame(&frame, frame.len()), Ok((b"a".to_vec(), b"b|m".to_vec())));
}
