use chat_relay::codec::{
    decode, decode_frame, encode, encode_frame, payload_length, payload_text, FrameDecoder,
    HEADER_LEN, MAX_FRAME_LEN,
};
use chat_relay::error::RelayError;

#[test]
fn frame_is_length_then_payload() {
    assert_eq!(encode_frame(b"hi"), vec![0, 0, 0, 2, b'h', b'i']);
}

#[test]
fn empty_payload_gives_bare_header() {
    assert_eq!(encode_frame(b""), vec![0, 0, 0, 0]);
    assert_eq!(decode_frame(&[0, 0, 0, 0]), Ok(vec![]));
}

#[test]
fn length_prefix_is_big_endian() {
    let payload = vec![7u8; 0x0102_03];
    let frame = encode_frame(&payload);
    assert_eq!(&frame[..4], &[0x00, 0x01, 0x02, 0x03]);
    assert_eq!(frame.len(), HEADER_LEN + payload.len());
    assert_eq!(&frame[4..], &payload[..]);
}

#[test]
fn header_of_limit_is_accepted() {
    // 10_000_000 = 0x00989680
    assert_eq!(payload_length(&[0x00, 0x98, 0x96, 0x80]), Ok(10_000_000));
    assert_eq!(MAX_FRAME_LEN, 10_000_000);
}

#[test]
fn header_above_limit_is_refused() {
    // 10_000_001 = 0x00989681
    assert_eq!(
        payload_length(&[0x00, 0x98, 0x96, 0x81]),
        Err(RelayError::FrameTooLarge(10_000_001))
    );
    assert_eq!(
        payload_length(&[0xff, 0xff, 0xff, 0xff]),
        Err(RelayError::FrameTooLarge(u32::MAX))
    );
}

#[test]
fn oversized_frame_is_refused_without_its_payload() {
    // Only the header is there: the verdict does not wait for the payload.
    assert_eq!(
        decode_frame(&[0x00, 0x98, 0x96, 0x81]),
        Err(RelayError::FrameTooLarge(10_000_001))
    );
    // Nor does a payload that follows change it.
    assert_eq!(
        decode_frame(&[0x7f, 0x00, 0x00, 0x00, 1, 2, 3]),
        Err(RelayError::FrameTooLarge(0x7f00_0000))
    );
}

#[test]
fn short_header_is_a_closed_connection() {
    assert_eq!(decode_frame(&[]), Err(RelayError::ConnectionClosed));
    assert_eq!(decode_frame(&[0, 0, 0]), Err(RelayError::ConnectionClosed));
}

#[test]
fn short_payload_is_a_closed_connection() {
    assert_eq!(decode_frame(&[0, 0, 0, 3, b'a', b'b']), Err(RelayError::ConnectionClosed));
}

#[test]
fn decoding_takes_one_frame_and_leaves_the_rest() {
    let mut stream = encode_frame(b"one");
    stream.extend_from_slice(&encode_frame(b"three"));
    assert_eq!(decode_frame(&stream), Ok(b"one".to_vec()));
    assert_eq!(decode_frame(&stream[HEADER_LEN + 3..]), Ok(b"three".to_vec()));
}

#[test]
fn bytes_round_trip() {
    let payloads: Vec<Vec<u8>> = vec![vec![], vec![0], vec![255; 300], (0..=255).collect()];
    for payload in payloads {
        assert_eq!(decode_frame(&encode_frame(&payload)), Ok(payload));
    }
}

#[test]
fn text_round_trip() {
    for text in ["", "hi", "{\"message\":\"gr\u{fc}\u{df}e \u{1F535}\"}", "line\nbreak"] {
        assert_eq!(decode(&encode(text)), Ok(text.to_string()));
    }
}

#[test]
fn text_frame_counts_bytes_not_characters() {
    // One character, four bytes of UTF-8.
    assert_eq!(encode("\u{1F535}"), vec![0, 0, 0, 4, 0xf0, 0x9f, 0x94, 0xb5]);
}

#[test]
fn payload_that_is_not_utf8_is_malformed() {
    assert_eq!(payload_text(&[0xff, 0xfe]), Err(RelayError::MalformedFrame));
    assert_eq!(payload_text(&[0xc3]), Err(RelayError::MalformedFrame));
    assert_eq!(decode(&[0, 0, 0, 2, 0xc3, 0x28]), Err(RelayError::MalformedFrame));
}

#[test]
fn ill_formed_utf8_is_malformed() {
    // An overlong encoding, a surrogate, a value beyond the last scalar, a
    // continuation byte on its own, and a sequence that is cut short.
    let ill_formed: [&[u8]; 5] = [
        &[0xc0, 0x80],
        &[0xed, 0xa0, 0x80],
        &[0xf4, 0x90, 0x80, 0x80],
        &[0x80],
        &[0xe2, 0x82],
    ];
    for bytes in ill_formed {
        assert_eq!(payload_text(bytes), Err(RelayError::MalformedFrame));
    }
}

#[test]
fn payload_that_is_utf8_is_read_as_text() {
    assert_eq!(payload_text(&[]), Ok(String::new()));
    assert_eq!(payload_text(&[0xf4, 0x8f, 0xbf, 0xbf]), Ok("\u{10FFFF}".to_string()));
    assert_eq!(payload_text(&[0xe2, 0x82, 0xac]), Ok("\u{20AC}".to_string()));
    assert_eq!(payload_text(&[0xc3, 0xa9]), Ok("\u{e9}".to_string()));
    assert_eq!(payload_text(b"plain"), Ok("plain".to_string()));
}

#[test]
fn frame_at_the_limit_round_trips() {
    let payload = vec![b'x'; MAX_FRAME_LEN as usize];
    let frame = encode_frame(&payload);
    assert_eq!(&frame[..4], &[0x00, 0x98, 0x96, 0x80]);
    assert_eq!(decode_frame(&frame), Ok(payload));
}

#[test]
fn frame_above_the_limit_does_not_round_trip() {
    let payload = vec![b'x'; MAX_FRAME_LEN as usize + 1];
    assert_eq!(
        decode_frame(&encode_frame(&payload)),
        Err(RelayError::FrameTooLarge(MAX_FRAME_LEN + 1))
    );
}

#[test]
fn decoder_reads_header_then_payload() {
    let mut decoder = FrameDecoder::new();
    assert_eq!(decoder.wanted(), 4);
    assert_eq!(decoder.accept(Some(&[0, 0, 0, 2])), None);
    assert_eq!(decoder.wanted(), 2);
    assert_eq!(decoder.accept(Some(b"hi")), Some(Ok("hi".to_string())));
    // Ready for the next frame.
    assert_eq!(decoder.wanted(), 4);
    assert_eq!(decoder.accept(Some(&[0, 0, 0, 0])), None);
    assert_eq!(decoder.wanted(), 0);
    assert_eq!(decoder.accept(Some(b"")), Some(Ok(String::new())));
}

#[test]
fn decoder_refuses_an_oversized_frame_before_asking_for_its_payload() {
    let mut decoder = FrameDecoder::new();
    assert_eq!(
        decoder.accept(Some(&[0x00, 0x98, 0x96, 0x81])),
        Some(Err(RelayError::FrameTooLarge(10_000_001)))
    );
    // Nothing of that frame is asked for: the decoder waits for a header.
    assert_eq!(decoder.wanted(), 4);
}

#[test]
fn decoder_asks_for_the_largest_frame_and_no_more() {
    let mut decoder = FrameDecoder::new();
    assert_eq!(decoder.accept(Some(&[0x00, 0x98, 0x96, 0x80])), None);
    assert_eq!(decoder.wanted(), 10_000_000);
}

#[test]
fn decoder_takes_a_failed_read_as_a_closed_connection() {
    let mut decoder = FrameDecoder::new();
    assert_eq!(decoder.accept(None), Some(Err(RelayError::ConnectionClosed)));
    assert_eq!(decoder.accept(Some(&[0, 0, 0, 5])), None);
    assert_eq!(decoder.accept(None), Some(Err(RelayError::ConnectionClosed)));
    assert_eq!(decoder.wanted(), 4);
}

#[test]
fn decoder_takes_a_chunk_of_the_wrong_length_as_a_closed_connection() {
    let mut decoder = FrameDecoder::new();
    assert_eq!(decoder.accept(Some(&[0, 0, 0])), Some(Err(RelayError::ConnectionClosed)));
    assert_eq!(decoder.accept(Some(&[0, 0, 0, 5])), None);
    assert_eq!(decoder.accept(Some(b"four")), Some(Err(RelayError::ConnectionClosed)));
}

#[test]
fn decoder_reports_a_malformed_payload() {
    let mut decoder = FrameDecoder::new();
    assert_eq!(decoder.accept(Some(&[0, 0, 0, 2])), None);
    assert_eq!(decoder.accept(Some(&[0xc3, 0x28])), Some(Err(RelayError::MalformedFrame)));
}

#[test]
fn decoder_agrees_with_decoding_at_once() {
    for text in ["", "a", "{\"k\":1}", "\u{1F7E2} started"] {
        let stream = encode(text);
        let mut decoder = FrameDecoder::new();
        assert_eq!(decoder.accept(Some(&stream[..4])), None);
        assert_eq!(decoder.wanted(), stream.len() - 4);
        assert_eq!(decoder.accept(Some(&stream[4..])), Some(decode(&stream)));
    }
}
