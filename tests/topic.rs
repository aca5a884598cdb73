use station_api::error::Error;
use station_api::topic::{decode_header, decode_response, encode_request, frame_query, Response};

#[test]
fn status_query_frame_is_exact() {
    let frame = encode_request("?status");
    let mut expected = vec![0x00, 0x83, 0x00, 13, 0x00, 0x00, 0x00, 0x00, 0x00];
    expected.extend_from_slice(b"?status");
    expected.push(0x00);
    assert_eq!(frame, expected);
}

#[test]
fn length_byte_is_length_plus_six_up_to_249() {
    for k in [0usize, 1, 100, 249] {
        let query = "a".repeat(k);
        let frame = encode_request(&query);
        assert_eq!(frame.len(), k + 10);
        assert_eq!(frame[3] as usize, k + 6);
        assert_eq!(&frame[9..frame.len() - 1], query.as_bytes());
    }
}

#[test]
fn length_byte_wraps_above_249() {
    assert_eq!(encode_request(&"a".repeat(250))[3], 0);
    assert_eq!(encode_request(&"a".repeat(251))[3], 1);
    assert_eq!(encode_request(&"a".repeat(300))[3], 50);
}

#[test]
fn header_is_big_endian() {
    let h = decode_header([0x00, 0x06, 0x01, 0x02]);
    assert_eq!(h.kind, 6);
    assert_eq!(h.size, 258);
    let h = decode_header([0xFF, 0xFF, 0xFF, 0xFF]);
    assert_eq!(h.kind, 0xFFFF);
    assert_eq!(h.size, 0xFFFF);
}

#[test]
fn text_payload_drops_first_and_last_byte() {
    assert_eq!(
        decode_response(&[0x06, b'h', b'i', 0x00]),
        Ok(Response::String("hi".to_string()))
    );
}

#[test]
fn text_payload_replaces_invalid_utf8() {
    assert_eq!(
        decode_response(&[0x06, 0xFF, b'a', 0x00]),
        Ok(Response::String("\u{FFFD}a".to_string()))
    );
}

#[test]
fn payload_of_two_bytes_or_fewer_is_invalid() {
    assert_eq!(decode_response(&[0x00]), Err(Error::InvalidResponse));
    assert_eq!(decode_response(&[]), Err(Error::InvalidResponse));
    assert_eq!(decode_response(&[0x06, b'a']), Err(Error::InvalidResponse));
}

#[test]
fn null_payload_of_three_bytes() {
    assert_eq!(decode_response(&[0x00, 0x00, 0x00]), Ok(Response::Null));
}

#[test]
fn float_payload_is_big_endian_bits() {
    let r = decode_response(&[0x2A, 0x3F, 0x80, 0x00, 0x00]);
    assert_eq!(r, Ok(Response::Float(0x3F80_0000)));
    if let Ok(Response::Float(bits)) = r {
        assert_eq!(f32::from_bits(bits), 1.0);
    }
}

#[test]
fn short_float_payload_is_invalid() {
    assert_eq!(decode_response(&[0x2A, 0x3F, 0x80]), Err(Error::InvalidResponse));
    assert_eq!(decode_response(&[0x2A, 0x3F, 0x80, 0x00]), Err(Error::InvalidResponse));
}

#[test]
fn unknown_tag_is_invalid() {
    assert_eq!(decode_response(&[0x07, 0x00, 0x00]), Err(Error::InvalidResponse));
}

#[test]
fn over_long_query_is_refused() {
    assert_eq!(frame_query(&"a".repeat(249)).map(|f| f[3]), Ok(255));
    assert_eq!(frame_query("?status"), Ok(encode_request("?status")));
    assert_eq!(frame_query(&"a".repeat(250)), Err(Error::QueryTooLong));
}
