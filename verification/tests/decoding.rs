use bridge_call::buffer::marshal;
use bridge_call::decode::decode;
use bridge_call::error::Error;

#[test]
fn decode_reads_the_text_before_the_sentinel() {
    assert_eq!(decode(b"GET:/x:y\0").unwrap(), "GET:/x:y");
}

#[test]
fn decode_stops_at_the_first_sentinel() {
    assert_eq!(decode(b"hi\0rest\0").unwrap(), "hi");
}

#[test]
fn decode_ignores_invalid_bytes_behind_the_sentinel() {
    assert_eq!(decode(&[b'o', b'k', 0, 0xff, 0xfe]).unwrap(), "ok");
}

#[test]
fn decode_of_the_sentinel_alone_is_the_empty_text() {
    assert_eq!(decode(&[0]).unwrap(), "");
}

#[test]
fn decode_reads_text_beyond_ascii() {
    let bytes = [0x63, 0x61, 0x66, 0xc3, 0xa9, 0x20, 0xe2, 0x9c, 0x93, 0x20, 0xf0, 0x9f, 0x98, 0x80, 0x00];
    assert_eq!(decode(&bytes).unwrap(), "caf\u{e9} \u{2713} \u{1f600}");
}

#[test]
fn decode_rejects_a_buffer_without_sentinel() {
    assert_eq!(decode(b"abc").unwrap_err(), Error::Encoding);
}

#[test]
fn decode_rejects_an_empty_buffer() {
    assert_eq!(decode(&[]).unwrap_err(), Error::Encoding);
}

#[test]
fn decode_rejects_a_byte_that_is_no_utf8() {
    assert_eq!(decode(&[b'a', 0xff, b'b', 0]).unwrap_err(), Error::Encoding);
}

#[test]
fn decode_rejects_a_sequence_cut_short_by_the_sentinel() {
    assert_eq!(decode(&[0xe2, 0x9c, 0]).unwrap_err(), Error::Encoding);
}

#[test]
fn decode_rejects_a_lone_continuation_byte() {
    assert_eq!(decode(&[0x80, 0]).unwrap_err(), Error::Encoding);
}

#[test]
fn decode_rejects_an_overlong_encoding() {
    assert_eq!(decode(&[0xc1, 0x81, 0]).unwrap_err(), Error::Encoding);
}

#[test]
fn decode_rejects_an_encoded_surrogate() {
    assert_eq!(decode(&[0xed, 0xa0, 0x80, 0]).unwrap_err(), Error::Encoding);
}

#[test]
fn decode_rejects_a_scalar_beyond_the_last() {
    assert_eq!(decode(&[0xf4, 0x90, 0x80, 0x80, 0]).unwrap_err(), Error::Encoding);
}

#[test]
fn round_trip_gives_the_text_back() {
    let texts = [
        "",
        "y",
        "GET",
        "/x",
        "{}",
        "{\"endpoint\": \"10.0.0.1:11010\", \"keepalive\": 25}",
        "line one\nline two\r\n\ttabbed",
        "caf\u{e9} \u{2713} \u{1f600}",
        "\u{1}\u{7f}\u{80}\u{7ff}\u{800}\u{d7ff}\u{e000}\u{ffff}\u{10000}\u{10ffff}",
    ];
    for text in texts {
        let buffer = marshal(text).unwrap();
        assert_eq!(decode(buffer.as_bytes()).unwrap(), text);
    }
}

#[test]
fn round_trip_of_a_long_text() {
    let text = "0123456789abcdef".repeat(4096);
    let buffer = marshal(&text).unwrap();
    assert_eq!(buffer.as_bytes().len(), 65537);
    assert_eq!(decode(buffer.as_bytes()).unwrap(), text);
}
