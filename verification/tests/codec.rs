use signal_bridge::codec::{Codec, MalformedFrame, DELIMITER};
use tokio_util::bytes::BytesMut;

#[test]
fn decode_yields_nothing_until_the_delimiter_arrives() {
    let mut codec = Codec;
    let mut buf = BytesMut::new();
    assert_eq!(codec.decode(&mut buf), Ok(None));
    buf.extend_from_slice(b"hel");
    assert_eq!(codec.decode(&mut buf), Ok(None));
    assert_eq!(&buf[..], b"hel");
    buf.extend_from_slice(b"lo");
    assert_eq!(codec.decode(&mut buf), Ok(None));
    assert_eq!(&buf[..], b"hello");
    buf.extend_from_slice(b"\n");
    assert_eq!(codec.decode(&mut buf), Ok(Some(String::from("hello"))));
    assert!(buf.is_empty());
    assert_eq!(codec.decode(&mut buf), Ok(None));
}

#[test]
fn decode_byte_by_byte_yields_exactly_one_frame() {
    let mut codec = Codec;
    let mut buf = BytesMut::new();
    let payload = "{\"jsonrpc\":\"2.0\",\"method\":\"receive\"}";
    let mut frames = Vec::new();
    for byte in payload.as_bytes() {
        buf.extend_from_slice(&[*byte]);
        if let Some(frame) = codec.decode(&mut buf).unwrap() {
            frames.push(frame);
        }
    }
    assert!(frames.is_empty());
    buf.extend_from_slice(&[DELIMITER]);
    while let Some(frame) = codec.decode(&mut buf).unwrap() {
        frames.push(frame);
    }
    assert_eq!(frames, vec![String::from(payload)]);
}

#[test]
fn decode_takes_frames_one_at_a_time() {
    let mut codec = Codec;
    let mut buf = BytesMut::from(&b"first\nsecond\nthi"[..]);
    assert_eq!(codec.decode(&mut buf), Ok(Some(String::from("first"))));
    assert_eq!(&buf[..], b"second\nthi");
    assert_eq!(codec.decode(&mut buf), Ok(Some(String::from("second"))));
    assert_eq!(&buf[..], b"thi");
    assert_eq!(codec.decode(&mut buf), Ok(None));
    assert_eq!(&buf[..], b"thi");
}

#[test]
fn decode_accepts_an_empty_frame() {
    let mut codec = Codec;
    let mut buf = BytesMut::from(&b"\nrest"[..]);
    assert_eq!(codec.decode(&mut buf), Ok(Some(String::new())));
    assert_eq!(&buf[..], b"rest");
}

#[test]
fn decode_refuses_bytes_that_are_not_utf8() {
    let mut codec = Codec;
    let mut buf = BytesMut::from(&[0x68, 0x69, 0xff, 0xfe, 0x0a, 0x6f, 0x6b, 0x0a][..]);
    assert_eq!(codec.decode(&mut buf), Err(MalformedFrame));
    assert_eq!(&buf[..], b"ok\n");
}

#[test]
fn decode_refuses_a_character_cut_short() {
    let mut codec = Codec;
    // the first two of the three bytes of a euro sign
    let mut buf = BytesMut::from(&[0xe2, 0x82, 0x0a][..]);
    assert_eq!(codec.decode(&mut buf), Err(MalformedFrame));
    assert!(buf.is_empty());
}

#[test]
fn decode_waits_for_the_rest_of_a_character() {
    let mut codec = Codec;
    let mut buf = BytesMut::from(&[0xe2, 0x82][..]);
    assert_eq!(codec.decode(&mut buf), Ok(None));
    buf.extend_from_slice(&[0xac, 0x0a]);
    assert_eq!(codec.decode(&mut buf), Ok(Some(String::from("\u{20ac}"))));
}

#[test]
fn malformed_frame_says_what_is_wrong() {
    assert_eq!(MalformedFrame.message(), "invalid UTF-8");
}

#[test]
fn encode_appends_the_text_and_one_delimiter() {
    let mut codec = Codec;
    let mut buf = BytesMut::new();
    codec.encode(String::from("hi"), &mut buf);
    assert_eq!(&buf[..], b"hi\n");
    codec.encode(String::new(), &mut buf);
    assert_eq!(&buf[..], b"hi\n\n");
    codec.encode(String::from("\u{e9}"), &mut buf);
    assert_eq!(&buf[..], &[0x68, 0x69, 0x0a, 0x0a, 0xc3, 0xa9, 0x0a][..]);
}

#[test]
fn encode_then_decode_gives_the_text_back() {
    let mut codec = Codec;
    let texts = [
        "",
        "plain",
        "{\"jsonrpc\":\"2.0\",\"id\":1,\"result\":{\"timestamp\":1700000000}}",
        "gr\u{fc}\u{df}e \u{20ac} \u{1f600} \u{7f} \u{80} \u{7ff} \u{800} \u{ffff} \u{10000}",
        "tab\tand\rreturn",
    ];
    for text in texts {
        let mut buf = BytesMut::new();
        codec.encode(String::from(text), &mut buf);
        assert_eq!(codec.decode(&mut buf), Ok(Some(String::from(text))));
        assert!(buf.is_empty());
    }
}

#[test]
fn encode_then_decode_keeps_the_order_of_frames() {
    let mut codec = Codec;
    let mut buf = BytesMut::new();
    codec.encode(String::from("one"), &mut buf);
    codec.encode(String::from("two"), &mut buf);
    assert_eq!(codec.decode(&mut buf), Ok(Some(String::from("one"))));
    assert_eq!(codec.decode(&mut buf), Ok(Some(String::from("two"))));
    assert_eq!(codec.decode(&mut buf), Ok(None));
}

#[test]
fn encode_does_not_escape_a_line_feed() {
    let mut codec = Codec;
    let mut buf = BytesMut::new();
    codec.encode(String::from("a\nb"), &mut buf);
    assert_eq!(&buf[..], b"a\nb\n");
    assert_eq!(codec.decode(&mut buf), Ok(Some(String::from("a"))));
    assert_eq!(codec.decode(&mut buf), Ok(Some(String::from("b"))));
}

#[test]
fn delimiter_is_the_line_feed() {
    assert_eq!(DELIMITER, b'\n');
}
