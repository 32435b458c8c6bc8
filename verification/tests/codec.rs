use bytes::BytesMut;
use lsp_ws_proxy::lsp::framed::codec::number_of_digits;
use lsp_ws_proxy::lsp::framed::codec::CodecError;
use lsp_ws_proxy::lsp::framed::codec::LspFrameCodec;

#[test]
fn encode_and_decode() {
    let decoded = r#"{"jsonrpc":"2.0","method":"exit"}"#.to_string();
    let encoded = format!("Content-Length: {}\r\n\r\n{}", decoded.len(), decoded);

    let mut codec = LspFrameCodec::default();
    let mut buffer = BytesMut::new();
    codec.encode(decoded.clone(), &mut buffer).unwrap();
    assert_eq!(buffer, BytesMut::from(encoded.as_str()));

    let mut buffer = BytesMut::from(encoded.as_str());
    let message = codec.decode(&mut buffer).unwrap();
    assert_eq!(message, Some(decoded));
}

#[test]
fn skips_encoding_empty_message() {
    let mut codec = LspFrameCodec::default();
    let mut buffer = BytesMut::new();
    codec.encode("".to_string(), &mut buffer).unwrap();
    assert_eq!(buffer, BytesMut::new());
}

#[test]
fn decodes_optional_content_type() {
    let decoded = r#"{"jsonrpc":"2.0","method":"exit"}"#.to_string();
    let content_len = format!("Content-Length: {}", decoded.len());
    let content_type = "Content-Type: application/vscode-jsonrpc; charset=utf-8".to_string();
    let encoded = format!("{}\r\n{}\r\n\r\n{}", content_len, content_type, decoded);

    let mut codec = LspFrameCodec::default();
    let mut buffer = BytesMut::from(encoded.as_str());
    let message = codec.decode(&mut buffer).unwrap();
    assert_eq!(message, Some(decoded));
}

#[test]
fn recovers_from_parse_error() {
    let decoded = r#"{"jsonrpc":"2.0","method":"exit"}"#.to_string();
    let encoded = format!("Content-Length: {}\r\n\r\n{}", decoded.len(), decoded);
    let mixed = format!("1234567890abcdefgh{}", encoded);

    let mut codec = LspFrameCodec::default();
    let mut buffer = BytesMut::from(mixed.as_str());

    match codec.decode(&mut buffer) {
        Err(CodecError::MissingHeader) => {}
        other => panic!("expected `Err(ParseError::MissingHeader)`, got {:?}", other),
    }

    let message = codec.decode(&mut buffer).unwrap();
    assert_eq!(message, Some(decoded));
}

fn frame(payload: &str) -> String {
    format!("Content-Length: {}\r\n\r\n{}", payload.len(), payload)
}

#[test]
fn frame_in_two_parts_is_read_once() {
    let decoded = r#"{"jsonrpc":"2.0","method":"exit"}"#.to_string();
    let encoded = frame(&decoded);
    for split in 0..encoded.len() {
        let mut codec = LspFrameCodec::default();
        let mut buffer = BytesMut::from(&encoded.as_bytes()[..split]);
        assert_eq!(codec.decode(&mut buffer).unwrap(), None, "split at {}", split);
        assert_eq!(&buffer[..], &encoded.as_bytes()[..split]);
        buffer.extend_from_slice(&encoded.as_bytes()[split..]);
        assert_eq!(codec.decode(&mut buffer).unwrap(), Some(decoded.clone()));
        assert!(buffer.is_empty());
        assert_eq!(codec.decode(&mut buffer).unwrap(), None);
    }
}

#[test]
fn frames_are_read_one_after_the_other() {
    let mut codec = LspFrameCodec::new();
    let mut buffer = BytesMut::new();
    codec.encode("first".to_string(), &mut buffer).unwrap();
    codec.encode("zweites: ä€".to_string(), &mut buffer).unwrap();
    assert_eq!(
        &buffer[..],
        "Content-Length: 5\r\n\r\nfirstContent-Length: 14\r\n\r\nzweites: ä€".as_bytes()
    );
    assert_eq!(codec.decode(&mut buffer).unwrap(), Some("first".to_string()));
    assert_eq!(codec.decode(&mut buffer).unwrap(), Some("zweites: ä€".to_string()));
    assert_eq!(codec.decode(&mut buffer).unwrap(), None);
}

#[test]
fn empty_frame_is_skipped() {
    let mut codec = LspFrameCodec::default();
    let mut buffer = BytesMut::from("Content-Length: 0\r\n\r\nContent-Length: 1\r\n\r\nx");
    assert_eq!(codec.decode(&mut buffer).unwrap(), None);
    assert_eq!(&buffer[..], b"Content-Length: 1\r\n\r\nx");
    assert_eq!(codec.decode(&mut buffer).unwrap(), Some("x".to_string()));
}

#[test]
fn length_that_is_no_number_is_invalid() {
    let mut codec = LspFrameCodec::default();
    let mut buffer = BytesMut::from("Content-Length: abc\r\n\r\nContent-Length: 1\r\n\r\nx");
    assert!(matches!(codec.decode(&mut buffer), Err(CodecError::InvalidLength)));
    assert_eq!(&buffer[..], b"Content-Length: 1\r\n\r\nx");
    assert_eq!(codec.decode(&mut buffer).unwrap(), Some("x".to_string()));
}

#[test]
fn length_that_is_too_large_is_invalid() {
    let mut codec = LspFrameCodec::default();
    let mut buffer = BytesMut::from("Content-Length: 99999999999999999999999999\r\n\r\nx");
    assert!(matches!(codec.decode(&mut buffer), Err(CodecError::InvalidLength)));
    assert!(buffer.is_empty());
}

#[test]
fn other_charset_is_an_error() {
    let mut codec = LspFrameCodec::default();
    let mut buffer = BytesMut::from(
        "Content-Length: 1\r\nContent-Type: text/plain; charset=latin1\r\n\r\nx",
    );
    assert!(matches!(codec.decode(&mut buffer), Err(CodecError::InvalidType)));
    assert!(buffer.is_empty());
}

#[test]
fn media_type_that_is_missing_is_an_error_and_the_next_frame_is_read() {
    let mut codec = LspFrameCodec::default();
    let mut buffer =
        BytesMut::from("Content-Length: 1\r\nContent-Type: \r\n\r\nxContent-Length: 1\r\n\r\ny");
    assert!(matches!(codec.decode(&mut buffer), Err(CodecError::InvalidType)));
    assert_eq!(codec.decode(&mut buffer).unwrap(), Some("y".to_string()));
}

#[test]
fn unknown_header_is_an_error() {
    let mut codec = LspFrameCodec::default();
    let mut buffer = BytesMut::from("Content-Length: 1\r\nX-Other: 1\r\n\r\nx");
    assert!(matches!(codec.decode(&mut buffer), Err(CodecError::MissingHeader)));
}

#[test]
fn content_type_without_charset_and_utf8_are_read() {
    for header in [
        "Content-Type: application/vscode-jsonrpc",
        "Content-Type: application/vscode-jsonrpc;charset=utf8",
        "Content-Type: application/vscode-jsonrpc; \t charset=utf-8",
    ] {
        let mut codec = LspFrameCodec::default();
        let mut buffer = BytesMut::from(format!("Content-Length: 2\r\n{}\r\n\r\nok", header).as_str());
        assert_eq!(codec.decode(&mut buffer).unwrap(), Some("ok".to_string()), "{}", header);
    }
}

#[test]
fn payload_that_is_not_utf8_is_an_error_and_is_dropped() {
    let mut codec = LspFrameCodec::default();
    let mut buffer = BytesMut::from(&b"Content-Length: 2\r\n\r\n\xff\xfeContent-Length: 1\r\n\r\nx"[..]);
    assert!(matches!(codec.decode(&mut buffer), Err(CodecError::Utf8(_))));
    assert_eq!(&buffer[..], b"Content-Length: 1\r\n\r\nx");
    assert_eq!(codec.decode(&mut buffer).unwrap(), Some("x".to_string()));
}

#[test]
fn garbage_without_a_frame_is_dropped() {
    let mut codec = LspFrameCodec::default();
    let mut buffer = BytesMut::from("this is no frame at all");
    assert!(matches!(codec.decode(&mut buffer), Err(CodecError::MissingHeader)));
    assert!(buffer.is_empty());
}

#[test]
fn errors_are_described() {
    assert_eq!(
        CodecError::MissingHeader.description(),
        "missing required `Content-Length` header"
    );
    assert_eq!(CodecError::InvalidLength.description(), "unable to parse content length");
    assert_eq!(CodecError::InvalidType.description(), "unable to parse content type");
    let error = std::io::Error::new(std::io::ErrorKind::Other, "broken");
    assert_eq!(CodecError::Encode(error).description(), "failed to encode frame: broken");
    let error = std::str::from_utf8(b"\xff").unwrap_err();
    assert_eq!(
        CodecError::Utf8(error).description(),
        format!("frame contains invalid UTF8: {}", error)
    );
}

#[test]
fn digits_are_counted() {
    assert_eq!(number_of_digits(0), 0);
    assert_eq!(number_of_digits(9), 1);
    assert_eq!(number_of_digits(10), 2);
    assert_eq!(number_of_digits(12345), 5);
    assert_eq!(number_of_digits(usize::MAX), usize::MAX.to_string().len());
}
