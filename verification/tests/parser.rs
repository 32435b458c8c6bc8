use lsp_ws_proxy::lsp::framed::parser::ErrorKind;
use lsp_ws_proxy::lsp::framed::parser::Needed;
use lsp_ws_proxy::lsp::framed::parser::ParseFailure;
use lsp_ws_proxy::lsp::framed::parser::find_next_message;
use lsp_ws_proxy::lsp::framed::parser::parse_message;
use nom::IResult;
use nom::branch::alt;
use nom::bytes::streaming::is_not;
use nom::bytes::streaming::tag;
use nom::character::streaming::char;
use nom::character::streaming::crlf;
use nom::character::streaming::digit1;
use nom::character::streaming::space0;
use nom::combinator::map_res;
use nom::combinator::opt;
use nom::multi::length_data;
use nom::sequence::delimited;
use nom::sequence::terminated;
use nom::sequence::tuple;

#[test]
fn test_parse_exact() {
    let decoded =
        r#"{"jsonrpc":"2.0","method":"initialize","id":1,"params":{"capabilities":{}}}"#;
    let sample = format!("Content-Length: {}\r\n\r\n{}", decoded.len(), decoded);
    assert_eq!(
        parse_message(sample.as_bytes()),
        Ok(("".as_bytes(), decoded.as_bytes()))
    );
}

#[test]
fn test_optional_content_type() {
    let decoded =
        r#"{"jsonrpc":"2.0","method":"initialize","id":1,"params":{"capabilities":{}}}"#;
    let content_type = "Content-Type: application/vscode-jsonrpc; charset=utf-8".to_string();

    let sample = format!(
        "Content-Length: {}\r\n{}\r\n\r\n{}",
        decoded.len(),
        content_type,
        decoded
    );
    assert_eq!(
        parse_message(sample.as_bytes()),
        Ok(("".as_bytes(), decoded.as_bytes()))
    );
}

#[test]
fn test_incomplete_error_with_size() {
    let decoded =
        r#"{"jsonrpc":"2.0","method":"initialize","id":1,"params":{"capabilities":{}}}"#;

    let sample = format!("Content-Length: {}\r\n\r\n", decoded.len());
    assert_eq!(
        parse_message(sample.as_bytes()),
        Err(ParseFailure::Incomplete(Needed::Size(decoded.len())))
    );

    assert_eq!(
        parse_message((sample + "{").as_bytes()),
        Err(ParseFailure::Incomplete(Needed::Size(decoded.len())))
    );
}


fn with_combinators(input: &[u8]) -> IResult<&[u8], &[u8]> {
    let content_len = delimited(tag("Content-Length: "), digit1, crlf);
    let utf8 = alt((tag("utf-8"), tag("utf8")));
    let charset = tuple((char(';'), space0, tag("charset="), utf8));
    let content_type = tuple((tag("Content-Type: "), is_not(";\r"), opt(charset), crlf));
    let header = terminated(terminated(content_len, opt(content_type)), crlf);
    let header = map_res(header, |s: &[u8]| std::str::from_utf8(s));
    let length = map_res(header, |s: &str| s.parse::<usize>());
    let mut message = length_data(length);
    message(input)
}

fn kind(code: nom::error::ErrorKind) -> ErrorKind {
    match code {
        nom::error::ErrorKind::Tag => ErrorKind::Header,
        nom::error::ErrorKind::Digit => ErrorKind::Digits,
        nom::error::ErrorKind::CrLf => ErrorKind::LineEnd,
        nom::error::ErrorKind::MapRes => ErrorKind::TooLarge,
        other => panic!("unexpected {:?}", other),
    }
}

#[test]
fn parser_reads_what_the_combinators_read() {
    let samples: Vec<&[u8]> = vec![
        b"",
        b"C",
        b"Content-Length: ",
        b"Content-Length: 12",
        b"Content-Length: 12\r",
        b"Content-Length: 12\r\n",
        b"Content-Length: 12\r\n\r",
        b"Content-Length: 2\r\n\r\nab",
        b"Content-Length: 2\r\n\r\nabcd",
        b"Content-Length: 0\r\n\r\n",
        b"Content-Length: 002\r\n\r\nab",
        b"Content-Length: x\r\n\r\nab",
        b"Content-Length: 2x\r\n\r\nab",
        b"Content-Length: 2\n\r\nab",
        b"Content-Length: 99999999999999999999999\r\n\r\nab",
        b"Content-Length:2\r\n\r\nab",
        b"content-length: 2\r\n\r\nab",
        b"Content-Length: 2\r\nContent-Type: a\r\n\r\nab",
        b"Content-Length: 2\r\nContent-Type: a",
        b"Content-Length: 2\r\nContent-Type: a;",
        b"Content-Length: 2\r\nContent-Type: a; ",
        b"Content-Length: 2\r\nContent-Type: a; charset=utf",
        b"Content-Length: 2\r\nContent-Type: a; charset=utf8\r\n\r\nab",
        b"Content-Length: 2\r\nContent-Type: a; charset=utf-8\r\n\r\nab",
        b"Content-Length: 2\r\nContent-Type: a; charset=utf-16\r\n\r\nab",
        b"Content-Length: 2\r\nContent-Type: a; charset=latin1\r\n\r\nab",
        b"Content-Length: 2\r\nContent-Type: ;charset=utf8\r\n\r\nab",
        b"Content-Length: 2\r\nContent-Type: a;x\r\n\r\nab",
        b"Content-Length: 2\r\nContent-Type: \r\n\r\nab",
        b"Content-Length: 2\r\nContent-Typ",
        b"Content-Length: 2\r\nX-Other: 1\r\n\r\nab",
        b"Content-Length: 2\r\nContent-Type: a\r\nContent-Type: b\r\n\r\nab",
        b"1234567890abcdefghContent-Length: 2\r\n\r\nab",
    ];
    for sample in samples {
        let shown = String::from_utf8_lossy(sample).into_owned();
        match (parse_message(sample), with_combinators(sample)) {
            (Ok(ours), Ok(theirs)) => assert_eq!(ours, theirs, "{:?}", shown),
            (Err(ParseFailure::Incomplete(_)), Err(nom::Err::Incomplete(_))) => {}
            (
                Err(ParseFailure::Error {
                    code: ErrorKind::MediaType | ErrorKind::Charset | ErrorKind::TypeEnd,
                    ..
                }),
                Err(nom::Err::Error(_)),
            ) => {}
            (Err(ParseFailure::Error { at, code }), Err(nom::Err::Error(error))) => {
                assert_eq!(code, kind(error.code), "{:?}", shown);
                if code != ErrorKind::TooLarge {
                    assert_eq!(at, sample.len() - error.input.len(), "{:?}", shown);
                }
            }
            (ours, theirs) => panic!("{:?}: {:?} against {:?}", shown, ours, theirs),
        }
    }
}

#[test]
fn incomplete_header_awaits_the_size_of_the_element() {
    let awaited = |input: &str| match parse_message(input.as_bytes()) {
        Err(ParseFailure::Incomplete(Needed::Size(size))) => size,
        other => panic!("{:?}", other),
    };
    assert_eq!(awaited(""), 16);
    assert_eq!(awaited("Content-"), 16);
    assert_eq!(awaited("Content-Length: "), 1);
    assert_eq!(awaited("Content-Length: 1"), 1);
    assert_eq!(awaited("Content-Length: 1\r"), 2);
    assert_eq!(awaited("Content-Length: 1\r\n"), 14);
    assert_eq!(awaited("Content-Length: 1\r\n\r"), 2);
    assert_eq!(awaited("Content-Length: 1\r\nContent-Type: a"), 1);
    assert_eq!(awaited("Content-Length: 1\r\nContent-Type: a;"), 1);
    assert_eq!(awaited("Content-Length: 1\r\nContent-Type: a;charset="), 5);
    assert_eq!(awaited("Content-Length: 7\r\n\r\nabc"), 7);
}

#[test]
fn errors_name_the_element_and_the_place() {
    assert_eq!(
        parse_message(b"Content-Length: x"),
        Err(ParseFailure::Error { at: 16, code: ErrorKind::Digits })
    );
    assert_eq!(
        parse_message(b"Content-Length: 1xx"),
        Err(ParseFailure::Error { at: 17, code: ErrorKind::LineEnd })
    );
    assert_eq!(
        parse_message(b"Xontent-Length: 1\r\n\r\nx"),
        Err(ParseFailure::Error { at: 0, code: ErrorKind::Header })
    );
    assert_eq!(
        parse_message(b"Content-Length: 99999999999999999999999\r\n\r\nx"),
        Err(ParseFailure::Error { at: 43, code: ErrorKind::TooLarge })
    );
    assert_eq!(
        parse_message(b"Content-Length: 1\r\nX-Other: 1\r\n\r\nx"),
        Err(ParseFailure::Error { at: 19, code: ErrorKind::LineEnd })
    );
}

#[test]
fn media_type_that_is_not_allowed_is_an_error() {
    let failure = |input: &str| match parse_message(input.as_bytes()) {
        Err(ParseFailure::Error { at, code }) => (at, code),
        other => panic!("{:?}", other),
    };
    let head = "Content-Length: 1\r\nContent-Type: ";
    assert_eq!(failure(&format!("{}\r\n\r\nx", head)), (33, ErrorKind::MediaType));
    assert_eq!(failure(&format!("{};charset=utf8\r\n\r\nx", head)), (33, ErrorKind::MediaType));
    assert_eq!(failure(&format!("{}a;x\r\n\r\nx", head)), (35, ErrorKind::Charset));
    assert_eq!(failure(&format!("{}a; charset=latin1\r\n\r\nx", head)), (44, ErrorKind::Charset));
    assert_eq!(failure(&format!("{}a; charset=utf-16\r\n\r\nx", head)), (44, ErrorKind::Charset));
    assert_eq!(failure(&format!("{}a; charset=utf-8x\r\n\r\nx", head)), (49, ErrorKind::TypeEnd));
    assert_eq!(failure(&format!("{}a\rx", head)), (34, ErrorKind::TypeEnd));
}

#[test]
fn next_message_is_found() {
    assert_eq!(find_next_message(b"abcContent-Length: 1"), Some(3));
    assert_eq!(find_next_message(b"Content-Length: "), Some(0));
    assert_eq!(find_next_message(b"Content-Length:"), None);
    assert_eq!(find_next_message(b"xxContent-LengthContent-Length: Content-Length: "), Some(16));
    assert_eq!(find_next_message(b""), None);
}
