//! The codec of the framed transport: it writes a payload as a frame at the
//! end of a byte buffer, and reads the frames that stand at the start of one.
use bytes::Buf;
use bytes::BytesMut;
use std::io::Error as IoError;
use std::ops::Deref;
use std::str::Utf8Error;
use vstd::prelude::*;
use vstd::string::StringSliceAdditionalSpecFns;
use vstd::utf8::decode_utf8;
use vstd::utf8::encode_utf8;
use vstd::utf8::valid_utf8;

use super::parser::accepts;
use super::parser::decimal_value;
use super::parser::declared_length;
use super::parser::find_next_message;
use super::parser::header;
use super::parser::lemma_span_end_is;
use super::parser::literal;
use super::parser::content_type;
use super::parser::span1;
use super::parser::starts_frame;
use super::parser::type_tag;
use super::parser::ByteClass;
use super::parser::Scan;
use super::parser::frame;
use super::parser::length_tag;
use super::parser::line_end;
use super::parser::next_message;
use super::parser::parse_message;
use super::parser::ErrorKind;
use super::parser::Needed;
use super::parser::ParseFailure;
use super::parser::Parsed;

verus! {

broadcast use vstd::string::is_ascii_spec_bytes;

/// `bytes::BytesMut`, the byte buffer that the codec reads from and writes
/// to. Nothing is known of a buffer but what `contents` names.
#[verifier::external_type_specification]
#[verifier::external_body]
pub struct ExBytesMut(bytes::BytesMut);

/// `std::io::Error`, carried through as it is.
#[verifier::external_type_specification]
#[verifier::external_body]
pub struct ExIoError(std::io::Error);

/// `std::str::Utf8Error`, carried through as it is.
#[verifier::external_type_specification]
#[verifier::external_body]
pub struct ExUtf8Error(std::str::Utf8Error);

/// The bytes that a buffer holds, first to last.
pub uninterp spec fn contents(buffer: BytesMut) -> Seq<u8>;

/// `BytesMut::len` is the number of bytes that the buffer holds.
pub assume_specification[ bytes::BytesMut::len ](buffer: &BytesMut) -> (len: usize)
    ensures
        len == contents(*buffer).len(),
;

/// Through `Deref` a `BytesMut` is read as the slice of the bytes that it
/// holds.
pub assume_specification[ <bytes::BytesMut as Deref>::deref ](buffer: &BytesMut) -> (bytes: &[u8])
    ensures
        bytes@ == contents(*buffer),
;

/// `Buf::advance` drops the first `cnt` bytes of the buffer. It panics where
/// the buffer holds fewer.
pub assume_specification[ <bytes::BytesMut as Buf>::advance ](buffer: &mut BytesMut, cnt: usize)
    requires
        cnt <= contents(*old(buffer)).len(),
    ensures
        contents(*final(buffer)) == contents(*old(buffer)).skip(cnt as int),
;

/// `BytesMut::reserve` makes room and leaves the bytes of the buffer as they
/// are. It panics where the capacity asked for overflows, so only sizes
/// that memory could hold are admitted; that memory may still run out is not
/// modelled, as it is not for `Vec`.
pub assume_specification[ bytes::BytesMut::reserve ](buffer: &mut BytesMut, additional: usize)
    requires
        contents(*old(buffer)).len() + additional <= isize::MAX,
    ensures
        contents(*final(buffer)) == contents(*old(buffer)),
;

/// `BytesMut::extend_from_slice` appends the bytes of the slice, making room
/// as `reserve` does.
pub assume_specification[ bytes::BytesMut::extend_from_slice ](
    buffer: &mut BytesMut,
    extend: &[u8],
)
    requires
        contents(*old(buffer)).len() + extend@.len() <= isize::MAX,
    ensures
        contents(*final(buffer)) == contents(*old(buffer)) + extend@,
;

/// `std::str::from_utf8` reads bytes as text: it succeeds on the bytes that
/// are valid UTF-8, and the text then has exactly these bytes.
#[verifier::external_body]
fn text_of(bytes: &[u8]) -> (result: Result<&str, Utf8Error>)
    ensures
        result is Ok <==> valid_utf8(bytes@),
        result matches Ok(text) ==> text.spec_bytes() == bytes@,
{
    std::str::from_utf8(bytes)
}

/// Errors of the codec.
#[derive(Debug)]
pub enum CodecError {
    /// The frame lacks the required `Content-Length` header.
    MissingHeader,
    /// The length value in the `Content-Length` header is invalid.
    InvalidLength,
    /// The media type in the `Content-Type` header is invalid.
    InvalidType,
    /// Failed to encode the frame.
    Encode(IoError),
    /// The frame contains invalid UTF-8.
    Utf8(Utf8Error),
}

/// The kind of an error of the codec.
pub ghost enum Fault {
    MissingHeader,
    InvalidLength,
    InvalidType,
    Encode,
    Utf8,
}

impl View for CodecError {
    type V = Fault;

    open spec fn view(&self) -> Fault {
        match self {
            CodecError::MissingHeader => Fault::MissingHeader,
            CodecError::InvalidLength => Fault::InvalidLength,
            CodecError::InvalidType => Fault::InvalidType,
            CodecError::Encode(_) => Fault::Encode,
            CodecError::Utf8(_) => Fault::Utf8,
        }
    }
}

impl CodecError {
    /// What the error says.
    pub fn description(&self) -> (text: String)
        ensures
            match self {
                CodecError::MissingHeader => text@ == "missing required `Content-Length` header"@,
                CodecError::InvalidLength => text@ == "unable to parse content length"@,
                CodecError::InvalidType => text@ == "unable to parse content type"@,
                CodecError::Encode(error) => exists|detail: String|
                    vstd::string::to_string_from_display_ensures(error, detail) && text@
                        == "failed to encode frame: "@ + detail@,
                CodecError::Utf8(error) => exists|detail: String|
                    vstd::string::to_string_from_display_ensures(error, detail) && text@
                        == "frame contains invalid UTF8: "@ + detail@,
            },
    {
        match self {
            CodecError::MissingHeader => "missing required `Content-Length` header".to_owned(),
            CodecError::InvalidLength => "unable to parse content length".to_owned(),
            CodecError::InvalidType => "unable to parse content type".to_owned(),
            CodecError::Encode(error) => {
                let detail = error.to_string();
                crate::text::concat("failed to encode frame: ", detail.as_str())
            },
            CodecError::Utf8(error) => {
                let detail = error.to_string();
                crate::text::concat("frame contains invalid UTF8: ", detail.as_str())
            },
        }
    }
}

/// The error that the codec reports where the grammar misses an element.
pub open spec fn fault_of(code: ErrorKind) -> Fault {
    match code {
        ErrorKind::Digits | ErrorKind::TooLarge => Fault::InvalidLength,
        ErrorKind::MediaType | ErrorKind::Charset | ErrorKind::TypeEnd => Fault::InvalidType,
        ErrorKind::Header | ErrorKind::LineEnd => Fault::MissingHeader,
    }
}

/// The number of decimal digits of a number; zero has none.
pub open spec fn digit_count(n: nat) -> nat
    decreases n,
{
    if n == 0 {
        0
    } else {
        1 + digit_count(n / 10)
    }
}

/// The digits that write a number in base ten.
pub open spec fn decimal_digits(n: nat) -> Seq<u8>
    decreases n,
{
    if n < 10 {
        seq![(0x30 + n) as u8]
    } else {
        decimal_digits(n / 10).push((0x30 + n % 10) as u8)
    }
}

/// The frame of a payload: nothing for the empty payload, else the header
/// with the payload's length, an empty line and the payload.
pub open spec fn encoded(payload: Seq<u8>) -> Seq<u8> {
    if payload.len() == 0 {
        Seq::empty()
    } else {
        length_tag() + decimal_digits(payload.len()) + line_end() + line_end() + payload
    }
}

/// What one call of the decoder makes of a buffer.
pub ghost enum Outcome {
    /// No message yet.
    Pending,
    /// A message.
    Message(Seq<char>),
    /// An error.
    Failure(Fault),
}

/// The state after one call of the decoder, and what the call returned.
pub ghost struct Step {
    pub outcome: Outcome,
    pub remaining: int,
    pub buffer: Seq<u8>,
}

/// What is left of a buffer that does not begin with a frame: the bytes from
/// the next place on at which a frame may begin, looked for from `at` on;
/// nothing where there is no such place.
pub open spec fn resynchronized(buffer: Seq<u8>, at: int) -> Seq<u8> {
    match next_message(buffer.skip(at), 0) {
        Some(position) => buffer.skip(at).skip(position),
        None => Seq::empty(),
    }
}

/// One call of the decoder, on a buffer and the hint that the call before
/// left.
///
/// A buffer shorter than the hint is left alone. Else the frame at its start
/// is read. A whole frame is dropped from the buffer and gives its payload
/// as a message; an empty payload gives none, and one that is not UTF-8 an
/// error. An incomplete frame leaves the buffer as it is and the size that
/// is awaited as the new hint. Bytes that are no frame give the error of
/// the element that they miss, and are dropped up to the next place at which
/// a frame may begin, looked for from where the element was missed.
pub open spec fn step(remaining: int, buffer: Seq<u8>) -> Step {
    if remaining > buffer.len() {
        Step { outcome: Outcome::Pending, remaining, buffer }
    } else {
        match frame(buffer) {
            Parsed::Frame { start, end } => Step {
                outcome: if !valid_utf8(buffer.subrange(start, end)) {
                    Outcome::Failure(Fault::Utf8)
                } else if start == end {
                    Outcome::Pending
                } else {
                    Outcome::Message(decode_utf8(buffer.subrange(start, end)))
                },
                remaining: 0,
                buffer: buffer.skip(end),
            },
            Parsed::Incomplete(size) => Step { outcome: Outcome::Pending, remaining: size, buffer },
            Parsed::Error { at, code } => Step {
                outcome: Outcome::Failure(fault_of(code)),
                remaining,
                buffer: resynchronized(buffer, at),
            },
        }
    }
}

/// Whether what a call of the decoder returned is the outcome.
pub open spec fn returned(result: Result<Option<String>, CodecError>, outcome: Outcome) -> bool {
    match result {
        Ok(None) => outcome == Outcome::Pending,
        Ok(Some(text)) => outcome == Outcome::Message(text@),
        Err(error) => outcome == Outcome::Failure(error@),
    }
}

/// The codec. It keeps, between two calls of `decode`, how long the buffer
/// has to be before a frame can be complete.
#[derive(Clone, Debug)]
pub struct LspFrameCodec {
    remaining_bytes: usize,
}

/// A number has no more digits than it counts.
pub proof fn lemma_digit_count_bound(n: nat)
    ensures
        digit_count(n) <= n,
    decreases n,
{
    if n > 0 {
        lemma_digit_count_bound(n / 10);
    }
}

/// A number above zero is written with as many digits as it has.
pub proof fn lemma_decimal_digits_len(n: nat)
    requires
        n > 0,
    ensures
        decimal_digits(n).len() == digit_count(n),
    decreases n,
{
    if n >= 10 {
        lemma_decimal_digits_len(n / 10);
    } else {
        assert(digit_count(n / 10) == 0);
    }
}

/// The number of decimal digits of `n`; zero has none.
#[inline]
pub fn number_of_digits(n: usize) -> (count: usize)
    ensures
        count == digit_count(n as nat),
{
    let mut n = n;
    let ghost start = n;
    let mut num_digits: usize = 0;
    proof {
        lemma_digit_count_bound(n as nat);
    }
    while n > 0
        invariant
            num_digits + digit_count(n as nat) == digit_count(start as nat),
            digit_count(start as nat) <= start,
        decreases n,
    {
        n /= 10;
        num_digits += 1;
    }
    num_digits
}

/// Appends the digits that write `n` in base ten.
fn push_decimal(out: &mut Vec<u8>, n: usize)
    ensures
        final(out)@ == old(out)@ + decimal_digits(n as nat),
    decreases n,
{
    if n >= 10 {
        push_decimal(out, n / 10);
    }
    out.push(0x30 + (n % 10) as u8);
}

impl Default for LspFrameCodec {
    fn default() -> (codec: LspFrameCodec)
        ensures
            codec.remaining() == 0,
    {
        LspFrameCodec { remaining_bytes: 0 }
    }
}

/// The error of the codec for an element that the grammar misses.
fn error_of(code: ErrorKind) -> (error: CodecError)
    ensures
        error@ == fault_of(code),
{
    match code {
        ErrorKind::Digits | ErrorKind::TooLarge => CodecError::InvalidLength,
        ErrorKind::MediaType | ErrorKind::Charset | ErrorKind::TypeEnd => CodecError::InvalidType,
        ErrorKind::Header | ErrorKind::LineEnd => CodecError::MissingHeader,
    }
}

impl LspFrameCodec {
    /// The hint that the last call of `decode` left: the length that the
    /// buffer must reach before a frame can be complete.
    pub closed spec fn remaining(&self) -> int {
        self.remaining_bytes as int
    }

    /// A codec that has read nothing yet.
    pub fn new() -> (codec: LspFrameCodec)
        ensures
            codec.remaining() == 0,
    {
        LspFrameCodec { remaining_bytes: 0 }
    }

    /// Appends the frame of `item` to `dst`. The empty payload writes
    /// nothing.
    pub fn encode(&mut self, item: String, dst: &mut BytesMut) -> (result: Result<(), CodecError>)
        requires
            contents(*old(dst)).len() + encode_utf8(item@).len() * 2 + 20 <= isize::MAX,
        ensures
            result is Ok,
            contents(*final(dst)) == contents(*old(dst)) + encoded(encode_utf8(item@)),
            final(self).remaining() == old(self).remaining(),
    {
        let payload = item.as_str().as_bytes();
        if payload.len() > 0 {
            proof {
                reveal_strlit("Content-Length: ");
                reveal_strlit("\r\n\r\n");
                reveal_strlit("\r\n");
                lemma_digit_count_bound(payload@.len());
                lemma_decimal_digits_len(payload@.len());
            }
            // `Content-Length: ` + `\r\n\r\n` = 20
            dst.reserve(payload.len() + number_of_digits(payload.len()) + 20);
            let mut head: Vec<u8> = Vec::new();
            head.extend_from_slice("Content-Length: ".as_bytes());
            push_decimal(&mut head, payload.len());
            head.extend_from_slice("\r\n\r\n".as_bytes());
            proof {
                assert("\r\n\r\n".is_ascii() && "Content-Length: ".is_ascii());
                assert("\r\n\r\n".spec_bytes() =~= line_end() + line_end());
                assert("Content-Length: ".spec_bytes() =~= length_tag());
                assert(head@ =~= length_tag() + decimal_digits(payload@.len()) + line_end()
                    + line_end());
            }
            dst.extend_from_slice(head.as_slice());
            dst.extend_from_slice(payload);
            proof {
                assert(contents(*dst) =~= contents(*old(dst)) + encoded(payload@));
            }
        } else {
            proof {
                assert(contents(*dst) =~= contents(*old(dst)) + encoded(payload@));
            }
        }
        Ok(())
    }

    /// Reads the frame at the start of `src`, if a whole one is there, and
    /// drops its bytes. On bytes that are no frame it reports the error
    /// and drops them up to the next place at which a frame may begin.
    pub fn decode(&mut self, src: &mut BytesMut) -> (result: Result<Option<String>, CodecError>)
        ensures
            returned(result, step(old(self).remaining(), contents(*old(src))).outcome),
            final(self).remaining() == step(old(self).remaining(), contents(*old(src))).remaining,
            contents(*final(src)) == step(old(self).remaining(), contents(*old(src))).buffer,
    {
        let length = src.len();
        if self.remaining_bytes > length {
            return Ok(None);
        }
        let ghost buffer = contents(*src);
        let parsed = match parse_message((*src).deref()) {
            Ok((rest, message)) => match text_of(message) {
                Ok(text) => {
                    proof {
                        vstd::utf8::encode_utf8_decode_utf8(text@);
                    }
                    Ok((length - rest.len(), Ok(text.to_owned())))
                },
                Err(error) => Ok((length - rest.len(), Err(error))),
            },
            Err(error) => Err(error),
        };
        match parsed {
            Ok((consumed, text)) => {
                src.advance(consumed);
                self.remaining_bytes = 0;
                match text {
                    Ok(message) => {
                        // Ignore empty frame
                        if message.as_str().len() == 0 {
                            Ok(None)
                        } else {
                            Ok(Some(message))
                        }
                    },
                    Err(error) => Err(CodecError::Utf8(error)),
                }
            },
            Err(ParseFailure::Incomplete(Needed::Size(needed))) => {
                self.remaining_bytes = needed;
                Ok(None)
            },
            Err(ParseFailure::Incomplete(Needed::Unknown)) => Ok(None),
            Err(ParseFailure::Error { at, code }) => {
                proof {
                    super::parser::lemma_frame_error_within(buffer);
                }
                src.advance(at);
                match find_next_message((*src).deref()) {
                    Some(position) => src.advance(position),
                    None => src.advance(src.len()),
                }
                Err(error_of(code))
            },
        }
    }
}

/// The digits that write a number are digits, at least one, and write that
/// number.
pub proof fn lemma_decimal_digits(n: nat)
    ensures
        decimal_digits(n).len() >= 1,
        forall|i: int|
            0 <= i < decimal_digits(n).len() ==> accepts(
                ByteClass::Digit,
                #[trigger] decimal_digits(n)[i],
            ),
        decimal_value(decimal_digits(n)) == n,
    decreases n,
{
    if n < 10 {
        assert(decimal_digits(n).drop_last() =~= Seq::<u8>::empty());
        assert(decimal_value(decimal_digits(n).drop_last()) == 0);
    } else {
        lemma_decimal_digits(n / 10);
        assert(decimal_digits(n).drop_last() =~= decimal_digits(n / 10));
    }
}

/// The head of the frame of a payload of `n` bytes.
pub open spec fn head(n: nat) -> Seq<u8> {
    length_tag() + decimal_digits(n) + line_end() + line_end()
}

/// An input that begins with the head of a frame has a whole header, which
/// ends where the head does and declares the length that the head was
/// written for.
pub proof fn lemma_header_of_head(n: nat, tail: Seq<u8>)
    ensures
        header(head(n) + tail) == Scan::Next(head(n).len() as int),
        declared_length(head(n) + tail) == n,
        head(n).len() == 20 + decimal_digits(n).len(),
{
    reveal_strlit("Content-Length: ");
    reveal_strlit("Content-Type: ");
    reveal_strlit("\r\n");
    lemma_decimal_digits(n);
    let input = head(n) + tail;
    let digits = decimal_digits(n);
    let after_digits = 16 + digits.len() as int;
    assert(input.subrange(0, 16) =~= length_tag().take(16));
    assert(literal(input, 0, length_tag(), ErrorKind::Header) == Scan::Next(16));
    assert forall|i: int| 16 <= i < after_digits implies accepts(
        ByteClass::Digit,
        #[trigger] input[i],
    ) by {
        assert(input[i] == digits[i - 16]);
    }
    assert(input[after_digits] == 0x0d);
    lemma_span_end_is(input, 16, ByteClass::Digit, after_digits);
    assert(span1(input, 16, ByteClass::Digit, ErrorKind::Digits) == Scan::Next(after_digits));
    assert(input.subrange(after_digits, after_digits + 2) =~= line_end().take(2));
    assert(literal(input, after_digits, line_end(), ErrorKind::LineEnd) == Scan::Next(
        after_digits + 2,
    ));
    let after_line = after_digits + 2;
    let present = if input.len() - after_line < type_tag().len() {
        input.len() - after_line
    } else {
        type_tag().len() as int
    };
    assert(input.subrange(after_line, after_line + present)[0] != type_tag().take(present)[0]);
    assert(literal(input, after_line, type_tag(), ErrorKind::Header) is Error);
    assert(content_type(input, after_line) == Scan::Next(after_line));
    assert(input.subrange(after_line, after_line + 2) =~= line_end().take(2));
    assert(literal(input, after_line, line_end(), ErrorKind::LineEnd) == Scan::Next(after_line + 2));
    assert(input.subrange(16, after_digits) =~= digits);
}

/// Decoding what was encoded gives back the payload: the decoder, fresh or
/// after a frame, reads the frame of a text that is not empty as that text,
/// and leaves what follows the frame.
pub proof fn lemma_decode_encoded(text: Seq<char>, rest: Seq<u8>)
    requires
        text.len() > 0,
        encode_utf8(text).len() <= usize::MAX,
    ensures
        step(0, encoded(encode_utf8(text)) + rest) == (Step {
            outcome: Outcome::Message(text),
            remaining: 0,
            buffer: rest,
        }),
{
    let payload = encode_utf8(text);
    vstd::utf8::encode_utf8_valid_utf8(text);
    vstd::utf8::encode_utf8_decode_utf8(text);
    lemma_encode_utf8_nonempty(text);
    let n = payload.len();
    let input = encoded(payload) + rest;
    lemma_header_of_head(n, payload + rest);
    assert(input =~= head(n) + (payload + rest));
    let start = head(n).len() as int;
    assert(frame(input) == Parsed::Frame { start, end: start + n });
    assert(input.subrange(start, start + n) =~= payload);
    assert(input.skip(start + n) =~= rest);
}

/// The encoding of a text that is not empty is not empty.
pub proof fn lemma_encode_utf8_nonempty(text: Seq<char>)
    requires
        text.len() > 0,
    ensures
        encode_utf8(text).len() > 0,
{
    vstd::utf8::encode_utf8_decode_utf8(text);
    if encode_utf8(text).len() == 0 {
        assert(decode_utf8(encode_utf8(text)).len() == 0);
    }
}

/// The beginning of a frame that ends within the literal of the length, or
/// within the digits, is incomplete.
proof fn lemma_part_of_length(payload: Seq<u8>, k: int)
    requires
        payload.len() > 0,
        0 <= k <= 16 + decimal_digits(payload.len()).len(),
    ensures
        frame(encoded(payload).take(k)) is Incomplete,
        frame(encoded(payload).take(k))->Incomplete_0 <= 16,
{
    reveal_strlit("Content-Length: ");
    let n = payload.len();
    let whole = encoded(payload);
    let input = whole.take(k);
    let digits = decimal_digits(n);
    lemma_decimal_digits(n);
    if k < 16 {
        assert(input.subrange(0, k) =~= length_tag().take(k));
        assert(frame(input) == Parsed::Incomplete(16));
    } else {
        assert(input.subrange(0, 16) =~= length_tag().take(16));
        assert(literal(input, 0, length_tag(), ErrorKind::Header) == Scan::Next(16));
        assert forall|i: int| 16 <= i < k implies accepts(ByteClass::Digit, #[trigger] input[i]) by {
            assert(input[i] == digits[i - 16]);
        }
        lemma_span_end_is(input, 16, ByteClass::Digit, k);
        assert(frame(input) == Parsed::Incomplete(1));
    }
}

/// The beginning of a frame that ends within the two line ends after the
/// digits is incomplete.
proof fn lemma_part_of_line_ends(payload: Seq<u8>, k: int)
    requires
        payload.len() > 0,
        16 + decimal_digits(payload.len()).len() < k < 20 + decimal_digits(payload.len()).len(),
    ensures
        frame(encoded(payload).take(k)) is Incomplete,
        frame(encoded(payload).take(k))->Incomplete_0 <= 16,
{
    reveal_strlit("Content-Length: ");
    reveal_strlit("Content-Type: ");
    reveal_strlit("\r\n");
    let n = payload.len();
    let whole = encoded(payload);
    let input = whole.take(k);
    let digits = decimal_digits(n);
    lemma_decimal_digits(n);
    let after_digits = 16 + digits.len() as int;
    assert(input.subrange(0, 16) =~= length_tag().take(16));
    assert(literal(input, 0, length_tag(), ErrorKind::Header) == Scan::Next(16));
    assert forall|i: int| 16 <= i < after_digits implies accepts(
        ByteClass::Digit,
        #[trigger] input[i],
    ) by {
        assert(input[i] == digits[i - 16]);
    }
    assert(input[after_digits] == 0x0d);
    lemma_span_end_is(input, 16, ByteClass::Digit, after_digits);
    assert(span1(input, 16, ByteClass::Digit, ErrorKind::Digits) == Scan::Next(after_digits));
    if k == after_digits + 1 {
        assert(input.subrange(after_digits, after_digits + 1) =~= line_end().take(1));
        assert(frame(input) == Parsed::Incomplete(2));
    } else {
        let after_line = after_digits + 2;
        assert(input.subrange(after_digits, after_digits + 2) =~= line_end().take(2));
        assert(literal(input, after_digits, line_end(), ErrorKind::LineEnd) == Scan::Next(after_line));
        if k == after_line {
            assert(input.subrange(after_line, after_line) =~= type_tag().take(0));
            assert(literal(input, after_line, type_tag(), ErrorKind::Header) == Scan::Incomplete(14));
            assert(frame(input) == Parsed::Incomplete(14));
        } else {
            assert(input.subrange(after_line, after_line + 1)[0] != type_tag().take(1)[0]);
            assert(literal(input, after_line, type_tag(), ErrorKind::Header) is Error);
            assert(input.subrange(after_line, after_line + 1) =~= line_end().take(1));
            assert(frame(input) == Parsed::Incomplete(2));
        }
    }
}

/// The beginning of a frame that ends within the payload is incomplete.
proof fn lemma_part_of_payload(payload: Seq<u8>, k: int)
    requires
        payload.len() > 0,
        payload.len() <= usize::MAX,
        20 + decimal_digits(payload.len()).len() <= k < encoded(payload).len(),
    ensures
        frame(encoded(payload).take(k)) == Parsed::Incomplete(payload.len() as int),
{
    let n = payload.len();
    let start = head(n).len() as int;
    lemma_header_of_head(n, payload.take(k - start));
    assert(encoded(payload).take(k) =~= head(n) + payload.take(k - start));
}

/// A frame that arrives in two parts is read once, when it is whole: on
/// any beginning of the frame of a text the fresh decoder reports nothing,
/// drops nothing and leaves a hint that the whole frame meets; the next
/// call, on the whole frame, gives the text.
pub proof fn lemma_decode_split(text: Seq<char>, k: int)
    requires
        text.len() > 0,
        encode_utf8(text).len() <= usize::MAX,
        0 <= k < encoded(encode_utf8(text)).len(),
    ensures
        ({
            let whole = encoded(encode_utf8(text));
            let first = step(0, whole.take(k));
            &&& first.outcome == Outcome::Pending
            &&& first.buffer == whole.take(k)
            &&& first.remaining <= whole.len()
            &&& step(first.remaining, first.buffer + whole.skip(k)) == (Step {
                outcome: Outcome::Message(text),
                remaining: 0,
                buffer: Seq::empty(),
            })
        }),
{
    let payload = encode_utf8(text);
    lemma_encode_utf8_nonempty(text);
    let whole = encoded(payload);
    let digits = decimal_digits(payload.len());
    lemma_decimal_digits(payload.len());
    lemma_decode_encoded(text, Seq::empty());
    assert(whole + Seq::<u8>::empty() =~= whole);
    assert(whole.take(k) + whole.skip(k) =~= whole);
    reveal_strlit("Content-Length: ");
    reveal_strlit("\r\n");
    assert(whole.len() == 20 + digits.len() + payload.len());
    if k <= 16 + digits.len() {
        lemma_part_of_length(payload, k);
    } else if k < 20 + digits.len() {
        lemma_part_of_line_ends(payload, k);
    } else {
        lemma_part_of_payload(payload, k);
    }
}

/// Where no frame begins between `from` and `position`, and one begins at
/// `position`, the search from `from` finds `position`.
pub proof fn lemma_next_message_is(input: Seq<u8>, from: int, position: int)
    requires
        0 <= from <= position,
        starts_frame(input, position),
        forall|i: int| from <= i < position ==> !starts_frame(input, i),
    ensures
        next_message(input, from) == Some(position),
    decreases position - from,
{
    reveal_strlit("Content-Length: ");
    if from < position {
        lemma_next_message_is(input, from + 1, position);
    }
}

/// Where bytes that hold no `Content-Length: ` stand before bytes that
/// begin with it, the first place at which it stands is where the second
/// bytes begin.
pub proof fn lemma_first_frame_start(garbage: Seq<u8>, whole: Seq<u8>, i: int)
    requires
        forall|j: int| !starts_frame(garbage, j),
        starts_frame(whole, 0),
        0 <= i < garbage.len(),
    ensures
        !starts_frame(garbage + whole, i),
{
    reveal_strlit("Content-Length: ");
    let input = garbage + whole;
    let g = garbage.len() as int;
    if starts_frame(input, i) {
        if i + 16 <= g {
            assert(garbage.subrange(i, i + 16) =~= input.subrange(i, i + 16));
            assert(starts_frame(garbage, i));
        } else {
            let j = g - i;
            assert(input.subrange(i, i + 16)[j] == input[g]);
            assert(input[g] == whole[0]);
            assert(whole.subrange(0, 16)[0] == whole[0]);
            assert(length_tag()[j] != length_tag()[0]);
        }
    }
}

/// After bytes that are no frame the next frame is still read: where bytes
/// that hold no `Content-Length: ` stand before the frame of a text, the
/// fresh decoder first reports a missing header and drops these bytes, and
/// then reads the text.
pub proof fn lemma_decode_resync(garbage: Seq<u8>, text: Seq<char>)
    requires
        garbage.len() > 0,
        forall|i: int| !starts_frame(garbage, i),
        text.len() > 0,
        encode_utf8(text).len() <= usize::MAX,
    ensures
        ({
            let whole = encoded(encode_utf8(text));
            let first = step(0, garbage + whole);
            &&& first.outcome == Outcome::Failure(Fault::MissingHeader)
            &&& first.buffer == whole
            &&& step(first.remaining, first.buffer) == (Step {
                outcome: Outcome::Message(text),
                remaining: 0,
                buffer: Seq::empty(),
            })
        }),
{
    reveal_strlit("Content-Length: ");
    let payload = encode_utf8(text);
    lemma_encode_utf8_nonempty(text);
    let whole = encoded(payload);
    let input = garbage + whole;
    let g = garbage.len() as int;
    lemma_decode_encoded(text, Seq::empty());
    assert(whole + Seq::<u8>::empty() =~= whole);
    lemma_decimal_digits(payload.len());
    assert(whole.subrange(0, 16) =~= length_tag());
    assert(starts_frame(whole, 0));
    assert(input.subrange(g, g + 16) =~= length_tag());
    assert(starts_frame(input, g));
    assert forall|i: int| 0 <= i < g implies !starts_frame(input, i) by {
        lemma_first_frame_start(garbage, whole, i);
    }
    lemma_next_message_is(input, 0, g);
    assert(length_tag().take(16) =~= length_tag());
    assert(!starts_frame(input, 0));
    assert(literal(input, 0, length_tag(), ErrorKind::Header) == Scan::Error(ErrorKind::Header, 0));
    assert(frame(input) == Parsed::Error { at: 0, code: ErrorKind::Header });
    assert(input.skip(0) =~= input);
    assert(input.skip(g) =~= whole);
}

/// An error never leaves the decoder where it was: the call that reports
/// one drops at least one byte.
pub proof fn lemma_failure_makes_progress(remaining: int, buffer: Seq<u8>)
    requires
        step(remaining, buffer).outcome is Failure,
    ensures
        step(remaining, buffer).buffer.len() < buffer.len(),
{
    reveal_strlit("Content-Length: ");
    super::parser::lemma_frame_error_within(buffer);
    match frame(buffer) {
        Parsed::Frame { start, end } => {
            lemma_frame_within(buffer);
        },
        Parsed::Incomplete(_) => {},
        Parsed::Error { at, code } => {
            let rest = buffer.skip(at);
            match next_message(rest, 0) {
                Some(position) => {
                    lemma_next_message_found(rest, 0);
                    if at == 0 {
                        assert(rest =~= buffer);
                    }
                },
                None => {},
            }
        },
    }
}

/// What a search finds is a place at which a frame may begin.
pub proof fn lemma_next_message_found(input: Seq<u8>, from: int)
    ensures
        next_message(input, from) matches Some(position) ==> from <= position && starts_frame(
            input,
            position,
        ),
    decreases input.len() - from,
{
    if 0 <= from < input.len() && !starts_frame(input, from) {
        lemma_next_message_found(input, from + 1);
    }
}

/// A frame ends after its header, which has at least twenty bytes, and
/// within the input.
pub proof fn lemma_frame_within(input: Seq<u8>)
    ensures
        frame(input) matches Parsed::Frame { start, end } ==> 20 <= start <= end <= input.len(),
{
    reveal_strlit("Content-Length: ");
    reveal_strlit("\r\n");
    let after_tag = length_tag().len() as int;
    if literal(input, 0, length_tag(), ErrorKind::Header) is Next {
        super::parser::lemma_span_end(input, after_tag, ByteClass::Digit);
        if let Scan::Next(after_digits) = span1(
            input,
            after_tag,
            ByteClass::Digit,
            ErrorKind::Digits,
        ) {
            if let Scan::Next(after_line) = literal(
                input,
                after_digits,
                line_end(),
                ErrorKind::LineEnd,
            ) {
                super::parser::lemma_content_type_bounds(input, after_line);
            }
        }
    }
}

} // verus!
