//! The grammar of one frame.
//!
//! ```text
//! frame   := header CRLF payload
//! header  := "Content-Length: " digits+ CRLF ( "Content-Type: " media CRLF )?
//! media   := any bytes except ';' or CR, then optional ";" SP* "charset=" ("utf-8"|"utf8")
//! payload := exactly digits+ bytes
//! ```
//!
//! The grammar is read from a stream: where the input ends before an element
//! of the grammar is decided, the outcome is `Incomplete`, with the size of
//! the element that is awaited.
//!
//! After the line of the length, bytes that begin with `Content-Type: ` are
//! the line of the media type and have to be one; any other bytes have to be
//! the empty line that ends the header.
use vstd::prelude::*;
use vstd::slice::slice_subrange;

verus! {

broadcast use vstd::string::is_ascii_spec_bytes;

/// The element of the grammar that the input did not match.
#[derive(Clone, Copy, Debug, PartialEq, Eq, Structural)]
pub enum ErrorKind {
    /// The literal `Content-Length: `.
    Header,
    /// The digits of the length.
    Digits,
    /// The length does not fit the machine's word.
    TooLarge,
    /// The end of the line of the length, or the empty line that ends the
    /// header.
    LineEnd,
    /// The media type.
    MediaType,
    /// The parameter of the media type: `charset=` and the encoding.
    Charset,
    /// The end of the line of the media type.
    TypeEnd,
}

/// How many bytes the element that is awaited has.
#[derive(Clone, Copy, Debug, PartialEq, Eq, Structural)]
pub enum Needed {
    /// The size is not known.
    Unknown,
    /// The size of the awaited element.
    Size(usize),
}

/// Why no frame was read.
#[derive(Clone, Copy, Debug, PartialEq, Eq, Structural)]
pub enum ParseFailure {
    /// The input ends before the frame does.
    Incomplete(Needed),
    /// The input is no frame: the element `code` was expected at offset
    /// `at`. For a length that does not fit, `at` is where the header ends.
    Error { at: usize, code: ErrorKind },
}

/// What reading one element of the grammar at a position gives.
pub ghost enum Scan {
    /// The element ends at this position.
    Next(int),
    /// The input ends before the element is decided; the size awaited.
    Incomplete(int),
    /// The element is not there.
    Error(ErrorKind, int),
}

/// What reading a frame at the start of the input gives.
pub ghost enum Parsed {
    /// A frame, whose payload is the input from `start` to `end`.
    Frame { start: int, end: int },
    /// The input ends before the frame does; the size awaited.
    Incomplete(int),
    /// The input is no frame.
    Error { at: int, code: ErrorKind },
}

/// The bytes of a text of ASCII characters.
pub open spec fn ascii(text: Seq<char>) -> Seq<u8> {
    Seq::new(text.len(), |i: int| text[i] as u8)
}

/// The literal that begins every frame.
pub open spec fn length_tag() -> Seq<u8> {
    ascii("Content-Length: "@)
}

/// The literal that begins the optional second header.
pub open spec fn type_tag() -> Seq<u8> {
    ascii("Content-Type: "@)
}

/// A line ending.
pub open spec fn line_end() -> Seq<u8> {
    ascii("\r\n"@)
}

/// The bytes that a run of the grammar is made of.
#[derive(Clone, Copy, Debug, PartialEq, Eq, Structural)]
pub enum ByteClass {
    /// `0` to `9`.
    Digit,
    /// Any byte but `;` and CR.
    Media,
    /// Space and tab.
    Blank,
}

/// Whether a byte belongs to a class.
pub open spec fn accepts(class: ByteClass, byte: u8) -> bool {
    match class {
        ByteClass::Digit => 0x30 <= byte <= 0x39,
        ByteClass::Media => byte != 0x3b && byte != 0x0d,
        ByteClass::Blank => byte == 0x20 || byte == 0x09,
    }
}

/// Reads the literal `lit` at `pos`.
pub open spec fn literal(input: Seq<u8>, pos: int, lit: Seq<u8>, code: ErrorKind) -> Scan {
    let present = if input.len() - pos < lit.len() {
        input.len() - pos
    } else {
        lit.len() as int
    };
    if input.subrange(pos, pos + present) != lit.take(present) {
        Scan::Error(code, pos)
    } else if present < lit.len() {
        Scan::Incomplete(lit.len() as int)
    } else {
        Scan::Next(pos + lit.len())
    }
}

/// The first position from `pos` on whose byte is not of the class, or the
/// end of the input.
pub open spec fn span_end(input: Seq<u8>, pos: int, class: ByteClass) -> int
    decreases input.len() - pos,
{
    if pos < 0 || pos >= input.len() || !accepts(class, input[pos]) {
        pos
    } else {
        span_end(input, pos + 1, class)
    }
}

/// Reads one or more bytes of a class, up to a byte that is not of it.
pub open spec fn span1(input: Seq<u8>, pos: int, class: ByteClass, code: ErrorKind) -> Scan {
    let end = span_end(input, pos, class);
    if end >= input.len() {
        Scan::Incomplete(1)
    } else if end == pos {
        Scan::Error(code, pos)
    } else {
        Scan::Next(end)
    }
}

/// Reads any number of blanks, up to a byte that is none.
pub open spec fn blanks(input: Seq<u8>, pos: int) -> Scan {
    let end = span_end(input, pos, ByteClass::Blank);
    if end >= input.len() {
        Scan::Incomplete(1)
    } else {
        Scan::Next(end)
    }
}

/// Reads `utf-8` or `utf8`.
pub open spec fn encoding(input: Seq<u8>, pos: int) -> Scan {
    match literal(input, pos, ascii("utf-8"@), ErrorKind::Charset) {
        Scan::Error(_, _) => literal(input, pos, ascii("utf8"@), ErrorKind::Charset),
        other => other,
    }
}

/// Reads the parameter of the media type, from its `;` on: blanks,
/// `charset=` and the encoding.
pub open spec fn charset(input: Seq<u8>, pos: int) -> Scan {
    match blanks(input, pos + 1) {
        Scan::Next(after_blanks) => match literal(
            input,
            after_blanks,
            ascii("charset="@),
            ErrorKind::Charset,
        ) {
            Scan::Next(after_name) => encoding(input, after_name),
            other => other,
        },
        other => other,
    }
}

/// Reads the line of the media type, where there is one: bytes that do not
/// begin with `Content-Type: ` are none, and nothing is read.
pub open spec fn content_type(input: Seq<u8>, pos: int) -> Scan {
    match literal(input, pos, type_tag(), ErrorKind::Header) {
        Scan::Error(_, _) => Scan::Next(pos),
        Scan::Incomplete(size) => Scan::Incomplete(size),
        Scan::Next(after_tag) => match span1(
            input,
            after_tag,
            ByteClass::Media,
            ErrorKind::MediaType,
        ) {
            Scan::Next(after_media) => {
                let parameter = if input[after_media] == 0x3b {
                    charset(input, after_media)
                } else {
                    Scan::Next(after_media)
                };
                match parameter {
                    Scan::Next(after_parameter) => literal(
                        input,
                        after_parameter,
                        line_end(),
                        ErrorKind::TypeEnd,
                    ),
                    other => other,
                }
            },
            other => other,
        },
    }
}

/// The number that a sequence of digits writes in base ten.
pub open spec fn decimal_value(digits: Seq<u8>) -> nat
    decreases digits.len(),
{
    if digits.len() == 0 {
        0
    } else {
        (decimal_value(digits.drop_last()) * 10 + (digits.last() - 0x30)) as nat
    }
}

/// Where the digits of the length end, where the input begins with the
/// literal of the length and the digits are followed by another byte.
pub open spec fn digits_end(input: Seq<u8>) -> int {
    span_end(input, length_tag().len() as int, ByteClass::Digit)
}

/// The length that the header declares.
pub open spec fn declared_length(input: Seq<u8>) -> nat {
    decimal_value(input.subrange(length_tag().len() as int, digits_end(input)))
}

/// Reads the header with its closing empty line.
pub open spec fn header(input: Seq<u8>) -> Scan {
    match literal(input, 0, length_tag(), ErrorKind::Header) {
        Scan::Next(after_tag) => match span1(input, after_tag, ByteClass::Digit, ErrorKind::Digits) {
            Scan::Next(after_digits) => match literal(
                input,
                after_digits,
                line_end(),
                ErrorKind::LineEnd,
            ) {
                Scan::Next(after_line) => match content_type(input, after_line) {
                    Scan::Next(after_type) => literal(
                        input,
                        after_type,
                        line_end(),
                        ErrorKind::LineEnd,
                    ),
                    other => other,
                },
                other => other,
            },
            other => other,
        },
        other => other,
    }
}

/// Reads one frame at the start of the input.
pub open spec fn frame(input: Seq<u8>) -> Parsed {
    match header(input) {
        Scan::Next(start) => {
            let length = declared_length(input);
            if length > usize::MAX {
                Parsed::Error { at: start, code: ErrorKind::TooLarge }
            } else if length > input.len() - start {
                Parsed::Incomplete(length as int)
            } else {
                Parsed::Frame { start, end: start + length }
            }
        },
        Scan::Incomplete(size) => Parsed::Incomplete(size),
        Scan::Error(code, at) => Parsed::Error { at, code },
    }
}

/// Whether the literal that begins a frame stands at `pos`.
pub open spec fn starts_frame(input: Seq<u8>, pos: int) -> bool {
    &&& 0 <= pos
    &&& pos + length_tag().len() <= input.len()
    &&& input.subrange(pos, pos + length_tag().len()) == length_tag()
}

/// The first position from `from` on at which the literal that begins a
/// frame stands, if there is one.
pub open spec fn next_message(input: Seq<u8>, from: int) -> Option<int>
    decreases input.len() - from,
{
    if from < 0 || from >= input.len() {
        None
    } else if starts_frame(input, from) {
        Some(from)
    } else {
        next_message(input, from + 1)
    }
}

/// Whether what a reader returned is what the grammar gives.
pub open spec fn agrees(result: Result<usize, ParseFailure>, scan: Scan) -> bool {
    match result {
        Ok(pos) => scan == Scan::Next(pos as int),
        Err(ParseFailure::Incomplete(Needed::Size(size))) => scan == Scan::Incomplete(size as int),
        Err(ParseFailure::Incomplete(Needed::Unknown)) => false,
        Err(ParseFailure::Error { at, code }) => scan == Scan::Error(code, at as int),
    }
}

/// The end of a run lies between its start and the end of the input; all
/// bytes before it are of the class and the byte at it, if any, is not.
pub proof fn lemma_span_end(input: Seq<u8>, pos: int, class: ByteClass)
    requires
        0 <= pos <= input.len(),
    ensures
        pos <= span_end(input, pos, class) <= input.len(),
        forall|i: int| pos <= i < span_end(input, pos, class) ==> accepts(class, #[trigger] input[i]),
        span_end(input, pos, class) < input.len() ==> !accepts(
            class,
            input[span_end(input, pos, class)],
        ),
    decreases input.len() - pos,
{
    if pos < input.len() && accepts(class, input[pos]) {
        lemma_span_end(input, pos + 1, class);
    }
}

/// A position up to which all bytes are of the class, and whose own byte is
/// not or which is the end of the input, is the end of the run.
pub proof fn lemma_span_end_is(input: Seq<u8>, pos: int, class: ByteClass, end: int)
    requires
        0 <= pos <= end <= input.len(),
        forall|i: int| pos <= i < end ==> accepts(class, #[trigger] input[i]),
        end < input.len() ==> !accepts(class, input[end]),
    ensures
        span_end(input, pos, class) == end,
    decreases end - pos,
{
    if pos < end {
        lemma_span_end_is(input, pos + 1, class, end);
    }
}

/// The element that a frame misses is missed at a position of the input.
/// It is missed at the very start only where the input does not begin with
/// the literal of the length.
pub proof fn lemma_frame_error_within(input: Seq<u8>)
    ensures
        frame(input) matches Parsed::Error { at, .. } ==> 0 <= at <= input.len(),
        frame(input) matches Parsed::Error { at, .. } ==> at == 0 ==> input.len() > 0
            && !starts_frame(input, 0),
{
    reveal_strlit("Content-Length: ");
    reveal_strlit("\r\n");
    assert(length_tag().take(length_tag().len() as int) =~= length_tag());
    assert(line_end().len() == 2);
    let after_tag = length_tag().len() as int;
    if literal(input, 0, length_tag(), ErrorKind::Header) is Next {
        lemma_span_end(input, after_tag, ByteClass::Digit);
        if let Scan::Next(after_digits) = span1(
            input,
            after_tag,
            ByteClass::Digit,
            ErrorKind::Digits,
        ) {
            if let Scan::Next(after_line) = literal(
                input,
                after_digits,
                line_end(),
                ErrorKind::LineEnd,
            ) {
                lemma_content_type_bounds(input, after_line);
            }
        }
    } else if literal(input, 0, length_tag(), ErrorKind::Header) is Error {
        if input.len() == 0 {
            assert(input.subrange(0, 0) =~= length_tag().take(0));
        }
    }
}

/// The line of the media type ends within the input and after its start,
/// and an element that it misses is missed there.
pub proof fn lemma_content_type_bounds(input: Seq<u8>, pos: int)
    requires
        0 <= pos <= input.len(),
    ensures
        content_type(input, pos) matches Scan::Next(next) ==> pos <= next <= input.len(),
        content_type(input, pos) matches Scan::Error(_, at) ==> pos < at <= input.len(),
{
    reveal_strlit("Content-Type: ");
    reveal_strlit("charset=");
    if let Scan::Next(after_tag) = literal(input, pos, type_tag(), ErrorKind::Header) {
        lemma_span_end(input, after_tag, ByteClass::Media);
        if let Scan::Next(after_media) = span1(
            input,
            after_tag,
            ByteClass::Media,
            ErrorKind::MediaType,
        ) {
            if input[after_media] == 0x3b {
                lemma_span_end(input, after_media + 1, ByteClass::Blank);
            }
        }
    }
}

fn class_accepts(class: ByteClass, byte: u8) -> (accepted: bool)
    ensures
        accepted == accepts(class, byte),
{
    match class {
        ByteClass::Digit => 0x30 <= byte && byte <= 0x39,
        ByteClass::Media => byte != 0x3b && byte != 0x0d,
        ByteClass::Blank => byte == 0x20 || byte == 0x09,
    }
}

fn scan_literal(input: &[u8], pos: usize, lit: &str, code: ErrorKind) -> (result: Result<
    usize,
    ParseFailure,
>)
    requires
        pos <= input.len(),
        lit.is_ascii(),
    ensures
        agrees(result, literal(input@, pos as int, ascii(lit@), code)),
{
    let bytes = lit.as_bytes();
    assert(bytes@ =~= ascii(lit@));
    let available = input.len() - pos;
    let mut i: usize = 0;
    while i < bytes.len() && i < available
        invariant
            pos <= input.len(),
            available == input.len() - pos,
            bytes@ == ascii(lit@),
            i <= bytes.len(),
            i <= available,
            forall|j: int| 0 <= j < i ==> input@[pos + j] == bytes@[j],
        decreases bytes.len() - i,
    {
        if input[pos + i] != bytes[i] {
            proof {
                let present = if available < bytes.len() {
                    available as int
                } else {
                    bytes.len() as int
                };
                assert(input@.subrange(pos as int, pos + present)[i as int] != bytes@.take(
                    present,
                )[i as int]);
            }
            return Err(ParseFailure::Error { at: pos, code });
        }
        i += 1;
    }
    proof {
        let present = if available < bytes.len() {
            available as int
        } else {
            bytes.len() as int
        };
        assert(i == present);
        assert(input@.subrange(pos as int, pos + present) =~= bytes@.take(present));
    }
    if i < bytes.len() {
        Err(ParseFailure::Incomplete(Needed::Size(bytes.len())))
    } else {
        Ok(pos + i)
    }
}

fn scan_span_end(input: &[u8], pos: usize, class: ByteClass) -> (end: usize)
    requires
        pos <= input.len(),
    ensures
        end == span_end(input@, pos as int, class),
        pos <= end <= input.len(),
{
    let mut end: usize = pos;
    while end < input.len() && class_accepts(class, input[end])
        invariant
            pos <= end <= input.len(),
            forall|i: int| pos <= i < end ==> accepts(class, #[trigger] input@[i]),
        decreases input.len() - end,
    {
        end += 1;
    }
    proof {
        lemma_span_end_is(input@, pos as int, class, end as int);
    }
    end
}

fn scan_span1(input: &[u8], pos: usize, class: ByteClass, code: ErrorKind) -> (result: Result<
    usize,
    ParseFailure,
>)
    requires
        pos <= input.len(),
    ensures
        agrees(result, span1(input@, pos as int, class, code)),
        result matches Ok(end) ==> pos < end < input.len(),
{
    let end = scan_span_end(input, pos, class);
    if end >= input.len() {
        Err(ParseFailure::Incomplete(Needed::Size(1)))
    } else if end == pos {
        Err(ParseFailure::Error { at: pos, code })
    } else {
        Ok(end)
    }
}

fn scan_blanks(input: &[u8], pos: usize) -> (result: Result<usize, ParseFailure>)
    requires
        pos <= input.len(),
    ensures
        agrees(result, blanks(input@, pos as int)),
        result matches Ok(end) ==> pos <= end < input.len(),
{
    let end = scan_span_end(input, pos, ByteClass::Blank);
    if end >= input.len() {
        Err(ParseFailure::Incomplete(Needed::Size(1)))
    } else {
        Ok(end)
    }
}

fn scan_encoding(input: &[u8], pos: usize) -> (result: Result<usize, ParseFailure>)
    requires
        pos <= input.len(),
    ensures
        agrees(result, encoding(input@, pos as int)),
        result matches Ok(end) ==> pos <= end <= input.len(),
{
    proof {
        reveal_strlit("utf-8");
        reveal_strlit("utf8");
    }
    match scan_literal(input, pos, "utf-8", ErrorKind::Charset) {
        Err(ParseFailure::Error { .. }) => scan_literal(input, pos, "utf8", ErrorKind::Charset),
        other => other,
    }
}

fn scan_charset(input: &[u8], pos: usize) -> (result: Result<usize, ParseFailure>)
    requires
        pos < input.len(),
    ensures
        agrees(result, charset(input@, pos as int)),
        result matches Ok(end) ==> pos <= end <= input.len(),
{
    proof {
        reveal_strlit("charset=");
    }
    let after_blanks = match scan_blanks(input, pos + 1) {
        Ok(end) => end,
        Err(error) => {
            return Err(error);
        },
    };
    let after_name = match scan_literal(input, after_blanks, "charset=", ErrorKind::Charset) {
        Ok(end) => end,
        Err(error) => {
            return Err(error);
        },
    };
    scan_encoding(input, after_name)
}

fn scan_content_type(input: &[u8], pos: usize) -> (result: Result<usize, ParseFailure>)
    requires
        pos <= input.len(),
    ensures
        agrees(result, content_type(input@, pos as int)),
        result matches Ok(end) ==> pos <= end <= input.len(),
{
    proof {
        reveal_strlit("Content-Type: ");
        reveal_strlit("\r\n");
    }
    let after_tag = match scan_literal(input, pos, "Content-Type: ", ErrorKind::Header) {
        Ok(end) => end,
        Err(ParseFailure::Error { .. }) => {
            return Ok(pos);
        },
        Err(error) => {
            return Err(error);
        },
    };
    let after_media = match scan_span1(input, after_tag, ByteClass::Media, ErrorKind::MediaType) {
        Ok(end) => end,
        Err(error) => {
            return Err(error);
        },
    };
    let after_parameter = if input[after_media] == 0x3b {
        match scan_charset(input, after_media) {
            Ok(end) => end,
            Err(error) => {
                return Err(error);
            },
        }
    } else {
        after_media
    };
    scan_literal(input, after_parameter, "\r\n", ErrorKind::TypeEnd)
}

/// A sequence of digits writes a number no smaller than any of its
/// beginnings does.
pub proof fn lemma_decimal_value_grows(digits: Seq<u8>, k: int)
    requires
        0 <= k <= digits.len(),
        forall|i: int| 0 <= i < digits.len() ==> accepts(ByteClass::Digit, #[trigger] digits[i]),
    ensures
        decimal_value(digits.take(k)) <= decimal_value(digits),
    decreases digits.len() - k,
{
    if k == digits.len() {
        assert(digits.take(k) =~= digits);
    } else {
        lemma_decimal_value_grows(digits.drop_last(), k);
        assert(digits.drop_last().take(k) =~= digits.take(k));
    }
}

fn parse_decimal(input: &[u8], start: usize, end: usize) -> (value: Option<usize>)
    requires
        start <= end <= input.len(),
        forall|i: int| start <= i < end ==> accepts(ByteClass::Digit, #[trigger] input@[i]),
    ensures
        match value {
            Some(number) => number == decimal_value(input@.subrange(start as int, end as int)),
            None => decimal_value(input@.subrange(start as int, end as int)) > usize::MAX,
        },
{
    let ghost digits = input@.subrange(start as int, end as int);
    let mut value: usize = 0;
    let mut i: usize = start;
    while i < end
        invariant
            start <= i <= end <= input.len(),
            digits == input@.subrange(start as int, end as int),
            forall|j: int| start <= j < end ==> accepts(ByteClass::Digit, #[trigger] input@[j]),
            value == decimal_value(input@.subrange(start as int, i as int)),
        decreases end - i,
    {
        let digit: usize = (input[i] - 0x30) as usize;
        proof {
            let longer = input@.subrange(start as int, i + 1);
            assert(longer.drop_last() =~= input@.subrange(start as int, i as int));
            assert(longer.last() == input@[i as int]);
            assert(longer =~= digits.take(i + 1 - start));
            lemma_decimal_value_grows(digits, i + 1 - start);
        }
        if value > usize::MAX / 10 {
            return None;
        }
        let tens: usize = value * 10;
        if tens > usize::MAX - digit {
            return None;
        }
        value = tens + digit;
        i += 1;
    }
    Some(value)
}

/// Reads one frame at the start of the input: the input after the frame,
/// and the payload.
pub fn parse_message<'a>(input: &'a [u8]) -> (result: Result<(&'a [u8], &'a [u8]), ParseFailure>)
    ensures
        match result {
            Ok((rest, message)) => frame(input@) == (Parsed::Frame {
                start: input@.len() - rest@.len() - message@.len(),
                end: input@.len() - rest@.len(),
            }) && message@ == input@.subrange(
                input@.len() - rest@.len() - message@.len(),
                input@.len() - rest@.len(),
            ) && rest@ == input@.skip(input@.len() - rest@.len()) && rest@.len() + message@.len()
                <= input@.len(),
            Err(ParseFailure::Incomplete(Needed::Size(size))) => frame(input@) == Parsed::Incomplete(
                size as int,
            ),
            Err(ParseFailure::Incomplete(Needed::Unknown)) => false,
            Err(ParseFailure::Error { at, code }) => frame(input@) == (Parsed::Error {
                at: at as int,
                code,
            }),
        },
{
    proof {
        reveal_strlit("Content-Length: ");
        reveal_strlit("\r\n");
    }
    let after_tag = match scan_literal(input, 0, "Content-Length: ", ErrorKind::Header) {
        Ok(end) => end,
        Err(error) => {
            return Err(error);
        },
    };
    assert(literal(input@, 0, length_tag(), ErrorKind::Header) == Scan::Next(after_tag as int));
    let after_digits = match scan_span1(input, after_tag, ByteClass::Digit, ErrorKind::Digits) {
        Ok(end) => end,
        Err(error) => {
            assert(header(input@) == span1(
                input@,
                after_tag as int,
                ByteClass::Digit,
                ErrorKind::Digits,
            ));
            return Err(error);
        },
    };
    assert(span1(input@, after_tag as int, ByteClass::Digit, ErrorKind::Digits) == Scan::Next(
        after_digits as int,
    ));
    let after_line = match scan_literal(input, after_digits, "\r\n", ErrorKind::LineEnd) {
        Ok(end) => end,
        Err(error) => {
            assert(header(input@) == literal(
                input@,
                after_digits as int,
                line_end(),
                ErrorKind::LineEnd,
            ));
            return Err(error);
        },
    };
    assert(literal(input@, after_digits as int, line_end(), ErrorKind::LineEnd) == Scan::Next(
        after_line as int,
    ));
    let after_type = match scan_content_type(input, after_line) {
        Ok(end) => end,
        Err(error) => {
            assert(header(input@) == content_type(input@, after_line as int));
            return Err(error);
        },
    };
    assert(content_type(input@, after_line as int) == Scan::Next(after_type as int));
    let start = match scan_literal(input, after_type, "\r\n", ErrorKind::LineEnd) {
        Ok(end) => end,
        Err(error) => {
            assert(header(input@) == literal(
                input@,
                after_type as int,
                line_end(),
                ErrorKind::LineEnd,
            ));
            return Err(error);
        },
    };
    assert(header(input@) == Scan::Next(start as int));
    proof {
        lemma_span_end(input@, after_tag as int, ByteClass::Digit);
        assert(after_tag == length_tag().len());
        assert(digits_end(input@) == after_digits);
    }
    let length = match parse_decimal(input, after_tag, after_digits) {
        Some(length) => length,
        None => {
            return Err(ParseFailure::Error { at: start, code: ErrorKind::TooLarge });
        },
    };
    assert(declared_length(input@) == length);
    if length > input.len() - start {
        return Err(ParseFailure::Incomplete(Needed::Size(length)));
    }
    let message = slice_subrange(input, start, start + length);
    let rest = slice_subrange(input, start + length, input.len());
    Ok((rest, message))
}

/// Where the input from `from` on is shorter than the literal that begins a
/// frame, no frame begins there or later.
pub proof fn lemma_no_room(input: Seq<u8>, from: int)
    requires
        from + length_tag().len() > input.len(),
    ensures
        next_message(input, from).is_none(),
    decreases input.len() - from,
{
    if 0 <= from < input.len() {
        lemma_no_room(input, from + 1);
    }
}

/// Finds the first place at which the literal that begins a frame stands.
pub fn find_next_message(input: &[u8]) -> (position: Option<usize>)
    ensures
        match position {
            Some(pos) => next_message(input@, 0) == Some(pos as int) && pos <= input.len(),
            None => next_message(input@, 0).is_none(),
        },
{
    proof {
        reveal_strlit("Content-Length: ");
    }
    let mut pos: usize = 0;
    while pos < input.len()
        invariant
            pos <= input.len(),
            next_message(input@, 0) == next_message(input@, pos as int),
            "Content-Length: ".is_ascii(),
        decreases input.len() - pos,
    {
        proof {
            assert(length_tag().take(length_tag().len() as int) =~= length_tag());
        }
        match scan_literal(input, pos, "Content-Length: ", ErrorKind::Header) {
            Ok(_) => {
                assert(starts_frame(input@, pos as int));
                return Some(pos);
            },
            Err(ParseFailure::Incomplete(_)) => {
                proof {
                    lemma_no_room(input@, pos as int);
                }
                return None;
            },
            Err(_) => {
                assert(!starts_frame(input@, pos as int));
            },
        }
        pos += 1;
    }
    None
}

} // verus!
