//! Error codes and error objects of JSON-RPC.
use vstd::prelude::*;
use vstd::std_specs::convert::FromSpecImpl;

use crate::lsp::json::lemma_lookup_finds;
use crate::lsp::json::lemma_lookup_misses;
use crate::lsp::json::members_view;
use crate::lsp::json::Json;
use crate::lsp::json::JsonView;
use crate::lsp::json::Number;
use crate::lsp::json::NumberView;
use crate::text::same_text;

verus! {

/// A numeric error code of a JSON-RPC response.
#[derive(Clone, Copy, Debug, PartialEq, Eq, Structural)]
pub enum ErrorCode {
    /// Invalid JSON was received by the server.
    ParseError,
    /// The JSON sent is not a valid request object.
    InvalidRequest,
    /// The method does not exist or is not available.
    MethodNotFound,
    /// Invalid method parameters.
    InvalidParams,
    /// Internal JSON-RPC error.
    InternalError,
    /// Any other code: an implementation-defined server error.
    ServerError(i64),
    /// The request was cancelled by the client.
    RequestCancelled,
    /// The request was invalidated by another incoming request.
    ContentModified,
}

/// The error code that stands for an integer: one of the seven named codes
/// where the integer is theirs, a server error with that integer otherwise.
pub open spec fn error_code_of(code: int) -> ErrorCode {
    if code == -32700 {
        ErrorCode::ParseError
    } else if code == -32600 {
        ErrorCode::InvalidRequest
    } else if code == -32601 {
        ErrorCode::MethodNotFound
    } else if code == -32602 {
        ErrorCode::InvalidParams
    } else if code == -32603 {
        ErrorCode::InternalError
    } else if code == -32800 {
        ErrorCode::RequestCancelled
    } else if code == -32801 {
        ErrorCode::ContentModified
    } else {
        ErrorCode::ServerError(code as i64)
    }
}

impl ErrorCode {
    /// The integer of this code.
    pub open spec fn spec_code(self) -> int {
        match self {
            ErrorCode::ParseError => -32700,
            ErrorCode::InvalidRequest => -32600,
            ErrorCode::MethodNotFound => -32601,
            ErrorCode::InvalidParams => -32602,
            ErrorCode::InternalError => -32603,
            ErrorCode::RequestCancelled => -32800,
            ErrorCode::ContentModified => -32801,
            ErrorCode::ServerError(code) => code as int,
        }
    }

    /// The description of this code.
    pub open spec fn spec_description(self) -> Seq<char> {
        match self {
            ErrorCode::ParseError => "Parse error"@,
            ErrorCode::InvalidRequest => "Invalid request"@,
            ErrorCode::MethodNotFound => "Method not found"@,
            ErrorCode::InvalidParams => "Invalid params"@,
            ErrorCode::InternalError => "Internal error"@,
            ErrorCode::RequestCancelled => "Canceled"@,
            ErrorCode::ContentModified => "Content modified"@,
            ErrorCode::ServerError(_) => "Server error"@,
        }
    }

    /// A code is canonical when it is the one that its own integer stands
    /// for: a server error never carries the integer of a named code.
    pub open spec fn is_canonical(self) -> bool {
        error_code_of(self.spec_code()) == self
    }

    /// Returns the integer error code value.
    #[inline]
    pub fn code(&self) -> (code: i64)
        ensures
            code == self.spec_code(),
    {
        match *self {
            ErrorCode::ParseError => -32700,
            ErrorCode::InvalidRequest => -32600,
            ErrorCode::MethodNotFound => -32601,
            ErrorCode::InvalidParams => -32602,
            ErrorCode::InternalError => -32603,
            ErrorCode::RequestCancelled => -32800,
            ErrorCode::ContentModified => -32801,
            ErrorCode::ServerError(code) => code,
        }
    }

    /// Returns a human-readable description of the error.
    #[inline]
    pub fn description(&self) -> (text: &'static str)
        ensures
            text@ == self.spec_description(),
    {
        match *self {
            ErrorCode::ParseError => "Parse error",
            ErrorCode::InvalidRequest => "Invalid request",
            ErrorCode::MethodNotFound => "Method not found",
            ErrorCode::InvalidParams => "Invalid params",
            ErrorCode::InternalError => "Internal error",
            ErrorCode::RequestCancelled => "Canceled",
            ErrorCode::ContentModified => "Content modified",
            ErrorCode::ServerError(_) => "Server error",
        }
    }
}

impl From<i64> for ErrorCode {
    #[inline]
    fn from(code: i64) -> (error_code: ErrorCode) {
        match code {
            -32700 => ErrorCode::ParseError,
            -32600 => ErrorCode::InvalidRequest,
            -32601 => ErrorCode::MethodNotFound,
            -32602 => ErrorCode::InvalidParams,
            -32603 => ErrorCode::InternalError,
            -32800 => ErrorCode::RequestCancelled,
            -32801 => ErrorCode::ContentModified,
            code => ErrorCode::ServerError(code),
        }
    }
}

impl FromSpecImpl<i64> for ErrorCode {
    open spec fn obeys_from_spec() -> bool {
        true
    }

    open spec fn from_spec(code: i64) -> ErrorCode {
        error_code_of(code as int)
    }
}

/// Every integer is the integer of the code that stands for it.
pub proof fn lemma_code_of_integer(code: i64)
    ensures
        error_code_of(code as int).spec_code() == code,
        error_code_of(code as int).is_canonical(),
{
}

/// A JSON-RPC error object.
#[derive(Debug, PartialEq)]
pub struct Error {
    /// A number indicating the error type that occurred.
    pub code: ErrorCode,
    /// A short description of the error.
    pub message: String,
    /// Additional information about the error, if any.
    pub data: Option<Json>,
}

/// What an error object is.
pub ghost struct ErrorView {
    pub code: ErrorCode,
    pub message: Seq<char>,
    pub data: Option<JsonView>,
}

impl View for Error {
    type V = ErrorView;

    open spec fn view(&self) -> ErrorView {
        ErrorView {
            code: self.code,
            message: self.message@,
            data: match self.data {
                Some(data) => Some(data@),
                None => None,
            },
        }
    }
}

/// The integer that a JSON value is, where it is one of sixty-four bits
/// with a sign.
pub open spec fn integer_of(json: JsonView) -> Option<i64> {
    match json {
        JsonView::Number(NumberView::PosInt(number)) => if number <= i64::MAX {
            Some(number as i64)
        } else {
            None
        },
        JsonView::Number(NumberView::NegInt(number)) => Some(number),
        _ => None,
    }
}

/// The JSON value of an integer.
pub open spec fn integer_json(number: i64) -> JsonView {
    if number >= 0 {
        JsonView::Number(NumberView::PosInt(number as u64))
    } else {
        JsonView::Number(NumberView::NegInt(number))
    }
}

/// Whether a key is one of an error object.
pub open spec fn is_error_key(key: Seq<char>) -> bool {
    key == "code"@ || key == "message"@ || key == "data"@
}

/// The error object that a JSON value is: an object with an integer
/// `code`, a string `message`, maybe `data`, and no other member.
pub open spec fn error_of(json: JsonView) -> Option<ErrorView> {
    match json {
        JsonView::Object(members) => {
            if (forall|i: int| 0 <= i < members.len() ==> is_error_key(#[trigger] members[i].0)) {
                match (json.get("code"@), json.get("message"@)) {
                    (Some(code), Some(JsonView::String(message))) => match integer_of(code) {
                        Some(number) => Some(
                            ErrorView {
                                code: error_code_of(number as int),
                                message,
                                data: json.get("data"@),
                            },
                        ),
                        None => None,
                    },
                    _ => None,
                }
            } else {
                None
            }
        },
        _ => None,
    }
}

/// The JSON value of an error object.
pub open spec fn error_json(error: ErrorView) -> JsonView {
    let head = seq![
        ("code"@, integer_json(error.code.spec_code() as i64)),
        ("message"@, JsonView::String(error.message)),
    ];
    match error.data {
        Some(data) => JsonView::Object(head.push(("data"@, data))),
        None => JsonView::Object(head),
    }
}

fn integer_from_json(json: &Json) -> (number: Option<i64>)
    ensures
        number == integer_of(json@),
{
    match json {
        Json::Number(Number::PosInt(number)) => if *number <= 0x7fff_ffff_ffff_ffff {
            Some(*number as i64)
        } else {
            None
        },
        Json::Number(Number::NegInt(number)) => Some(*number),
        _ => None,
    }
}

fn integer_to_json(number: i64) -> (json: Json)
    ensures
        json@ == integer_json(number),
{
    if number >= 0 {
        Json::Number(Number::PosInt(number as u64))
    } else {
        Json::Number(Number::NegInt(number))
    }
}

impl Error {
    /// Reads an error object.
    pub fn from_json(json: &Json) -> (error: Option<Error>)
        ensures
            match error {
                Some(found) => error_of(json@) == Some(found@),
                None => error_of(json@) is None,
            },
    {
        let members = match json.as_object() {
            Some(members) => members,
            None => {
                return None;
            },
        };
        let mut i: usize = 0;
        while i < members.len()
            invariant
                i <= members.len(),
                json@ == JsonView::Object(members_view(members@)),
                forall|j: int| 0 <= j < i ==> is_error_key(#[trigger] members_view(members@)[j].0),
            decreases members.len() - i,
        {
            let key = members[i].0.as_str();
            if !(same_text(key, "code") || same_text(key, "message") || same_text(key, "data")) {
                assert(!is_error_key(members_view(members@)[i as int].0));
                return None;
            }
            i += 1;
        }
        let code = match json.get("code") {
            Some(code) => match integer_from_json(code) {
                Some(number) => ErrorCode::from(number),
                None => {
                    return None;
                },
            },
            None => {
                return None;
            },
        };
        let message = match json.get("message") {
            Some(message) => match message.as_str() {
                Some(text) => text.to_owned(),
                None => {
                    return None;
                },
            },
            None => {
                return None;
            },
        };
        let data = match json.get("data") {
            Some(data) => Some(data.duplicate()),
            None => None,
        };
        Some(Error { code, message, data })
    }

    /// Writes the error object.
    pub fn to_json(&self) -> (json: Json)
        ensures
            json@ == error_json(self@),
    {
        let mut members: Vec<(String, Json)> = Vec::new();
        members.push(("code".to_owned(), integer_to_json(self.code.code())));
        members.push(("message".to_owned(), Json::String(self.message.clone())));
        match &self.data {
            Some(data) => {
                members.push(("data".to_owned(), data.duplicate()));
            },
            None => {},
        }
        let json = Json::object(members);
        proof {
            assert(json@->Object_0 =~= error_json(self@)->Object_0);
        }
        json
    }

    /// A copy of this error object.
    pub fn duplicate(&self) -> (copy: Error)
        ensures
            copy@ == self@,
    {
        Error {
            code: self.code,
            message: self.message.clone(),
            data: match &self.data {
                Some(data) => Some(data.duplicate()),
                None => None,
            },
        }
    }
}

/// An error object whose code is canonical is the one that its JSON value
/// is read as.
pub proof fn lemma_error_round_trip(error: ErrorView)
    requires
        error.code.is_canonical(),
    ensures
        error_of(error_json(error)) == Some(error),
{
    reveal_strlit("code");
    reveal_strlit("message");
    reveal_strlit("data");
    let json = error_json(error);
    let members = json->Object_0;
    assert("code"@.len() == 4 && "message"@.len() == 7 && "data"@.len() == 4);
    assert("code"@[0] != "data"@[0]);
    lemma_lookup_finds(members, "code"@, 0, 0);
    lemma_lookup_finds(members, "message"@, 0, 1);
    match error.data {
        Some(data) => {
            lemma_lookup_finds(members, "data"@, 0, 2);
        },
        None => {
            lemma_lookup_misses(members, "data"@, 0);
        },
    }
    assert(integer_of(integer_json(error.code.spec_code() as i64)) == Some(
        error.code.spec_code() as i64,
    ));
}

} // verus!
