//! Small types of the message model.
use vstd::prelude::*;

use crate::lsp::json::Json;
use crate::lsp::json::JsonView;
use crate::lsp::json::Number;
use crate::lsp::json::NumberView;
use crate::text::debug_text;
use crate::text::decimal;
use crate::text::decimal_text;
use crate::text::quoted;

verus! {

/// Request ID
#[derive(Debug, PartialEq)]
pub enum Id {
    /// Numeric ID.
    Number(u64),
    /// String ID.
    String(String),
}

/// What a request ID is.
pub ghost enum IdView {
    Number(u64),
    String(Seq<char>),
}

impl View for Id {
    type V = IdView;

    open spec fn view(&self) -> IdView {
        match self {
            Id::Number(number) => IdView::Number(*number),
            Id::String(text) => IdView::String(text@),
        }
    }
}

/// The ID that a JSON value is: an integer that is not negative and fits
/// sixty-four bits, or a string.
pub open spec fn id_of(json: JsonView) -> Option<IdView> {
    match json {
        JsonView::Number(NumberView::PosInt(number)) => Some(IdView::Number(number)),
        JsonView::String(text) => Some(IdView::String(text)),
        _ => None,
    }
}

/// The JSON value of an ID.
pub open spec fn id_json(id: IdView) -> JsonView {
    match id {
        IdView::Number(number) => JsonView::Number(NumberView::PosInt(number)),
        IdView::String(text) => JsonView::String(text),
    }
}

impl Id {
    /// Reads an ID.
    pub fn from_json(json: &Json) -> (id: Option<Id>)
        ensures
            match id {
                Some(found) => id_of(json@) == Some(found@),
                None => id_of(json@) is None,
            },
    {
        match json {
            Json::Number(Number::PosInt(number)) => Some(Id::Number(*number)),
            Json::String(text) => Some(Id::String(text.clone())),
            _ => None,
        }
    }

    /// Writes the ID.
    pub fn to_json(&self) -> (json: Json)
        ensures
            json@ == id_json(self@),
    {
        match self {
            Id::Number(number) => Json::Number(Number::PosInt(*number)),
            Id::String(text) => Json::String(text.clone()),
        }
    }

    /// The ID as it is shown: a number in base ten, a string in quotes.
    pub fn to_text(&self) -> (text: String)
        ensures
            text@ == match self@ {
                IdView::Number(number) => decimal_text(number as nat),
                IdView::String(id) => debug_text(id),
            },
    {
        match self {
            Id::Number(id) => decimal(*id),
            Id::String(id) => quoted(id.as_str()),
        }
    }

    /// A copy of this ID.
    pub fn duplicate(&self) -> (copy: Id)
        ensures
            copy@ == self@,
    {
        match self {
            Id::Number(number) => Id::Number(*number),
            Id::String(text) => Id::String(text.clone()),
        }
    }
}

/// An ID is the one that its JSON value is read as.
pub proof fn lemma_id_round_trip(id: IdView)
    ensures
        id_of(id_json(id)) == Some(id),
{
}

/// Parameters for Request and Notification.
#[derive(Debug, PartialEq)]
pub enum Params {
    Array(Vec<Json>),
    Object(Vec<(String, Json)>),
}

/// Unknown message type: any JSON value that is none of the known messages,
/// kept as it is.
#[derive(Debug, PartialEq)]
pub struct Unknown(pub Json);

impl View for Unknown {
    type V = JsonView;

    open spec fn view(&self) -> JsonView {
        self.0@
    }
}

} // verus!
