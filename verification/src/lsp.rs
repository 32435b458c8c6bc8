//! The message model of the Language Server Protocol, its transport and the
//! URI rewriting pass.
pub mod error;
pub mod ext;
pub mod framed;
pub mod json;
pub mod notification;
pub mod request;
pub mod response;
pub mod types;
pub mod uri;

use vstd::prelude::*;

use crate::lsp::error::error_json;
use crate::lsp::error::error_of;
use crate::lsp::error::lemma_error_round_trip;
use crate::lsp::error::Error;
use crate::lsp::json::lemma_lookup_finds;
use crate::lsp::json::lemma_lookup_misses;
use crate::lsp::json::Json;
use crate::lsp::json::JsonView;
use crate::lsp::notification::lemma_notification_method_of_name;
use crate::lsp::notification::notification_method;
pub use crate::lsp::notification::Notification;
use crate::lsp::notification::NotificationMethod;
use crate::lsp::notification::NotificationView;
use crate::lsp::request::lemma_request_method_of_name;
use crate::lsp::request::request_method;
pub use crate::lsp::request::Request;
use crate::lsp::request::RequestMethod;
use crate::lsp::request::RequestView;
pub use crate::lsp::response::Response;
pub use crate::lsp::response::ResponseResult;
use crate::lsp::response::ResponseView;
use crate::lsp::types::id_json;
use crate::lsp::types::id_of;
use crate::lsp::types::lemma_id_round_trip;
use crate::lsp::types::Id;
use crate::lsp::types::Unknown;

verus! {

/// A message of the protocol.
#[derive(Debug, PartialEq)]
pub enum Message {
    Request(Request),
    Notification(Notification),
    Response(Response),
    Unknown(Unknown),
}

/// What a message is.
pub ghost enum MessageView {
    Request(RequestView),
    Notification(NotificationView),
    Response(ResponseView),
    Unknown(JsonView),
}

impl View for Message {
    type V = MessageView;

    open spec fn view(&self) -> MessageView {
        match self {
            Message::Request(request) => MessageView::Request(request@),
            Message::Notification(notification) => MessageView::Notification(notification@),
            Message::Response(response) => MessageView::Response(response@),
            Message::Unknown(unknown) => MessageView::Unknown(unknown@),
        }
    }
}

/// The request or notification that a value with a `method` is, if it is
/// one: a request has a method of the request vocabulary, an ID and
/// parameters; a notification a method of the notification vocabulary and
/// parameters.
pub open spec fn call_of(json: JsonView, method: JsonView) -> Option<MessageView> {
    match method {
        JsonView::String(name) => {
            if request_method(name) is Some && json.has("id"@) && id_of(json.get("id"@)->0) is Some
                && json.has("params"@) {
                Some(
                    MessageView::Request(
                        RequestView {
                            id: id_of(json.get("id"@)->0)->0,
                            method: request_method(name)->0,
                            params: json.get("params"@)->0,
                        },
                    ),
                )
            } else if notification_method(name) is Some && json.has("params"@) {
                Some(
                    MessageView::Notification(
                        NotificationView {
                            method: notification_method(name)->0,
                            params: json.get("params"@)->0,
                        },
                    ),
                )
            } else {
                None
            }
        },
        _ => None,
    }
}

/// The response that a value without a `method` is, if it is one: a success
/// has a `result`, no `error` and an ID; a failure has an `error` that is an
/// error object, no `result`, and an ID, `null` for one, or none.
pub open spec fn response_of(json: JsonView) -> Option<MessageView> {
    match (json.get("result"@), json.get("error"@)) {
        (Some(result), None) => match json.get("id"@) {
            Some(id) => match id_of(id) {
                Some(id) => Some(MessageView::Response(ResponseView::Success { id, result })),
                None => None,
            },
            None => None,
        },
        (None, Some(error)) => match error_of(error) {
            Some(error) => match json.get("id"@) {
                None | Some(JsonView::Null) => Some(
                    MessageView::Response(ResponseView::Failure { id: None, error }),
                ),
                Some(id) => match id_of(id) {
                    Some(id) => Some(
                        MessageView::Response(ResponseView::Failure { id: Some(id), error }),
                    ),
                    None => None,
                },
            },
            None => None,
        },
        _ => None,
    }
}

/// The message that a JSON value is. A value with a `method` is a request
/// or a notification of the vocabulary, one without is a response; what is
/// none of them is an unknown message, which keeps the value.
pub open spec fn message_of(json: JsonView) -> MessageView {
    let known = match json.get("method"@) {
        Some(method) => call_of(json, method),
        None => response_of(json),
    };
    match known {
        Some(message) => message,
        None => MessageView::Unknown(json),
    }
}

/// The member that every message that the proxy writes begins with.
pub open spec fn version_member() -> (Seq<char>, JsonView) {
    ("jsonrpc"@, JsonView::String("2.0"@))
}

/// The JSON value of a message: for a known message the envelope with
/// `"jsonrpc": "2.0"`, for an unknown one the value that it keeps.
pub open spec fn message_json(message: MessageView) -> JsonView {
    match message {
        MessageView::Request(request) => JsonView::Object(
            seq![
                version_member(),
                ("method"@, JsonView::String(request.method.spec_name())),
                ("id"@, id_json(request.id)),
                ("params"@, request.params),
            ],
        ),
        MessageView::Notification(notification) => JsonView::Object(
            seq![
                version_member(),
                ("method"@, JsonView::String(notification.method.spec_name())),
                ("params"@, notification.params),
            ],
        ),
        MessageView::Response(ResponseView::Success { id, result }) => JsonView::Object(
            seq![version_member(), ("id"@, id_json(id)), ("result"@, result)],
        ),
        MessageView::Response(ResponseView::Failure { id, error }) => JsonView::Object(
            seq![
                version_member(),
                (
                    "id"@,
                    match id {
                        Some(id) => id_json(id),
                        None => JsonView::Null,
                    },
                ),
                ("error"@, error_json(error)),
            ],
        ),
        MessageView::Unknown(json) => json,
    }
}

fn call_from_json(json: &Json, method: &Json) -> (message: Option<Message>)
    ensures
        match message {
            Some(found) => call_of(json@, method@) == Some(found@),
            None => call_of(json@, method@) is None,
        },
{
    let name = match method.as_str() {
        Some(name) => name,
        None => {
            return None;
        },
    };
    let params = match json.get("params") {
        Some(params) => params,
        None => {
            return None;
        },
    };
    match RequestMethod::from_name(name) {
        Some(method) => match json.get("id") {
            Some(id) => match Id::from_json(id) {
                Some(id) => {
                    return Some(
                        Message::Request(Request { id, method, params: params.duplicate() }),
                    );
                },
                None => {},
            },
            None => {},
        },
        None => {},
    }
    match NotificationMethod::from_name(name) {
        Some(method) => Some(
            Message::Notification(Notification { method, params: params.duplicate() }),
        ),
        None => None,
    }
}

fn response_from_json(json: &Json) -> (message: Option<Message>)
    ensures
        match message {
            Some(found) => response_of(json@) == Some(found@),
            None => response_of(json@) is None,
        },
{
    match (json.get("result"), json.get("error")) {
        (Some(result), None) => match json.get("id") {
            Some(id) => match Id::from_json(id) {
                Some(id) => Some(
                    Message::Response(
                        Response::Success {
                            id,
                            result: ResponseResult::from_json(result.duplicate()),
                        },
                    ),
                ),
                None => None,
            },
            None => None,
        },
        (None, Some(error)) => match Error::from_json(error) {
            Some(error) => match json.get("id") {
                None => Some(Message::Response(Response::Failure { id: None, error })),
                Some(Json::Null) => Some(Message::Response(Response::Failure { id: None, error })),
                Some(id) => match Id::from_json(id) {
                    Some(id) => Some(
                        Message::Response(Response::Failure { id: Some(id), error }),
                    ),
                    None => None,
                },
            },
            None => None,
        },
        _ => None,
    }
}

impl Message {
    /// Reads a message from the JSON value that was sent.
    pub fn from_json(json: Json) -> (message: Message)
        ensures
            message@ == message_of(json@),
    {
        let known = match json.get("method") {
            Some(method) => call_from_json(&json, method),
            None => response_from_json(&json),
        };
        match known {
            Some(message) => message,
            None => Message::Unknown(Unknown(json)),
        }
    }

    /// The JSON value that is sent for the message.
    pub fn to_json(&self) -> (json: Json)
        ensures
            json@ == message_json(self@),
    {
        let version = ("jsonrpc".to_owned(), Json::string("2.0"));
        match self {
            Message::Request(request) => {
                let members = vec![
                    version,
                    ("method".to_owned(), Json::string(request.method.name())),
                    ("id".to_owned(), request.id.to_json()),
                    ("params".to_owned(), request.params.duplicate()),
                ];
                let json = Json::object(members);
                assert(json@->Object_0 =~= message_json(self@)->Object_0);
                json
            },
            Message::Notification(notification) => {
                let members = vec![
                    version,
                    ("method".to_owned(), Json::string(notification.method.name())),
                    ("params".to_owned(), notification.params.duplicate()),
                ];
                let json = Json::object(members);
                assert(json@->Object_0 =~= message_json(self@)->Object_0);
                json
            },
            Message::Response(Response::Success { id, result }) => {
                let members = vec![
                    version,
                    ("id".to_owned(), id.to_json()),
                    ("result".to_owned(), result.value().duplicate()),
                ];
                let json = Json::object(members);
                assert(json@->Object_0 =~= message_json(self@)->Object_0);
                json
            },
            Message::Response(Response::Failure { id, error }) => {
                let id = match id {
                    Some(id) => id.to_json(),
                    None => Json::Null,
                };
                let members = vec![
                    version,
                    ("id".to_owned(), id),
                    ("error".to_owned(), error.to_json()),
                ];
                let json = Json::object(members);
                assert(json@->Object_0 =~= message_json(self@)->Object_0);
                json
            },
            Message::Unknown(unknown) => unknown.0.duplicate(),
        }
    }
}

/// No notification has the name of a request.
pub proof fn lemma_notification_is_no_request(method: NotificationMethod)
    ensures
        request_method(method.spec_name()) is None,
{
    reveal_strlit("initialize");
    assert("initialize"@.len() == 10);
    reveal_strlit("shutdown");
    assert("shutdown"@.len() == 8);
    reveal_strlit("workspace/symbol");
    assert("workspace/symbol"@.len() == 16);
    reveal_strlit("workspace/executeCommand");
    assert("workspace/executeCommand"@.len() == 24);
    reveal_strlit("textDocument/willSaveWaitUntil");
    assert("textDocument/willSaveWaitUntil"@.len() == 30);
    reveal_strlit("textDocument/completion");
    assert("textDocument/completion"@.len() == 23);
    reveal_strlit("completionItem/resolve");
    assert("completionItem/resolve"@.len() == 22);
    reveal_strlit("textDocument/hover");
    assert("textDocument/hover"@.len() == 18);
    reveal_strlit("textDocument/signatureHelp");
    assert("textDocument/signatureHelp"@.len() == 26);
    reveal_strlit("textDocument/declaration");
    assert("textDocument/declaration"@.len() == 24);
    reveal_strlit("textDocument/definition");
    assert("textDocument/definition"@.len() == 23);
    reveal_strlit("textDocument/typeDefinition");
    assert("textDocument/typeDefinition"@.len() == 27);
    reveal_strlit("textDocument/implementation");
    assert("textDocument/implementation"@.len() == 27);
    reveal_strlit("textDocument/references");
    assert("textDocument/references"@.len() == 23);
    reveal_strlit("textDocument/documentHighlight");
    assert("textDocument/documentHighlight"@.len() == 30);
    reveal_strlit("textDocument/documentSymbol");
    assert("textDocument/documentSymbol"@.len() == 27);
    reveal_strlit("textDocument/codeAction");
    assert("textDocument/codeAction"@.len() == 23);
    reveal_strlit("textDocument/codeLens");
    assert("textDocument/codeLens"@.len() == 21);
    reveal_strlit("codeLens/resolve");
    assert("codeLens/resolve"@.len() == 16);
    reveal_strlit("textDocument/documentLink");
    assert("textDocument/documentLink"@.len() == 25);
    reveal_strlit("documentLink/resolve");
    assert("documentLink/resolve"@.len() == 20);
    reveal_strlit("textDocument/documentColor");
    assert("textDocument/documentColor"@.len() == 26);
    reveal_strlit("textDocument/colorPresentation");
    assert("textDocument/colorPresentation"@.len() == 30);
    reveal_strlit("textDocument/formatting");
    assert("textDocument/formatting"@.len() == 23);
    reveal_strlit("textDocument/rangeFormatting");
    assert("textDocument/rangeFormatting"@.len() == 28);
    reveal_strlit("textDocument/onTypeFormatting");
    assert("textDocument/onTypeFormatting"@.len() == 29);
    reveal_strlit("textDocument/rename");
    assert("textDocument/rename"@.len() == 19);
    reveal_strlit("textDocument/prepareRename");
    assert("textDocument/prepareRename"@.len() == 26);
    reveal_strlit("textDocument/foldingRange");
    assert("textDocument/foldingRange"@.len() == 25);
    reveal_strlit("textDocument/selectionRange");
    assert("textDocument/selectionRange"@.len() == 27);
    reveal_strlit("window/workDoneProgress/cancel");
    assert("window/workDoneProgress/cancel"@.len() == 30);
    reveal_strlit("window/showMessageRequest");
    assert("window/showMessageRequest"@.len() == 25);
    reveal_strlit("client/registerCapability");
    assert("client/registerCapability"@.len() == 25);
    reveal_strlit("client/unregisterCapability");
    assert("client/unregisterCapability"@.len() == 27);
    reveal_strlit("workspace/workspaceFolders");
    assert("workspace/workspaceFolders"@.len() == 26);
    reveal_strlit("workspace/configuration");
    assert("workspace/configuration"@.len() == 23);
    reveal_strlit("workspace/applyEdit");
    assert("workspace/applyEdit"@.len() == 19);
    reveal_strlit("window/workDoneProgress/create");
    assert("window/workDoneProgress/create"@.len() == 30);
    reveal_strlit("initialized");
    assert("initialized"@.len() == 11);
    reveal_strlit("exit");
    assert("exit"@.len() == 4);
    reveal_strlit("workspace/didChangeWorkspaceFolders");
    assert("workspace/didChangeWorkspaceFolders"@.len() == 35);
    reveal_strlit("workspace/didChangeConfiguration");
    assert("workspace/didChangeConfiguration"@.len() == 32);
    reveal_strlit("workspace/didChangeWatchedFiles");
    assert("workspace/didChangeWatchedFiles"@.len() == 31);
    reveal_strlit("textDocument/didOpen");
    assert("textDocument/didOpen"@.len() == 20);
    reveal_strlit("textDocument/didChange");
    assert("textDocument/didChange"@.len() == 22);
    reveal_strlit("textDocument/willSave");
    assert("textDocument/willSave"@.len() == 21);
    reveal_strlit("textDocument/didSave");
    assert("textDocument/didSave"@.len() == 20);
    reveal_strlit("textDocument/didClose");
    assert("textDocument/didClose"@.len() == 21);
    reveal_strlit("window/logMessage");
    assert("window/logMessage"@.len() == 17);
    reveal_strlit("window/showMessage");
    assert("window/showMessage"@.len() == 18);
    reveal_strlit("telemetry/event");
    assert("telemetry/event"@.len() == 15);
    reveal_strlit("textDocument/publishDiagnostics");
    assert("textDocument/publishDiagnostics"@.len() == 31);
    reveal_strlit("$/progress");
    assert("$/progress"@.len() == 10);
    reveal_strlit("$/cancelRequest");
    assert("$/cancelRequest"@.len() == 15);
    match method {
        NotificationMethod::Initialized => {},
        NotificationMethod::Exit => {},
        NotificationMethod::DidChangeWorkspaceFolders => {},
        NotificationMethod::DidChangeConfiguration => {},
        NotificationMethod::DidChangeWatchedFiles => {},
        NotificationMethod::DidOpen => {
            assert("textDocument/didOpen"@[0] != "documentLink/resolve"@[0]);
        },
        NotificationMethod::DidChange => {
            assert("textDocument/didChange"@[0] != "completionItem/resolve"@[0]);
        },
        NotificationMethod::WillSave => {
            assert("textDocument/willSave"@[13] != "textDocument/codeLens"@[13]);
        },
        NotificationMethod::DidSave => {
            assert("textDocument/didSave"@[0] != "documentLink/resolve"@[0]);
        },
        NotificationMethod::DidClose => {
            assert("textDocument/didClose"@[13] != "textDocument/codeLens"@[13]);
        },
        NotificationMethod::LogMessage => {},
        NotificationMethod::ShowMessage => {
            assert("window/showMessage"@[0] != "textDocument/hover"@[0]);
        },
        NotificationMethod::TelemetryEvent => {},
        NotificationMethod::PublishDiagnostics => {},
        NotificationMethod::Progress => {
            assert("$/progress"@[0] != "initialize"@[0]);
        },
        NotificationMethod::CancelRequest => {},
    }
}

/// Whether a message is one that reading gives: an error code is the one
/// that its integer stands for.
pub open spec fn is_canonical(message: MessageView) -> bool {
    match message {
        MessageView::Response(ResponseView::Failure { error, .. }) => error.code.is_canonical(),
        _ => true,
    }
}

/// A known message that is written and read again is as it was.
pub proof fn lemma_message_round_trip(message: MessageView)
    requires
        !(message is Unknown),
        is_canonical(message),
    ensures
        message_of(message_json(message)) == message,
{
    reveal_strlit("jsonrpc");
    reveal_strlit("method");
    reveal_strlit("id");
    reveal_strlit("params");
    reveal_strlit("result");
    reveal_strlit("error");
    assert("jsonrpc"@.len() == 7 && "method"@.len() == 6 && "id"@.len() == 2 && "params"@.len()
        == 6 && "result"@.len() == 6 && "error"@.len() == 5);
    assert("method"@[0] != "params"@[0] && "method"@[0] != "result"@[0] && "params"@[0]
        != "result"@[0]);
    let json = message_json(message);
    let members = json->Object_0;
    match message {
        MessageView::Request(request) => {
            lemma_lookup_finds(members, "method"@, 0, 1);
            lemma_lookup_finds(members, "id"@, 0, 2);
            lemma_lookup_finds(members, "params"@, 0, 3);
            lemma_request_method_of_name(request.method);
            lemma_id_round_trip(request.id);
        },
        MessageView::Notification(notification) => {
            lemma_lookup_finds(members, "method"@, 0, 1);
            lemma_lookup_finds(members, "params"@, 0, 2);
            lemma_notification_method_of_name(notification.method);
            lemma_notification_is_no_request(notification.method);
        },
        MessageView::Response(ResponseView::Success { id, result }) => {
            lemma_lookup_misses(members, "method"@, 0);
            lemma_lookup_misses(members, "error"@, 0);
            lemma_lookup_finds(members, "id"@, 0, 1);
            lemma_lookup_finds(members, "result"@, 0, 2);
            lemma_id_round_trip(id);
        },
        MessageView::Response(ResponseView::Failure { id, error }) => {
            lemma_lookup_misses(members, "method"@, 0);
            lemma_lookup_misses(members, "result"@, 0);
            lemma_lookup_finds(members, "id"@, 0, 1);
            lemma_lookup_finds(members, "error"@, 0, 2);
            lemma_error_round_trip(error);
            match id {
                Some(id) => {
                    lemma_id_round_trip(id);
                },
                None => {},
            }
        },
        MessageView::Unknown(_) => {},
    }
}

/// A value that is read as an unknown message is written as it was read.
pub proof fn lemma_unknown_is_kept(json: JsonView)
    requires
        message_of(json) is Unknown,
    ensures
        message_json(message_of(json)) == json,
{
}

} // verus!
