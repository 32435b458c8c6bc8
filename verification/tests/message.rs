use lsp_ws_proxy::lsp::error::Error;
use lsp_ws_proxy::lsp::error::ErrorCode;
use lsp_ws_proxy::lsp::json::Json;
use lsp_ws_proxy::lsp::json::Number;
use lsp_ws_proxy::lsp::notification::Notification;
use lsp_ws_proxy::lsp::notification::NotificationMethod;
use lsp_ws_proxy::lsp::request::Request;
use lsp_ws_proxy::lsp::request::RequestMethod;
use lsp_ws_proxy::lsp::response::classify;
use lsp_ws_proxy::lsp::response::Response;
use lsp_ws_proxy::lsp::response::ResponseResult;
use lsp_ws_proxy::lsp::response::ResultKind;
use lsp_ws_proxy::lsp::types::Id;
use lsp_ws_proxy::lsp::types::Unknown;
use lsp_ws_proxy::lsp::Message;
use lsp_types::CodeActionOrCommand;
use lsp_types::DocumentLink;
use lsp_types::Location;
use lsp_types::LocationLink;
use lsp_types::SymbolInformation;
use lsp_types::WorkspaceEdit;
use lsp_types::WorkspaceFolder;
use serde_json::from_value;
use serde_json::Value;

fn json(value: &Value) -> Json {
    match value {
        Value::Null => Json::Null,
        Value::Bool(b) => Json::Bool(*b),
        Value::Number(n) => Json::Number(match (n.as_u64(), n.as_i64()) {
            (Some(n), _) => Number::PosInt(n),
            (None, Some(n)) => Number::NegInt(n),
            (None, None) => Number::Float(n.to_string()),
        }),
        Value::String(s) => Json::String(s.clone()),
        Value::Array(items) => Json::Array(items.iter().map(json).collect()),
        Value::Object(members) => {
            Json::Object(members.iter().map(|(k, v)| (k.clone(), json(v))).collect())
        }
    }
}

fn value(json: &Json) -> Value {
    match json {
        Json::Null => Value::Null,
        Json::Bool(b) => Value::Bool(*b),
        Json::Number(Number::PosInt(n)) => Value::from(*n),
        Json::Number(Number::NegInt(n)) => Value::from(*n),
        Json::Number(Number::Float(text)) => serde_json::from_str(text).unwrap(),
        Json::String(s) => Value::String(s.clone()),
        Json::Array(items) => Value::Array(items.iter().map(value).collect()),
        Json::Object(members) => {
            let mut map = serde_json::Map::new();
            for (k, v) in members {
                map.insert(k.clone(), value(v));
            }
            Value::Object(map)
        }
    }
}

fn object(members: Vec<(&str, Value)>) -> Value {
    let mut map = serde_json::Map::new();
    for (k, v) in members {
        map.insert(k.to_string(), v);
    }
    Value::Object(map)
}

fn from_text(text: &str) -> Message {
    Message::from_json(json(&serde_json::from_str::<Value>(text).unwrap()))
}

#[test]
fn test_request_from_str_or_value() {
    let v = object(vec![
        ("jsonrpc", Value::from("2.0")),
        ("method", Value::from("initialize")),
        ("params", object(vec![("capabilities", object(vec![]))])),
        ("id", Value::from(1)),
    ]);
    let from_str: Message = from_text(&v.to_string());
    let from_value: Message = Message::from_json(json(&v));
    assert_eq!(from_str, from_value);
    assert_eq!(
        from_value,
        Message::Request(Request {
            id: Id::Number(1),
            method: RequestMethod::Initialize,
            params: json(&object(vec![("capabilities", object(vec![]))])),
        })
    );
}

#[test]
fn test_notification_from_str_or_value() {
    let v = object(vec![
        ("jsonrpc", Value::from("2.0")),
        ("method", Value::from("initialized")),
        ("params", object(vec![])),
    ]);
    let from_str: Message = from_text(&v.to_string());
    let from_value: Message = Message::from_json(json(&v));
    assert_eq!(from_str, from_value);
    assert_eq!(
        from_value,
        Message::Notification(Notification {
            method: NotificationMethod::Initialized,
            params: Json::Object(vec![]),
        })
    );
}

#[test]
fn test_response_from_str_or_value() {
    let v = object(vec![
        ("jsonrpc", Value::from("2.0")),
        ("result", object(vec![])),
        ("id", Value::from(1)),
    ]);
    let from_str: Message = from_text(&v.to_string());
    let from_value: Message = Message::from_json(json(&v));
    assert_eq!(from_str, from_value);
    match from_value {
        Message::Response(Response::Success { id, result }) => {
            assert_eq!(id, Id::Number(1));
            assert_eq!(result.kind(), ResultKind::Any);
            assert_eq!(result.value(), &Json::Object(vec![]));
        }
        other => panic!("expected a success, got {:?}", other),
    }
}

#[test]
fn test_deserialize_unknown() {
    let v = object(vec![
        ("jsonrpc", Value::from("2.0")),
        ("method", Value::from("xinitialize")),
        ("params", object(vec![("capabilities", object(vec![]))])),
        ("id", Value::from(1)),
    ]);
    let from_str: Message = from_text(&v.to_string());
    let from_value: Message = Message::from_json(json(&v));
    assert_eq!(from_str, from_value);
    assert_eq!(from_value, Message::Unknown(Unknown(json(&v))));
}

#[test]
fn test_serialize_unknown_notification() {
    let v = object(vec![
        ("jsonrpc", Value::from("2.0")),
        ("method", Value::from("language/status")),
        ("params", object(vec![("message", Value::from(""))])),
    ]);
    let s = v.to_string();
    let from_value: Message = Message::from_json(json(&v));
    assert_eq!(value(&from_value.to_json()).to_string(), s);
}

#[test]
fn request_is_written_with_version_method_id_and_params() {
    let request = Message::Request(Request {
        id: Id::String("a".to_string()),
        method: RequestMethod::Hover,
        params: Json::Object(vec![]),
    });
    assert_eq!(
        request.to_json(),
        Json::Object(vec![
            ("jsonrpc".to_string(), Json::String("2.0".to_string())),
            ("method".to_string(), Json::String("textDocument/hover".to_string())),
            ("id".to_string(), Json::String("a".to_string())),
            ("params".to_string(), Json::Object(vec![])),
        ])
    );
}

#[test]
fn known_messages_round_trip() {
    let messages = vec![
        Message::Request(Request {
            id: Id::Number(7),
            method: RequestMethod::ApplyEdit,
            params: Json::Object(vec![("edit".to_string(), Json::Object(vec![]))]),
        }),
        Message::Notification(Notification {
            method: NotificationMethod::ShowMessage,
            params: Json::Array(vec![Json::Bool(true)]),
        }),
        Message::Response(Response::Success {
            id: Id::String("x".to_string()),
            result: ResponseResult::from_json(Json::Null),
        }),
        Message::Response(Response::Failure {
            id: None,
            error: Error {
                code: ErrorCode::MethodNotFound,
                message: "no".to_string(),
                data: Some(Json::Number(Number::NegInt(-1))),
            },
        }),
        Message::Response(Response::Failure {
            id: Some(Id::Number(3)),
            error: Error { code: ErrorCode::ServerError(5), message: "".to_string(), data: None },
        }),
    ];
    for message in messages {
        assert_eq!(Message::from_json(message.to_json()), message);
    }
}

#[test]
fn every_method_is_found_by_its_name() {
    assert_eq!(RequestMethod::from_name("workspace/applyEdit"), Some(RequestMethod::ApplyEdit));
    assert_eq!(RequestMethod::from_name("shutdown"), Some(RequestMethod::Shutdown));
    assert_eq!(RequestMethod::from_name("window/showMessage"), None);
    assert_eq!(
        NotificationMethod::from_name("window/showMessage"),
        Some(NotificationMethod::ShowMessage)
    );
    assert_eq!(NotificationMethod::from_name("$/progress"), Some(NotificationMethod::Progress));
    assert_eq!(NotificationMethod::from_name("initialize"), None);
    assert_eq!(RequestMethod::Completion.name(), "textDocument/completion");
    assert_eq!(NotificationMethod::DidSave.name(), "textDocument/didSave");
}

#[test]
fn request_without_id_or_params_is_unknown() {
    let no_id = r#"{"jsonrpc":"2.0","method":"initialize","params":{}}"#;
    assert!(matches!(from_text(no_id), Message::Unknown(_)));
    let no_params = r#"{"jsonrpc":"2.0","method":"initialize","id":1}"#;
    assert!(matches!(from_text(no_params), Message::Unknown(_)));
    let bad_id = r#"{"jsonrpc":"2.0","method":"initialize","id":1.5,"params":{}}"#;
    assert!(matches!(from_text(bad_id), Message::Unknown(_)));
    let negative_id = r#"{"jsonrpc":"2.0","method":"initialize","id":-1,"params":{}}"#;
    assert!(matches!(from_text(negative_id), Message::Unknown(_)));
    assert!(matches!(from_text("[1,2]"), Message::Unknown(_)));
}

#[test]
fn response_with_both_or_neither_is_unknown() {
    let both = r#"{"jsonrpc":"2.0","id":1,"result":1,"error":{"code":1,"message":"m"}}"#;
    assert!(matches!(from_text(both), Message::Unknown(_)));
    let neither = r#"{"jsonrpc":"2.0","id":1}"#;
    assert!(matches!(from_text(neither), Message::Unknown(_)));
    let extra = r#"{"jsonrpc":"2.0","id":1,"error":{"code":1,"message":"m","more":1}}"#;
    assert!(matches!(from_text(extra), Message::Unknown(_)));
}

#[test]
fn failure_may_have_a_null_id() {
    let text = r#"{"jsonrpc":"2.0","id":null,"error":{"code":-32700,"message":"bad"}}"#;
    assert_eq!(
        from_text(text),
        Message::Response(Response::Failure {
            id: None,
            error: Error { code: ErrorCode::ParseError, message: "bad".to_string(), data: None },
        })
    );
}

#[test]
fn error_codes_have_their_integers() {
    let named = [
        (ErrorCode::ParseError, -32700, "Parse error"),
        (ErrorCode::InvalidRequest, -32600, "Invalid request"),
        (ErrorCode::MethodNotFound, -32601, "Method not found"),
        (ErrorCode::InvalidParams, -32602, "Invalid params"),
        (ErrorCode::InternalError, -32603, "Internal error"),
        (ErrorCode::RequestCancelled, -32800, "Canceled"),
        (ErrorCode::ContentModified, -32801, "Content modified"),
        (ErrorCode::ServerError(17), 17, "Server error"),
    ];
    for (code, number, description) in named {
        assert_eq!(code.code(), number);
        assert_eq!(ErrorCode::from(number), code);
        assert_eq!(code.description(), description);
    }
}

#[test]
fn results_have_the_first_shape_that_fits() {
    let shape = |text: &str| classify(&json(&serde_json::from_str::<Value>(text).unwrap()));
    assert_eq!(shape("[]"), ResultKind::SymbolInfos);
    assert_eq!(
        shape(r#"[{"name":"a","kind":1,"location":{"uri":"file:///a","range":{}}}]"#),
        ResultKind::SymbolInfos
    );
    assert_eq!(
        shape(r#"[{"targetUri":"file:///a","targetRange":{},"targetSelectionRange":{}}]"#),
        ResultKind::LocationLinks
    );
    assert_eq!(shape(r#"[{"uri":"file:///a","range":{}}]"#), ResultKind::Locations);
    assert_eq!(shape(r#"[{"uri":"file:///a","range":{},"name":"x"}]"#), ResultKind::Locations);
    assert_eq!(shape(r#"{"uri":"file:///a","range":{}}"#), ResultKind::Location);
    assert_eq!(shape(r#"[{"uri":"file:///a","name":"a"}]"#), ResultKind::WorkspaceFolders);
    assert_eq!(
        shape(r#"[{"range":{},"target":"file:///a"}]"#),
        ResultKind::DocumentLinkWithTarget
    );
    assert_eq!(
        shape(r#"{"range":{},"target":"file:///a"}"#),
        ResultKind::DocumentLinkWithTargetResolve
    );
    assert_eq!(shape(r#"{"range":{}}"#), ResultKind::Any);
    assert_eq!(shape(r#"[{"title":"t","command":"c"}]"#), ResultKind::CodeAction);
    assert_eq!(
        shape(r#"{"changes":{},"documentChanges":[]}"#),
        ResultKind::WorkspaceEditWithBoth
    );
    assert_eq!(shape(r#"{"changes":{}}"#), ResultKind::WorkspaceEditWithChanges);
    assert_eq!(
        shape(r#"{"documentChanges":[]}"#),
        ResultKind::WorkspaceEditWithDocumentChanges
    );
    assert_eq!(shape("null"), ResultKind::Any);
    assert_eq!(shape(r#"[{"uri":"file:///a","range":{}}, 1]"#), ResultKind::Any);
}

#[test]
fn json_values_are_looked_up_and_copied() {
    let value = json(&serde_json::from_str::<Value>(r#"{"a":[1,-2,1.5,"x",null,true]}"#).unwrap());
    assert_eq!(value.duplicate(), value);
    let items = value.get("a").unwrap().as_array().unwrap();
    assert_eq!(items[0], Json::Number(Number::PosInt(1)));
    assert_eq!(items[1], Json::Number(Number::NegInt(-2)));
    assert_eq!(items[2], Json::Number(Number::Float("1.5".to_string())));
    assert_eq!(items[3].as_str(), Some("x"));
    assert!(value.get("b").is_none());
    assert!(value.as_object().is_some());
    assert!(items[4].as_object().is_none());
}

fn typed_shape(value: &Value) -> ResultKind {
    let links = |links: &Vec<DocumentLink>| links.iter().all(|link| link.target.is_some());
    if from_value::<Vec<SymbolInformation>>(value.clone()).is_ok() {
        ResultKind::SymbolInfos
    } else if from_value::<Vec<LocationLink>>(value.clone()).is_ok() {
        ResultKind::LocationLinks
    } else if from_value::<Vec<Location>>(value.clone()).is_ok() {
        ResultKind::Locations
    } else if from_value::<Location>(value.clone()).is_ok() {
        ResultKind::Location
    } else if from_value::<Vec<WorkspaceFolder>>(value.clone()).is_ok() {
        ResultKind::WorkspaceFolders
    } else if from_value::<Vec<DocumentLink>>(value.clone()).map_or(false, |found| links(&found)) {
        ResultKind::DocumentLinkWithTarget
    } else if from_value::<DocumentLink>(value.clone()).map_or(false, |link| links(&vec![link])) {
        ResultKind::DocumentLinkWithTargetResolve
    } else if from_value::<Vec<CodeActionOrCommand>>(value.clone()).is_ok() {
        ResultKind::CodeAction
    } else {
        match from_value::<WorkspaceEdit>(value.clone()) {
            Ok(edit) => match (edit.changes.is_some(), edit.document_changes.is_some()) {
                (true, true) => ResultKind::WorkspaceEditWithBoth,
                (true, false) => ResultKind::WorkspaceEditWithChanges,
                (false, true) => ResultKind::WorkspaceEditWithDocumentChanges,
                (false, false) => ResultKind::Any,
            },
            Err(_) => ResultKind::Any,
        }
    }
}

#[test]
fn results_of_the_protocol_have_the_shape_of_their_type() {
    let range = r#"{"start":{"line":0,"character":0},"end":{"line":0,"character":1}}"#;
    let samples = [
        "[]".to_string(),
        format!(r#"[{{"name":"n","kind":12,"location":{{"uri":"file:///a","range":{}}}}}]"#, range),
        format!(
            r#"[{{"targetUri":"file:///a","targetRange":{},"targetSelectionRange":{}}}]"#,
            range, range
        ),
        format!(r#"[{{"uri":"file:///a","range":{}}}]"#, range),
        format!(r#"{{"uri":"file:///a","range":{}}}"#, range),
        r#"[{"uri":"file:///a","name":"a"}]"#.to_string(),
        format!(r#"[{{"range":{},"target":"file:///a"}}]"#, range),
        format!(r#"{{"range":{},"target":"file:///a","tooltip":"t"}}"#, range),
        format!(r#"{{"range":{}}}"#, range),
        r#"[{"title":"t","command":"c"},{"title":"a","edit":{"changes":{}}}]"#.to_string(),
        r#"{"changes":{},"documentChanges":[]}"#.to_string(),
        r#"{"changes":{"file:///a":[]}}"#.to_string(),
        r#"{"documentChanges":[]}"#.to_string(),
        r#"{"contents":"x"}"#.to_string(),
        "null".to_string(),
        "5".to_string(),
        r#""s""#.to_string(),
        "[1,2]".to_string(),
        r#"{"capabilities":{}}"#.to_string(),
    ];
    for sample in samples {
        let value = serde_json::from_str::<Value>(&sample).unwrap();
        assert_eq!(classify(&json(&value)), typed_shape(&value), "{}", sample);
    }
}

#[test]
fn ids_are_shown() {
    assert_eq!(Id::Number(0).to_text(), "0");
    assert_eq!(Id::Number(1203).to_text(), "1203");
    assert_eq!(Id::Number(u64::MAX).to_text(), "18446744073709551615");
    assert_eq!(Id::String("a\"b".to_string()).to_text(), "\"a\\\"b\"");
}
