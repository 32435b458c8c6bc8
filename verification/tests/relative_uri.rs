use lsp_ws_proxy::lsp::ext::relative_uri::remap;
use lsp_ws_proxy::lsp::ext::relative_uri::remap_at;
use lsp_ws_proxy::lsp::ext::relative_uri::remap_document_changes;
use lsp_ws_proxy::lsp::ext::relative_uri::remap_location;
use lsp_ws_proxy::lsp::ext::relative_uri::remap_relative_uri;
use lsp_ws_proxy::lsp::ext::relative_uri::remap_text;
use lsp_ws_proxy::lsp::ext::relative_uri::remap_text_document_identifier;
use lsp_ws_proxy::lsp::ext::relative_uri::remap_workspace_edit;
use lsp_ws_proxy::lsp::ext::relative_uri::remap_workspace_edit_changes;
use lsp_ws_proxy::lsp::ext::relative_uri::remap_workspace_folder;
use lsp_ws_proxy::lsp::ext::relative_uri::to_file;
use lsp_ws_proxy::lsp::ext::relative_uri::to_source;
use lsp_ws_proxy::lsp::ext::relative_uri::Direction;
use lsp_ws_proxy::lsp::ext::relative_uri::RemapError;
use lsp_ws_proxy::lsp::ext::relative_uri::Site;
use lsp_ws_proxy::lsp::ext::relative_uri::Step;
use lsp_ws_proxy::lsp::json::Json;
use lsp_ws_proxy::lsp::json::Number;
use lsp_ws_proxy::lsp::uri::Uri;
use lsp_ws_proxy::lsp::Message;
use serde_json::Value;

fn json(value: &Value) -> Json {
    match value {
        Value::Null => Json::Null,
        Value::Bool(b) => Json::Bool(*b),
        Value::Number(n) => Json::Number(match (n.as_u64(), n.as_i64()) {
            (Some(n), _) => Number::PosInt(n),
            (None, Some(n)) => Number::NegInt(n),
            (None, None) => Number::Float(n.to_string()),
        }),
        Value::String(s) => Json::String(s.clone()),
        Value::Array(items) => Json::Array(items.iter().map(json).collect()),
        Value::Object(members) => {
            Json::Object(members.iter().map(|(k, v)| (k.clone(), json(v))).collect())
        }
    }
}

fn read(text: &str) -> Json {
    json(&serde_json::from_str::<Value>(text).unwrap())
}

fn cwd() -> Uri {
    Uri::from_directory_path("/workspace").unwrap()
}

fn remapped(text: &str) -> Json {
    let mut message = Message::from_json(read(text));
    remap_relative_uri(&mut message, &cwd()).unwrap();
    message.to_json()
}

#[test]
fn test_to_file() {
    let cwd = Uri::from_directory_path("/workspace").unwrap();
    let uri = Uri::parse("source://src/main.rs").unwrap();
    let remapped = to_file(&uri, &cwd).unwrap().unwrap();
    assert_eq!(remapped.as_str(), "file:///workspace/src/main.rs");
}

#[test]
fn test_to_source() {
    let cwd = Uri::from_directory_path("/workspace").unwrap();
    let uri = Uri::from_file_path("/workspace/src/main.rs").unwrap();
    let remapped = to_source(&uri, &cwd).unwrap().unwrap();
    assert_eq!(remapped.as_str(), "source://src/main.rs");
}

#[test]
fn project_root_is_a_directory_uri() {
    assert_eq!(cwd().as_str(), "file:///workspace/");
    assert!(cwd().has_scheme("file"));
    assert!(!cwd().has_scheme("source"));
}

#[test]
fn to_file_leaves_other_schemes() {
    let uri = Uri::parse("file:///x").unwrap();
    assert_eq!(to_file(&uri, &cwd()), Ok(None));
}

#[test]
fn to_source_leaves_files_outside_the_root() {
    let uri = Uri::parse("file:///other/x").unwrap();
    assert_eq!(to_source(&uri, &cwd()), Ok(None));
    let uri = Uri::parse("https://example.net/workspace/").unwrap();
    assert_eq!(to_source(&uri, &cwd()), Ok(None));
}

#[test]
fn source_uri_round_trips() {
    let uri = Uri::parse("source://src/main.rs").unwrap();
    let file = to_file(&uri, &cwd()).unwrap().unwrap();
    let back = to_source(&file, &cwd()).unwrap().unwrap();
    assert_eq!(back, uri);
}

#[test]
fn file_uri_round_trips() {
    let uri = Uri::parse("file:///workspace/src/lib.rs").unwrap();
    let source = to_source(&uri, &cwd()).unwrap().unwrap();
    let back = to_file(&source, &cwd()).unwrap().unwrap();
    assert_eq!(back, uri);
}

#[test]
fn source_uri_that_leaves_the_range_does_not_round_trip() {
    let uri = Uri::parse("source:///x").unwrap();
    let file = to_file(&uri, &cwd()).unwrap().unwrap();
    assert_eq!(file.as_str(), "file:///x");
    assert_eq!(to_source(&file, &cwd()), Ok(None));
}

#[test]
fn file_uri_that_leaves_the_range_does_not_round_trip() {
    let uri = Uri::parse("file:///workspace//x").unwrap();
    let source = to_source(&uri, &cwd()).unwrap().unwrap();
    assert_eq!(source.as_str(), "source:///x");
    let back = to_file(&source, &cwd()).unwrap().unwrap();
    assert_eq!(back.as_str(), "file:///x");
}

#[test]
fn source_uri_without_slashes_is_an_error() {
    let uri = Uri::parse("source:foo").unwrap();
    assert_eq!(to_file(&uri, &cwd()), Err(RemapError::NotRelative));
}

#[test]
fn to_source_result_that_is_no_url_is_an_error() {
    let uri = Uri::parse("file:///workspace/:x").unwrap();
    assert!(matches!(to_source(&uri, &cwd()), Err(RemapError::InvalidUri(_))));
}

#[test]
fn uri_parse_normalizes() {
    assert_eq!(Uri::parse("FILE:///a/../b").unwrap().as_str(), "file:///b");
    assert!(Uri::parse("not a url").is_err());
    assert_eq!(cwd().join("x/y").unwrap().as_str(), "file:///workspace/x/y");
    assert_eq!(cwd().join("/x").unwrap().as_str(), "file:///x");
    assert_eq!(
        Uri::parse("file:///tmp/a%20b").unwrap().to_file_path(),
        Some("/tmp/a b".to_string())
    );
    assert_eq!(Uri::parse("file://host/tmp/a").unwrap().to_file_path(), None);
    assert_eq!(Uri::from_file_path("relative"), None);
    assert_eq!(Uri::from_file_path("/tmp/foo").unwrap().into_string(), "file:///tmp/foo");
}

#[test]
fn text_that_is_no_url_is_left() {
    assert_eq!(remap_text(Direction::ToFile, "hello world", &cwd()), Ok(None));
    assert_eq!(
        remap_text(Direction::ToFile, "source://a", &cwd()),
        Ok(Some("file:///workspace/a".to_string()))
    );
    assert_eq!(
        remap_text(Direction::ToSource, "file:///workspace/a", &cwd()),
        Ok(Some("source://a".to_string()))
    );
    assert_eq!(remap_text(Direction::ToSource, "source://a", &cwd()), Ok(None));
}

#[test]
fn request_text_document_goes_to_file() {
    let text = r#"{"jsonrpc":"2.0","id":1,"method":"textDocument/hover","params":{"textDocument":{"uri":"source://src/main.rs"},"position":{"line":1,"character":2}}}"#;
    let expected = r#"{"jsonrpc":"2.0","method":"textDocument/hover","id":1,"params":{"textDocument":{"uri":"file:///workspace/src/main.rs"},"position":{"line":1,"character":2}}}"#;
    assert_eq!(Message::from_json(remapped(text)), Message::from_json(read(expected)));
}

#[test]
fn initialize_root_and_folders_go_to_file() {
    let text = r#"{"jsonrpc":"2.0","id":1,"method":"initialize","params":{"rootUri":"source://","workspaceFolders":[{"uri":"source://a","name":"a"},{"uri":"file:///b","name":"b"}],"capabilities":{}}}"#;
    let message = remapped(text);
    let params = message.get("params").unwrap();
    assert_eq!(params.get("rootUri").unwrap().as_str(), Some("file:///workspace/"));
    let folders = params.get("workspaceFolders").unwrap().as_array().unwrap();
    assert_eq!(folders[0].get("uri").unwrap().as_str(), Some("file:///workspace/a"));
    assert_eq!(folders[1].get("uri").unwrap().as_str(), Some("file:///b"));
    assert_eq!(params.get("capabilities"), Some(&Json::Object(vec![])));
}

#[test]
fn null_root_uri_is_left() {
    let text = r#"{"jsonrpc":"2.0","id":1,"method":"initialize","params":{"rootUri":null,"capabilities":{}}}"#;
    let message = remapped(text);
    assert_eq!(message.get("params").unwrap().get("rootUri"), Some(&Json::Null));
}

#[test]
fn configuration_scope_goes_to_source() {
    let text = r#"{"jsonrpc":"2.0","id":1,"method":"workspace/configuration","params":{"items":[{"scopeUri":"file:///workspace/a","section":"s"},{"section":"t"}]}}"#;
    let message = remapped(text);
    let items = message.get("params").unwrap().get("items").unwrap().as_array().unwrap();
    assert_eq!(items[0].get("scopeUri").unwrap().as_str(), Some("source://a"));
    assert!(items[1].get("scopeUri").is_none());
}

#[test]
fn notifications_are_remapped() {
    let text = r#"{"jsonrpc":"2.0","method":"textDocument/didOpen","params":{"textDocument":{"uri":"source://a.rs","languageId":"rust","version":1,"text":"x"}}}"#;
    let message = remapped(text);
    let document = message.get("params").unwrap().get("textDocument").unwrap();
    assert_eq!(document.get("uri").unwrap().as_str(), Some("file:///workspace/a.rs"));
    assert_eq!(document.get("text").unwrap().as_str(), Some("x"));

    let text = r#"{"jsonrpc":"2.0","method":"textDocument/publishDiagnostics","params":{"uri":"file:///workspace/a.rs","diagnostics":[]}}"#;
    let message = remapped(text);
    assert_eq!(message.get("params").unwrap().get("uri").unwrap().as_str(), Some("source://a.rs"));

    let text = r#"{"jsonrpc":"2.0","method":"workspace/didChangeWatchedFiles","params":{"changes":[{"uri":"source://a","type":1}]}}"#;
    let message = remapped(text);
    let changes = message.get("params").unwrap().get("changes").unwrap().as_array().unwrap();
    assert_eq!(changes[0].get("uri").unwrap().as_str(), Some("file:///workspace/a"));

    let text = r#"{"jsonrpc":"2.0","method":"workspace/didChangeWorkspaceFolders","params":{"event":{"added":[{"uri":"source://a","name":"a"}],"removed":[{"uri":"source://b","name":"b"}]}}}"#;
    let message = remapped(text);
    let event = message.get("params").unwrap().get("event").unwrap();
    let added = event.get("added").unwrap().as_array().unwrap();
    let removed = event.get("removed").unwrap().as_array().unwrap();
    assert_eq!(added[0].get("uri").unwrap().as_str(), Some("file:///workspace/a"));
    assert_eq!(removed[0].get("uri").unwrap().as_str(), Some("file:///workspace/b"));
}

#[test]
fn responses_are_remapped_by_shape() {
    let text = r#"{"jsonrpc":"2.0","id":1,"result":[{"uri":"file:///workspace/a","range":{}},{"uri":"file:///other","range":{}}]}"#;
    let message = remapped(text);
    let locations = message.get("result").unwrap().as_array().unwrap();
    assert_eq!(locations[0].get("uri").unwrap().as_str(), Some("source://a"));
    assert_eq!(locations[1].get("uri").unwrap().as_str(), Some("file:///other"));

    let text = r#"{"jsonrpc":"2.0","id":1,"result":[{"name":"n","kind":1,"location":{"uri":"file:///workspace/a","range":{}}}]}"#;
    let message = remapped(text);
    let symbols = message.get("result").unwrap().as_array().unwrap();
    let location = symbols[0].get("location").unwrap();
    assert_eq!(location.get("uri").unwrap().as_str(), Some("source://a"));

    let text = r#"{"jsonrpc":"2.0","id":1,"result":[{"targetUri":"file:///workspace/a","targetRange":{},"targetSelectionRange":{}}]}"#;
    let message = remapped(text);
    let links = message.get("result").unwrap().as_array().unwrap();
    assert_eq!(links[0].get("targetUri").unwrap().as_str(), Some("source://a"));

    let text = r#"{"jsonrpc":"2.0","id":1,"result":[{"uri":"source://a","name":"a"}]}"#;
    let message = remapped(text);
    let folders = message.get("result").unwrap().as_array().unwrap();
    assert_eq!(folders[0].get("uri").unwrap().as_str(), Some("file:///workspace/a"));

    let text = r#"{"jsonrpc":"2.0","id":1,"result":{"range":{},"target":"file:///workspace/a"}}"#;
    let message = remapped(text);
    assert_eq!(message.get("result").unwrap().get("target").unwrap().as_str(), Some("source://a"));

    let text = r#"{"jsonrpc":"2.0","id":1,"result":{"contents":"file:///workspace/a"}}"#;
    let message = remapped(text);
    assert_eq!(
        message.get("result").unwrap().get("contents").unwrap().as_str(),
        Some("file:///workspace/a")
    );
}

#[test]
fn workspace_edit_is_remapped() {
    let text = r#"{"jsonrpc":"2.0","id":1,"result":{"changes":{"file:///workspace/a":[],"file:///other":[]},"documentChanges":[{"textDocument":{"uri":"file:///workspace/a","version":1},"edits":[]},{"kind":"create","uri":"file:///workspace/b"},{"kind":"rename","oldUri":"file:///workspace/c","newUri":"file:///workspace/d"},{"kind":"delete","uri":"file:///workspace/e"}]}}"#;
    let message = remapped(text);
    let result = message.get("result").unwrap();
    let changes = result.get("changes").unwrap();
    assert!(changes.get("source://a").is_some());
    assert!(changes.get("file:///other").is_some());
    assert!(changes.get("file:///workspace/a").is_none());
    let document_changes = result.get("documentChanges").unwrap().as_array().unwrap();
    let uri = |json: &Json, key: &str| json.get(key).unwrap().as_str().unwrap().to_string();
    assert_eq!(uri(document_changes[0].get("textDocument").unwrap(), "uri"), "source://a");
    assert_eq!(uri(&document_changes[1], "uri"), "source://b");
    assert_eq!(uri(&document_changes[2], "oldUri"), "source://c");
    assert_eq!(uri(&document_changes[2], "newUri"), "source://d");
    assert_eq!(uri(&document_changes[3], "uri"), "source://e");
}

#[test]
fn code_action_edit_is_remapped() {
    let text = r#"{"jsonrpc":"2.0","id":1,"result":[{"title":"c","command":"x"},{"title":"a","edit":{"changes":{"file:///workspace/a":[]}}}]}"#;
    let message = remapped(text);
    let actions = message.get("result").unwrap().as_array().unwrap();
    assert_eq!(actions[0].get("command").unwrap().as_str(), Some("x"));
    let changes = actions[1].get("edit").unwrap().get("changes").unwrap();
    assert!(changes.get("source://a").is_some());
}

#[test]
fn apply_edit_request_is_remapped() {
    let text = r#"{"jsonrpc":"2.0","id":1,"method":"workspace/applyEdit","params":{"edit":{"changes":{"file:///workspace/a":[]}}}}"#;
    let message = remapped(text);
    let changes = message.get("params").unwrap().get("edit").unwrap().get("changes").unwrap();
    assert!(changes.get("source://a").is_some());
}

#[test]
fn of_changes_with_one_key_the_last_wins() {
    let mut changes = Json::Object(vec![
        ("file:///workspace/a".to_string(), Json::Number(Number::PosInt(1))),
        ("file:///other".to_string(), Json::Number(Number::PosInt(2))),
        ("source://a".to_string(), Json::Number(Number::PosInt(3))),
    ]);
    remap_workspace_edit_changes(&mut changes, &cwd()).unwrap();
    assert_eq!(
        changes,
        Json::Object(vec![
            ("file:///other".to_string(), Json::Number(Number::PosInt(2))),
            ("source://a".to_string(), Json::Number(Number::PosInt(3))),
        ])
    );
}

#[test]
fn unknown_and_failure_are_left() {
    let text = r#"{"jsonrpc":"2.0","method":"custom/method","params":{"textDocument":{"uri":"source://a"}}}"#;
    assert_eq!(remapped(text), read(text));
    let text = r#"{"jsonrpc":"2.0","id":1,"error":{"code":1,"message":"file:///workspace/a"}}"#;
    assert_eq!(Message::from_json(remapped(text)), Message::from_json(read(text)));
}

#[test]
fn message_is_left_where_a_uri_cannot_be_rewritten() {
    let text = r#"{"jsonrpc":"2.0","id":1,"method":"textDocument/hover","params":{"textDocument":{"uri":"source:foo"}}}"#;
    let mut message = Message::from_json(read(text));
    assert_eq!(remap_relative_uri(&mut message, &cwd()), Err(RemapError::NotRelative));
    assert_eq!(message, Message::from_json(read(text)));
}

#[test]
fn the_error_is_that_of_the_first_uri_that_cannot_be_rewritten() {
    let text = r#"{"jsonrpc":"2.0","id":1,"result":[{"uri":"file:///workspace/a","range":{}},{"uri":"file:///workspace/:x","range":{}}]}"#;
    let mut message = Message::from_json(read(text));
    assert!(matches!(
        remap_relative_uri(&mut message, &cwd()),
        Err(RemapError::InvalidUri(_))
    ));
    assert_eq!(message, Message::from_json(read(text)));

    let text = r#"{"jsonrpc":"2.0","id":1,"method":"initialize","params":{"rootUri":"source://a","workspaceFolders":[{"uri":"source://b","name":"b"},{"uri":"source:c","name":"c"}]}}"#;
    let mut message = Message::from_json(read(text));
    assert_eq!(remap_relative_uri(&mut message, &cwd()), Err(RemapError::NotRelative));
    assert_eq!(message, Message::from_json(read(text)));

    let mut changes = Json::Object(vec![
        ("file:///workspace/a".to_string(), Json::Null),
        ("file:///workspace/:x".to_string(), Json::Null),
    ]);
    assert!(matches!(
        remap_workspace_edit_changes(&mut changes, &cwd()),
        Err(RemapError::InvalidUri(_))
    ));
    assert_eq!(
        remap_text(Direction::ToFile, "source:c", &cwd()),
        Err(RemapError::NotRelative)
    );
    assert!(matches!(
        remap_text(Direction::ToSource, "file:///workspace/:x", &cwd()),
        Err(RemapError::InvalidUri(_))
    ));
}

#[test]
fn parts_are_remapped() {
    let mut location = read(r#"{"uri":"file:///workspace/a","range":{}}"#);
    remap_location(&mut location, &cwd()).unwrap();
    assert_eq!(location, read(r#"{"uri":"source://a","range":{}}"#));

    let mut document = read(r#"{"uri":"source://a"}"#);
    remap_text_document_identifier(&mut document, &cwd()).unwrap();
    assert_eq!(document, read(r#"{"uri":"file:///workspace/a"}"#));

    let mut folder = read(r#"{"uri":"source://a","name":"a"}"#);
    remap_workspace_folder(&mut folder, &cwd()).unwrap();
    assert_eq!(folder, read(r#"{"uri":"file:///workspace/a","name":"a"}"#));

    let mut document_changes = read(r#"[{"kind":"delete","uri":"file:///workspace/a"}]"#);
    remap_document_changes(&mut document_changes, &cwd()).unwrap();
    assert_eq!(document_changes, read(r#"[{"kind":"delete","uri":"source://a"}]"#));

    let mut edit = read(r#"{"documentChanges":[{"kind":"create","uri":"file:///workspace/a"}]}"#);
    remap_workspace_edit(&mut edit, &cwd()).unwrap();
    assert_eq!(edit, read(r#"{"documentChanges":[{"kind":"create","uri":"source://a"}]}"#));
}

#[test]
fn a_way_that_is_not_there_leads_nowhere() {
    let value = read(r#"{"a":{"b":"source://x"},"c":["source://y"]}"#);
    let path = vec![Step::Key("a"), Step::Key("z")];
    assert_eq!(remap_at(&value, &path, 0, Direction::ToFile, &cwd()), Ok(value.duplicate()));
    let path = vec![Step::Key("c"), Step::Key("z")];
    assert_eq!(remap_at(&value, &path, 0, Direction::ToFile, &cwd()), Ok(value.duplicate()));
    let sites = vec![
        Site { path: vec![Step::Key("a"), Step::Key("b")], direction: Direction::ToFile },
        Site { path: vec![Step::Key("c"), Step::Each], direction: Direction::ToFile },
    ];
    assert_eq!(
        remap(&value, &sites, &cwd()),
        Ok(read(r#"{"a":{"b":"file:///workspace/x"},"c":["file:///workspace/y"]}"#))
    );
}
