use lsp_ws_proxy::api::proxy::idle_seconds;
use lsp_ws_proxy::api::proxy::maybe_write_text_document;
use lsp_ws_proxy::api::proxy::select_command;
use lsp_ws_proxy::api::proxy::Context;
use lsp_ws_proxy::api::proxy::Event;
use lsp_ws_proxy::api::proxy::Outgoing;
use lsp_ws_proxy::api::proxy::Reaction;
use lsp_ws_proxy::api::proxy::Save;
use lsp_ws_proxy::api::recover;
use lsp_ws_proxy::api::Rejection;
use lsp_ws_proxy::client;
use lsp_ws_proxy::client::filter_map_warp_ws_message;
use lsp_ws_proxy::client::Frame;
use lsp_ws_proxy::lsp::ext::relative_uri::RemapError;
use lsp_ws_proxy::lsp::json::Json;
use lsp_ws_proxy::lsp::json::Number;
use lsp_ws_proxy::lsp::uri::Uri;
use lsp_ws_proxy::lsp::Message;
use lsp_ws_proxy::options::get_opts_and_commands;
use lsp_ws_proxy::options::parse_listen;
use lsp_ws_proxy::options::Listen;
use serde_json::Value;

fn json(value: &Value) -> Json {
    match value {
        Value::Null => Json::Null,
        Value::Bool(b) => Json::Bool(*b),
        Value::Number(n) => Json::Number(match (n.as_u64(), n.as_i64()) {
            (Some(n), _) => Number::PosInt(n),
            (None, Some(n)) => Number::NegInt(n),
            (None, None) => Number::Float(n.to_string()),
        }),
        Value::String(s) => Json::String(s.clone()),
        Value::Array(items) => Json::Array(items.iter().map(json).collect()),
        Value::Object(members) => {
            Json::Object(members.iter().map(|(k, v)| (k.clone(), json(v))).collect())
        }
    }
}

fn read(text: &str) -> Json {
    json(&serde_json::from_str::<Value>(text).unwrap())
}

fn sorted(value: Json) -> Json {
    match value {
        Json::Array(items) => Json::Array(items.into_iter().map(sorted).collect()),
        Json::Object(members) => {
            let mut members: Vec<(String, Json)> =
                members.into_iter().map(|(key, value)| (key, sorted(value))).collect();
            members.sort_by(|left, right| left.0.cmp(&right.0));
            Json::Object(members)
        }
        other => other,
    }
}

fn with_sorted_members(reaction: Reaction) -> Reaction {
    let sort = |outgoing: Option<Outgoing>| match outgoing {
        Some(Outgoing::Json(value)) => Some(Outgoing::Json(sorted(value))),
        other => other,
    };
    Reaction {
        to_server: sort(reaction.to_server),
        to_client: sort(reaction.to_client),
        ..reaction
    }
}

fn context(sync: bool, remap: bool) -> Context {
    Context {
        commands: vec![vec!["server".to_string()]],
        sync,
        remap,
        cwd: Uri::from_directory_path("/workspace").unwrap(),
        timeout: 0,
    }
}

fn quiet() -> Reaction {
    Reaction {
        save: None,
        to_server: None,
        to_client: None,
        close_client: false,
        reset_timer: false,
        stop: false,
    }
}

fn from_client(text: &str) -> Event {
    let frame = Frame::Text {
        text: text.to_string(),
        json: serde_json::from_str::<Value>(text).ok().map(|value| json(&value)),
    };
    Event::Client(filter_map_warp_ws_message(frame).unwrap())
}

fn from_server(text: &str) -> Event {
    Event::Server {
        text: text.to_string(),
        json: serde_json::from_str::<Value>(text).ok().map(|value| json(&value)),
    }
}

const DID_SAVE: &str = r#"{"jsonrpc":"2.0","method":"textDocument/didSave","params":{"textDocument":{"uri":"source://src/a.rs"},"text":"fn a() {}"}}"#;

#[test]
fn frames_are_sorted() {
    assert_eq!(filter_map_warp_ws_message(Frame::Close), Some(client::Message::Close));
    assert_eq!(filter_map_warp_ws_message(Frame::Other), None);
    assert_eq!(
        filter_map_warp_ws_message(Frame::Text { text: "{".to_string(), json: None }),
        Some(client::Message::Invalid("{".to_string()))
    );
    assert_eq!(
        filter_map_warp_ws_message(Frame::Text { text: "1".to_string(), json: Some(read("1")) }),
        Some(client::Message::Message(Message::from_json(read("1"))))
    );
}

#[test]
fn client_message_is_remapped_saved_and_forwarded() {
    let reaction = context(true, true).connected(from_client(DID_SAVE)).unwrap();
    let expected = r#"{"jsonrpc":"2.0","method":"textDocument/didSave","params":{"textDocument":{"uri":"file:///workspace/src/a.rs"},"text":"fn a() {}"}}"#;
    assert_eq!(
        reaction,
        Reaction {
            save: Some(Save {
                dirs: "/workspace/src".to_string(),
                file: "/workspace/src/a.rs".to_string(),
                text: "fn a() {}".to_string(),
            }),
            to_server: Some(Outgoing::Json(read(expected))),
            reset_timer: true,
            ..quiet()
        }
    );
}

#[test]
fn client_message_is_forwarded_as_it_is_without_remap() {
    let reaction = context(true, false).connected(from_client(DID_SAVE)).unwrap();
    assert_eq!(
        reaction,
        Reaction { to_server: Some(Outgoing::Json(read(DID_SAVE))), reset_timer: true, ..quiet() }
    );
    let reaction = context(false, true).connected(from_client(DID_SAVE)).unwrap();
    assert_eq!(reaction.save, None);
}

#[test]
fn invalid_text_is_forwarded_unchanged() {
    let reaction = context(true, true).connected(from_client("{oops")).unwrap();
    assert_eq!(
        reaction,
        Reaction {
            to_server: Some(Outgoing::Text("{oops".to_string())),
            reset_timer: true,
            ..quiet()
        }
    );
}

#[test]
fn close_and_errors_change_nothing() {
    let ctx = context(true, true);
    assert_eq!(ctx.connected(Event::Client(client::Message::Close)), Ok(quiet()));
    assert_eq!(ctx.connected(Event::ClientError), Ok(quiet()));
    assert_eq!(ctx.connected(Event::ServerError), Ok(quiet()));
}

#[test]
fn session_ends_when_a_side_is_gone_or_time_is_over() {
    let ctx = context(false, false);
    assert_eq!(ctx.connected(Event::ClientClosed), Ok(Reaction { stop: true, ..quiet() }));
    assert_eq!(
        ctx.connected(Event::ServerExited),
        Ok(Reaction { close_client: true, stop: true, ..quiet() })
    );
    assert_eq!(
        ctx.connected(Event::Timeout),
        Ok(Reaction { close_client: true, stop: true, ..quiet() })
    );
}

#[test]
fn server_frame_is_remapped_and_forwarded() {
    let text = r#"{"jsonrpc":"2.0","id":1,"result":{"uri":"file:///workspace/a","range":{}}}"#;
    let expected = r#"{"jsonrpc":"2.0","id":1,"result":{"uri":"source://a","range":{}}}"#;
    assert_eq!(
        context(false, true).connected(from_server(text)).map(with_sorted_members),
        Ok(Reaction { to_client: Some(Outgoing::Json(read(expected))), reset_timer: true, ..quiet() })
    );
    assert_eq!(
        context(false, false).connected(from_server(text)),
        Ok(Reaction {
            to_client: Some(Outgoing::Text(text.to_string())),
            reset_timer: true,
            ..quiet()
        })
    );
    assert_eq!(
        context(false, true).connected(from_server("no json")),
        Ok(Reaction {
            to_client: Some(Outgoing::Text("no json".to_string())),
            reset_timer: true,
            ..quiet()
        })
    );
}

#[test]
fn session_ends_with_an_error_where_a_uri_cannot_be_rewritten() {
    let text = r#"{"jsonrpc":"2.0","id":1,"method":"textDocument/hover","params":{"textDocument":{"uri":"source:x"}}}"#;
    assert_eq!(context(false, true).connected(from_client(text)), Err(RemapError::NotRelative));
}

#[test]
fn only_a_saved_file_document_with_text_is_written() {
    let save = |text: &str| maybe_write_text_document(&Message::from_json(read(text)));
    assert_eq!(
        save(r#"{"method":"textDocument/didSave","params":{"textDocument":{"uri":"file:///w/a.rs"},"text":"t"}}"#),
        Some(Save { dirs: "/w".to_string(), file: "/w/a.rs".to_string(), text: "t".to_string() })
    );
    assert_eq!(
        save(r#"{"method":"textDocument/didSave","params":{"textDocument":{"uri":"file:///w/a.rs"}}}"#),
        None
    );
    assert_eq!(
        save(r#"{"method":"textDocument/didSave","params":{"textDocument":{"uri":"source://a.rs"},"text":"t"}}"#),
        None
    );
    assert_eq!(
        save(r#"{"method":"textDocument/didSave","params":{"textDocument":{"uri":"file:///"},"text":"t"}}"#),
        None
    );
    assert_eq!(
        save(r#"{"method":"textDocument/didClose","params":{"textDocument":{"uri":"file:///w/a.rs"},"text":"t"}}"#),
        None
    );
    assert_eq!(
        save(r#"{"id":1,"method":"textDocument/hover","params":{"textDocument":{"uri":"file:///w/a.rs"},"text":"t"}}"#),
        None
    );
}

#[test]
fn command_is_selected_by_name() {
    let commands = vec![
        vec!["rust-analyzer".to_string()],
        vec![],
        vec!["typescript-language-server".to_string(), "--stdio".to_string()],
        vec!["typescript-language-server".to_string(), "--other".to_string()],
    ];
    assert_eq!(select_command(&commands, None), 0);
    assert_eq!(select_command(&commands, Some("rust-analyzer")), 0);
    assert_eq!(select_command(&commands, Some("typescript-language-server")), 2);
    assert_eq!(select_command(&commands, Some("unknown")), 0);
    assert_eq!(select_command(&commands, Some("--stdio")), 0);
}

#[test]
fn timer_runs_the_timeout_or_never() {
    assert_eq!(idle_seconds(1), 1);
    assert_eq!(idle_seconds(90), 90);
    assert_eq!(idle_seconds(0), 31_536_000);
}

#[test]
fn rejections_have_reason_and_status() {
    let none = || Rejection {
        not_found: false,
        body_error: None,
        payload_too_large: false,
        method_not_allowed: false,
    };
    assert_eq!(recover(&Rejection { not_found: true, ..none() }), ("Not Found".to_string(), 404));
    assert_eq!(
        recover(&Rejection { body_error: Some(None), ..none() }),
        ("Bad Request".to_string(), 400)
    );
    assert_eq!(
        recover(&Rejection { body_error: Some(Some("EOF at line 1".to_string())), ..none() }),
        ("EOF at line 1".to_string(), 400)
    );
    assert_eq!(
        recover(&Rejection { payload_too_large: true, ..none() }),
        ("Payload Too Large".to_string(), 413)
    );
    assert_eq!(
        recover(&Rejection { method_not_allowed: true, ..none() }),
        ("Method Not Allowed".to_string(), 405)
    );
    assert_eq!(recover(&none()), ("Internal Server Error".to_string(), 500));
    assert_eq!(
        recover(&Rejection { not_found: true, method_not_allowed: true, ..none() }),
        ("Not Found".to_string(), 404)
    );
    assert_eq!(lsp_ws_proxy::api::BODY_LIMIT, 2_097_152);
}

#[test]
fn listen_takes_a_port_or_an_address() {
    assert_eq!(parse_listen("8888"), Listen::Port("0.0.0.0:8888".to_string()));
    assert_eq!(parse_listen("0.0.0.0:8888"), Listen::Address("0.0.0.0:8888".to_string()));
    assert_eq!(parse_listen("88a"), Listen::Address("88a".to_string()));
    assert_eq!(parse_listen(""), Listen::Port("0.0.0.0:".to_string()));
}

#[test]
fn arguments_are_split_at_the_delimiter() {
    let args = |words: &[&str]| words.iter().map(|word| word.to_string()).collect::<Vec<_>>();
    assert_eq!(
        get_opts_and_commands(&args(&["proxy", "-l", "9999", "--", "a", "--stdio", "--", "b"])),
        vec![args(&["proxy", "-l", "9999"]), args(&["a", "--stdio"]), args(&["b"])]
    );
    assert_eq!(get_opts_and_commands(&args(&["proxy"])), vec![args(&["proxy"])]);
    assert_eq!(get_opts_and_commands(&args(&[])), vec![args(&[])]);
    assert_eq!(
        get_opts_and_commands(&args(&["proxy", "--", "--"])),
        vec![args(&["proxy"]), args(&[]), args(&[])]
    );
}
