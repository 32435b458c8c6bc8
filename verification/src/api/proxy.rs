//! The decisions of a proxy session. A session couples a client on a
//! WebSocket to a language server on the standard input and output of a
//! child process. Waiting for the two and for the clock, and sending what is
//! to be sent, is left to the caller: it hands over what happened and gets
//! back what to do.
use vstd::prelude::*;

use crate::api::files::path_parent;
use crate::client;
use crate::client::ClientMessageView;
use crate::lsp::ext::relative_uri::remap_relative_uri;
use crate::lsp::ext::relative_uri::remapped_message;
use crate::lsp::ext::relative_uri::Failure;
use crate::lsp::ext::relative_uri::RemapError;
use crate::lsp::json::Json;
use crate::lsp::json::JsonView;
use crate::lsp::message_json;
use crate::lsp::message_of;
use crate::lsp::notification::NotificationMethod;
use crate::lsp::uri::has_scheme;
use crate::lsp::uri::url_parse;
use crate::lsp::uri::url_to_file_path;
use crate::lsp::uri::Uri;
use crate::lsp::Message;
use crate::lsp::MessageView;
use crate::text::same_text;

verus! {

/// What a session works with.
#[derive(Debug, PartialEq)]
pub struct Context {
    /// One or more commands to start a Language Server.
    pub commands: Vec<Vec<String>>,
    /// Write file on save.
    pub sync: bool,
    /// Remap relative `source://` to absolute `file://`.
    pub remap: bool,
    /// Project root.
    pub cwd: Uri,
    /// Seconds without traffic after which the session ends; zero for never.
    pub timeout: u64,
}

/// The seconds that stand for "never".
pub const NEVER: u64 = 31_536_000;

/// The seconds that the timer of a session runs: the configured timeout, or
/// a long time where there is none.
pub fn idle_seconds(timeout: u64) -> (seconds: u64)
    ensures
        seconds == if timeout == 0 {
            NEVER
        } else {
            timeout
        },
{
    if timeout == 0 {
        NEVER
    } else {
        timeout
    }
}

/// Whether a command has the name.
pub open spec fn is_named(command: Seq<String>, name: Seq<char>) -> bool {
    command.len() > 0 && command[0]@ == name
}

/// The index of the command to start: the first that has the name that was
/// asked for, else the first of all.
pub fn select_command(commands: &Vec<Vec<String>>, name: Option<&str>) -> (index: usize)
    requires
        commands.len() > 0,
    ensures
        index < commands.len(),
        name is None ==> index == 0,
        name matches Some(wanted) ==> {
            ||| (is_named(commands[index as int]@, wanted@) && forall|i: int|
                0 <= i < index ==> !is_named(#[trigger] commands[i]@, wanted@))
            ||| (index == 0 && forall|i: int|
                0 <= i < commands.len() ==> !is_named(#[trigger] commands[i]@, wanted@))
        },
{
    match name {
        Some(wanted) => {
            let mut i: usize = 0;
            while i < commands.len()
                invariant
                    i <= commands.len(),
                    name == Some(wanted),
                    forall|j: int| 0 <= j < i ==> !is_named(#[trigger] commands[j]@, wanted@),
                decreases commands.len() - i,
            {
                if commands[i].len() > 0 && same_text(commands[i][0].as_str(), wanted) {
                    return i;
                }
                i += 1;
            }
            0
        },
        None => 0,
    }
}

/// A document to write to disk.
#[derive(Debug, PartialEq)]
pub struct Save {
    /// The directory of the file, to be created with all that is missing
    /// above it.
    pub dirs: String,
    /// The path of the file.
    pub file: String,
    /// The text of the document.
    pub text: String,
}

/// What a document to write is.
pub ghost struct SaveView {
    pub dirs: Seq<char>,
    pub file: Seq<char>,
    pub text: Seq<char>,
}

impl View for Save {
    type V = SaveView;

    open spec fn view(&self) -> SaveView {
        SaveView { dirs: self.dirs@, file: self.file@, text: self.text@ }
    }
}

/// The document that a message asks to write: the message is a
/// `textDocument/didSave` that carries the `text`, and the URI of its
/// document is a `file` URI with a path that has a parent.
pub open spec fn save_of(message: MessageView) -> Option<SaveView> {
    match message {
        MessageView::Notification(notification) => {
            if notification.method == NotificationMethod::DidSave {
                match (
                    notification.params.get("text"@),
                    notification.params.get("textDocument"@),
                ) {
                    (Some(JsonView::String(text)), Some(document)) => match document.get("uri"@) {
                        Some(JsonView::String(uri)) => match url_parse(uri) {
                            Some(uri) => if has_scheme(uri, "file"@) {
                                match url_to_file_path(uri) {
                                    Some(file) => match path_parent(file) {
                                        Some(dirs) => Some(SaveView { dirs, file, text }),
                                        None => None,
                                    },
                                    None => None,
                                }
                            } else {
                                None
                            },
                            None => None,
                        },
                        _ => None,
                    },
                    _ => None,
                }
            } else {
                None
            }
        },
        _ => None,
    }
}

/// The document that a message asks to write to disk, if it asks for one.
pub fn maybe_write_text_document(msg: &Message) -> (save: Option<Save>)
    ensures
        match save {
            Some(found) => save_of(msg@) == Some(found@),
            None => save_of(msg@) is None,
        },
{
    let params = match msg {
        Message::Notification(notification) => match notification.method {
            NotificationMethod::DidSave => &notification.params,
            _ => {
                return None;
            },
        },
        _ => {
            return None;
        },
    };
    let text = match params.get("text") {
        Some(text) => match text.as_str() {
            Some(text) => text,
            None => {
                return None;
            },
        },
        None => {
            return None;
        },
    };
    let uri = match params.get("textDocument") {
        Some(document) => match document.get("uri") {
            Some(uri) => match uri.as_str() {
                Some(uri) => match Uri::parse(uri) {
                    Ok(uri) => uri,
                    Err(_) => {
                        return None;
                    },
                },
                None => {
                    return None;
                },
            },
            None => {
                return None;
            },
        },
        None => {
            return None;
        },
    };
    if !uri.has_scheme("file") {
        return None;
    }
    match uri.to_file_path() {
        Some(file) => match crate::api::files::parent(file.as_str()) {
            Some(dirs) => Some(Save { dirs, file, text: text.to_owned() }),
            None => None,
        },
        None => None,
    }
}

/// What is sent on: a text as it came, or a message as a JSON value.
#[derive(Debug, PartialEq)]
pub enum Outgoing {
    Text(String),
    Json(Json),
}

/// What an outgoing message is.
pub ghost enum OutgoingView {
    Text(Seq<char>),
    Json(JsonView),
}

impl View for Outgoing {
    type V = OutgoingView;

    open spec fn view(&self) -> OutgoingView {
        match self {
            Outgoing::Text(text) => OutgoingView::Text(text@),
            Outgoing::Json(json) => OutgoingView::Json(json@),
        }
    }
}

/// What happened in a session.
#[derive(Debug, PartialEq)]
pub enum Event {
    /// The client sent a message.
    Client(client::Message),
    /// The WebSocket reported an error.
    ClientError,
    /// The client is gone.
    ClientClosed,
    /// The server sent a frame: its text, and the JSON value that the text
    /// writes, if it writes one.
    Server { text: String, json: Option<Json> },
    /// The frames of the server could not be read.
    ServerError,
    /// The server is gone.
    ServerExited,
    /// The time without traffic is over.
    Timeout,
}

/// What an event is.
pub ghost enum EventView {
    Client(ClientMessageView),
    ClientError,
    ClientClosed,
    Server { text: Seq<char>, json: Option<JsonView> },
    ServerError,
    ServerExited,
    Timeout,
}

impl View for Event {
    type V = EventView;

    open spec fn view(&self) -> EventView {
        match self {
            Event::Client(message) => EventView::Client(message@),
            Event::ClientError => EventView::ClientError,
            Event::ClientClosed => EventView::ClientClosed,
            Event::Server { text, json } => EventView::Server {
                text: text@,
                json: match json {
                    Some(json) => Some(json@),
                    None => None,
                },
            },
            Event::ServerError => EventView::ServerError,
            Event::ServerExited => EventView::ServerExited,
            Event::Timeout => EventView::Timeout,
        }
    }
}

/// What to do after an event, in the order of the fields.
#[derive(Debug, PartialEq)]
pub struct Reaction {
    /// Write this document to disk.
    pub save: Option<Save>,
    /// Send this to the server.
    pub to_server: Option<Outgoing>,
    /// Send this to the client, as a text frame.
    pub to_client: Option<Outgoing>,
    /// Send a close frame to the client.
    pub close_client: bool,
    /// Start the time without traffic anew.
    pub reset_timer: bool,
    /// End the session; the server is killed.
    pub stop: bool,
}

/// What a reaction is.
pub ghost struct ReactionView {
    pub save: Option<SaveView>,
    pub to_server: Option<OutgoingView>,
    pub to_client: Option<OutgoingView>,
    pub close_client: bool,
    pub reset_timer: bool,
    pub stop: bool,
}

impl View for Reaction {
    type V = ReactionView;

    open spec fn view(&self) -> ReactionView {
        ReactionView {
            save: match self.save {
                Some(save) => Some(save@),
                None => None,
            },
            to_server: match self.to_server {
                Some(outgoing) => Some(outgoing@),
                None => None,
            },
            to_client: match self.to_client {
                Some(outgoing) => Some(outgoing@),
                None => None,
            },
            close_client: self.close_client,
            reset_timer: self.reset_timer,
            stop: self.stop,
        }
    }
}

/// The reaction that does nothing and goes on.
pub open spec fn nothing() -> ReactionView {
    ReactionView {
        save: None,
        to_server: None,
        to_client: None,
        close_client: false,
        reset_timer: false,
        stop: false,
    }
}

/// The message as it goes on where the session rewrites URIs, else as it
/// is; the failure where a URI cannot be rewritten.
pub open spec fn passed_on(message: MessageView, remap: bool, cwd: Seq<char>) -> Result<
    MessageView,
    Failure,
> {
    if remap {
        remapped_message(message, cwd)
    } else {
        Ok(message)
    }
}

/// What a session does after an event; the failure where it ends with an
/// error, because a URI cannot be rewritten.
///
/// A message of the client goes to the server, with its URIs rewritten
/// where the session does that, after the document that it saves is
/// written where the session does that; a text that is no message goes on
/// as it is. A frame of the server goes to the client, rewritten where the
/// session does that and the frame is a message. Either starts the time
/// without traffic anew. When the client is gone the session ends; when the
/// server is gone or the time is over it ends after a close frame to the
/// client. Anything else changes nothing.
pub open spec fn reaction_of(sync: bool, remap: bool, cwd: Seq<char>, event: EventView) -> Result<
    ReactionView,
    Failure,
> {
    match event {
        EventView::Client(ClientMessageView::Message(message)) => match passed_on(
            message,
            remap,
            cwd,
        ) {
            Ok(message) => Ok(
                ReactionView {
                    save: if sync {
                        save_of(message)
                    } else {
                        None
                    },
                    to_server: Some(OutgoingView::Json(message_json(message))),
                    reset_timer: true,
                    ..nothing()
                },
            ),
            Err(failure) => Err(failure),
        },
        EventView::Client(ClientMessageView::Invalid(text)) => Ok(
            ReactionView {
                to_server: Some(OutgoingView::Text(text)),
                reset_timer: true,
                ..nothing()
            },
        ),
        EventView::Client(ClientMessageView::Close) => Ok(nothing()),
        EventView::ClientError => Ok(nothing()),
        EventView::ClientClosed => Ok(ReactionView { stop: true, ..nothing() }),
        EventView::Server { text, json } => {
            if remap && json is Some {
                match remapped_message(message_of(json->0), cwd) {
                    Ok(message) => Ok(
                        ReactionView {
                            to_client: Some(OutgoingView::Json(message_json(message))),
                            reset_timer: true,
                            ..nothing()
                        },
                    ),
                    Err(failure) => Err(failure),
                }
            } else {
                Ok(
                    ReactionView {
                        to_client: Some(OutgoingView::Text(text)),
                        reset_timer: true,
                        ..nothing()
                    },
                )
            }
        },
        EventView::ServerError => Ok(nothing()),
        EventView::ServerExited => Ok(ReactionView { close_client: true, stop: true, ..nothing() }),
        EventView::Timeout => Ok(ReactionView { close_client: true, stop: true, ..nothing() }),
    }
}

fn quiet() -> (reaction: Reaction)
    ensures
        reaction@ == nothing(),
{
    Reaction {
        save: None,
        to_server: None,
        to_client: None,
        close_client: false,
        reset_timer: false,
        stop: false,
    }
}

impl Context {
    /// What the session does after an event. Where a URI of a message
    /// cannot be rewritten the session ends with the error of the first
    /// such URI.
    pub fn connected(&self, event: Event) -> (result: Result<Reaction, RemapError>)
        ensures
            match result {
                Ok(reaction) => reaction_of(self.sync, self.remap, self.cwd@, event@) == Ok::<
                    ReactionView,
                    Failure,
                >(reaction@),
                Err(error) => reaction_of(self.sync, self.remap, self.cwd@, event@) == Err::<
                    ReactionView,
                    Failure,
                >(error@),
            },
    {
        match event {
            // From Client
            Event::Client(client::Message::Message(msg)) => {
                let mut msg = msg;
                if self.remap {
                    match remap_relative_uri(&mut msg, &self.cwd) {
                        Ok(()) => {},
                        Err(error) => {
                            return Err(error);
                        },
                    }
                }
                let save = if self.sync {
                    maybe_write_text_document(&msg)
                } else {
                    None
                };
                let mut reaction = quiet();
                reaction.save = save;
                reaction.to_server = Some(Outgoing::Json(msg.to_json()));
                reaction.reset_timer = true;
                Ok(reaction)
            },
            // Just forward it to the server as is.
            Event::Client(client::Message::Invalid(text)) => {
                let mut reaction = quiet();
                reaction.to_server = Some(Outgoing::Text(text));
                reaction.reset_timer = true;
                Ok(reaction)
            },
            // The connection will terminate when None is received.
            Event::Client(client::Message::Close) => Ok(quiet()),
            Event::ClientError => Ok(quiet()),
            Event::ClientClosed => {
                let mut reaction = quiet();
                reaction.stop = true;
                Ok(reaction)
            },
            // From Server
            Event::Server { text, json } => {
                let mut reaction = quiet();
                reaction.reset_timer = true;
                match json {
                    Some(json) => {
                        if self.remap {
                            let mut msg = Message::from_json(json);
                            match remap_relative_uri(&mut msg, &self.cwd) {
                                Ok(()) => {},
                                Err(error) => {
                                    return Err(error);
                                },
                            }
                            reaction.to_client = Some(Outgoing::Json(msg.to_json()));
                        } else {
                            reaction.to_client = Some(Outgoing::Text(text));
                        }
                    },
                    None => {
                        reaction.to_client = Some(Outgoing::Text(text));
                    },
                }
                Ok(reaction)
            },
            Event::ServerError => Ok(quiet()),
            Event::ServerExited | Event::Timeout => {
                let mut reaction = quiet();
                reaction.close_client = true;
                reaction.stop = true;
                Ok(reaction)
            },
        }
    }
}

} // verus!
