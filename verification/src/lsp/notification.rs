//! The notifications that the proxy knows by name.
use vstd::prelude::*;

use crate::lsp::json::Json;
use crate::lsp::json::JsonView;
use crate::text::same_text;

verus! {

/// The method of a notification: one of a closed vocabulary.
#[derive(Clone, Copy, Debug, PartialEq, Eq, Structural)]
pub enum NotificationMethod {
    /// `initialized`: the client has received the result of `initialize`.
    Initialized,
    /// `exit`: asks the server to exit.
    Exit,
    /// `workspace/didChangeWorkspaceFolders`: the workspace folders have changed.
    DidChangeWorkspaceFolders,
    /// `workspace/didChangeConfiguration`: the configuration has changed.
    DidChangeConfiguration,
    /// `workspace/didChangeWatchedFiles`: watched files have changed.
    DidChangeWatchedFiles,
    /// `textDocument/didOpen`: a document was opened.
    DidOpen,
    /// `textDocument/didChange`: a document was changed.
    DidChange,
    /// `textDocument/willSave`: a document is about to be saved.
    WillSave,
    /// `textDocument/didSave`: a document was saved.
    DidSave,
    /// `textDocument/didClose`: a document was closed.
    DidClose,
    /// `window/logMessage`: asks the client to log a message.
    LogMessage,
    /// `window/showMessage`: asks the client to show a message.
    ShowMessage,
    /// `telemetry/event`: asks the client to log a telemetry event.
    TelemetryEvent,
    /// `textDocument/publishDiagnostics`: the diagnostics of a document.
    PublishDiagnostics,
    /// `$/progress`: reports progress.
    Progress,
    /// `$/cancelRequest`: cancels a request.
    CancelRequest,
}

/// The method that a name stands for, if it is in the vocabulary.
pub open spec fn notification_method(name: Seq<char>) -> Option<NotificationMethod> {
    if name == "initialized"@ {
        Some(NotificationMethod::Initialized)
    } else if name == "exit"@ {
        Some(NotificationMethod::Exit)
    } else if name == "workspace/didChangeWorkspaceFolders"@ {
        Some(NotificationMethod::DidChangeWorkspaceFolders)
    } else if name == "workspace/didChangeConfiguration"@ {
        Some(NotificationMethod::DidChangeConfiguration)
    } else if name == "workspace/didChangeWatchedFiles"@ {
        Some(NotificationMethod::DidChangeWatchedFiles)
    } else if name == "textDocument/didOpen"@ {
        Some(NotificationMethod::DidOpen)
    } else if name == "textDocument/didChange"@ {
        Some(NotificationMethod::DidChange)
    } else if name == "textDocument/willSave"@ {
        Some(NotificationMethod::WillSave)
    } else if name == "textDocument/didSave"@ {
        Some(NotificationMethod::DidSave)
    } else if name == "textDocument/didClose"@ {
        Some(NotificationMethod::DidClose)
    } else if name == "window/logMessage"@ {
        Some(NotificationMethod::LogMessage)
    } else if name == "window/showMessage"@ {
        Some(NotificationMethod::ShowMessage)
    } else if name == "telemetry/event"@ {
        Some(NotificationMethod::TelemetryEvent)
    } else if name == "textDocument/publishDiagnostics"@ {
        Some(NotificationMethod::PublishDiagnostics)
    } else if name == "$/progress"@ {
        Some(NotificationMethod::Progress)
    } else if name == "$/cancelRequest"@ {
        Some(NotificationMethod::CancelRequest)
    } else {
        None
    }
}

impl NotificationMethod {
    /// The name of the method.
    pub open spec fn spec_name(self) -> Seq<char> {
        match self {
            NotificationMethod::Initialized => "initialized"@,
            NotificationMethod::Exit => "exit"@,
            NotificationMethod::DidChangeWorkspaceFolders => "workspace/didChangeWorkspaceFolders"@,
            NotificationMethod::DidChangeConfiguration => "workspace/didChangeConfiguration"@,
            NotificationMethod::DidChangeWatchedFiles => "workspace/didChangeWatchedFiles"@,
            NotificationMethod::DidOpen => "textDocument/didOpen"@,
            NotificationMethod::DidChange => "textDocument/didChange"@,
            NotificationMethod::WillSave => "textDocument/willSave"@,
            NotificationMethod::DidSave => "textDocument/didSave"@,
            NotificationMethod::DidClose => "textDocument/didClose"@,
            NotificationMethod::LogMessage => "window/logMessage"@,
            NotificationMethod::ShowMessage => "window/showMessage"@,
            NotificationMethod::TelemetryEvent => "telemetry/event"@,
            NotificationMethod::PublishDiagnostics => "textDocument/publishDiagnostics"@,
            NotificationMethod::Progress => "$/progress"@,
            NotificationMethod::CancelRequest => "$/cancelRequest"@,
        }
    }

    /// The name of the method.
    pub fn name(&self) -> (name: &'static str)
        ensures
            name@ == self.spec_name(),
    {
        match self {
            NotificationMethod::Initialized => "initialized",
            NotificationMethod::Exit => "exit",
            NotificationMethod::DidChangeWorkspaceFolders => "workspace/didChangeWorkspaceFolders",
            NotificationMethod::DidChangeConfiguration => "workspace/didChangeConfiguration",
            NotificationMethod::DidChangeWatchedFiles => "workspace/didChangeWatchedFiles",
            NotificationMethod::DidOpen => "textDocument/didOpen",
            NotificationMethod::DidChange => "textDocument/didChange",
            NotificationMethod::WillSave => "textDocument/willSave",
            NotificationMethod::DidSave => "textDocument/didSave",
            NotificationMethod::DidClose => "textDocument/didClose",
            NotificationMethod::LogMessage => "window/logMessage",
            NotificationMethod::ShowMessage => "window/showMessage",
            NotificationMethod::TelemetryEvent => "telemetry/event",
            NotificationMethod::PublishDiagnostics => "textDocument/publishDiagnostics",
            NotificationMethod::Progress => "$/progress",
            NotificationMethod::CancelRequest => "$/cancelRequest",
        }
    }

    /// The method that a name stands for, if it is in the vocabulary.
    pub fn from_name(name: &str) -> (method: Option<NotificationMethod>)
        ensures
            method == notification_method(name@),
    {
        if same_text(name, "initialized") {
            Some(NotificationMethod::Initialized)
        } else if same_text(name, "exit") {
            Some(NotificationMethod::Exit)
        } else if same_text(name, "workspace/didChangeWorkspaceFolders") {
            Some(NotificationMethod::DidChangeWorkspaceFolders)
        } else if same_text(name, "workspace/didChangeConfiguration") {
            Some(NotificationMethod::DidChangeConfiguration)
        } else if same_text(name, "workspace/didChangeWatchedFiles") {
            Some(NotificationMethod::DidChangeWatchedFiles)
        } else if same_text(name, "textDocument/didOpen") {
            Some(NotificationMethod::DidOpen)
        } else if same_text(name, "textDocument/didChange") {
            Some(NotificationMethod::DidChange)
        } else if same_text(name, "textDocument/willSave") {
            Some(NotificationMethod::WillSave)
        } else if same_text(name, "textDocument/didSave") {
            Some(NotificationMethod::DidSave)
        } else if same_text(name, "textDocument/didClose") {
            Some(NotificationMethod::DidClose)
        } else if same_text(name, "window/logMessage") {
            Some(NotificationMethod::LogMessage)
        } else if same_text(name, "window/showMessage") {
            Some(NotificationMethod::ShowMessage)
        } else if same_text(name, "telemetry/event") {
            Some(NotificationMethod::TelemetryEvent)
        } else if same_text(name, "textDocument/publishDiagnostics") {
            Some(NotificationMethod::PublishDiagnostics)
        } else if same_text(name, "$/progress") {
            Some(NotificationMethod::Progress)
        } else if same_text(name, "$/cancelRequest") {
            Some(NotificationMethod::CancelRequest)
        } else {
            None
        }
    }
}

/// Every method is the one that its name stands for.
pub proof fn lemma_notification_method_of_name(method: NotificationMethod)
    ensures
        notification_method(method.spec_name()) == Some(method),
{
    reveal_strlit("initialized");
    assert("initialized"@.len() == 11);
    reveal_strlit("exit");
    assert("exit"@.len() == 4);
    reveal_strlit("workspace/didChangeWorkspaceFolders");
    assert("workspace/didChangeWorkspaceFolders"@.len() == 35);
    reveal_strlit("workspace/didChangeConfiguration");
    assert("workspace/didChangeConfiguration"@.len() == 32);
    reveal_strlit("workspace/didChangeWatchedFiles");
    assert("workspace/didChangeWatchedFiles"@.len() == 31);
    reveal_strlit("textDocument/didOpen");
    assert("textDocument/didOpen"@.len() == 20);
    reveal_strlit("textDocument/didChange");
    assert("textDocument/didChange"@.len() == 22);
    reveal_strlit("textDocument/willSave");
    assert("textDocument/willSave"@.len() == 21);
    reveal_strlit("textDocument/didSave");
    assert("textDocument/didSave"@.len() == 20);
    reveal_strlit("textDocument/didClose");
    assert("textDocument/didClose"@.len() == 21);
    reveal_strlit("window/logMessage");
    assert("window/logMessage"@.len() == 17);
    reveal_strlit("window/showMessage");
    assert("window/showMessage"@.len() == 18);
    reveal_strlit("telemetry/event");
    assert("telemetry/event"@.len() == 15);
    reveal_strlit("textDocument/publishDiagnostics");
    assert("textDocument/publishDiagnostics"@.len() == 31);
    reveal_strlit("$/progress");
    assert("$/progress"@.len() == 10);
    reveal_strlit("$/cancelRequest");
    assert("$/cancelRequest"@.len() == 15);
    match method {
        NotificationMethod::Initialized => {},
        NotificationMethod::Exit => {},
        NotificationMethod::DidChangeWorkspaceFolders => {},
        NotificationMethod::DidChangeConfiguration => {},
        NotificationMethod::DidChangeWatchedFiles => {},
        NotificationMethod::DidOpen => {},
        NotificationMethod::DidChange => {},
        NotificationMethod::WillSave => {},
        NotificationMethod::DidSave => {
            assert("textDocument/didSave"@[16] != "textDocument/didOpen"@[16]);
        },
        NotificationMethod::DidClose => {
            assert("textDocument/didClose"@[13] != "textDocument/willSave"@[13]);
        },
        NotificationMethod::LogMessage => {},
        NotificationMethod::ShowMessage => {},
        NotificationMethod::TelemetryEvent => {},
        NotificationMethod::PublishDiagnostics => {
            assert("textDocument/publishDiagnostics"@[0] != "workspace/didChangeWatchedFiles"@[0]);
        },
        NotificationMethod::Progress => {},
        NotificationMethod::CancelRequest => {
            assert("$/cancelRequest"@[0] != "telemetry/event"@[0]);
        },
    }
}

/// A notification message: a method of the vocabulary and the parameters.
#[derive(Debug, PartialEq)]
pub struct Notification {
    pub method: NotificationMethod,
    pub params: Json,
}

/// What a notification is.
pub ghost struct NotificationView {
    pub method: NotificationMethod,
    pub params: JsonView,
}

impl View for Notification {
    type V = NotificationView;

    open spec fn view(&self) -> NotificationView {
        NotificationView { method: self.method, params: self.params@ }
    }
}

} // verus!
