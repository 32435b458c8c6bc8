//! The requests that the proxy knows by name.
use vstd::prelude::*;

use crate::lsp::json::Json;
use crate::lsp::json::JsonView;
use crate::lsp::types::Id;
use crate::lsp::types::IdView;
use crate::text::same_text;

verus! {

/// The method of a request: one of a closed vocabulary.
#[derive(Clone, Copy, Debug, PartialEq, Eq, Structural)]
pub enum RequestMethod {
    /// `initialize`: the first request from the client to the server.
    Initialize,
    /// `shutdown`: asks the server to shut down, but not to exit.
    Shutdown,
    /// `workspace/symbol`: lists the symbols of the workspace that match a query.
    Symbol,
    /// `workspace/executeCommand`: runs a command on the server.
    ExecuteCommand,
    /// `textDocument/willSaveWaitUntil`: sent before a document is saved; the answer holds edits.
    WillSaveWaitUntil,
    /// `textDocument/completion`: asks for completion items at a position.
    Completion,
    /// `completionItem/resolve`: asks for more about a completion item.
    CompletionResolve,
    /// `textDocument/hover`: asks for hover information at a position.
    Hover,
    /// `textDocument/signatureHelp`: asks for signature information at a position.
    SignatureHelp,
    /// `textDocument/declaration`: asks where a symbol is declared.
    GotoDeclaration,
    /// `textDocument/definition`: asks where a symbol is defined.
    GotoDefinition,
    /// `textDocument/typeDefinition`: asks where the type of a symbol is defined.
    GotoTypeDefinition,
    /// `textDocument/implementation`: asks where a symbol is implemented.
    GotoImplementation,
    /// `textDocument/references`: asks for the references to a symbol.
    References,
    /// `textDocument/documentHighlight`: asks for the highlights of a symbol in a document.
    DocumentHighlight,
    /// `textDocument/documentSymbol`: lists the symbols of a document.
    DocumentSymbol,
    /// `textDocument/codeAction`: asks for the commands and edits offered for a range.
    CodeAction,
    /// `textDocument/codeLens`: asks for the code lenses of a document.
    CodeLens,
    /// `codeLens/resolve`: asks for the command of a code lens.
    CodeLensResolve,
    /// `textDocument/documentLink`: asks for the links of a document.
    DocumentLink,
    /// `documentLink/resolve`: asks for the target of a link.
    DocumentLinkResolve,
    /// `textDocument/documentColor`: lists the colour references of a document.
    DocumentColor,
    /// `textDocument/colorPresentation`: asks how a colour may be written.
    ColorPresentation,
    /// `textDocument/formatting`: formats a whole document.
    Formatting,
    /// `textDocument/rangeFormatting`: formats a range of a document.
    RangeFormatting,
    /// `textDocument/onTypeFormatting`: formats part of a document while it is typed.
    OnTypeFormatting,
    /// `textDocument/rename`: renames a symbol in the whole workspace.
    Rename,
    /// `textDocument/prepareRename`: tests whether a rename is valid at a position.
    PrepareRename,
    /// `textDocument/foldingRange`: lists the folding ranges of a document.
    FoldingRange,
    /// `textDocument/selectionRange`: asks for selection ranges at positions.
    SelectionRange,
    /// `window/workDoneProgress/cancel`: cancels a progress that the server began.
    CancelWorkDoneProgress,
    /// `window/showMessageRequest`: asks the client to show a message with actions.
    ShowMessage,
    /// `client/registerCapability`: registers a capability with the client.
    RegisterCapability,
    /// `client/unregisterCapability`: takes back a registered capability.
    UnregisterCapability,
    /// `workspace/workspaceFolders`: asks the client for the open workspace folders.
    WorkspaceFolders,
    /// `workspace/configuration`: asks the client for configuration settings.
    Configuration,
    /// `workspace/applyEdit`: asks the client to apply a workspace edit.
    ApplyEdit,
    /// `window/workDoneProgress/create`: asks the client to create a progress.
    CreateWorkDoneProgress,
}

/// The method that a name stands for, if it is in the vocabulary.
pub open spec fn request_method(name: Seq<char>) -> Option<RequestMethod> {
    if name == "initialize"@ {
        Some(RequestMethod::Initialize)
    } else if name == "shutdown"@ {
        Some(RequestMethod::Shutdown)
    } else if name == "workspace/symbol"@ {
        Some(RequestMethod::Symbol)
    } else if name == "workspace/executeCommand"@ {
        Some(RequestMethod::ExecuteCommand)
    } else if name == "textDocument/willSaveWaitUntil"@ {
        Some(RequestMethod::WillSaveWaitUntil)
    } else if name == "textDocument/completion"@ {
        Some(RequestMethod::Completion)
    } else if name == "completionItem/resolve"@ {
        Some(RequestMethod::CompletionResolve)
    } else if name == "textDocument/hover"@ {
        Some(RequestMethod::Hover)
    } else if name == "textDocument/signatureHelp"@ {
        Some(RequestMethod::SignatureHelp)
    } else if name == "textDocument/declaration"@ {
        Some(RequestMethod::GotoDeclaration)
    } else if name == "textDocument/definition"@ {
        Some(RequestMethod::GotoDefinition)
    } else if name == "textDocument/typeDefinition"@ {
        Some(RequestMethod::GotoTypeDefinition)
    } else if name == "textDocument/implementation"@ {
        Some(RequestMethod::GotoImplementation)
    } else if name == "textDocument/references"@ {
        Some(RequestMethod::References)
    } else if name == "textDocument/documentHighlight"@ {
        Some(RequestMethod::DocumentHighlight)
    } else if name == "textDocument/documentSymbol"@ {
        Some(RequestMethod::DocumentSymbol)
    } else if name == "textDocument/codeAction"@ {
        Some(RequestMethod::CodeAction)
    } else if name == "textDocument/codeLens"@ {
        Some(RequestMethod::CodeLens)
    } else if name == "codeLens/resolve"@ {
        Some(RequestMethod::CodeLensResolve)
    } else if name == "textDocument/documentLink"@ {
        Some(RequestMethod::DocumentLink)
    } else if name == "documentLink/resolve"@ {
        Some(RequestMethod::DocumentLinkResolve)
    } else if name == "textDocument/documentColor"@ {
        Some(RequestMethod::DocumentColor)
    } else if name == "textDocument/colorPresentation"@ {
        Some(RequestMethod::ColorPresentation)
    } else if name == "textDocument/formatting"@ {
        Some(RequestMethod::Formatting)
    } else if name == "textDocument/rangeFormatting"@ {
        Some(RequestMethod::RangeFormatting)
    } else if name == "textDocument/onTypeFormatting"@ {
        Some(RequestMethod::OnTypeFormatting)
    } else if name == "textDocument/rename"@ {
        Some(RequestMethod::Rename)
    } else if name == "textDocument/prepareRename"@ {
        Some(RequestMethod::PrepareRename)
    } else if name == "textDocument/foldingRange"@ {
        Some(RequestMethod::FoldingRange)
    } else if name == "textDocument/selectionRange"@ {
        Some(RequestMethod::SelectionRange)
    } else if name == "window/workDoneProgress/cancel"@ {
        Some(RequestMethod::CancelWorkDoneProgress)
    } else if name == "window/showMessageRequest"@ {
        Some(RequestMethod::ShowMessage)
    } else if name == "client/registerCapability"@ {
        Some(RequestMethod::RegisterCapability)
    } else if name == "client/unregisterCapability"@ {
        Some(RequestMethod::UnregisterCapability)
    } else if name == "workspace/workspaceFolders"@ {
        Some(RequestMethod::WorkspaceFolders)
    } else if name == "workspace/configuration"@ {
        Some(RequestMethod::Configuration)
    } else if name == "workspace/applyEdit"@ {
        Some(RequestMethod::ApplyEdit)
    } else if name == "window/workDoneProgress/create"@ {
        Some(RequestMethod::CreateWorkDoneProgress)
    } else {
        None
    }
}

impl RequestMethod {
    /// The name of the method.
    pub open spec fn spec_name(self) -> Seq<char> {
        match self {
            RequestMethod::Initialize => "initialize"@,
            RequestMethod::Shutdown => "shutdown"@,
            RequestMethod::Symbol => "workspace/symbol"@,
            RequestMethod::ExecuteCommand => "workspace/executeCommand"@,
            RequestMethod::WillSaveWaitUntil => "textDocument/willSaveWaitUntil"@,
            RequestMethod::Completion => "textDocument/completion"@,
            RequestMethod::CompletionResolve => "completionItem/resolve"@,
            RequestMethod::Hover => "textDocument/hover"@,
            RequestMethod::SignatureHelp => "textDocument/signatureHelp"@,
            RequestMethod::GotoDeclaration => "textDocument/declaration"@,
            RequestMethod::GotoDefinition => "textDocument/definition"@,
            RequestMethod::GotoTypeDefinition => "textDocument/typeDefinition"@,
            RequestMethod::GotoImplementation => "textDocument/implementation"@,
            RequestMethod::References => "textDocument/references"@,
            RequestMethod::DocumentHighlight => "textDocument/documentHighlight"@,
            RequestMethod::DocumentSymbol => "textDocument/documentSymbol"@,
            RequestMethod::CodeAction => "textDocument/codeAction"@,
            RequestMethod::CodeLens => "textDocument/codeLens"@,
            RequestMethod::CodeLensResolve => "codeLens/resolve"@,
            RequestMethod::DocumentLink => "textDocument/documentLink"@,
            RequestMethod::DocumentLinkResolve => "documentLink/resolve"@,
            RequestMethod::DocumentColor => "textDocument/documentColor"@,
            RequestMethod::ColorPresentation => "textDocument/colorPresentation"@,
            RequestMethod::Formatting => "textDocument/formatting"@,
            RequestMethod::RangeFormatting => "textDocument/rangeFormatting"@,
            RequestMethod::OnTypeFormatting => "textDocument/onTypeFormatting"@,
            RequestMethod::Rename => "textDocument/rename"@,
            RequestMethod::PrepareRename => "textDocument/prepareRename"@,
            RequestMethod::FoldingRange => "textDocument/foldingRange"@,
            RequestMethod::SelectionRange => "textDocument/selectionRange"@,
            RequestMethod::CancelWorkDoneProgress => "window/workDoneProgress/cancel"@,
            RequestMethod::ShowMessage => "window/showMessageRequest"@,
            RequestMethod::RegisterCapability => "client/registerCapability"@,
            RequestMethod::UnregisterCapability => "client/unregisterCapability"@,
            RequestMethod::WorkspaceFolders => "workspace/workspaceFolders"@,
            RequestMethod::Configuration => "workspace/configuration"@,
            RequestMethod::ApplyEdit => "workspace/applyEdit"@,
            RequestMethod::CreateWorkDoneProgress => "window/workDoneProgress/create"@,
        }
    }

    /// The name of the method.
    pub fn name(&self) -> (name: &'static str)
        ensures
            name@ == self.spec_name(),
    {
        match self {
            RequestMethod::Initialize => "initialize",
            RequestMethod::Shutdown => "shutdown",
            RequestMethod::Symbol => "workspace/symbol",
            RequestMethod::ExecuteCommand => "workspace/executeCommand",
            RequestMethod::WillSaveWaitUntil => "textDocument/willSaveWaitUntil",
            RequestMethod::Completion => "textDocument/completion",
            RequestMethod::CompletionResolve => "completionItem/resolve",
            RequestMethod::Hover => "textDocument/hover",
            RequestMethod::SignatureHelp => "textDocument/signatureHelp",
            RequestMethod::GotoDeclaration => "textDocument/declaration",
            RequestMethod::GotoDefinition => "textDocument/definition",
            RequestMethod::GotoTypeDefinition => "textDocument/typeDefinition",
            RequestMethod::GotoImplementation => "textDocument/implementation",
            RequestMethod::References => "textDocument/references",
            RequestMethod::DocumentHighlight => "textDocument/documentHighlight",
            RequestMethod::DocumentSymbol => "textDocument/documentSymbol",
            RequestMethod::CodeAction => "textDocument/codeAction",
            RequestMethod::CodeLens => "textDocument/codeLens",
            RequestMethod::CodeLensResolve => "codeLens/resolve",
            RequestMethod::DocumentLink => "textDocument/documentLink",
            RequestMethod::DocumentLinkResolve => "documentLink/resolve",
            RequestMethod::DocumentColor => "textDocument/documentColor",
            RequestMethod::ColorPresentation => "textDocument/colorPresentation",
            RequestMethod::Formatting => "textDocument/formatting",
            RequestMethod::RangeFormatting => "textDocument/rangeFormatting",
            RequestMethod::OnTypeFormatting => "textDocument/onTypeFormatting",
            RequestMethod::Rename => "textDocument/rename",
            RequestMethod::PrepareRename => "textDocument/prepareRename",
            RequestMethod::FoldingRange => "textDocument/foldingRange",
            RequestMethod::SelectionRange => "textDocument/selectionRange",
            RequestMethod::CancelWorkDoneProgress => "window/workDoneProgress/cancel",
            RequestMethod::ShowMessage => "window/showMessageRequest",
            RequestMethod::RegisterCapability => "client/registerCapability",
            RequestMethod::UnregisterCapability => "client/unregisterCapability",
            RequestMethod::WorkspaceFolders => "workspace/workspaceFolders",
            RequestMethod::Configuration => "workspace/configuration",
            RequestMethod::ApplyEdit => "workspace/applyEdit",
            RequestMethod::CreateWorkDoneProgress => "window/workDoneProgress/create",
        }
    }

    /// The method that a name stands for, if it is in the vocabulary.
    pub fn from_name(name: &str) -> (method: Option<RequestMethod>)
        ensures
            method == request_method(name@),
    {
        if same_text(name, "initialize") {
            Some(RequestMethod::Initialize)
        } else if same_text(name, "shutdown") {
            Some(RequestMethod::Shutdown)
        } else if same_text(name, "workspace/symbol") {
            Some(RequestMethod::Symbol)
        } else if same_text(name, "workspace/executeCommand") {
            Some(RequestMethod::ExecuteCommand)
        } else if same_text(name, "textDocument/willSaveWaitUntil") {
            Some(RequestMethod::WillSaveWaitUntil)
        } else if same_text(name, "textDocument/completion") {
            Some(RequestMethod::Completion)
        } else if same_text(name, "completionItem/resolve") {
            Some(RequestMethod::CompletionResolve)
        } else if same_text(name, "textDocument/hover") {
            Some(RequestMethod::Hover)
        } else if same_text(name, "textDocument/signatureHelp") {
            Some(RequestMethod::SignatureHelp)
        } else if same_text(name, "textDocument/declaration") {
            Some(RequestMethod::GotoDeclaration)
        } else if same_text(name, "textDocument/definition") {
            Some(RequestMethod::GotoDefinition)
        } else if same_text(name, "textDocument/typeDefinition") {
            Some(RequestMethod::GotoTypeDefinition)
        } else if same_text(name, "textDocument/implementation") {
            Some(RequestMethod::GotoImplementation)
        } else if same_text(name, "textDocument/references") {
            Some(RequestMethod::References)
        } else if same_text(name, "textDocument/documentHighlight") {
            Some(RequestMethod::DocumentHighlight)
        } else if same_text(name, "textDocument/documentSymbol") {
            Some(RequestMethod::DocumentSymbol)
        } else if same_text(name, "textDocument/codeAction") {
            Some(RequestMethod::CodeAction)
        } else if same_text(name, "textDocument/codeLens") {
            Some(RequestMethod::CodeLens)
        } else if same_text(name, "codeLens/resolve") {
            Some(RequestMethod::CodeLensResolve)
        } else if same_text(name, "textDocument/documentLink") {
            Some(RequestMethod::DocumentLink)
        } else if same_text(name, "documentLink/resolve") {
            Some(RequestMethod::DocumentLinkResolve)
        } else if same_text(name, "textDocument/documentColor") {
            Some(RequestMethod::DocumentColor)
        } else if same_text(name, "textDocument/colorPresentation") {
            Some(RequestMethod::ColorPresentation)
        } else if same_text(name, "textDocument/formatting") {
            Some(RequestMethod::Formatting)
        } else if same_text(name, "textDocument/rangeFormatting") {
            Some(RequestMethod::RangeFormatting)
        } else if same_text(name, "textDocument/onTypeFormatting") {
            Some(RequestMethod::OnTypeFormatting)
        } else if same_text(name, "textDocument/rename") {
            Some(RequestMethod::Rename)
        } else if same_text(name, "textDocument/prepareRename") {
            Some(RequestMethod::PrepareRename)
        } else if same_text(name, "textDocument/foldingRange") {
            Some(RequestMethod::FoldingRange)
        } else if same_text(name, "textDocument/selectionRange") {
            Some(RequestMethod::SelectionRange)
        } else if same_text(name, "window/workDoneProgress/cancel") {
            Some(RequestMethod::CancelWorkDoneProgress)
        } else if same_text(name, "window/showMessageRequest") {
            Some(RequestMethod::ShowMessage)
        } else if same_text(name, "client/registerCapability") {
            Some(RequestMethod::RegisterCapability)
        } else if same_text(name, "client/unregisterCapability") {
            Some(RequestMethod::UnregisterCapability)
        } else if same_text(name, "workspace/workspaceFolders") {
            Some(RequestMethod::WorkspaceFolders)
        } else if same_text(name, "workspace/configuration") {
            Some(RequestMethod::Configuration)
        } else if same_text(name, "workspace/applyEdit") {
            Some(RequestMethod::ApplyEdit)
        } else if same_text(name, "window/workDoneProgress/create") {
            Some(RequestMethod::CreateWorkDoneProgress)
        } else {
            None
        }
    }
}

/// Every method is the one that its name stands for.
pub proof fn lemma_request_method_of_name(method: RequestMethod)
    ensures
        request_method(method.spec_name()) == Some(method),
{
    reveal_strlit("initialize");
    assert("initialize"@.len() == 10);
    reveal_strlit("shutdown");
    assert("shutdown"@.len() == 8);
    reveal_strlit("workspace/symbol");
    assert("workspace/symbol"@.len() == 16);
    reveal_strlit("workspace/executeCommand");
    assert("workspace/executeCommand"@.len() == 24);
    reveal_strlit("textDocument/willSaveWaitUntil");
    assert("textDocument/willSaveWaitUntil"@.len() == 30);
    reveal_strlit("textDocument/completion");
    assert("textDocument/completion"@.len() == 23);
    reveal_strlit("completionItem/resolve");
    assert("completionItem/resolve"@.len() == 22);
    reveal_strlit("textDocument/hover");
    assert("textDocument/hover"@.len() == 18);
    reveal_strlit("textDocument/signatureHelp");
    assert("textDocument/signatureHelp"@.len() == 26);
    reveal_strlit("textDocument/declaration");
    assert("textDocument/declaration"@.len() == 24);
    reveal_strlit("textDocument/definition");
    assert("textDocument/definition"@.len() == 23);
    reveal_strlit("textDocument/typeDefinition");
    assert("textDocument/typeDefinition"@.len() == 27);
    reveal_strlit("textDocument/implementation");
    assert("textDocument/implementation"@.len() == 27);
    reveal_strlit("textDocument/references");
    assert("textDocument/references"@.len() == 23);
    reveal_strlit("textDocument/documentHighlight");
    assert("textDocument/documentHighlight"@.len() == 30);
    reveal_strlit("textDocument/documentSymbol");
    assert("textDocument/documentSymbol"@.len() == 27);
    reveal_strlit("textDocument/codeAction");
    assert("textDocument/codeAction"@.len() == 23);
    reveal_strlit("textDocument/codeLens");
    assert("textDocument/codeLens"@.len() == 21);
    reveal_strlit("codeLens/resolve");
    assert("codeLens/resolve"@.len() == 16);
    reveal_strlit("textDocument/documentLink");
    assert("textDocument/documentLink"@.len() == 25);
    reveal_strlit("documentLink/resolve");
    assert("documentLink/resolve"@.len() == 20);
    reveal_strlit("textDocument/documentColor");
    assert("textDocument/documentColor"@.len() == 26);
    reveal_strlit("textDocument/colorPresentation");
    assert("textDocument/colorPresentation"@.len() == 30);
    reveal_strlit("textDocument/formatting");
    assert("textDocument/formatting"@.len() == 23);
    reveal_strlit("textDocument/rangeFormatting");
    assert("textDocument/rangeFormatting"@.len() == 28);
    reveal_strlit("textDocument/onTypeFormatting");
    assert("textDocument/onTypeFormatting"@.len() == 29);
    reveal_strlit("textDocument/rename");
    assert("textDocument/rename"@.len() == 19);
    reveal_strlit("textDocument/prepareRename");
    assert("textDocument/prepareRename"@.len() == 26);
    reveal_strlit("textDocument/foldingRange");
    assert("textDocument/foldingRange"@.len() == 25);
    reveal_strlit("textDocument/selectionRange");
    assert("textDocument/selectionRange"@.len() == 27);
    reveal_strlit("window/workDoneProgress/cancel");
    assert("window/workDoneProgress/cancel"@.len() == 30);
    reveal_strlit("window/showMessageRequest");
    assert("window/showMessageRequest"@.len() == 25);
    reveal_strlit("client/registerCapability");
    assert("client/registerCapability"@.len() == 25);
    reveal_strlit("client/unregisterCapability");
    assert("client/unregisterCapability"@.len() == 27);
    reveal_strlit("workspace/workspaceFolders");
    assert("workspace/workspaceFolders"@.len() == 26);
    reveal_strlit("workspace/configuration");
    assert("workspace/configuration"@.len() == 23);
    reveal_strlit("workspace/applyEdit");
    assert("workspace/applyEdit"@.len() == 19);
    reveal_strlit("window/workDoneProgress/create");
    assert("window/workDoneProgress/create"@.len() == 30);
    match method {
        RequestMethod::Initialize => {},
        RequestMethod::Shutdown => {},
        RequestMethod::Symbol => {},
        RequestMethod::ExecuteCommand => {},
        RequestMethod::WillSaveWaitUntil => {},
        RequestMethod::Completion => {},
        RequestMethod::CompletionResolve => {},
        RequestMethod::Hover => {},
        RequestMethod::SignatureHelp => {},
        RequestMethod::GotoDeclaration => {
            assert("textDocument/declaration"@[0] != "workspace/executeCommand"@[0]);
        },
        RequestMethod::GotoDefinition => {
            assert("textDocument/definition"@[13] != "textDocument/completion"@[13]);
        },
        RequestMethod::GotoTypeDefinition => {},
        RequestMethod::GotoImplementation => {
            assert("textDocument/implementation"@[13] != "textDocument/typeDefinition"@[13]);
        },
        RequestMethod::References => {
            assert("textDocument/references"@[13] != "textDocument/completion"@[13]);
            assert("textDocument/references"@[13] != "textDocument/definition"@[13]);
        },
        RequestMethod::DocumentHighlight => {
            assert("textDocument/documentHighlight"@[13] != "textDocument/willSaveWaitUntil"@[13]);
        },
        RequestMethod::DocumentSymbol => {
            assert("textDocument/documentSymbol"@[13] != "textDocument/typeDefinition"@[13]);
            assert("textDocument/documentSymbol"@[13] != "textDocument/implementation"@[13]);
        },
        RequestMethod::CodeAction => {
            assert("textDocument/codeAction"@[15] != "textDocument/completion"@[15]);
            assert("textDocument/codeAction"@[13] != "textDocument/definition"@[13]);
            assert("textDocument/codeAction"@[13] != "textDocument/references"@[13]);
        },
        RequestMethod::CodeLens => {},
        RequestMethod::CodeLensResolve => {
            assert("codeLens/resolve"@[0] != "workspace/symbol"@[0]);
        },
        RequestMethod::DocumentLink => {},
        RequestMethod::DocumentLinkResolve => {},
        RequestMethod::DocumentColor => {
            assert("textDocument/documentColor"@[13] != "textDocument/signatureHelp"@[13]);
        },
        RequestMethod::ColorPresentation => {
            assert("textDocument/colorPresentation"@[13] != "textDocument/willSaveWaitUntil"@[13]);
            assert("textDocument/colorPresentation"@[13] != "textDocument/documentHighlight"@[13]);
        },
        RequestMethod::Formatting => {
            assert("textDocument/formatting"@[13] != "textDocument/completion"@[13]);
            assert("textDocument/formatting"@[13] != "textDocument/definition"@[13]);
            assert("textDocument/formatting"@[13] != "textDocument/references"@[13]);
            assert("textDocument/formatting"@[13] != "textDocument/codeAction"@[13]);
        },
        RequestMethod::RangeFormatting => {},
        RequestMethod::OnTypeFormatting => {},
        RequestMethod::Rename => {},
        RequestMethod::PrepareRename => {
            assert("textDocument/prepareRename"@[13] != "textDocument/signatureHelp"@[13]);
            assert("textDocument/prepareRename"@[13] != "textDocument/documentColor"@[13]);
        },
        RequestMethod::FoldingRange => {
            assert("textDocument/foldingRange"@[13] != "textDocument/documentLink"@[13]);
        },
        RequestMethod::SelectionRange => {
            assert("textDocument/selectionRange"@[13] != "textDocument/typeDefinition"@[13]);
            assert("textDocument/selectionRange"@[13] != "textDocument/implementation"@[13]);
            assert("textDocument/selectionRange"@[13] != "textDocument/documentSymbol"@[13]);
        },
        RequestMethod::CancelWorkDoneProgress => {
            assert("window/workDoneProgress/cancel"@[0] != "textDocument/willSaveWaitUntil"@[0]);
            assert("window/workDoneProgress/cancel"@[0] != "textDocument/documentHighlight"@[0]);
            assert("window/workDoneProgress/cancel"@[0] != "textDocument/colorPresentation"@[0]);
        },
        RequestMethod::ShowMessage => {
            assert("window/showMessageRequest"@[0] != "textDocument/documentLink"@[0]);
            assert("window/showMessageRequest"@[0] != "textDocument/foldingRange"@[0]);
        },
        RequestMethod::RegisterCapability => {
            assert("client/registerCapability"@[0] != "textDocument/documentLink"@[0]);
            assert("client/registerCapability"@[0] != "textDocument/foldingRange"@[0]);
            assert("client/registerCapability"@[0] != "window/showMessageRequest"@[0]);
        },
        RequestMethod::UnregisterCapability => {
            assert("client/unregisterCapability"@[0] != "textDocument/typeDefinition"@[0]);
            assert("client/unregisterCapability"@[0] != "textDocument/implementation"@[0]);
            assert("client/unregisterCapability"@[0] != "textDocument/documentSymbol"@[0]);
            assert("client/unregisterCapability"@[0] != "textDocument/selectionRange"@[0]);
        },
        RequestMethod::WorkspaceFolders => {
            assert("workspace/workspaceFolders"@[0] != "textDocument/signatureHelp"@[0]);
            assert("workspace/workspaceFolders"@[0] != "textDocument/documentColor"@[0]);
            assert("workspace/workspaceFolders"@[0] != "textDocument/prepareRename"@[0]);
        },
        RequestMethod::Configuration => {
            assert("workspace/configuration"@[0] != "textDocument/completion"@[0]);
            assert("workspace/configuration"@[0] != "textDocument/definition"@[0]);
            assert("workspace/configuration"@[0] != "textDocument/references"@[0]);
            assert("workspace/configuration"@[0] != "textDocument/codeAction"@[0]);
            assert("workspace/configuration"@[0] != "textDocument/formatting"@[0]);
        },
        RequestMethod::ApplyEdit => {
            assert("workspace/applyEdit"@[0] != "textDocument/rename"@[0]);
        },
        RequestMethod::CreateWorkDoneProgress => {
            assert("window/workDoneProgress/create"@[0] != "textDocument/willSaveWaitUntil"@[0]);
            assert("window/workDoneProgress/create"@[0] != "textDocument/documentHighlight"@[0]);
            assert("window/workDoneProgress/create"@[0] != "textDocument/colorPresentation"@[0]);
            assert("window/workDoneProgress/create"@[25] != "window/workDoneProgress/cancel"@[25]);
        },
    }
}

/// A request message, from the client or from the server: an ID, a method
/// of the vocabulary and the parameters.
#[derive(Debug, PartialEq)]
pub struct Request {
    pub id: Id,
    pub method: RequestMethod,
    pub params: Json,
}

/// What a request is.
pub ghost struct RequestView {
    pub id: IdView,
    pub method: RequestMethod,
    pub params: JsonView,
}

impl View for Request {
    type V = RequestView;

    open spec fn view(&self) -> RequestView {
        RequestView { id: self.id@, method: self.method, params: self.params@ }
    }
}

} // verus!
