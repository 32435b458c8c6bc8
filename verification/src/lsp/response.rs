//! Responses, and the shapes of results that hold URIs.
use vstd::prelude::*;

use crate::lsp::error::Error;
use crate::lsp::error::ErrorView;
use crate::lsp::json::items_view;
use crate::lsp::json::Json;
use crate::lsp::json::JsonView;
use crate::lsp::types::Id;
use crate::lsp::types::IdView;

verus! {

/// The shapes of results in which the proxy rewrites URIs. A result has the
/// first shape, in this order, that it fits.
#[derive(Clone, Copy, Debug, PartialEq, Eq, Structural)]
pub enum ResultKind {
    /// A list of `{name, kind, location}`.
    SymbolInfos,
    /// A list of `{targetUri, targetRange, targetSelectionRange}`.
    LocationLinks,
    /// A list of `{uri, range}`.
    Locations,
    /// One `{uri, range}`.
    Location,
    /// A list of `{uri, name}`.
    WorkspaceFolders,
    /// A list of `{range, target}`.
    DocumentLinkWithTarget,
    /// One `{range, target}`.
    DocumentLinkWithTargetResolve,
    /// A list of commands and code actions, each with a `title`.
    CodeAction,
    /// `{changes, documentChanges}`.
    WorkspaceEditWithBoth,
    /// `{changes}`.
    WorkspaceEditWithChanges,
    /// `{documentChanges}`.
    WorkspaceEditWithDocumentChanges,
    /// Anything else.
    Any,
}

/// The members that a value of the shape must have.
pub open spec fn required_keys(kind: ResultKind) -> Seq<Seq<char>> {
    match kind {
        ResultKind::SymbolInfos => seq!["name"@, "kind"@, "location"@],
        ResultKind::LocationLinks => seq!["targetUri"@, "targetRange"@, "targetSelectionRange"@],
        ResultKind::Locations => seq!["uri"@, "range"@],
        ResultKind::Location => seq!["uri"@, "range"@],
        ResultKind::WorkspaceFolders => seq!["uri"@, "name"@],
        ResultKind::DocumentLinkWithTarget => seq!["range"@, "target"@],
        ResultKind::DocumentLinkWithTargetResolve => seq!["range"@, "target"@],
        ResultKind::CodeAction => seq!["title"@],
        ResultKind::WorkspaceEditWithBoth => seq!["changes"@, "documentChanges"@],
        ResultKind::WorkspaceEditWithChanges => seq!["changes"@],
        ResultKind::WorkspaceEditWithDocumentChanges => seq!["documentChanges"@],
        ResultKind::Any => seq![],
    }
}

/// Whether the shape is a list of values with the required members.
pub open spec fn is_list(kind: ResultKind) -> bool {
    match kind {
        ResultKind::SymbolInfos
        | ResultKind::LocationLinks
        | ResultKind::Locations
        | ResultKind::WorkspaceFolders
        | ResultKind::DocumentLinkWithTarget
        | ResultKind::CodeAction => true,
        _ => false,
    }
}

/// Whether a value is an object with a member of each of the keys.
pub open spec fn has_keys(json: JsonView, keys: Seq<Seq<char>>) -> bool {
    json is Object && forall|i: int| 0 <= i < keys.len() ==> json.has(#[trigger] keys[i])
}

/// Whether a value fits a shape.
pub open spec fn fits(json: JsonView, kind: ResultKind) -> bool {
    if kind == ResultKind::Any {
        true
    } else if is_list(kind) {
        match json {
            JsonView::Array(items) => forall|i: int|
                0 <= i < items.len() ==> has_keys(#[trigger] items[i], required_keys(kind)),
            _ => false,
        }
    } else {
        has_keys(json, required_keys(kind))
    }
}

/// The shape of a result: the first that it fits.
pub open spec fn kind_of(json: JsonView) -> ResultKind {
    if fits(json, ResultKind::SymbolInfos) {
        ResultKind::SymbolInfos
    } else if fits(json, ResultKind::LocationLinks) {
        ResultKind::LocationLinks
    } else if fits(json, ResultKind::Locations) {
        ResultKind::Locations
    } else if fits(json, ResultKind::Location) {
        ResultKind::Location
    } else if fits(json, ResultKind::WorkspaceFolders) {
        ResultKind::WorkspaceFolders
    } else if fits(json, ResultKind::DocumentLinkWithTarget) {
        ResultKind::DocumentLinkWithTarget
    } else if fits(json, ResultKind::DocumentLinkWithTargetResolve) {
        ResultKind::DocumentLinkWithTargetResolve
    } else if fits(json, ResultKind::CodeAction) {
        ResultKind::CodeAction
    } else if fits(json, ResultKind::WorkspaceEditWithBoth) {
        ResultKind::WorkspaceEditWithBoth
    } else if fits(json, ResultKind::WorkspaceEditWithChanges) {
        ResultKind::WorkspaceEditWithChanges
    } else if fits(json, ResultKind::WorkspaceEditWithDocumentChanges) {
        ResultKind::WorkspaceEditWithDocumentChanges
    } else {
        ResultKind::Any
    }
}

/// What the keys of a list are.
pub open spec fn keys_view(keys: Seq<&'static str>) -> Seq<Seq<char>> {
    Seq::new(keys.len(), |i: int| keys[i]@)
}

fn keys_of(kind: ResultKind) -> (keys: Vec<&'static str>)
    ensures
        keys_view(keys@) == required_keys(kind),
{
    let keys = match kind {
        ResultKind::SymbolInfos => vec!["name", "kind", "location"],
        ResultKind::LocationLinks => vec!["targetUri", "targetRange", "targetSelectionRange"],
        ResultKind::Locations => vec!["uri", "range"],
        ResultKind::Location => vec!["uri", "range"],
        ResultKind::WorkspaceFolders => vec!["uri", "name"],
        ResultKind::DocumentLinkWithTarget => vec!["range", "target"],
        ResultKind::DocumentLinkWithTargetResolve => vec!["range", "target"],
        ResultKind::CodeAction => vec!["title"],
        ResultKind::WorkspaceEditWithBoth => vec!["changes", "documentChanges"],
        ResultKind::WorkspaceEditWithChanges => vec!["changes"],
        ResultKind::WorkspaceEditWithDocumentChanges => vec!["documentChanges"],
        ResultKind::Any => vec![],
    };
    assert(keys_view(keys@) =~= required_keys(kind));
    keys
}

fn object_has_keys(json: &Json, keys: &Vec<&'static str>) -> (found: bool)
    ensures
        found == has_keys(json@, keys_view(keys@)),
{
    if json.as_object().is_none() {
        return false;
    }
    let mut i: usize = 0;
    while i < keys.len()
        invariant
            i <= keys.len(),
            json@ is Object,
            forall|j: int| 0 <= j < i ==> json@.has(#[trigger] keys_view(keys@)[j]),
        decreases keys.len() - i,
    {
        if json.get(keys[i]).is_none() {
            assert(!json@.has(keys_view(keys@)[i as int]));
            return false;
        }
        i += 1;
    }
    true
}

fn value_fits(json: &Json, kind: ResultKind) -> (fitting: bool)
    ensures
        fitting == fits(json@, kind),
{
    let keys = keys_of(kind);
    match kind {
        ResultKind::Any => true,
        ResultKind::SymbolInfos
        | ResultKind::LocationLinks
        | ResultKind::Locations
        | ResultKind::WorkspaceFolders
        | ResultKind::DocumentLinkWithTarget
        | ResultKind::CodeAction => match json.as_array() {
            Some(items) => {
                let mut i: usize = 0;
                while i < items.len()
                    invariant
                        i <= items.len(),
                        keys_view(keys@) == required_keys(kind),
                        json@ == JsonView::Array(items_view(items@)),
                        is_list(kind),
                        kind != ResultKind::Any,
                        forall|j: int|
                            0 <= j < i ==> has_keys(
                                #[trigger] items_view(items@)[j],
                                required_keys(kind),
                            ),
                    decreases items.len() - i,
                {
                    if !object_has_keys(&items[i], &keys) {
                        proof {
                            let views = items_view(items@);
                            assert(views[i as int] == items@[i as int]@);
                            assert(!has_keys(views[i as int], required_keys(kind)));
                            assert(json@->Array_0 == views);
                            assert(!fits(json@, kind));
                        }
                        return false;
                    }
                    i += 1;
                }
                true
            },
            None => false,
        },
        _ => object_has_keys(json, &keys),
    }
}

/// The shape of a result.
pub fn classify(json: &Json) -> (kind: ResultKind)
    ensures
        kind == kind_of(json@),
{
    if value_fits(json, ResultKind::SymbolInfos) {
        ResultKind::SymbolInfos
    } else if value_fits(json, ResultKind::LocationLinks) {
        ResultKind::LocationLinks
    } else if value_fits(json, ResultKind::Locations) {
        ResultKind::Locations
    } else if value_fits(json, ResultKind::Location) {
        ResultKind::Location
    } else if value_fits(json, ResultKind::WorkspaceFolders) {
        ResultKind::WorkspaceFolders
    } else if value_fits(json, ResultKind::DocumentLinkWithTarget) {
        ResultKind::DocumentLinkWithTarget
    } else if value_fits(json, ResultKind::DocumentLinkWithTargetResolve) {
        ResultKind::DocumentLinkWithTargetResolve
    } else if value_fits(json, ResultKind::CodeAction) {
        ResultKind::CodeAction
    } else if value_fits(json, ResultKind::WorkspaceEditWithBoth) {
        ResultKind::WorkspaceEditWithBoth
    } else if value_fits(json, ResultKind::WorkspaceEditWithChanges) {
        ResultKind::WorkspaceEditWithChanges
    } else if value_fits(json, ResultKind::WorkspaceEditWithDocumentChanges) {
        ResultKind::WorkspaceEditWithDocumentChanges
    } else {
        ResultKind::Any
    }
}

/// The result of a successful response, with its shape.
#[derive(Debug, PartialEq)]
pub struct ResponseResult {
    kind: ResultKind,
    value: Json,
}

impl View for ResponseResult {
    type V = JsonView;

    closed spec fn view(&self) -> JsonView {
        self.value@
    }
}

impl ResponseResult {
    /// The shape that the result was read with.
    pub closed spec fn spec_kind(&self) -> ResultKind {
        self.kind
    }

    /// A result has the shape of its value.
    #[verifier::type_invariant]
    closed spec fn well_formed(&self) -> bool {
        self.kind == kind_of(self.value@)
    }

    /// Reads a result.
    pub fn from_json(value: Json) -> (result: ResponseResult)
        ensures
            result@ == value@,
            result.spec_kind() == kind_of(value@),
    {
        let kind = classify(&value);
        ResponseResult { kind, value }
    }

    /// The shape of the result.
    pub fn kind(&self) -> (kind: ResultKind)
        ensures
            kind == kind_of(self@),
            kind == self.spec_kind(),
    {
        proof {
            use_type_invariant(self);
        }
        self.kind
    }

    /// The value of the result.
    pub fn value(&self) -> (value: &Json)
        ensures
            value@ == self@,
    {
        &self.value
    }

    /// The value of the result.
    pub fn into_json(self) -> (value: Json)
        ensures
            value@ == self@,
    {
        self.value
    }
}

/// A response: either a success with a result or a failure with an error.
#[derive(Debug, PartialEq)]
pub enum Response {
    Success { id: Id, result: ResponseResult },
    Failure { id: Option<Id>, error: Error },
}

/// What a response is.
pub ghost enum ResponseView {
    Success { id: IdView, result: JsonView },
    Failure { id: Option<IdView>, error: ErrorView },
}

impl View for Response {
    type V = ResponseView;

    open spec fn view(&self) -> ResponseView {
        match self {
            Response::Success { id, result } => ResponseView::Success { id: id@, result: result@ },
            Response::Failure { id, error } => ResponseView::Failure {
                id: match id {
                    Some(id) => Some(id@),
                    None => None,
                },
                error: error@,
            },
        }
    }
}

} // verus!
