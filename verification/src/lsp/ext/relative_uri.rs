//! Rewriting between URIs relative to the project root (`source://`) and
//! absolute URIs (`file://`).
use vstd::prelude::*;

use crate::lsp::json::items_view;
use crate::lsp::json::lemma_json_view;
use crate::lsp::json::members_view;
use crate::lsp::json::Json;
use crate::lsp::json::JsonView;
use crate::lsp::notification::Notification;
use crate::lsp::notification::NotificationMethod;
use crate::lsp::notification::NotificationView;
use crate::lsp::request::Request;
use crate::lsp::request::RequestMethod;
use crate::lsp::request::RequestView;
use crate::lsp::response::Response;
use crate::lsp::response::ResponseResult;
use crate::lsp::response::ResponseView;
use crate::lsp::response::ResultKind;
use crate::lsp::response::kind_of;
use crate::lsp::Message;
use crate::lsp::MessageView;
use crate::lsp::uri::has_scheme;
use crate::lsp::uri::is_serialized;
use crate::lsp::uri::url_join;
use crate::lsp::uri::url_parse;
use crate::lsp::uri::Uri;
use crate::text::concat;
use crate::text::same_text;
use crate::text::strip_prefix;

verus! {

/// Why a URI could not be rewritten.
#[derive(Debug, PartialEq)]
pub enum RemapError {
    /// The rewritten text is no URL.
    InvalidUri(url::ParseError),
    /// A `source` URI that does not begin with `source://`.
    NotRelative,
}

/// The kind of an error of the rewrite.
pub ghost enum Failure {
    /// What the rewrite makes is no URL.
    InvalidUri,
    /// A `source` URI that does not begin with `source://`.
    NotRelative,
}

impl View for RemapError {
    type V = Failure;

    open spec fn view(&self) -> Failure {
        match self {
            RemapError::InvalidUri(_) => Failure::InvalidUri,
            RemapError::NotRelative => Failure::NotRelative,
        }
    }
}

/// What rewriting a URI gives.
pub ghost enum Rewrite {
    /// The URI is not one that the rewrite is for.
    Unchanged,
    /// The URI that takes its place.
    To(Seq<char>),
    /// The URI has the scheme `source` and does not begin with `source://`.
    NotRelative,
    /// The URI is one that the rewrite is for, and the result is no URL.
    Invalid,
}

impl Rewrite {
    /// Whether the rewrite fails.
    pub open spec fn fails(self) -> bool {
        self is NotRelative || self is Invalid
    }
}

/// The rewrite of a project-relative URI to an absolute one: the text after
/// `source://` is resolved against the project root.
pub open spec fn to_file_spec(uri: Seq<char>, cwd: Seq<char>) -> Rewrite {
    if !has_scheme(uri, "source"@) {
        Rewrite::Unchanged
    } else if !"source://"@.is_prefix_of(uri) {
        Rewrite::NotRelative
    } else {
        match url_join(cwd, uri.skip("source://"@.len() as int)) {
            Some(file) => Rewrite::To(file),
            None => Rewrite::Invalid,
        }
    }
}

/// The rewrite of an absolute URI to a project-relative one: for a `file`
/// URI whose text begins with that of the project root, `source://` and
/// what follows the root.
pub open spec fn to_source_spec(uri: Seq<char>, cwd: Seq<char>) -> Rewrite {
    if has_scheme(uri, "file"@) && cwd.is_prefix_of(uri) {
        match url_parse("source://"@ + uri.skip(cwd.len() as int)) {
            Some(source) => Rewrite::To(source),
            None => Rewrite::Invalid,
        }
    } else {
        Rewrite::Unchanged
    }
}

/// Whether what a rewrite returned is what it is to give: the new URI, or
/// none where the URI stays; the error `NotRelative` for a `source` URI
/// that does not begin with `source://`, and `InvalidUri` where what the
/// rewrite makes is no URL.
pub open spec fn rewritten(result: Result<Option<Uri>, RemapError>, rewrite: Rewrite) -> bool {
    match result {
        Ok(None) => rewrite == Rewrite::Unchanged,
        Ok(Some(uri)) => rewrite == Rewrite::To(uri@),
        Err(RemapError::NotRelative) => rewrite == Rewrite::NotRelative,
        Err(RemapError::InvalidUri(_)) => rewrite == Rewrite::Invalid,
    }
}

/// Rewrites a `source` URI to the `file` URI under the project root;
/// `None` for a URI of another scheme.
pub fn to_file(uri: &Uri, cwd: &Uri) -> (result: Result<Option<Uri>, RemapError>)
    ensures
        rewritten(result, to_file_spec(uri@, cwd@)),
{
    if uri.has_scheme("source") {
        match strip_prefix(uri.as_str(), "source://") {
            Some(relative) => match cwd.join(relative) {
                Ok(file) => Ok(Some(file)),
                Err(error) => Err(RemapError::InvalidUri(error)),
            },
            None => Err(RemapError::NotRelative),
        }
    } else {
        Ok(None)
    }
}

/// Rewrites a `file` URI under the project root to the `source` URI;
/// `None` for any other URI.
pub fn to_source(uri: &Uri, cwd: &Uri) -> (result: Result<Option<Uri>, RemapError>)
    ensures
        rewritten(result, to_source_spec(uri@, cwd@)),
{
    if uri.has_scheme("file") {
        match strip_prefix(uri.as_str(), cwd.as_str()) {
            Some(relative) => {
                let source_uri = concat("source://", relative);
                match Uri::parse(source_uri.as_str()) {
                    Ok(source) => Ok(Some(source)),
                    Err(error) => Err(RemapError::InvalidUri(error)),
                }
            },
            None => Ok(None),
        }
    } else {
        Ok(None)
    }
}

/// Whether resolving a relative reference against the project root only
/// appends it.
pub open spec fn joins_plainly(cwd: Seq<char>, relative: Seq<char>) -> bool {
    url_join(cwd, relative) == Some(cwd + relative)
}

/// A `source://` URI that is rewritten to a `file` URI and back is as it
/// was, where the project root is a `file` URI and resolving the relative
/// part against it only appends that part.
pub proof fn lemma_source_round_trip(uri: Seq<char>, cwd: Seq<char>)
    requires
        "source://"@.is_prefix_of(uri),
        is_serialized(uri),
        has_scheme(cwd, "file"@),
        joins_plainly(cwd, uri.skip("source://"@.len() as int)),
    ensures
        to_file_spec(uri, cwd) == Rewrite::To(cwd + uri.skip("source://"@.len() as int)),
        to_source_spec(cwd + uri.skip("source://"@.len() as int), cwd) == Rewrite::To(uri),
{
    reveal_strlit("source://");
    reveal_strlit("source");
    reveal_strlit("file");
    reveal_strlit(":");
    let relative = uri.skip(9);
    let file = cwd + relative;
    assert(("source"@ + ":"@).is_prefix_of(uri)) by {
        assert(("source"@ + ":"@) =~= "source://"@.subrange(0, 7));
    }
    assert(file.skip(cwd.len() as int) =~= relative);
    assert("source://"@ + relative =~= uri);
}

/// A `file` URI under the project root that is rewritten to a `source://`
/// URI and back is as it was, where the relative form is the serialization
/// of a URL and resolving the relative part against the root gives the URI.
pub proof fn lemma_file_round_trip(uri: Seq<char>, cwd: Seq<char>)
    requires
        has_scheme(uri, "file"@),
        cwd.is_prefix_of(uri),
        is_serialized("source://"@ + uri.skip(cwd.len() as int)),
        joins_plainly(cwd, uri.skip(cwd.len() as int)),
    ensures
        to_source_spec(uri, cwd) == Rewrite::To("source://"@ + uri.skip(cwd.len() as int)),
        to_file_spec("source://"@ + uri.skip(cwd.len() as int), cwd) == Rewrite::To(uri),
{
    reveal_strlit("source://");
    reveal_strlit("source");
    reveal_strlit("file");
    reveal_strlit(":");
    let relative = uri.skip(cwd.len() as int);
    let source = "source://"@ + relative;
    assert(("source"@ + ":"@).is_prefix_of(source)) by {
        assert(("source"@ + ":"@) =~= "source://"@.subrange(0, 7));
    }
    assert(source.skip(9) =~= relative);
    assert(cwd + relative =~= uri);
}

/// The direction of a rewrite.
#[derive(Clone, Copy, Debug, PartialEq, Eq, Structural)]
pub enum Direction {
    /// From the client to the server: `source://` to `file://`.
    ToFile,
    /// From the server to the client: `file://` to `source://`.
    ToSource,
}

/// The rewrite of a text that may be a URI: a text that is no URL is left
/// as it is, any other is read as a URL and rewritten in the direction.
pub open spec fn rewrite_text(direction: Direction, text: Seq<char>, cwd: Seq<char>) -> Rewrite {
    match url_parse(text) {
        None => Rewrite::Unchanged,
        Some(uri) => match direction {
            Direction::ToFile => to_file_spec(uri, cwd),
            Direction::ToSource => to_source_spec(uri, cwd),
        },
    }
}

/// Rewrites a text that may be a URI; `None` where it stays as it is.
pub fn remap_text(direction: Direction, text: &str, cwd: &Uri) -> (result: Result<
    Option<String>,
    RemapError,
>)
    ensures
        match result {
            Ok(None) => rewrite_text(direction, text@, cwd@) == Rewrite::Unchanged,
            Ok(Some(uri)) => rewrite_text(direction, text@, cwd@) == Rewrite::To(uri@),
            Err(RemapError::NotRelative) => rewrite_text(direction, text@, cwd@)
                == Rewrite::NotRelative,
            Err(RemapError::InvalidUri(_)) => rewrite_text(direction, text@, cwd@)
                == Rewrite::Invalid,
        },
{
    match Uri::parse(text) {
        Err(_) => Ok(None),
        Ok(uri) => {
            let rewritten = match direction {
                Direction::ToFile => to_file(&uri, cwd),
                Direction::ToSource => to_source(&uri, cwd),
            };
            match rewritten {
                Ok(None) => Ok(None),
                Ok(Some(new)) => Ok(Some(new.into_string())),
                Err(error) => Err(error),
            }
        },
    }
}

/// One step on the way from a value to the URIs in it.
#[derive(Debug, PartialEq)]
pub enum Step {
    /// Into the members of an object that have this key.
    Key(&'static str),
    /// Into every item of an array.
    Each,
    /// To the keys of an object, each of which may be a URI.
    Keys,
}

/// What a step is.
pub ghost enum StepView {
    Key(Seq<char>),
    Each,
    Keys,
}

impl View for Step {
    type V = StepView;

    open spec fn view(&self) -> StepView {
        match self {
            Step::Key(key) => StepView::Key(key@),
            Step::Each => StepView::Each,
            Step::Keys => StepView::Keys,
        }
    }
}

/// A place in a value at which the schema of the protocol has URIs: the way
/// to it, and the direction in which the URIs there are rewritten.
#[derive(Debug, PartialEq)]
pub struct Site {
    pub path: Vec<Step>,
    pub direction: Direction,
}

/// What a site is.
pub ghost struct SiteView {
    pub path: Seq<StepView>,
    pub direction: Direction,
}

/// What a way is.
pub open spec fn path_view(path: Seq<Step>) -> Seq<StepView> {
    Seq::new(path.len(), |i: int| path[i]@)
}

impl View for Site {
    type V = SiteView;

    open spec fn view(&self) -> SiteView {
        SiteView { path: path_view(self.path@), direction: self.direction }
    }
}

/// What the sites of a list are.
pub open spec fn sites_view(sites: Seq<Site>) -> Seq<SiteView> {
    Seq::new(sites.len(), |i: int| sites[i]@)
}

/// Whether a later member than the one at `at` has the same key.
pub open spec fn overridden(members: Seq<(Seq<char>, JsonView)>, at: int) -> bool {
    exists|j: int| at < j < members.len() && #[trigger] members[j].0 == members[at].0
}

/// The members from `from` on of which no later one has the same key: what
/// is left where, of the members of one key, the last wins.
pub open spec fn last_wins(members: Seq<(Seq<char>, JsonView)>, from: int) -> Seq<
    (Seq<char>, JsonView),
>
    decreases members.len() - from,
{
    if from < 0 || from >= members.len() {
        Seq::empty()
    } else if overridden(members, from) {
        last_wins(members, from + 1)
    } else {
        seq![members[from]] + last_wins(members, from + 1)
    }
}

/// The key that takes the place of a key.
pub open spec fn rekeyed(direction: Direction, key: Seq<char>, cwd: Seq<char>) -> Seq<char> {
    match rewrite_text(direction, key, cwd) {
        Rewrite::To(uri) => uri,
        _ => key,
    }
}

/// What rewriting a text that stands where a URI may stand gives: the text
/// that stands there afterwards, or the failure.
pub open spec fn text_outcome(text: Seq<char>, rewrite: Rewrite) -> Result<JsonView, Failure> {
    match rewrite {
        Rewrite::Unchanged => Ok(JsonView::String(text)),
        Rewrite::To(uri) => Ok(JsonView::String(uri)),
        Rewrite::NotRelative => Err(Failure::NotRelative),
        Rewrite::Invalid => Err(Failure::InvalidUri),
    }
}

/// The first failure among the outcomes from `from` on.
pub open spec fn first_failure(outcomes: Seq<Result<JsonView, Failure>>, from: int) -> Option<
    Failure,
>
    decreases outcomes.len() - from,
{
    if from < 0 || from >= outcomes.len() {
        None
    } else {
        match outcomes[from] {
            Err(failure) => Some(failure),
            Ok(_) => first_failure(outcomes, from + 1),
        }
    }
}

/// The first failure is that of an outcome before which all succeed.
pub proof fn lemma_first_failure_is(outcomes: Seq<Result<JsonView, Failure>>, from: int, at: int)
    requires
        0 <= from <= at < outcomes.len(),
        forall|j: int| from <= j < at ==> (#[trigger] outcomes[j]) is Ok,
        outcomes[at] is Err,
    ensures
        first_failure(outcomes, from) == Some(outcomes[at]->Err_0),
    decreases at - from,
{
    if from < at {
        lemma_first_failure_is(outcomes, from + 1, at);
    }
}

/// There is no failure among outcomes that all succeed.
pub proof fn lemma_no_failure(outcomes: Seq<Result<JsonView, Failure>>, from: int)
    requires
        0 <= from,
        forall|j: int| from <= j < outcomes.len() ==> (#[trigger] outcomes[j]) is Ok,
    ensures
        first_failure(outcomes, from) is None,
    decreases outcomes.len() - from,
{
    if from < outcomes.len() {
        lemma_no_failure(outcomes, from + 1);
    }
}

/// The outcomes of rewriting the keys of the members of an object.
pub open spec fn key_outcomes(
    members: Seq<(Seq<char>, JsonView)>,
    direction: Direction,
    cwd: Seq<char>,
) -> Seq<Result<JsonView, Failure>> {
    Seq::new(
        members.len(),
        |i: int| text_outcome(members[i].0, rewrite_text(direction, members[i].0, cwd)),
    )
}

/// The members of an object with their keys rewritten, where all can be: of
/// the members that come to have one key, the last is kept. Else the
/// failure of the first key that cannot be rewritten.
pub open spec fn rekeyed_object(
    members: Seq<(Seq<char>, JsonView)>,
    direction: Direction,
    cwd: Seq<char>,
) -> Result<Seq<(Seq<char>, JsonView)>, Failure> {
    match first_failure(key_outcomes(members, direction, cwd), 0) {
        Some(failure) => Err(failure),
        None => Ok(last_wins(rekeyed_members(members, direction, cwd), 0)),
    }
}

/// The outcomes of rewriting, in each item of an array, the URIs at the end
/// of a way.
pub open spec fn item_outcomes(
    items: Seq<JsonView>,
    path: Seq<StepView>,
    direction: Direction,
    cwd: Seq<char>,
) -> Seq<Result<JsonView, Failure>>
    decreases path.len(), 1int,
{
    Seq::new(items.len(), |i: int| rewritten_at(items[i], path, direction, cwd))
}

/// The outcomes of rewriting, in the value of each member of an object that
/// has the key, the URIs at the end of a way; the value of any other member
/// is left as it is.
pub open spec fn member_outcomes(
    members: Seq<(Seq<char>, JsonView)>,
    key: Seq<char>,
    path: Seq<StepView>,
    direction: Direction,
    cwd: Seq<char>,
) -> Seq<Result<JsonView, Failure>>
    decreases path.len(), 1int,
{
    Seq::new(
        members.len(),
        |i: int|
            if members[i].0 == key {
                rewritten_at(members[i].1, path, direction, cwd)
            } else {
                Ok(members[i].1)
            },
    )
}

/// The value with the URIs at the end of a way rewritten, or the failure of
/// the first of them, in the order of the value, that cannot be. A way that
/// the value does not have leads nowhere, and what stands at its end and is
/// no string is left as it is.
pub open spec fn rewritten_at(
    json: JsonView,
    path: Seq<StepView>,
    direction: Direction,
    cwd: Seq<char>,
) -> Result<JsonView, Failure>
    decreases path.len(), 0int,
{
    if path.len() == 0 {
        match json {
            JsonView::String(text) => text_outcome(text, rewrite_text(direction, text, cwd)),
            _ => Ok(json),
        }
    } else {
        match (path[0], json) {
            (StepView::Key(key), JsonView::Object(members)) => {
                let outcomes = member_outcomes(members, key, path.drop_first(), direction, cwd);
                match first_failure(outcomes, 0) {
                    Some(failure) => Err(failure),
                    None => Ok(
                        JsonView::Object(
                            Seq::new(members.len(), |i: int| (members[i].0, outcomes[i]->Ok_0)),
                        ),
                    ),
                }
            },
            (StepView::Each, JsonView::Array(items)) => {
                let outcomes = item_outcomes(items, path.drop_first(), direction, cwd);
                match first_failure(outcomes, 0) {
                    Some(failure) => Err(failure),
                    None => Ok(
                        JsonView::Array(Seq::new(items.len(), |i: int| outcomes[i]->Ok_0)),
                    ),
                }
            },
            (StepView::Keys, JsonView::Object(members)) => match rekeyed_object(
                members,
                direction,
                cwd,
            ) {
                Ok(renamed) => Ok(JsonView::Object(renamed)),
                Err(failure) => Err(failure),
            },
            _ => Ok(json),
        }
    }
}

/// The value with the URIs at all sites rewritten, one site after the
/// other, or the failure of the first URI that cannot be.
pub open spec fn remapped(json: JsonView, sites: Seq<SiteView>, cwd: Seq<char>) -> Result<
    JsonView,
    Failure,
>
    decreases sites.len(),
{
    if sites.len() == 0 {
        Ok(json)
    } else {
        match rewritten_at(json, sites[0].path, sites[0].direction, cwd) {
            Ok(next) => remapped(next, sites.drop_first(), cwd),
            Err(failure) => Err(failure),
        }
    }
}

/// What is left of a way after its first `from` steps.
pub open spec fn rest_of(path: Seq<Step>, from: int) -> Seq<StepView> {
    path_view(path).skip(from)
}

/// The keys of the members, each rewritten.
pub open spec fn rekeyed_members(
    members: Seq<(Seq<char>, JsonView)>,
    direction: Direction,
    cwd: Seq<char>,
) -> Seq<(Seq<char>, JsonView)> {
    Seq::new(members.len(), |i: int| (rekeyed(direction, members[i].0, cwd), members[i].1))
}

fn later_has(keys: &Vec<String>, at: usize) -> (found: bool)
    requires
        at < keys.len(),
    ensures
        found == exists|j: int| at < j < keys.len() && #[trigger] keys[j]@ == keys[at as int]@,
{
    let mut j: usize = at + 1;
    while j < keys.len()
        invariant
            at < j <= keys.len(),
            forall|k: int| at < k < j ==> #[trigger] keys[k]@ != keys[at as int]@,
        decreases keys.len() - j,
    {
        if same_text(keys[j].as_str(), keys[at].as_str()) {
            return true;
        }
        j += 1;
    }
    false
}

/// Rewrites the keys of the members of an object; of the members that
/// come to have one key, the last is kept.
fn remap_keys(members: &Vec<(String, Json)>, direction: Direction, cwd: &Uri) -> (result: Result<
    Vec<(String, Json)>,
    RemapError,
>)
    ensures
        match result {
            Ok(new) => rekeyed_object(members_view(members@), direction, cwd@) == Ok::<
                Seq<(Seq<char>, JsonView)>,
                Failure,
            >(members_view(new@)),
            Err(error) => rekeyed_object(members_view(members@), direction, cwd@) == Err::<
                Seq<(Seq<char>, JsonView)>,
                Failure,
            >(error@),
        },
{
    let ghost old_members = members_view(members@);
    let mut keys: Vec<String> = Vec::new();
    let mut i: usize = 0;
    while i < members.len()
        invariant
            i <= members.len(),
            keys.len() == i,
            old_members == members_view(members@),
            forall|j: int|
                0 <= j < i ==> !rewrite_text(direction, #[trigger] old_members[j].0, cwd@).fails(),
            forall|j: int|
                0 <= j < i ==> #[trigger] keys[j]@ == rekeyed(direction, old_members[j].0, cwd@),
        decreases members.len() - i,
    {
        match remap_text(direction, members[i].0.as_str(), cwd) {
            Ok(None) => keys.push(members[i].0.clone()),
            Ok(Some(key)) => keys.push(key),
            Err(error) => {
                proof {
                    let outcomes = key_outcomes(old_members, direction, cwd@);
                    assert(rewrite_text(direction, old_members[i as int].0, cwd@).fails());
                    assert forall|j: int| 0 <= j < i implies (#[trigger] outcomes[j]) is Ok by {
                        assert(!rewrite_text(direction, old_members[j].0, cwd@).fails());
                    }
                    lemma_first_failure_is(outcomes, 0, i as int);
                }
                return Err(error);
            },
        }
        i += 1;
    }
    let ghost renamed = rekeyed_members(old_members, direction, cwd@);
    proof {
        let outcomes = key_outcomes(old_members, direction, cwd@);
        assert forall|j: int| 0 <= j < outcomes.len() implies (#[trigger] outcomes[j]) is Ok by {
            assert(!rewrite_text(direction, old_members[j].0, cwd@).fails());
        }
        lemma_no_failure(outcomes, 0);
    }
    let mut kept: Vec<(String, Json)> = Vec::new();
    let mut i: usize = 0;
    while i < members.len()
        invariant
            i <= members.len(),
            keys.len() == members.len(),
            old_members == members_view(members@),
            renamed == rekeyed_members(old_members, direction, cwd@),
            forall|j: int| 0 <= j < keys.len() ==> #[trigger] keys[j]@ == renamed[j].0,
            members_view(kept@) + last_wins(renamed, i as int) == last_wins(renamed, 0),
        decreases members.len() - i,
    {
        let found = later_has(&keys, i);
        proof {
            if found {
                let j = choose|j: int| i < j < keys.len() && #[trigger] keys[j]@ == keys[i as int]@;
                assert(renamed[j].0 == renamed[i as int].0);
            } else {
                if overridden(renamed, i as int) {
                    let j = choose|j: int|
                        i < j < renamed.len() && #[trigger] renamed[j].0 == renamed[i as int].0;
                    assert(keys[j]@ == keys[i as int]@);
                }
            }
            assert(found == overridden(renamed, i as int));
        }
        if !found {
            let ghost before = members_view(kept@);
            kept.push((keys[i].clone(), members[i].1.duplicate()));
            proof {
                assert(members_view(kept@) =~= before + seq![renamed[i as int]]);
                assert(members_view(kept@) + last_wins(renamed, i + 1) =~= before + last_wins(
                    renamed,
                    i as int,
                ));
            }
        }
        i += 1;
    }
    proof {
        assert(members_view(kept@) + last_wins(renamed, i as int) =~= members_view(kept@));
    }
    Ok(kept)
}

/// Rewrites the URIs at the end of what is left of a way after `from`
/// steps. The value itself is not touched: the result is a new one.
pub fn remap_at(json: &Json, path: &Vec<Step>, from: usize, direction: Direction, cwd: &Uri) -> (result:
    Result<Json, RemapError>)
    requires
        from <= path.len(),
    ensures
        match result {
            Ok(new) => rewritten_at(json@, rest_of(path@, from as int), direction, cwd@) == Ok::<
                JsonView,
                Failure,
            >(new@),
            Err(error) => rewritten_at(json@, rest_of(path@, from as int), direction, cwd@)
                == Err::<JsonView, Failure>(error@),
        },
    decreases path.len() - from,
{
    let ghost rest = rest_of(path@, from as int);
    proof {
        reveal_with_fuel(rewritten_at, 2);
    }
    if from == path.len() {
        return match json {
            Json::String(text) => match remap_text(direction, text.as_str(), cwd) {
                Ok(None) => Ok(json.duplicate()),
                Ok(Some(uri)) => Ok(Json::String(uri)),
                Err(error) => Err(error),
            },
            _ => Ok(json.duplicate()),
        };
    }
    let ghost tail = rest_of(path@, from + 1);
    proof {
        assert(rest.drop_first() =~= tail);
        assert(rest[0] == path@[from as int]@);
        lemma_json_view(*json);
    }
    match &path[from] {
        Step::Key(key) => match json {
            Json::Object(members) => {
                let ghost old_members = members_view(members@);
                let ghost outcomes = member_outcomes(old_members, key@, tail, direction, cwd@);
                let mut new_members: Vec<(String, Json)> = Vec::new();
                let mut i: usize = 0;
                while i < members.len()
                    invariant
                        i <= members.len(),
                        from < path.len(),
                        new_members.len() == i,
                        old_members == members_view(members@),
                        outcomes == member_outcomes(old_members, key@, tail, direction, cwd@),
                        json@ == JsonView::Object(old_members),
                        rest == rest_of(path@, from as int),
                        rest.len() > 0,
                        rest[0] == StepView::Key(key@),
                        rest.drop_first() == tail,
                        forall|j: int|
                            0 <= j < i ==> (#[trigger] new_members@[j]).0@ == old_members[j].0,
                        forall|j: int|
                            0 <= j < i ==> (#[trigger] outcomes[j]) == Ok::<JsonView, Failure>(
                                new_members@[j].1@,
                            ),
                    decreases members.len() - i,
                {
                    proof {
                        reveal_with_fuel(rewritten_at, 2);
                        assert(old_members[i as int] == (members@[i as int].0@, members@[i as int].1@));
                        assert(tail == rest_of(path@, (from + 1) as int));
                    }
                    if same_text(members[i].0.as_str(), key) {
                        match remap_at(&members[i].1, path, from + 1, direction, cwd) {
                            Ok(value) => {
                                assert(outcomes[i as int] == Ok::<JsonView, Failure>(value@));
                                new_members.push((members[i].0.clone(), value));
                            },
                            Err(error) => {
                                proof {
                                    assert(outcomes[i as int] == Err::<JsonView, Failure>(error@));
                                    lemma_first_failure_is(outcomes, 0, i as int);
                                }
                                return Err(error);
                            },
                        }
                    } else {
                        assert(outcomes[i as int] == Ok::<JsonView, Failure>(members@[i as int].1@));
                        new_members.push((members[i].0.clone(), members[i].1.duplicate()));
                    }
                    i += 1;
                }
                let new = Json::object(new_members);
                proof {
                    reveal_with_fuel(rewritten_at, 2);
                    lemma_no_failure(outcomes, 0);
                    let expected = rewritten_at(json@, rest, direction, cwd@);
                    assert(expected is Ok);
                    assert forall|j: int| 0 <= j < old_members.len() implies members_view(
                        new_members@,
                    )[j] == #[trigger] expected->Ok_0->Object_0[j] by {
                        assert(new_members@[j].0@ == old_members[j].0);
                        assert(outcomes[j] == Ok::<JsonView, Failure>(new_members@[j].1@));
                    }
                    assert(new@->Object_0 =~= expected->Ok_0->Object_0);
                }
                Ok(new)
            },
            _ => Ok(json.duplicate()),
        },
        Step::Each => match json {
            Json::Array(items) => {
                let ghost old_items = items_view(items@);
                let ghost outcomes = item_outcomes(old_items, tail, direction, cwd@);
                let mut new_items: Vec<Json> = Vec::new();
                let mut i: usize = 0;
                while i < items.len()
                    invariant
                        i <= items.len(),
                        from < path.len(),
                        new_items.len() == i,
                        old_items == items_view(items@),
                        outcomes == item_outcomes(old_items, tail, direction, cwd@),
                        json@ == JsonView::Array(old_items),
                        rest == rest_of(path@, from as int),
                        rest.len() > 0,
                        rest[0] == StepView::Each,
                        rest.drop_first() == tail,
                        forall|j: int|
                            0 <= j < i ==> (#[trigger] outcomes[j]) == Ok::<JsonView, Failure>(
                                new_items@[j]@,
                            ),
                    decreases items.len() - i,
                {
                    proof {
                        reveal_with_fuel(rewritten_at, 2);
                        assert(old_items[i as int] == items@[i as int]@);
                        assert(tail == rest_of(path@, (from + 1) as int));
                    }
                    match remap_at(&items[i], path, from + 1, direction, cwd) {
                        Ok(value) => {
                            assert(outcomes[i as int] == Ok::<JsonView, Failure>(value@));
                            new_items.push(value);
                        },
                        Err(error) => {
                            proof {
                                assert(outcomes[i as int] == Err::<JsonView, Failure>(error@));
                                lemma_first_failure_is(outcomes, 0, i as int);
                            }
                            return Err(error);
                        },
                    }
                    i += 1;
                }
                let new = Json::array(new_items);
                proof {
                    reveal_with_fuel(rewritten_at, 2);
                    lemma_no_failure(outcomes, 0);
                    let expected = rewritten_at(json@, rest, direction, cwd@);
                    assert(expected is Ok);
                    assert forall|j: int| 0 <= j < old_items.len() implies items_view(
                        new_items@,
                    )[j] == #[trigger] expected->Ok_0->Array_0[j] by {
                        assert(outcomes[j] == Ok::<JsonView, Failure>(new_items@[j]@));
                    }
                    assert(new@->Array_0 =~= expected->Ok_0->Array_0);
                }
                Ok(new)
            },
            _ => Ok(json.duplicate()),
        },
        Step::Keys => match json {
            Json::Object(members) => match remap_keys(members, direction, cwd) {
                Ok(new_members) => Ok(Json::object(new_members)),
                Err(error) => Err(error),
            },
            _ => Ok(json.duplicate()),
        },
    }
}

/// The site at the end of a way.
pub open spec fn site(path: Seq<StepView>, direction: Direction) -> SiteView {
    SiteView { path, direction }
}

/// The sites of a value that stands at the end of a way in another value,
/// as sites of that other value.
pub open spec fn under(prefix: Seq<StepView>, sites: Seq<SiteView>) -> Seq<SiteView> {
    Seq::new(sites.len(), |i: int| site(prefix + sites[i].path, sites[i].direction))
}

/// The URI of a location goes to the client.
pub open spec fn location_sites() -> Seq<SiteView> {
    seq![site(seq![StepView::Key("uri"@)], Direction::ToSource)]
}

/// The URI of a text document identifier goes to the server.
pub open spec fn text_document_identifier_sites() -> Seq<SiteView> {
    seq![site(seq![StepView::Key("uri"@)], Direction::ToFile)]
}

/// The URI of a workspace folder goes to the server.
pub open spec fn workspace_folder_sites() -> Seq<SiteView> {
    seq![site(seq![StepView::Key("uri"@)], Direction::ToFile)]
}

/// The keys of the `changes` of a workspace edit are URIs.
pub open spec fn changes_sites() -> Seq<SiteView> {
    seq![site(seq![StepView::Keys], Direction::ToSource)]
}

/// Each of the `documentChanges` of a workspace edit is the edit of a text
/// document, or the creation, renaming or deletion of a file.
pub open spec fn document_changes_sites() -> Seq<SiteView> {
    seq![
        site(seq![StepView::Each, StepView::Key("textDocument"@), StepView::Key("uri"@)], Direction::ToSource),
        site(seq![StepView::Each, StepView::Key("uri"@)], Direction::ToSource),
        site(seq![StepView::Each, StepView::Key("oldUri"@)], Direction::ToSource),
        site(seq![StepView::Each, StepView::Key("newUri"@)], Direction::ToSource),
    ]
}

/// The URIs of a workspace edit.
pub open spec fn workspace_edit_sites() -> Seq<SiteView> {
    under(seq![StepView::Key("changes"@)], changes_sites()) + under(
        seq![StepView::Key("documentChanges"@)],
        document_changes_sites(),
    )
}

/// Where the parameters of a request hold URIs.
pub open spec fn request_sites(method: RequestMethod) -> Seq<SiteView> {
    match method {
        RequestMethod::Initialize => seq![
            site(seq![StepView::Key("rootUri"@)], Direction::ToFile),
        ] + under(
            seq![StepView::Key("workspaceFolders"@), StepView::Each],
            workspace_folder_sites(),
        ),
        RequestMethod::DocumentSymbol
        | RequestMethod::WillSaveWaitUntil
        | RequestMethod::Completion
        | RequestMethod::Hover
        | RequestMethod::SignatureHelp
        | RequestMethod::GotoDeclaration
        | RequestMethod::GotoDefinition
        | RequestMethod::GotoTypeDefinition
        | RequestMethod::GotoImplementation
        | RequestMethod::References
        | RequestMethod::DocumentHighlight
        | RequestMethod::CodeAction
        | RequestMethod::CodeLens
        | RequestMethod::DocumentLink
        | RequestMethod::DocumentColor
        | RequestMethod::ColorPresentation
        | RequestMethod::Formatting
        | RequestMethod::RangeFormatting
        | RequestMethod::OnTypeFormatting
        | RequestMethod::Rename
        | RequestMethod::PrepareRename
        | RequestMethod::FoldingRange
        | RequestMethod::SelectionRange => under(
            seq![StepView::Key("textDocument"@)],
            text_document_identifier_sites(),
        ),
        RequestMethod::DocumentLinkResolve => seq![
            site(seq![StepView::Key("target"@)], Direction::ToFile),
        ],
        RequestMethod::ApplyEdit => under(seq![StepView::Key("edit"@)], workspace_edit_sites()),
        RequestMethod::Configuration => seq![
            site(
                seq![StepView::Key("items"@), StepView::Each, StepView::Key("scopeUri"@)],
                Direction::ToSource,
            ),
        ],
        RequestMethod::WorkspaceFolders
        | RequestMethod::ShowMessage
        | RequestMethod::CompletionResolve
        | RequestMethod::CodeLensResolve
        | RequestMethod::RegisterCapability
        | RequestMethod::UnregisterCapability
        | RequestMethod::CreateWorkDoneProgress
        | RequestMethod::CancelWorkDoneProgress
        | RequestMethod::Symbol
        | RequestMethod::ExecuteCommand
        | RequestMethod::Shutdown => Seq::empty(),
    }
}

/// Where the parameters of a notification hold URIs.
pub open spec fn notification_sites(method: NotificationMethod) -> Seq<SiteView> {
    match method {
        NotificationMethod::DidSave
        | NotificationMethod::WillSave
        | NotificationMethod::DidClose
        | NotificationMethod::DidOpen
        | NotificationMethod::DidChange => under(
            seq![StepView::Key("textDocument"@)],
            text_document_identifier_sites(),
        ),
        NotificationMethod::DidChangeWorkspaceFolders => under(
            seq![StepView::Key("event"@), StepView::Key("added"@), StepView::Each],
            workspace_folder_sites(),
        ) + under(
            seq![StepView::Key("event"@), StepView::Key("removed"@), StepView::Each],
            workspace_folder_sites(),
        ),
        NotificationMethod::DidChangeWatchedFiles => seq![
            site(
                seq![StepView::Key("changes"@), StepView::Each, StepView::Key("uri"@)],
                Direction::ToFile,
            ),
        ],
        NotificationMethod::PublishDiagnostics => seq![
            site(seq![StepView::Key("uri"@)], Direction::ToSource),
        ],
        NotificationMethod::DidChangeConfiguration
        | NotificationMethod::Initialized
        | NotificationMethod::Exit
        | NotificationMethod::LogMessage
        | NotificationMethod::ShowMessage
        | NotificationMethod::Progress
        | NotificationMethod::CancelRequest
        | NotificationMethod::TelemetryEvent => Seq::empty(),
    }
}

/// Where a result of a shape holds URIs.
pub open spec fn result_sites(kind: ResultKind) -> Seq<SiteView> {
    match kind {
        ResultKind::DocumentLinkWithTarget => seq![
            site(seq![StepView::Each, StepView::Key("target"@)], Direction::ToSource),
        ],
        ResultKind::DocumentLinkWithTargetResolve => seq![
            site(seq![StepView::Key("target"@)], Direction::ToSource),
        ],
        ResultKind::CodeAction => under(
            seq![StepView::Each, StepView::Key("edit"@)],
            workspace_edit_sites(),
        ),
        ResultKind::Location => location_sites(),
        ResultKind::Locations => under(seq![StepView::Each], location_sites()),
        ResultKind::LocationLinks => seq![
            site(seq![StepView::Each, StepView::Key("targetUri"@)], Direction::ToSource),
        ],
        ResultKind::SymbolInfos => under(
            seq![StepView::Each, StepView::Key("location"@)],
            location_sites(),
        ),
        ResultKind::WorkspaceFolders => under(seq![StepView::Each], workspace_folder_sites()),
        ResultKind::WorkspaceEditWithBoth => workspace_edit_sites(),
        ResultKind::WorkspaceEditWithChanges => under(
            seq![StepView::Key("changes"@)],
            changes_sites(),
        ),
        ResultKind::WorkspaceEditWithDocumentChanges => under(
            seq![StepView::Key("documentChanges"@)],
            document_changes_sites(),
        ),
        ResultKind::Any => Seq::empty(),
    }
}

fn copy_path(path: &Vec<Step>) -> (copy: Vec<Step>)
    ensures
        path_view(copy@) == path_view(path@),
{
    let mut copy: Vec<Step> = Vec::new();
    let mut i: usize = 0;
    while i < path.len()
        invariant
            i <= path.len(),
            copy.len() == i,
            forall|j: int| 0 <= j < i ==> copy[j]@ == path[j]@,
        decreases path.len() - i,
    {
        let step = match &path[i] {
            Step::Key(key) => Step::Key(key),
            Step::Each => Step::Each,
            Step::Keys => Step::Keys,
        };
        copy.push(step);
        i += 1;
    }
    assert(path_view(copy@) =~= path_view(path@));
    copy
}

fn path1(first: Step) -> (path: Vec<Step>)
    ensures
        path_view(path@) == seq![first@],
{
    let path = vec![first];
    assert(path_view(path@) =~= seq![first@]);
    path
}

fn path2(first: Step, second: Step) -> (path: Vec<Step>)
    ensures
        path_view(path@) == seq![first@, second@],
{
    let path = vec![first, second];
    assert(path_view(path@) =~= seq![first@, second@]);
    path
}

fn path3(first: Step, second: Step, third: Step) -> (path: Vec<Step>)
    ensures
        path_view(path@) == seq![first@, second@, third@],
{
    let path = vec![first, second, third];
    assert(path_view(path@) =~= seq![first@, second@, third@]);
    path
}

fn one_site(path: Vec<Step>, direction: Direction) -> (sites: Vec<Site>)
    ensures
        sites_view(sites@) == seq![site(path_view(path@), direction)],
{
    let sites = vec![Site { path, direction }];
    assert(sites_view(sites@) =~= seq![site(path_view(path@), direction)]);
    sites
}

fn sites_under(prefix: Vec<Step>, sites: Vec<Site>) -> (moved: Vec<Site>)
    ensures
        sites_view(moved@) == under(path_view(prefix@), sites_view(sites@)),
{
    let mut moved: Vec<Site> = Vec::new();
    let mut i: usize = 0;
    while i < sites.len()
        invariant
            i <= sites.len(),
            moved.len() == i,
            forall|j: int|
                0 <= j < i ==> moved[j]@ == site(
                    path_view(prefix@) + sites[j]@.path,
                    sites[j]@.direction,
                ),
        decreases sites.len() - i,
    {
        let mut path = copy_path(&prefix);
        let mut tail = copy_path(&sites[i].path);
        let ghost head = path_view(path@);
        let ghost rest = path_view(tail@);
        path.append(&mut tail);
        assert(path_view(path@) =~= head + rest);
        moved.push(Site { path, direction: sites[i].direction });
        i += 1;
    }
    assert(sites_view(moved@) =~= under(path_view(prefix@), sites_view(sites@)));
    moved
}

fn both_sites(first: Vec<Site>, second: Vec<Site>) -> (sites: Vec<Site>)
    ensures
        sites_view(sites@) == sites_view(first@) + sites_view(second@),
{
    let mut sites = first;
    let mut second = second;
    let ghost head = sites_view(sites@);
    let ghost rest = sites_view(second@);
    sites.append(&mut second);
    assert(sites_view(sites@) =~= head + rest);
    sites
}

fn sites_of_location() -> (sites: Vec<Site>)
    ensures
        sites_view(sites@) == location_sites(),
{
    one_site(path1(Step::Key("uri")), Direction::ToSource)
}

fn sites_of_text_document_identifier() -> (sites: Vec<Site>)
    ensures
        sites_view(sites@) == text_document_identifier_sites(),
{
    one_site(path1(Step::Key("uri")), Direction::ToFile)
}

fn sites_of_workspace_folder() -> (sites: Vec<Site>)
    ensures
        sites_view(sites@) == workspace_folder_sites(),
{
    one_site(path1(Step::Key("uri")), Direction::ToFile)
}

fn sites_of_changes() -> (sites: Vec<Site>)
    ensures
        sites_view(sites@) == changes_sites(),
{
    one_site(path1(Step::Keys), Direction::ToSource)
}

fn sites_of_document_changes() -> (sites: Vec<Site>)
    ensures
        sites_view(sites@) == document_changes_sites(),
{
    let sites = vec![
        Site {
            path: path3(Step::Each, Step::Key("textDocument"), Step::Key("uri")),
            direction: Direction::ToSource,
        },
        Site { path: path2(Step::Each, Step::Key("uri")), direction: Direction::ToSource },
        Site { path: path2(Step::Each, Step::Key("oldUri")), direction: Direction::ToSource },
        Site { path: path2(Step::Each, Step::Key("newUri")), direction: Direction::ToSource },
    ];
    assert(sites_view(sites@) =~= document_changes_sites());
    sites
}

fn sites_of_workspace_edit() -> (sites: Vec<Site>)
    ensures
        sites_view(sites@) == workspace_edit_sites(),
{
    both_sites(
        sites_under(path1(Step::Key("changes")), sites_of_changes()),
        sites_under(path1(Step::Key("documentChanges")), sites_of_document_changes()),
    )
}

fn sites_of_request(method: RequestMethod) -> (sites: Vec<Site>)
    ensures
        sites_view(sites@) == request_sites(method),
{
    match method {
        RequestMethod::Initialize => both_sites(
            one_site(path1(Step::Key("rootUri")), Direction::ToFile),
            sites_under(
                path2(Step::Key("workspaceFolders"), Step::Each),
                sites_of_workspace_folder(),
            ),
        ),
        RequestMethod::DocumentSymbol
        | RequestMethod::WillSaveWaitUntil
        | RequestMethod::Completion
        | RequestMethod::Hover
        | RequestMethod::SignatureHelp
        | RequestMethod::GotoDeclaration
        | RequestMethod::GotoDefinition
        | RequestMethod::GotoTypeDefinition
        | RequestMethod::GotoImplementation
        | RequestMethod::References
        | RequestMethod::DocumentHighlight
        | RequestMethod::CodeAction
        | RequestMethod::CodeLens
        | RequestMethod::DocumentLink
        | RequestMethod::DocumentColor
        | RequestMethod::ColorPresentation
        | RequestMethod::Formatting
        | RequestMethod::RangeFormatting
        | RequestMethod::OnTypeFormatting
        | RequestMethod::Rename
        | RequestMethod::PrepareRename
        | RequestMethod::FoldingRange
        | RequestMethod::SelectionRange => sites_under(
            path1(Step::Key("textDocument")),
            sites_of_text_document_identifier(),
        ),
        RequestMethod::DocumentLinkResolve => one_site(
            path1(Step::Key("target")),
            Direction::ToFile,
        ),
        RequestMethod::ApplyEdit => sites_under(path1(Step::Key("edit")), sites_of_workspace_edit()),
        RequestMethod::Configuration => one_site(
            path3(Step::Key("items"), Step::Each, Step::Key("scopeUri")),
            Direction::ToSource,
        ),
        RequestMethod::WorkspaceFolders
        | RequestMethod::ShowMessage
        | RequestMethod::CompletionResolve
        | RequestMethod::CodeLensResolve
        | RequestMethod::RegisterCapability
        | RequestMethod::UnregisterCapability
        | RequestMethod::CreateWorkDoneProgress
        | RequestMethod::CancelWorkDoneProgress
        | RequestMethod::Symbol
        | RequestMethod::ExecuteCommand
        | RequestMethod::Shutdown => {
            let sites: Vec<Site> = Vec::new();
            assert(sites_view(sites@) =~= Seq::<SiteView>::empty());
            sites
        },
    }
}

fn sites_of_notification(method: NotificationMethod) -> (sites: Vec<Site>)
    ensures
        sites_view(sites@) == notification_sites(method),
{
    match method {
        NotificationMethod::DidSave
        | NotificationMethod::WillSave
        | NotificationMethod::DidClose
        | NotificationMethod::DidOpen
        | NotificationMethod::DidChange => sites_under(
            path1(Step::Key("textDocument")),
            sites_of_text_document_identifier(),
        ),
        NotificationMethod::DidChangeWorkspaceFolders => both_sites(
            sites_under(
                path3(Step::Key("event"), Step::Key("added"), Step::Each),
                sites_of_workspace_folder(),
            ),
            sites_under(
                path3(Step::Key("event"), Step::Key("removed"), Step::Each),
                sites_of_workspace_folder(),
            ),
        ),
        NotificationMethod::DidChangeWatchedFiles => one_site(
            path3(Step::Key("changes"), Step::Each, Step::Key("uri")),
            Direction::ToFile,
        ),
        NotificationMethod::PublishDiagnostics => one_site(
            path1(Step::Key("uri")),
            Direction::ToSource,
        ),
        NotificationMethod::DidChangeConfiguration
        | NotificationMethod::Initialized
        | NotificationMethod::Exit
        | NotificationMethod::LogMessage
        | NotificationMethod::ShowMessage
        | NotificationMethod::Progress
        | NotificationMethod::CancelRequest
        | NotificationMethod::TelemetryEvent => {
            let sites: Vec<Site> = Vec::new();
            assert(sites_view(sites@) =~= Seq::<SiteView>::empty());
            sites
        },
    }
}

fn sites_of_result(kind: ResultKind) -> (sites: Vec<Site>)
    ensures
        sites_view(sites@) == result_sites(kind),
{
    match kind {
        ResultKind::DocumentLinkWithTarget => one_site(
            path2(Step::Each, Step::Key("target")),
            Direction::ToSource,
        ),
        ResultKind::DocumentLinkWithTargetResolve => one_site(
            path1(Step::Key("target")),
            Direction::ToSource,
        ),
        ResultKind::CodeAction => sites_under(
            path2(Step::Each, Step::Key("edit")),
            sites_of_workspace_edit(),
        ),
        ResultKind::Location => sites_of_location(),
        ResultKind::Locations => sites_under(path1(Step::Each), sites_of_location()),
        ResultKind::LocationLinks => one_site(
            path2(Step::Each, Step::Key("targetUri")),
            Direction::ToSource,
        ),
        ResultKind::SymbolInfos => sites_under(
            path2(Step::Each, Step::Key("location")),
            sites_of_location(),
        ),
        ResultKind::WorkspaceFolders => sites_under(path1(Step::Each), sites_of_workspace_folder()),
        ResultKind::WorkspaceEditWithBoth => sites_of_workspace_edit(),
        ResultKind::WorkspaceEditWithChanges => sites_under(
            path1(Step::Key("changes")),
            sites_of_changes(),
        ),
        ResultKind::WorkspaceEditWithDocumentChanges => sites_under(
            path1(Step::Key("documentChanges")),
            sites_of_document_changes(),
        ),
        ResultKind::Any => {
            let sites: Vec<Site> = Vec::new();
            assert(sites_view(sites@) =~= Seq::<SiteView>::empty());
            sites
        },
    }
}

/// Rewrites the URIs at all the sites of a value, one site after the
/// other. The value itself is not touched: the result is a new one.
pub fn remap(json: &Json, sites: &Vec<Site>, cwd: &Uri) -> (result: Result<Json, RemapError>)
    ensures
        match result {
            Ok(new) => remapped(json@, sites_view(sites@), cwd@) == Ok::<JsonView, Failure>(new@),
            Err(error) => remapped(json@, sites_view(sites@), cwd@) == Err::<JsonView, Failure>(
                error@,
            ),
        },
{
    let ghost all = sites_view(sites@);
    let mut current = json.duplicate();
    let mut i: usize = 0;
    assert(all.skip(0) =~= all);
    while i < sites.len()
        invariant
            i <= sites.len(),
            all == sites_view(sites@),
            remapped(current@, all.skip(i as int), cwd@) == remapped(json@, all, cwd@),
        decreases sites.len() - i,
    {
        proof {
            assert(all.skip(i as int).drop_first() =~= all.skip(i + 1));
            assert(all.skip(i as int)[0] == sites@[i as int]@);
            assert(rest_of(sites@[i as int].path@, 0) =~= sites@[i as int]@.path);
        }
        match remap_at(&current, &sites[i].path, 0, sites[i].direction, cwd) {
            Ok(next) => {
                current = next;
            },
            Err(error) => {
                return Err(error);
            },
        }
        i += 1;
    }
    Ok(current)
}

/// What rewriting a value in its place leaves: the rewritten value, or,
/// where a URI cannot be rewritten, the value as it was and the error of
/// the first such URI.
pub open spec fn remapped_in_place(
    before: JsonView,
    after: JsonView,
    result: Result<(), RemapError>,
    sites: Seq<SiteView>,
    cwd: Seq<char>,
) -> bool {
    match remapped(before, sites, cwd) {
        Ok(new) => result is Ok && after == new,
        Err(failure) => after == before && (result matches Err(error) && error@ == failure),
    }
}

fn remap_in_place(json: &mut Json, sites: &Vec<Site>, cwd: &Uri) -> (result: Result<
    (),
    RemapError,
>)
    ensures
        remapped_in_place(old(json)@, final(json)@, result, sites_view(sites@), cwd@),
{
    match remap(json, sites, cwd) {
        Ok(new) => {
            *json = new;
            Ok(())
        },
        Err(error) => Err(error),
    }
}

/// Remap `Location.uri` to use `source://`
pub fn remap_location(location: &mut Json, cwd: &Uri) -> (result: Result<(), RemapError>)
    ensures
        remapped_in_place(old(location)@, final(location)@, result, location_sites(), cwd@),
{
    remap_in_place(location, &sites_of_location(), cwd)
}

/// Remap `TextDocumentIdentifier.uri` to use `file://`
pub fn remap_text_document_identifier(text_document: &mut Json, cwd: &Uri) -> (result: Result<
    (),
    RemapError,
>)
    ensures
        remapped_in_place(
            old(text_document)@,
            final(text_document)@,
            result,
            text_document_identifier_sites(),
            cwd@,
        ),
{
    remap_in_place(text_document, &sites_of_text_document_identifier(), cwd)
}

/// Remap `WorkspaceFolder.uri` to use `file://`
pub fn remap_workspace_folder(folder: &mut Json, cwd: &Uri) -> (result: Result<(), RemapError>)
    ensures
        remapped_in_place(
            old(folder)@,
            final(folder)@,
            result,
            workspace_folder_sites(),
            cwd@,
        ),
{
    remap_in_place(folder, &sites_of_workspace_folder(), cwd)
}

/// Remap keys of `WorkspaceEdit.changes`
pub fn remap_workspace_edit_changes(changes: &mut Json, cwd: &Uri) -> (result: Result<
    (),
    RemapError,
>)
    ensures
        remapped_in_place(old(changes)@, final(changes)@, result, changes_sites(), cwd@),
{
    remap_in_place(changes, &sites_of_changes(), cwd)
}

/// Remap the URIs in `WorkspaceEdit.documentChanges`
pub fn remap_document_changes(document_changes: &mut Json, cwd: &Uri) -> (result: Result<
    (),
    RemapError,
>)
    ensures
        remapped_in_place(
            old(document_changes)@,
            final(document_changes)@,
            result,
            document_changes_sites(),
            cwd@,
        ),
{
    remap_in_place(document_changes, &sites_of_document_changes(), cwd)
}

/// Remap `DocumentUri` in `WorkspaceEdit` to use `source://`
pub fn remap_workspace_edit(workspace_edit: &mut Json, cwd: &Uri) -> (result: Result<
    (),
    RemapError,
>)
    ensures
        remapped_in_place(
            old(workspace_edit)@,
            final(workspace_edit)@,
            result,
            workspace_edit_sites(),
            cwd@,
        ),
{
    remap_in_place(workspace_edit, &sites_of_workspace_edit(), cwd)
}

/// The request with the URIs in its parameters rewritten.
pub open spec fn remapped_request(request: RequestView, cwd: Seq<char>) -> Result<
    RequestView,
    Failure,
> {
    match remapped(request.params, request_sites(request.method), cwd) {
        Ok(params) => Ok(RequestView { params, ..request }),
        Err(failure) => Err(failure),
    }
}

/// The notification with the URIs in its parameters rewritten.
pub open spec fn remapped_notification(notification: NotificationView, cwd: Seq<char>) -> Result<
    NotificationView,
    Failure,
> {
    match remapped(notification.params, notification_sites(notification.method), cwd) {
        Ok(params) => Ok(NotificationView { params, ..notification }),
        Err(failure) => Err(failure),
    }
}

/// The response with the URIs in its result rewritten, where the result
/// has a shape that holds URIs. A failure has none.
pub open spec fn remapped_response(response: ResponseView, cwd: Seq<char>) -> Result<
    ResponseView,
    Failure,
> {
    match response {
        ResponseView::Success { id, result } => match remapped(
            result,
            result_sites(kind_of(result)),
            cwd,
        ) {
            Ok(result) => Ok(ResponseView::Success { id, result }),
            Err(failure) => Err(failure),
        },
        ResponseView::Failure { .. } => Ok(response),
    }
}

/// The message with its URIs rewritten, or the failure of the first URI
/// that cannot be; an unknown message is left as it is.
pub open spec fn remapped_message(message: MessageView, cwd: Seq<char>) -> Result<
    MessageView,
    Failure,
> {
    match message {
        MessageView::Request(request) => match remapped_request(request, cwd) {
            Ok(request) => Ok(MessageView::Request(request)),
            Err(failure) => Err(failure),
        },
        MessageView::Notification(notification) => match remapped_notification(
            notification,
            cwd,
        ) {
            Ok(notification) => Ok(MessageView::Notification(notification)),
            Err(failure) => Err(failure),
        },
        MessageView::Response(response) => match remapped_response(response, cwd) {
            Ok(response) => Ok(MessageView::Response(response)),
            Err(failure) => Err(failure),
        },
        MessageView::Unknown(_) => Ok(message),
    }
}

/// Rewrites the URIs in the parameters of a request. Where one cannot be
/// rewritten the request is left as it was, and the error is that of the
/// first such URI.
pub fn remap_request(request: &mut Request, cwd: &Uri) -> (result: Result<(), RemapError>)
    ensures
        match remapped_request(old(request)@, cwd@) {
            Ok(new) => result is Ok && final(request)@ == new,
            Err(failure) => final(request)@ == old(request)@ && (result matches Err(error)
                && error@ == failure),
        },
{
    let sites = sites_of_request(request.method);
    match remap(&request.params, &sites, cwd) {
        Ok(params) => {
            request.params = params;
            Ok(())
        },
        Err(error) => Err(error),
    }
}

/// Rewrites the URIs in the parameters of a notification. Where one cannot
/// be rewritten the notification is left as it was, and the error is that
/// of the first such URI.
pub fn remap_notification(notification: &mut Notification, cwd: &Uri) -> (result: Result<
    (),
    RemapError,
>)
    ensures
        match remapped_notification(old(notification)@, cwd@) {
            Ok(new) => result is Ok && final(notification)@ == new,
            Err(failure) => final(notification)@ == old(notification)@ && (result matches Err(error)
                && error@ == failure),
        },
{
    let sites = sites_of_notification(notification.method);
    match remap(&notification.params, &sites, cwd) {
        Ok(params) => {
            notification.params = params;
            Ok(())
        },
        Err(error) => Err(error),
    }
}

/// Rewrites the URIs in the result of a response. Where one cannot be
/// rewritten the response is left as it was, and the error is that of the
/// first such URI.
pub fn remap_response(response: &mut Response, cwd: &Uri) -> (result: Result<(), RemapError>)
    ensures
        match remapped_response(old(response)@, cwd@) {
            Ok(new) => result is Ok && final(response)@ == new,
            Err(failure) => final(response)@ == old(response)@ && (result matches Err(error)
                && error@ == failure),
        },
{
    match response {
        Response::Success { id: _, result } => {
            let sites = sites_of_result(result.kind());
            match remap(result.value(), &sites, cwd) {
                Ok(value) => {
                    *result = ResponseResult::from_json(value);
                    Ok(())
                },
                Err(error) => Err(error),
            }
        },
        Response::Failure { id: _, error: _ } => Ok(()),
    }
}

/// Remap URI relative to current directory (`source://`) to absolute URI
/// (`file://`) in what goes to the server, and back in what goes to the
/// client. Where a URI cannot be rewritten the message is left as it was,
/// and the error is that of the first such URI.
pub fn remap_relative_uri(msg: &mut Message, cwd: &Uri) -> (result: Result<(), RemapError>)
    ensures
        match remapped_message(old(msg)@, cwd@) {
            Ok(new) => result is Ok && final(msg)@ == new,
            Err(failure) => final(msg)@ == old(msg)@ && (result matches Err(error)
                && error@ == failure),
        },
{
    match msg {
        Message::Notification(notification) => remap_notification(notification, cwd),
        Message::Request(request) => remap_request(request, cwd),
        Message::Response(response) => remap_response(response, cwd),
        Message::Unknown(_) => Ok(()),
    }
}

} // verus!
