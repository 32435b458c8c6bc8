//! The rules of the file-operations endpoint: which paths an operation may
//! touch, what it does to the workspace step by step, and which events it
//! reports. Performing the steps on the file system is left to the caller.
use vstd::prelude::*;
use vstd::slice::slice_subrange;
use vstd::slice::slice_to_vec;
use vstd::utf8::encode_utf8;

use crate::lsp::uri::url_from_directory_path;
use crate::lsp::uri::url_from_file_path;
use crate::lsp::uri::url_parse;
use crate::lsp::uri::Uri;
use crate::text::concat;
use crate::text::ends_with;

verus! {

/// Why an operation failed.
#[derive(Debug, PartialEq)]
pub enum Error {
    /// The path leaves the project root.
    NotProjectPath(String),
    /// The directories above the path could not be created; `source` says
    /// why.
    CreateDirs { path: String, source: String },
    /// The file could not be written.
    WriteFile { path: String, source: String },
    /// The file could not be removed.
    RemoveFile { path: String, source: String },
    /// The file could not be renamed.
    RenameFile { from: String, to: String, source: String },
}

/// What an error is.
pub ghost enum ErrorView {
    NotProjectPath(Seq<char>),
    CreateDirs { path: Seq<char>, source: Seq<char> },
    WriteFile { path: Seq<char>, source: Seq<char> },
    RemoveFile { path: Seq<char>, source: Seq<char> },
    RenameFile { from: Seq<char>, to: Seq<char>, source: Seq<char> },
}

impl View for Error {
    type V = ErrorView;

    open spec fn view(&self) -> ErrorView {
        match self {
            Error::NotProjectPath(path) => ErrorView::NotProjectPath(path@),
            Error::CreateDirs { path, source } => ErrorView::CreateDirs {
                path: path@,
                source: source@,
            },
            Error::WriteFile { path, source } => ErrorView::WriteFile {
                path: path@,
                source: source@,
            },
            Error::RemoveFile { path, source } => ErrorView::RemoveFile {
                path: path@,
                source: source@,
            },
            Error::RenameFile { from, to, source } => ErrorView::RenameFile {
                from: from@,
                to: to@,
                source: source@,
            },
        }
    }
}

/// The message of an error.
pub open spec fn message_of(error: ErrorView) -> Seq<char> {
    match error {
        ErrorView::NotProjectPath(path) => path + " is not under the project root"@,
        ErrorView::CreateDirs { path, source } => "failed to create dirs "@ + path + ": "@
            + source,
        ErrorView::WriteFile { path, source } => "failed to write "@ + path + ": "@ + source,
        ErrorView::RemoveFile { path, source } => "failed to remove "@ + path + ": "@ + source,
        ErrorView::RenameFile { from, to, source } => "failed to rename "@ + from + " to "@ + to
            + ": "@ + source,
    }
}

/// The texts, one after the other.
fn sentence(parts: &Vec<&str>) -> (whole: String)
    ensures
        whole@ == parts@.fold_left(Seq::<char>::empty(), |so_far: Seq<char>, part: &str| so_far + part@),
{
    let mut whole = String::new();
    let mut i: usize = 0;
    let ghost step = |so_far: Seq<char>, part: &str| so_far + part@;
    while i < parts.len()
        invariant
            i <= parts.len(),
            step == |so_far: Seq<char>, part: &str| so_far + part@,
            whole@ == parts@.take(i as int).fold_left(Seq::<char>::empty(), step),
        decreases parts.len() - i,
    {
        proof {
            assert(parts@.take(i + 1).drop_last() =~= parts@.take(i as int));
        }
        whole.append(parts[i]);
        i += 1;
    }
    proof {
        assert(parts@.take(i as int) =~= parts@);
    }
    whole
}

impl Error {
    /// The message of the error.
    pub fn message(&self) -> (text: String)
        ensures
            text@ == message_of(self@),
    {
        proof {
            reveal_with_fuel(Seq::fold_left, 8);
        }
        let parts = match self {
            Error::NotProjectPath(path) => vec![path.as_str(), " is not under the project root"],
            Error::CreateDirs { path, source } => vec![
                "failed to create dirs ",
                path.as_str(),
                ": ",
                source.as_str(),
            ],
            Error::WriteFile { path, source } => vec![
                "failed to write ",
                path.as_str(),
                ": ",
                source.as_str(),
            ],
            Error::RemoveFile { path, source } => vec![
                "failed to remove ",
                path.as_str(),
                ": ",
                source.as_str(),
            ],
            Error::RenameFile { from, to, source } => vec![
                "failed to rename ",
                from.as_str(),
                " to ",
                to.as_str(),
                ": ",
                source.as_str(),
            ],
        };
        let text = sentence(&parts);
        proof {
            assert(text@ =~= message_of(self@));
        }
        text
    }
}

/// File operation.
///
/// ```json
/// {"op": "write", "path": "foo.js", "contents": "// foo"}
/// {"op": "remove", "path": "bar.js"}
/// {"op": "rename", "from": "foo.js", "to": "bar.js"}
/// ```
#[derive(Debug, PartialEq)]
pub enum Operation {
    /// Write `contents` to a file at relative `path`.
    ///
    /// This will create a file if it does not exist, and will replace its contents if it does.
    /// Any missing directories are also created.
    Write { path: String, contents: String },
    /// Remove a file at relative `path`.
    ///
    /// Any empty parent directories under `cwd` are also removed.
    /// Errors if `path` doesn't exist, or is not a file.
    Remove { path: String },
    /// Rename a file or directory at relative path `from` to `to`.
    ///
    /// Any missing directories are created.
    /// Any empty parent directories under `cwd` as a result of renaming are removed.
    Rename { from: String, to: String },
}

/// What an operation is.
pub ghost enum OperationView {
    Write { path: Seq<char>, contents: Seq<char> },
    Remove { path: Seq<char> },
    Rename { from: Seq<char>, to: Seq<char> },
}

impl View for Operation {
    type V = OperationView;

    open spec fn view(&self) -> OperationView {
        match self {
            Operation::Write { path, contents } => OperationView::Write {
                path: path@,
                contents: contents@,
            },
            Operation::Remove { path } => OperationView::Remove { path: path@ },
            Operation::Rename { from, to } => OperationView::Rename { from: from@, to: to@ },
        }
    }
}

/// Where the component of a path that begins at `from` ends: at the next
/// slash, or at the end of the path.
pub open spec fn component_end(path: Seq<u8>, from: int) -> int
    decreases path.len() - from,
{
    if from < 0 || from >= path.len() || path[from] == 0x2f {
        from
    } else {
        component_end(path, from + 1)
    }
}

/// Whether a path is absolute: it begins with a slash.
pub open spec fn is_absolute(path: Seq<u8>) -> bool {
    path.len() > 0 && path[0] == 0x2f
}

/// The place that the components of a path from `from` on lead to, from the
/// place that `stack` names component by component: an empty component and
/// `.` lead nowhere, `..` leads to the place above, and any other component
/// to the place of that name below. Above the top of a rooted path there is
/// the top again; above the start of a path that is not rooted there is
/// nothing that is known, and the place is `None`.
pub open spec fn resolve(path: Seq<u8>, from: int, stack: Seq<Seq<u8>>, rooted: bool) -> Option<
    Seq<Seq<u8>>,
>
    decreases path.len() - from,
{
    if from < 0 || from >= path.len() {
        Some(stack)
    } else {
        let end = component_end(path, from);
        let component = path.subrange(from, end);
        let next = if component == seq![0x2eu8, 0x2eu8] {
            if stack.len() > 0 {
                Some(stack.drop_last())
            } else if rooted {
                Some(stack)
            } else {
                None
            }
        } else if component.len() == 0 || component == seq![0x2eu8] {
            Some(stack)
        } else {
            Some(stack.push(component))
        };
        match next {
            Some(place) => if end < from || end >= path.len() {
                Some(place)
            } else {
                resolve(path, end + 1, place, rooted)
            },
            None => None,
        }
    }
}

/// The components of the root, with `.` and `..` resolved.
pub open spec fn root_of(cwd: Seq<u8>) -> Option<Seq<Seq<u8>>> {
    resolve(cwd, 0, Seq::empty(), is_absolute(cwd))
}

/// The components of the place that a path names under the root: those of
/// the root followed by those of the path, with `.` and `..` resolved.
pub open spec fn place_of(cwd: Seq<u8>, path: Seq<u8>) -> Option<Seq<Seq<u8>>> {
    match root_of(cwd) {
        Some(root) => resolve(path, 0, root, is_absolute(cwd)),
        None => None,
    }
}

/// How many directories below the root the place lies that a path names:
/// the path is not absolute, and the components of its place begin with
/// those of the root. `None` for a path that names no place under the root.
pub open spec fn depth_under_root(cwd: Seq<u8>, path: Seq<u8>) -> Option<int> {
    if is_absolute(path) {
        None
    } else {
        match (root_of(cwd), place_of(cwd, path)) {
            (Some(root), Some(place)) => if root.is_prefix_of(place) {
                Some(place.len() - root.len())
            } else {
                None
            },
            _ => None,
        }
    }
}

/// Whether the bytes of a path name a place under the root, the root
/// itself included.
pub open spec fn stays_under_root(cwd: Seq<u8>, path: Seq<u8>) -> bool {
    depth_under_root(cwd, path) is Some
}

/// Whether the bytes of a path name a place under the root that is not the
/// root itself.
pub open spec fn lies_below_root(cwd: Seq<u8>, path: Seq<u8>) -> bool {
    depth_under_root(cwd, path) matches Some(depth) && depth > 0
}

/// Whether a relative path names a place under the project root.
pub open spec fn is_project_path(cwd: Seq<char>, path: Seq<char>) -> bool {
    stays_under_root(encode_utf8(cwd), encode_utf8(path))
}

/// No absolute path names a place under the root.
pub proof fn lemma_absolute_leaves_the_root(cwd: Seq<u8>, path: Seq<u8>)
    requires
        is_absolute(path),
    ensures
        !stays_under_root(cwd, path),
{
}

/// A component ends where the first slash from its start on stands, or
/// where the path ends.
pub proof fn lemma_component_end_is(path: Seq<u8>, from: int, end: int)
    requires
        0 <= from <= end <= path.len(),
        forall|i: int| from <= i < end ==> path[i] != 0x2f,
        end < path.len() ==> path[end] == 0x2f,
    ensures
        component_end(path, from) == end,
    decreases end - from,
{
    if from < end {
        lemma_component_end_is(path, from + 1, end);
    }
}

/// A single name, that of a file or directory in the root, names a place one
/// below the root.
pub proof fn lemma_name_lies_below_root(cwd: Seq<u8>, name: Seq<u8>)
    requires
        root_of(cwd) is Some,
        name.len() > 0,
        forall|i: int| 0 <= i < name.len() ==> name[i] != 0x2f,
        name != seq![0x2eu8],
        name != seq![0x2eu8, 0x2eu8],
    ensures
        depth_under_root(cwd, name) == Some(1int),
{
    let root = root_of(cwd)->0;
    lemma_component_end_is(name, 0, name.len() as int);
    assert(name.subrange(0, name.len() as int) =~= name);
    assert(resolve(name, 0, root, is_absolute(cwd)) == Some(root.push(name)));
    assert(root.push(name).subrange(0, root.len() as int) =~= root);
}

/// A path that leads one up and then down again names no place under the
/// root, unless it comes back into the root by its name: `../name` leaves
/// every root whose last component is not `name`.
pub proof fn lemma_sibling_leaves_the_root(cwd: Seq<u8>, name: Seq<u8>)
    requires
        root_of(cwd) is Some,
        root_of(cwd)->0.len() > 0,
        root_of(cwd)->0.last() != name,
        name.len() > 0,
        forall|i: int| 0 <= i < name.len() ==> name[i] != 0x2f,
        name != seq![0x2eu8],
        name != seq![0x2eu8, 0x2eu8],
    ensures
        !stays_under_root(cwd, seq![0x2eu8, 0x2eu8, 0x2fu8] + name),
{
    let path = seq![0x2eu8, 0x2eu8, 0x2fu8] + name;
    let root = root_of(cwd)->0;
    let rooted = is_absolute(cwd);
    lemma_component_end_is(path, 0, 2);
    assert(path.subrange(0, 2) =~= seq![0x2eu8, 0x2eu8]);
    lemma_component_end_is(path, 3, path.len() as int);
    assert(path.subrange(3, path.len() as int) =~= name);
    let above = root.drop_last();
    assert(resolve(path, 3, above, rooted) == Some(above.push(name)));
    assert(resolve(path, 0, root, rooted) == Some(above.push(name)));
    if root.is_prefix_of(above.push(name)) {
        assert(above.push(name).subrange(0, root.len() as int) =~= above.push(name));
        assert(root.last() == above.push(name).last());
    }
}

/// The path under a directory: the two with a slash between them, where the
/// directory does not end with one.
pub open spec fn joined(cwd: Seq<char>, path: Seq<char>) -> Seq<char> {
    if cwd.len() == 0 || "/"@.is_suffix_of(cwd) {
        cwd + path
    } else {
        cwd + "/"@ + path
    }
}

fn find_component_end(path: &[u8], from: usize) -> (end: usize)
    requires
        from <= path.len(),
    ensures
        end == component_end(path@, from as int),
        from <= end <= path.len(),
{
    let mut end: usize = from;
    while end < path.len() && path[end] != 0x2f
        invariant
            from <= end <= path.len(),
            component_end(path@, from as int) == component_end(path@, end as int),
        decreases path.len() - end,
    {
        end += 1;
    }
    end
}

/// What the components of a list are.
pub open spec fn components_view(components: Seq<Vec<u8>>) -> Seq<Seq<u8>> {
    Seq::new(components.len(), |i: int| components[i]@)
}

/// Follows the components of a path from the place that `stack` names.
/// Where there is no such place it says so, and `stack` is of no use.
fn resolve_onto(path: &[u8], stack: &mut Vec<Vec<u8>>, rooted: bool) -> (found: bool)
    ensures
        match resolve(path@, 0, components_view(old(stack)@), rooted) {
            Some(place) => found && components_view(final(stack)@) == place,
            None => !found,
        },
{
    let ghost start = components_view(stack@);
    let mut from: usize = 0;
    while from < path.len()
        invariant
            from <= path.len(),
            start == components_view(old(stack)@),
            resolve(path@, 0, start, rooted) == resolve(
                path@,
                from as int,
                components_view(stack@),
                rooted,
            ),
        decreases path.len() - from,
    {
        let end = find_component_end(path, from);
        let length = end - from;
        let ghost component = path@.subrange(from as int, end as int);
        let ghost before = components_view(stack@);
        proof {
            assert(seq![0x2eu8, 0x2eu8].len() == 2 && seq![0x2eu8].len() == 1);
            assert(seq![0x2eu8, 0x2eu8][0] == 0x2e && seq![0x2eu8, 0x2eu8][1] == 0x2e);
            assert(seq![0x2eu8][0] == 0x2e);
            assert(component.len() == length);
            assert(length > 0 ==> component[0] == path@[from as int]);
            assert(length > 1 ==> component[1] == path@[from + 1]);
        }
        if length == 2 && path[from] == 0x2e && path[from + 1] == 0x2e {
            assert(component =~= seq![0x2eu8, 0x2eu8]);
            if stack.len() > 0 {
                stack.pop();
                assert(components_view(stack@) =~= before.drop_last());
            } else if !rooted {
                return false;
            }
        } else if length == 0 || (length == 1 && path[from] == 0x2e) {
            assert(length == 1 ==> component =~= seq![0x2eu8]);
        } else {
            stack.push(slice_to_vec(slice_subrange(path, from, end)));
            assert(components_view(stack@) =~= before.push(component));
        }
        if end >= path.len() {
            return true;
        }
        from = end + 1;
    }
    true
}

fn same_bytes(left: &Vec<u8>, right: &Vec<u8>) -> (same: bool)
    ensures
        same == (left@ == right@),
{
    if left.len() != right.len() {
        return false;
    }
    let mut i: usize = 0;
    while i < left.len()
        invariant
            i <= left.len(),
            left.len() == right.len(),
            forall|j: int| 0 <= j < i ==> left@[j] == right@[j],
        decreases left.len() - i,
    {
        if left[i] != right[i] {
            return false;
        }
        i += 1;
    }
    assert(left@ =~= right@);
    true
}

fn begins_with(place: &Vec<Vec<u8>>, root: &Vec<Vec<u8>>) -> (found: bool)
    ensures
        found == components_view(root@).is_prefix_of(components_view(place@)),
{
    if root.len() > place.len() {
        return false;
    }
    let ghost head = components_view(place@).subrange(0, root.len() as int);
    let mut i: usize = 0;
    while i < root.len()
        invariant
            i <= root.len() <= place.len(),
            head == components_view(place@).subrange(0, root.len() as int),
            forall|j: int| 0 <= j < i ==> components_view(root@)[j] == head[j],
        decreases root.len() - i,
    {
        if !same_bytes(&root[i], &place[i]) {
            assert(components_view(root@)[i as int] != head[i as int]);
            return false;
        }
        i += 1;
    }
    assert(components_view(root@) =~= head);
    true
}

/// How many directories below the root the place lies that a path names.
fn depth_of(cwd: &[u8], path: &[u8]) -> (depth: Option<usize>)
    ensures
        match depth {
            Some(below) => depth_under_root(cwd@, path@) == Some(below as int),
            None => depth_under_root(cwd@, path@) is None,
        },
{
    if path.len() > 0 && path[0] == 0x2f {
        return None;
    }
    let rooted = cwd.len() > 0 && cwd[0] == 0x2f;
    let mut root: Vec<Vec<u8>> = Vec::new();
    let mut place: Vec<Vec<u8>> = Vec::new();
    proof {
        assert(components_view(root@) =~= Seq::<Seq<u8>>::empty());
        assert(components_view(place@) =~= Seq::<Seq<u8>>::empty());
    }
    if !resolve_onto(cwd, &mut root, rooted) {
        return None;
    }
    if !resolve_onto(cwd, &mut place, rooted) {
        return None;
    }
    if !resolve_onto(path, &mut place, rooted) {
        return None;
    }
    if begins_with(&place, &root) {
        Some(place.len() - root.len())
    } else {
        None
    }
}

/// The path of the place under `cwd` that the relative `path` names; an
/// error for a path that is absolute or names a place outside `cwd`. The
/// place is found from the two texts alone: nothing is looked up.
pub fn get_path(cwd: &str, path: &str) -> (result: Result<String, Error>)
    ensures
        match result {
            Ok(place) => is_project_path(cwd@, path@) && place@ == joined(cwd@, path@),
            Err(error) => !is_project_path(cwd@, path@) && (error matches Error::NotProjectPath(
                name,
            ) && name@ == path@),
        },
{
    if depth_of(cwd.as_bytes(), path.as_bytes()).is_none() {
        return Err(Error::NotProjectPath(path.to_owned()));
    }
    if cwd.is_empty() || ends_with(cwd, "/") {
        Ok(concat(cwd, path))
    } else {
        let with_slash = concat(cwd, "/");
        Ok(concat(with_slash.as_str(), path))
    }
}

/// The parent of a path, as `std::path::Path::parent` gives it: the path
/// without its last component; `None` for a path that has none.
pub uninterp spec fn path_parent(path: Seq<char>) -> Option<Seq<char>>;

/// Calls `std::path::Path::parent` on the path that a text writes.
#[verifier::external_body]
fn parent_of(path: &str) -> (parent: Option<String>)
    ensures
        parent is Some <==> path_parent(path@) is Some,
        parent matches Some(found) ==> path_parent(path@) == Some(found@),
{
    std::path::Path::new(path).parent().and_then(|parent| parent.to_str()).map(String::from)
}

/// The parent of a path: the path without its last component.
pub fn parent(path: &str) -> (parent: Option<String>)
    ensures
        parent is Some <==> path_parent(path@) is Some,
        parent matches Some(found) ==> path_parent(path@) == Some(found@),
{
    parent_of(path)
}

/// The directories above a relative path that lie below the root, nearest
/// first, up to the first that does not: that is the root itself, or a
/// place outside it.
pub open spec fn ancestors(cwd: Seq<char>, path: Seq<char>) -> Seq<Seq<char>>
    decreases path.len(),
{
    match path_parent(path) {
        Some(parent) => if 0 < parent.len() < path.len() && lies_below_root(
            encode_utf8(cwd),
            encode_utf8(parent),
        ) {
            seq![parent] + ancestors(cwd, parent)
        } else {
            Seq::empty()
        },
        None => Seq::empty(),
    }
}

/// Every directory that is pruned lies below the root: the root itself is
/// never among them.
pub proof fn lemma_pruned_lie_below_root(cwd: Seq<char>, path: Seq<char>, i: int)
    requires
        0 <= i < ancestors(cwd, path).len(),
    ensures
        lies_below_root(encode_utf8(cwd), encode_utf8(ancestors(cwd, path)[i])),
    decreases path.len(),
{
    let parent = path_parent(path)->0;
    if i > 0 {
        lemma_pruned_lie_below_root(cwd, parent, i - 1);
    }
}

/// What the texts of a list are.
pub open spec fn texts_view(texts: Seq<String>) -> Seq<Seq<char>> {
    Seq::new(texts.len(), |i: int| texts[i]@)
}

/// The directories under `cwd` that may be left empty where the file at
/// the relative `path` goes away: those above it, nearest first, that lie
/// below `cwd`. They are removed one after the other, up to the first that
/// is not empty.
pub fn parents_to_prune(cwd: &str, path: &str) -> (dirs: Vec<String>)
    ensures
        texts_view(dirs@) == pruned(cwd@, path@),
{
    let mut dirs: Vec<String> = Vec::new();
    let mut below = path.to_owned();
    let ghost mut done: Seq<Seq<char>> = Seq::empty();
    loop
        invariant
            done + ancestors(cwd@, below@) == ancestors(cwd@, path@),
            dirs.len() == done.len(),
            forall|i: int| 0 <= i < done.len() ==> dirs[i]@ == joined(cwd@, done[i]),
        ensures
            ancestors(cwd@, below@) == Seq::<Seq<char>>::empty(),
        decreases below@.len(),
    {
        let parent = match parent_of(below.as_str()) {
            Some(parent) => parent,
            None => {
                break ;
            },
        };
        if parent.as_str().is_empty() || parent.as_str().unicode_len()
            >= below.as_str().unicode_len() {
            break ;
        }
        match depth_of(cwd.as_bytes(), parent.as_str().as_bytes()) {
            Some(depth) => {
                if depth == 0 {
                    break ;
                }
            },
            None => {
                break ;
            },
        }
        proof {
            assert(done.push(parent@) + ancestors(cwd@, parent@) =~= done + ancestors(
                cwd@,
                below@,
            ));
            done = done.push(parent@);
        }
        dirs.push(absolute(cwd, parent.as_str()));
        below = parent;
    }
    proof {
        assert(done =~= ancestors(cwd@, path@));
        assert(texts_view(dirs@) =~= pruned(cwd@, path@));
    }
    dirs
}

fn absolute(cwd: &str, path: &str) -> (place: String)
    ensures
        place@ == joined(cwd@, path@),
{
    if cwd.is_empty() || ends_with(cwd, "/") {
        concat(cwd, path)
    } else {
        let with_slash = concat(cwd, "/");
        concat(with_slash.as_str(), path)
    }
}

/// The directory under `cwd` that has to be there before the file at the
/// relative `path` can be: the one above it. A path of one component needs
/// `cwd` itself.
pub open spec fn needed_dir(cwd: Seq<char>, path: Seq<char>) -> Option<Seq<char>> {
    match path_parent(path) {
        Some(parent) => Some(joined(cwd, parent)),
        None => None,
    }
}

fn dir_needed(cwd: &str, path: &str) -> (dir: Option<String>)
    ensures
        dir is Some <==> needed_dir(cwd@, path@) is Some,
        dir matches Some(found) ==> needed_dir(cwd@, path@) == Some(found@),
{
    match parent_of(path) {
        Some(parent) => Some(absolute(cwd, parent.as_str())),
        None => None,
    }
}

/// What has to be done on the file system for an operation, in this order.
#[derive(Debug, PartialEq)]
pub enum Plan {
    /// Create `dirs` with all that is missing above it, note whether `file`
    /// exists, then write `contents` to it.
    Write { dirs: Option<String>, file: String, contents: String },
    /// Remove `file`, then the directories of `prune`, one after the other,
    /// up to the first that cannot be removed.
    Remove { file: String, prune: Vec<String> },
    /// Create `dirs` with all that is missing above it, note whether `to`
    /// exists, rename `from` to `to`, prune as for a removal, then note
    /// whether `to` is a directory.
    Rename { dirs: Option<String>, from: String, to: String, prune: Vec<String> },
}

/// What a plan is.
pub ghost enum PlanView {
    Write { dirs: Option<Seq<char>>, file: Seq<char>, contents: Seq<char> },
    Remove { file: Seq<char>, prune: Seq<Seq<char>> },
    Rename { dirs: Option<Seq<char>>, from: Seq<char>, to: Seq<char>, prune: Seq<Seq<char>> },
}

/// What a text that may be absent is.
pub open spec fn optional_view(text: Option<String>) -> Option<Seq<char>> {
    match text {
        Some(text) => Some(text@),
        None => None,
    }
}

impl View for Plan {
    type V = PlanView;

    open spec fn view(&self) -> PlanView {
        match self {
            Plan::Write { dirs, file, contents } => PlanView::Write {
                dirs: optional_view(*dirs),
                file: file@,
                contents: contents@,
            },
            Plan::Remove { file, prune } => PlanView::Remove {
                file: file@,
                prune: texts_view(prune@),
            },
            Plan::Rename { dirs, from, to, prune } => PlanView::Rename {
                dirs: optional_view(*dirs),
                from: from@,
                to: to@,
                prune: texts_view(prune@),
            },
        }
    }
}

/// The directories to prune after the file at a relative path went away.
pub open spec fn pruned(cwd: Seq<char>, path: Seq<char>) -> Seq<Seq<char>> {
    Seq::new(ancestors(cwd, path).len(), |i: int| joined(cwd, ancestors(cwd, path)[i]))
}

/// The plan of an operation, or the path that leaves the project root.
pub open spec fn planned(operation: OperationView, cwd: Seq<char>) -> Result<PlanView, Seq<char>> {
    match operation {
        OperationView::Write { path, contents } => if is_project_path(cwd, path) {
            Ok(PlanView::Write { dirs: needed_dir(cwd, path), file: joined(cwd, path), contents })
        } else {
            Err(path)
        },
        OperationView::Remove { path } => if is_project_path(cwd, path) {
            Ok(PlanView::Remove { file: joined(cwd, path), prune: pruned(cwd, path) })
        } else {
            Err(path)
        },
        OperationView::Rename { from, to } => if !is_project_path(cwd, from) {
            Err(from)
        } else if !is_project_path(cwd, to) {
            Err(to)
        } else {
            Ok(
                PlanView::Rename {
                    dirs: needed_dir(cwd, to),
                    from: joined(cwd, from),
                    to: joined(cwd, to),
                    prune: pruned(cwd, from),
                },
            )
        },
    }
}

/// The kind of a change to a file.
#[derive(Clone, Copy, Debug, PartialEq, Eq, Structural)]
pub enum FileChangeType {
    /// The file got created.
    Created,
    /// The file got changed.
    Changed,
    /// The file got deleted.
    Deleted,
}

impl FileChangeType {
    /// The number that the protocol has for the kind.
    pub fn code(&self) -> (code: u8)
        ensures
            code == match self {
                FileChangeType::Created => 1u8,
                FileChangeType::Changed => 2u8,
                FileChangeType::Deleted => 3u8,
            },
    {
        match self {
            FileChangeType::Created => 1,
            FileChangeType::Changed => 2,
            FileChangeType::Deleted => 3,
        }
    }
}

/// An event of `workspace/didChangeWatchedFiles`.
#[derive(Debug, PartialEq)]
pub struct FileEvent {
    /// The URI of the file.
    pub uri: Uri,
    /// The kind of the change.
    pub typ: FileChangeType,
}

/// What a file event is.
pub ghost struct FileEventView {
    pub uri: Seq<char>,
    pub typ: FileChangeType,
}

impl View for FileEvent {
    type V = FileEventView;

    open spec fn view(&self) -> FileEventView {
        FileEventView { uri: self.uri@, typ: self.typ }
    }
}

/// What the events of a list are.
pub open spec fn events_view(events: Seq<FileEvent>) -> Seq<FileEventView> {
    Seq::new(events.len(), |i: int| events[i]@)
}

/// The URI that is reported for a relative path: with `remap` the
/// project-relative `source://` URI, which ends with a slash for a
/// directory; without it the `file` URI of the place under `cwd`. `None`
/// where there is no such URL.
pub open spec fn path_uri_spec(cwd: Seq<char>, path: Seq<char>, is_dir: bool, remap: bool) -> Option<
    Seq<char>,
> {
    if remap {
        if is_dir && !"/"@.is_suffix_of(path) {
            url_parse("source://"@ + path + "/"@)
        } else {
            url_parse("source://"@ + path)
        }
    } else if is_dir {
        url_from_directory_path(joined(cwd, path))
    } else {
        url_from_file_path(joined(cwd, path))
    }
}

/// The URI that is reported for a relative path.
pub fn path_uri(cwd: &str, path: &str, is_dir: bool, remap: bool) -> (uri: Option<Uri>)
    ensures
        uri is Some <==> path_uri_spec(cwd@, path@, is_dir, remap) is Some,
        uri matches Some(found) ==> path_uri_spec(cwd@, path@, is_dir, remap) == Some(found@),
{
    if remap {
        let relative = concat("source://", path);
        let text = if is_dir && !ends_with(path, "/") {
            concat(relative.as_str(), "/")
        } else {
            relative
        };
        match Uri::parse(text.as_str()) {
            Ok(uri) => Some(uri),
            Err(_) => None,
        }
    } else {
        let place = absolute(cwd, path);
        if is_dir {
            Uri::from_directory_path(place.as_str())
        } else {
            Uri::from_file_path(place.as_str())
        }
    }
}

/// The kind of the change to a file that was written or renamed to.
pub open spec fn written(created: bool) -> FileChangeType {
    if created {
        FileChangeType::Created
    } else {
        FileChangeType::Changed
    }
}

/// The events of an operation that was performed, where each of them has a
/// URI: `created` says that the file written or renamed to was not there
/// before, `is_dir` that what was renamed is a directory.
pub open spec fn events_of(
    operation: OperationView,
    cwd: Seq<char>,
    remap: bool,
    created: bool,
    is_dir: bool,
) -> Option<Seq<FileEventView>> {
    match operation {
        OperationView::Write { path, .. } => match path_uri_spec(cwd, path, false, remap) {
            Some(uri) => Some(seq![FileEventView { uri, typ: written(created) }]),
            None => None,
        },
        OperationView::Remove { path } => match path_uri_spec(cwd, path, false, remap) {
            Some(uri) => Some(seq![FileEventView { uri, typ: FileChangeType::Deleted }]),
            None => None,
        },
        OperationView::Rename { from, to } => match (
            path_uri_spec(cwd, from, is_dir, remap),
            path_uri_spec(cwd, to, is_dir, remap),
        ) {
            (Some(old_uri), Some(new_uri)) => Some(
                seq![
                    FileEventView { uri: old_uri, typ: FileChangeType::Deleted },
                    FileEventView { uri: new_uri, typ: written(created) },
                ],
            ),
            _ => None,
        },
    }
}

/// The step of a plan that failed.
#[derive(Clone, Copy, Debug, PartialEq, Eq, Structural)]
pub enum Stage {
    CreateDirs,
    WriteFile,
    RemoveFile,
    RenameFile,
}

impl Operation {
    /// What has to be done for the operation under `cwd`. An operation with
    /// a path that leaves `cwd` has no plan: nothing is to be touched.
    pub fn plan(&self, cwd: &str) -> (result: Result<Plan, Error>)
        ensures
            match result {
                Ok(plan) => planned(self@, cwd@) == Ok::<PlanView, Seq<char>>(plan@),
                Err(error) => error matches Error::NotProjectPath(path) && planned(self@, cwd@)
                    == Err::<PlanView, Seq<char>>(path@),
            },
    {
        match self {
            Operation::Write { path, contents } => {
                let file = match get_path(cwd, path.as_str()) {
                    Ok(file) => file,
                    Err(error) => {
                        return Err(error);
                    },
                };
                Ok(
                    Plan::Write {
                        dirs: dir_needed(cwd, path.as_str()),
                        file,
                        contents: contents.clone(),
                    },
                )
            },
            Operation::Remove { path } => {
                let file = match get_path(cwd, path.as_str()) {
                    Ok(file) => file,
                    Err(error) => {
                        return Err(error);
                    },
                };
                Ok(Plan::Remove { file, prune: parents_to_prune(cwd, path.as_str()) })
            },
            Operation::Rename { from, to } => {
                let src = match get_path(cwd, from.as_str()) {
                    Ok(src) => src,
                    Err(error) => {
                        return Err(error);
                    },
                };
                let dst = match get_path(cwd, to.as_str()) {
                    Ok(dst) => dst,
                    Err(error) => {
                        return Err(error);
                    },
                };
                Ok(
                    Plan::Rename {
                        dirs: dir_needed(cwd, to.as_str()),
                        from: src,
                        to: dst,
                        prune: parents_to_prune(cwd, from.as_str()),
                    },
                )
            },
        }
    }

    /// The events to report for the operation after it was performed.
    pub fn events(&self, cwd: &str, remap: bool, created: bool, is_dir: bool) -> (events: Option<
        Vec<FileEvent>,
    >)
        ensures
            events is Some <==> events_of(self@, cwd@, remap, created, is_dir) is Some,
            events matches Some(found) ==> events_of(self@, cwd@, remap, created, is_dir) == Some(
                events_view(found@),
            ),
    {
        let typ = if created {
            FileChangeType::Created
        } else {
            FileChangeType::Changed
        };
        match self {
            Operation::Write { path, contents: _ } => match path_uri(
                cwd,
                path.as_str(),
                false,
                remap,
            ) {
                Some(uri) => {
                    let events = vec![FileEvent { uri, typ }];
                    assert(events_view(events@) =~= events_of(
                        self@,
                        cwd@,
                        remap,
                        created,
                        is_dir,
                    )->0);
                    Some(events)
                },
                None => None,
            },
            Operation::Remove { path } => match path_uri(cwd, path.as_str(), false, remap) {
                Some(uri) => {
                    let events = vec![FileEvent { uri, typ: FileChangeType::Deleted }];
                    assert(events_view(events@) =~= events_of(
                        self@,
                        cwd@,
                        remap,
                        created,
                        is_dir,
                    )->0);
                    Some(events)
                },
                None => None,
            },
            Operation::Rename { from, to } => match (
                path_uri(cwd, from.as_str(), is_dir, remap),
                path_uri(cwd, to.as_str(), is_dir, remap),
            ) {
                (Some(old_uri), Some(new_uri)) => {
                    let events = vec![
                        FileEvent { uri: old_uri, typ: FileChangeType::Deleted },
                        FileEvent { uri: new_uri, typ },
                    ];
                    assert(events_view(events@) =~= events_of(
                        self@,
                        cwd@,
                        remap,
                        created,
                        is_dir,
                    )->0);
                    Some(events)
                },
                _ => None,
            },
        }
    }

    /// A copy of this operation.
    pub fn duplicate(&self) -> (copy: Operation)
        ensures
            copy@ == self@,
    {
        match self {
            Operation::Write { path, contents } => Operation::Write {
                path: path.clone(),
                contents: contents.clone(),
            },
            Operation::Remove { path } => Operation::Remove { path: path.clone() },
            Operation::Rename { from, to } => Operation::Rename {
                from: from.clone(),
                to: to.clone(),
            },
        }
    }
}

/// The error of an operation of which a step failed; `source` says why.
/// The directories that could not be created are those above the path that
/// was to be written or renamed to.
pub open spec fn failure_of(operation: OperationView, stage: Stage, source: Seq<char>) -> ErrorView {
    let target = match operation {
        OperationView::Write { path, .. } => path,
        OperationView::Remove { path } => path,
        OperationView::Rename { to, .. } => to,
    };
    match (stage, operation) {
        (Stage::CreateDirs, _) => ErrorView::CreateDirs {
            path: match path_parent(target) {
                Some(parent) => parent,
                None => Seq::empty(),
            },
            source,
        },
        (_, OperationView::Write { path, .. }) => ErrorView::WriteFile { path, source },
        (_, OperationView::Remove { path }) => ErrorView::RemoveFile { path, source },
        (_, OperationView::Rename { from, to }) => ErrorView::RenameFile { from, to, source },
    }
}

impl Operation {
    /// The error of the operation where a step of its plan failed.
    pub fn failed(&self, stage: Stage, source: &str) -> (error: Error)
        ensures
            error@ == failure_of(self@, stage, source@),
    {
        let source = source.to_owned();
        match stage {
            Stage::CreateDirs => {
                let target = match self {
                    Operation::Write { path, contents: _ } => path.as_str(),
                    Operation::Remove { path } => path.as_str(),
                    Operation::Rename { from: _, to } => to.as_str(),
                };
                let path = match parent_of(target) {
                    Some(parent) => parent,
                    None => String::new(),
                };
                Error::CreateDirs { path, source }
            },
            _ => match self {
                Operation::Write { path, contents: _ } => Error::WriteFile {
                    path: path.clone(),
                    source,
                },
                Operation::Remove { path } => Error::RemoveFile { path: path.clone(), source },
                Operation::Rename { from, to } => Error::RenameFile {
                    from: from.clone(),
                    to: to.clone(),
                    source,
                },
            },
        }
    }
}

/// An operation that failed, and why.
#[derive(Debug, PartialEq)]
pub struct OperationError {
    pub operation: Operation,
    pub reason: String,
}

/// What a failed operation is.
pub ghost struct OperationErrorView {
    pub operation: OperationView,
    pub reason: Seq<char>,
}

impl View for OperationError {
    type V = OperationErrorView;

    open spec fn view(&self) -> OperationErrorView {
        OperationErrorView { operation: self.operation@, reason: self.reason@ }
    }
}

/// What came of one operation of a batch.
#[derive(Debug, PartialEq)]
pub struct Outcome {
    pub operation: Operation,
    pub result: Result<Vec<FileEvent>, Error>,
}

/// What an outcome is.
pub ghost struct OutcomeView {
    pub operation: OperationView,
    pub result: Result<Seq<FileEventView>, ErrorView>,
}

impl View for Outcome {
    type V = OutcomeView;

    open spec fn view(&self) -> OutcomeView {
        OutcomeView {
            operation: self.operation@,
            result: match self.result {
                Ok(events) => Ok(events_view(events@)),
                Err(error) => Err(error@),
            },
        }
    }
}

/// What the outcomes of a list are.
pub open spec fn outcomes_view(outcomes: Seq<Outcome>) -> Seq<OutcomeView> {
    Seq::new(outcomes.len(), |i: int| outcomes[i]@)
}

/// What the failed operations of a list are.
pub open spec fn failures_view(errors: Seq<OperationError>) -> Seq<OperationErrorView> {
    Seq::new(errors.len(), |i: int| errors[i]@)
}

/// The answer to a batch of operations.
#[derive(Debug, PartialEq)]
pub struct Response {
    /// `FileEvent`s for `workspace/didChangeWatchedFiles` notification.
    pub changes: Vec<FileEvent>,
    /// Any errors that occured trying to perform operations.
    pub errors: Option<Vec<OperationError>>,
}

/// The events of the operations that were performed, in their order.
pub open spec fn changes_of(outcomes: Seq<OutcomeView>) -> Seq<FileEventView>
    decreases outcomes.len(),
{
    if outcomes.len() == 0 {
        Seq::empty()
    } else {
        changes_of(outcomes.drop_last()) + match outcomes.last().result {
            Ok(events) => events,
            Err(_) => Seq::empty(),
        }
    }
}

/// The operations that failed, in their order, each with the message of its
/// error.
pub open spec fn errors_of(outcomes: Seq<OutcomeView>) -> Seq<OperationErrorView>
    decreases outcomes.len(),
{
    if outcomes.len() == 0 {
        Seq::empty()
    } else {
        errors_of(outcomes.drop_last()) + match outcomes.last().result {
            Ok(_) => Seq::empty(),
            Err(error) => seq![
                OperationErrorView {
                    operation: outcomes.last().operation,
                    reason: message_of(error),
                },
            ],
        }
    }
}

/// The HTTP status of the answer to a batch: `200 OK` where no operation
/// failed, `422 Unprocessable Entity` otherwise.
pub open spec fn status_of(outcomes: Seq<OutcomeView>) -> u16 {
    if errors_of(outcomes).len() == 0 {
        200
    } else {
        422
    }
}

fn copy_events(events: &Vec<FileEvent>, into: &mut Vec<FileEvent>)
    ensures
        events_view(final(into)@) == events_view(old(into)@) + events_view(events@),
{
    let ghost before = events_view(into@);
    let mut i: usize = 0;
    while i < events.len()
        invariant
            i <= events.len(),
            events_view(into@) == before + events_view(events@).take(i as int),
        decreases events.len() - i,
    {
        let ghost so_far = events_view(into@);
        into.push(FileEvent { uri: events[i].uri.duplicate(), typ: events[i].typ });
        proof {
            assert(events_view(into@) =~= so_far.push(events@[i as int]@));
            assert(events_view(events@).take(i + 1) =~= events_view(events@).take(i as int).push(
                events@[i as int]@,
            ));
            assert(events_view(into@) =~= before + events_view(events@).take(i + 1));
        }
        i += 1;
    }
    proof {
        assert(events_view(events@).take(i as int) =~= events_view(events@));
    }
}

/// Puts the outcomes of the operations of a batch together: the answer and
/// its HTTP status.
pub fn handle_operations(outcomes: &Vec<Outcome>) -> (answer: (Response, u16))
    ensures
        events_view(answer.0.changes@) == changes_of(outcomes_view(outcomes@)),
        match answer.0.errors {
            Some(errors) => failures_view(errors@) == errors_of(outcomes_view(outcomes@))
                && errors.len() > 0,
            None => errors_of(outcomes_view(outcomes@)).len() == 0,
        },
        answer.1 == status_of(outcomes_view(outcomes@)),
{
    let ghost all = outcomes_view(outcomes@);
    let mut errors: Vec<OperationError> = Vec::new();
    let mut changes: Vec<FileEvent> = Vec::new();
    let mut i: usize = 0;
    // Do them one by one in order
    while i < outcomes.len()
        invariant
            i <= outcomes.len(),
            all == outcomes_view(outcomes@),
            events_view(changes@) == changes_of(all.take(i as int)),
            failures_view(errors@) == errors_of(all.take(i as int)),
        decreases outcomes.len() - i,
    {
        proof {
            assert(all.take(i + 1).drop_last() =~= all.take(i as int));
            assert(all.take(i + 1).last() == outcomes@[i as int]@);
        }
        match &outcomes[i].result {
            Ok(events) => {
                copy_events(events, &mut changes);
                proof {
                    assert(failures_view(errors@) =~= errors_of(all.take(i + 1)));
                }
            },
            Err(error) => {
                let ghost before = failures_view(errors@);
                errors.push(
                    OperationError {
                        operation: outcomes[i].operation.duplicate(),
                        reason: error.message(),
                    },
                );
                proof {
                    assert(failures_view(errors@) =~= before.push(
                        OperationErrorView {
                            operation: outcomes@[i as int].operation@,
                            reason: message_of(error@),
                        },
                    ));
                    assert(failures_view(errors@) =~= errors_of(all.take(i + 1)));
                    assert(events_view(changes@) =~= changes_of(all.take(i + 1)));
                }
            },
        }
        i += 1;
    }
    proof {
        assert(all.take(i as int) =~= all);
    }
    if errors.len() == 0 {
        (Response { changes, errors: None }, 200)
    } else {
        (Response { changes, errors: Some(errors) }, 422)
    }
}

/// What the endpoint works with.
#[derive(Debug, PartialEq)]
pub struct Context {
    /// The project root.
    pub cwd: String,
    /// Report `source://` URIs.
    pub remap: bool,
}

} // verus!
