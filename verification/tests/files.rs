use lsp_ws_proxy::api::files::get_path;
use lsp_ws_proxy::api::files::handle_operations;
use lsp_ws_proxy::api::files::parent;
use lsp_ws_proxy::api::files::parents_to_prune;
use lsp_ws_proxy::api::files::path_uri;
use lsp_ws_proxy::api::files::Error;
use lsp_ws_proxy::api::files::FileChangeType;
use lsp_ws_proxy::api::files::FileEvent;
use lsp_ws_proxy::api::files::Operation;
use lsp_ws_proxy::api::files::OperationError;
use lsp_ws_proxy::api::files::Outcome;
use lsp_ws_proxy::api::files::Plan;
use lsp_ws_proxy::api::files::Stage;
use lsp_ws_proxy::lsp::uri::Uri;

#[test]
fn test_path_uri() {
    let cwd = "/tmp";
    let path = "foo";
    let is_dir = true;
    let remap = true;
    assert_eq!(
        path_uri(cwd, path, is_dir, remap).unwrap().as_str().to_string(),
        "source://foo/"
    );
    assert_eq!(
        path_uri(cwd, path, !is_dir, remap).unwrap().as_str().to_string(),
        "source://foo"
    );
    assert_eq!(
        path_uri(cwd, path, is_dir, !remap).unwrap().as_str().to_string(),
        "file:///tmp/foo/"
    );
    assert_eq!(
        path_uri(cwd, path, !is_dir, !remap).unwrap().as_str().to_string(),
        "file:///tmp/foo"
    );
}

#[test]
fn path_uri_of_a_directory_keeps_one_slash() {
    assert_eq!(path_uri("/tmp", "foo/", true, true).unwrap().as_str(), "source://foo/");
    assert_eq!(path_uri("/tmp/", "a/b.txt", false, false).unwrap().as_str(), "file:///tmp/a/b.txt");
    assert_eq!(path_uri("relative", "a", false, false), None);
    assert_eq!(path_uri("/tmp", "a b", false, true), None);
}

#[test]
fn paths_that_leave_the_root_are_rejected() {
    for path in ["../escape.txt", "/etc/passwd", "a/../../b", "..", "a/b/../../..", "./../x"] {
        assert_eq!(get_path("/root", path), Err(Error::NotProjectPath(path.to_string())));
        for operation in [
            Operation::Write { path: path.to_string(), contents: "x".to_string() },
            Operation::Remove { path: path.to_string() },
            Operation::Rename { from: path.to_string(), to: "ok".to_string() },
            Operation::Rename { from: "ok".to_string(), to: path.to_string() },
        ] {
            assert_eq!(operation.plan("/root"), Err(Error::NotProjectPath(path.to_string())));
        }
    }
}

#[test]
fn paths_that_come_back_into_the_root_are_accepted() {
    assert_eq!(get_path("/tmp/ws", "../ws/x"), Ok("/tmp/ws/../ws/x".to_string()));
    assert_eq!(get_path("/tmp/ws", "a/../../ws/x"), Ok("/tmp/ws/a/../../ws/x".to_string()));
    assert_eq!(get_path("/tmp/ws/", "../../tmp/ws"), Ok("/tmp/ws/../../tmp/ws".to_string()));
    assert_eq!(get_path("/tmp/./ws/../ws", "../ws/x"), Ok("/tmp/./ws/../ws/../ws/x".to_string()));
    assert_eq!(get_path("/", "../../x"), Ok("/../../x".to_string()));
    assert_eq!(
        get_path("/tmp/ws", "../other/x"),
        Err(Error::NotProjectPath("../other/x".to_string()))
    );
    assert_eq!(
        get_path("/tmp/ws", "../../ws/x"),
        Err(Error::NotProjectPath("../../ws/x".to_string()))
    );
    assert_eq!(get_path("/tmp/ws", "../w"), Err(Error::NotProjectPath("../w".to_string())));
    assert_eq!(get_path("ws", "../ws/x"), Ok("ws/../ws/x".to_string()));
    assert_eq!(get_path("ws", "../../ws/x"), Err(Error::NotProjectPath("../../ws/x".to_string())));
    assert_eq!(get_path("", "../x"), Err(Error::NotProjectPath("../x".to_string())));
    let write = Operation::Write { path: "../ws/x".to_string(), contents: "c".to_string() };
    assert_eq!(
        write.plan("/tmp/ws"),
        Ok(Plan::Write {
            dirs: Some("/tmp/ws/../ws".to_string()),
            file: "/tmp/ws/../ws/x".to_string(),
            contents: "c".to_string(),
        })
    );
}

#[test]
fn the_root_is_never_pruned() {
    assert_eq!(parents_to_prune("/root", "a/../b.txt"), Vec::<String>::new());
    assert_eq!(parents_to_prune("/root", "../root/b.txt"), Vec::<String>::new());
    assert_eq!(parents_to_prune("/root", "../x/b.txt"), Vec::<String>::new());
    assert_eq!(
        parents_to_prune("/root", "a/b/../c.txt"),
        vec!["/root/a/b/..".to_string(), "/root/a/b".to_string(), "/root/a".to_string()]
    );
    assert_eq!(
        parents_to_prune("/root", "../root/a/b.txt"),
        vec!["/root/../root/a".to_string()]
    );
}

#[test]
fn paths_under_the_root_are_joined() {
    assert_eq!(get_path("/root", "a/b/c.txt"), Ok("/root/a/b/c.txt".to_string()));
    assert_eq!(get_path("/root/", "a"), Ok("/root/a".to_string()));
    assert_eq!(get_path("/root", "a/../b"), Ok("/root/a/../b".to_string()));
    assert_eq!(get_path("/root", "./a//b/."), Ok("/root/./a//b/.".to_string()));
    assert_eq!(get_path("/root", "..a/b.."), Ok("/root/..a/b..".to_string()));
    assert_eq!(get_path("/root", "a/..."), Ok("/root/a/...".to_string()));
    assert_eq!(get_path("", "a"), Ok("a".to_string()));
}

#[test]
fn rename_reports_the_first_path_that_leaves() {
    let operation = Operation::Rename { from: "../a".to_string(), to: "../b".to_string() };
    assert_eq!(operation.plan("/root"), Err(Error::NotProjectPath("../a".to_string())));
}

#[test]
fn parents_are_pruned_up_to_the_root() {
    assert_eq!(
        parents_to_prune("/root", "a/b/c.txt"),
        vec!["/root/a/b".to_string(), "/root/a".to_string()]
    );
    assert_eq!(parents_to_prune("/root", "c.txt"), Vec::<String>::new());
    assert_eq!(parents_to_prune("/root", ""), Vec::<String>::new());
    assert_eq!(parent("a/b/c.txt"), Some("a/b".to_string()));
    assert_eq!(parent("c.txt"), Some("".to_string()));
    assert_eq!(parent(""), None);
}

#[test]
fn operations_are_planned() {
    let write = Operation::Write { path: "a/b/c.txt".to_string(), contents: "x".to_string() };
    assert_eq!(
        write.plan("/root"),
        Ok(Plan::Write {
            dirs: Some("/root/a/b".to_string()),
            file: "/root/a/b/c.txt".to_string(),
            contents: "x".to_string(),
        })
    );
    let remove = Operation::Remove { path: "a/b/c.txt".to_string() };
    assert_eq!(
        remove.plan("/root"),
        Ok(Plan::Remove {
            file: "/root/a/b/c.txt".to_string(),
            prune: vec!["/root/a/b".to_string(), "/root/a".to_string()],
        })
    );
    let rename = Operation::Rename { from: "a/b/c.txt".to_string(), to: "x/y.txt".to_string() };
    assert_eq!(
        rename.plan("/root"),
        Ok(Plan::Rename {
            dirs: Some("/root/x".to_string()),
            from: "/root/a/b/c.txt".to_string(),
            to: "/root/x/y.txt".to_string(),
            prune: vec!["/root/a/b".to_string(), "/root/a".to_string()],
        })
    );
}

fn event(uri: &str, typ: FileChangeType) -> FileEvent {
    FileEvent { uri: Uri::parse(uri).unwrap(), typ }
}

#[test]
fn write_then_remove_reports_created_and_deleted() {
    let write = Operation::Write { path: "a/b/c.txt".to_string(), contents: "x".to_string() };
    let remove = Operation::Remove { path: "a/b/c.txt".to_string() };
    assert_eq!(
        write.events("/root", true, true, false),
        Some(vec![event("source://a/b/c.txt", FileChangeType::Created)])
    );
    assert_eq!(
        write.events("/root", false, false, false),
        Some(vec![event("file:///root/a/b/c.txt", FileChangeType::Changed)])
    );
    assert_eq!(
        remove.events("/root", true, false, false),
        Some(vec![event("source://a/b/c.txt", FileChangeType::Deleted)])
    );
}

#[test]
fn rename_reports_deleted_and_created() {
    let rename = Operation::Rename { from: "a/b/c.txt".to_string(), to: "x/y.txt".to_string() };
    assert_eq!(
        rename.events("/root", true, true, false),
        Some(vec![
            event("source://a/b/c.txt", FileChangeType::Deleted),
            event("source://x/y.txt", FileChangeType::Created),
        ])
    );
    let rename = Operation::Rename { from: "a".to_string(), to: "b".to_string() };
    assert_eq!(
        rename.events("/root", false, false, true),
        Some(vec![
            event("file:///root/a/", FileChangeType::Deleted),
            event("file:///root/b/", FileChangeType::Changed),
        ])
    );
}

#[test]
fn change_types_have_their_numbers() {
    assert_eq!(FileChangeType::Created.code(), 1);
    assert_eq!(FileChangeType::Changed.code(), 2);
    assert_eq!(FileChangeType::Deleted.code(), 3);
}

#[test]
fn errors_have_their_messages() {
    let write = Operation::Write { path: "a/b.txt".to_string(), contents: "x".to_string() };
    let remove = Operation::Remove { path: "a/b.txt".to_string() };
    let rename = Operation::Rename { from: "a/b.txt".to_string(), to: "c/d.txt".to_string() };
    assert_eq!(
        Error::NotProjectPath("../x".to_string()).message(),
        "../x is not under the project root"
    );
    assert_eq!(
        write.failed(Stage::CreateDirs, "denied").message(),
        "failed to create dirs a: denied"
    );
    assert_eq!(
        rename.failed(Stage::CreateDirs, "denied").message(),
        "failed to create dirs c: denied"
    );
    assert_eq!(write.failed(Stage::WriteFile, "full").message(), "failed to write a/b.txt: full");
    assert_eq!(
        remove.failed(Stage::RemoveFile, "gone").message(),
        "failed to remove a/b.txt: gone"
    );
    assert_eq!(
        rename.failed(Stage::RenameFile, "busy").message(),
        "failed to rename a/b.txt to c/d.txt: busy"
    );
    assert_eq!(
        write.failed(Stage::WriteFile, "full"),
        Error::WriteFile { path: "a/b.txt".to_string(), source: "full".to_string() }
    );
}

#[test]
fn batch_without_errors_is_ok() {
    let outcomes = vec![
        Outcome {
            operation: Operation::Write { path: "a".to_string(), contents: "x".to_string() },
            result: Ok(vec![event("source://a", FileChangeType::Created)]),
        },
        Outcome {
            operation: Operation::Rename { from: "a".to_string(), to: "b".to_string() },
            result: Ok(vec![
                event("source://a", FileChangeType::Deleted),
                event("source://b", FileChangeType::Created),
            ]),
        },
    ];
    let (response, status) = handle_operations(&outcomes);
    assert_eq!(status, 200);
    assert_eq!(response.errors, None);
    assert_eq!(
        response.changes,
        vec![
            event("source://a", FileChangeType::Created),
            event("source://a", FileChangeType::Deleted),
            event("source://b", FileChangeType::Created),
        ]
    );
    let (response, status) = handle_operations(&vec![]);
    assert_eq!(status, 200);
    assert_eq!(response.errors, None);
    assert_eq!(response.changes, vec![]);
}

#[test]
fn batch_with_an_error_goes_on_and_is_unprocessable() {
    let outcomes = vec![
        Outcome {
            operation: Operation::Remove { path: "../x".to_string() },
            result: Err(Error::NotProjectPath("../x".to_string())),
        },
        Outcome {
            operation: Operation::Write { path: "a".to_string(), contents: "x".to_string() },
            result: Ok(vec![event("source://a", FileChangeType::Changed)]),
        },
    ];
    let (response, status) = handle_operations(&outcomes);
    assert_eq!(status, 422);
    assert_eq!(response.changes, vec![event("source://a", FileChangeType::Changed)]);
    assert_eq!(
        response.errors,
        Some(vec![OperationError {
            operation: Operation::Remove { path: "../x".to_string() },
            reason: "../x is not under the project root".to_string(),
        }])
    );
}
