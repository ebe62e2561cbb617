use agent1::tools::list_files;
use agent1::tools::list_files::{check_directory, EntryKind, WalkEntry};
use agent1::tools::{PathStatus, ToolExecutionError};

fn found(path: &str, kind: EntryKind) -> WalkEntry {
    WalkEntry::Found { path: path.to_string(), kind }
}

#[test]
fn regular_files_are_listed_and_directories_are_not() {
    // Three regular files and two directories, in the order of the walk.
    let entries = vec![
        found("src", EntryKind::Other),
        found("src/main.rs", EntryKind::File),
        found("src/agent", EntryKind::Other),
        found("src/agent/run.rs", EntryKind::File),
        found("src/log.rs", EntryKind::File),
    ];
    let files = list_files(&entries).unwrap();
    assert_eq!(files, vec!["src/main.rs", "src/agent/run.rs", "src/log.rs"]);
}

#[test]
fn listing_of_an_empty_walk_is_empty() {
    assert_eq!(list_files(&Vec::new()), Ok(Vec::new()));
    assert_eq!(
        list_files(&vec![found(".", EntryKind::Other)]),
        Ok(Vec::new())
    );
}

#[test]
fn listing_keeps_the_order_of_the_walk() {
    let entries = vec![
        found("z.txt", EntryKind::File),
        found("a.txt", EntryKind::File),
        found("m.txt", EntryKind::File),
    ];
    assert_eq!(list_files(&entries).unwrap(), vec!["z.txt", "a.txt", "m.txt"]);
}

#[test]
fn entries_of_unknown_kind_are_left_out() {
    let entries = vec![
        found("a.txt", EntryKind::File),
        found("broken-link", EntryKind::Unknown),
        found("b.txt", EntryKind::File),
    ];
    assert_eq!(list_files(&entries).unwrap(), vec!["a.txt", "b.txt"]);
}

#[test]
fn walk_that_fails_is_an_error() {
    let entries = vec![
        found("a.txt", EntryKind::File),
        WalkEntry::Failed("permission denied".to_string()),
        found("b.txt", EntryKind::File),
        WalkEntry::Failed("later failure".to_string()),
    ];
    let error = list_files(&entries).unwrap_err();
    assert_eq!(error, ToolExecutionError::Walk("permission denied".to_string()));
    assert_eq!(error.message(), "couldn't list files: permission denied");
}

#[test]
fn only_a_directory_can_be_listed() {
    assert_eq!(check_directory(&PathStatus::Directory), Ok(()));
    for status in [PathStatus::File, PathStatus::Other] {
        let error = check_directory(&status).unwrap_err();
        assert_eq!(error, ToolExecutionError::NotADirectory);
        assert_eq!(error.message(), "provided path is not a directory");
    }
    let message = "No such file or directory (os error 2)";
    for status in [
        PathStatus::Missing(message.to_string()),
        PathStatus::Failed(message.to_string()),
    ] {
        let error = check_directory(&status).unwrap_err();
        assert_eq!(error, ToolExecutionError::Metadata(message.to_string()));
        assert_eq!(error.message(), message);
    }
}
