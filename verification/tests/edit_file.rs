use agent1::tools::edit_file;
use agent1::tools::edit_file::{check_edit, rewrite, EditAction};
use agent1::tools::{PathStatus, ToolExecutionError};

fn missing() -> PathStatus {
    PathStatus::Missing("No such file or directory (os error 2)".to_string())
}

fn every_status() -> Vec<PathStatus> {
    vec![
        PathStatus::File,
        PathStatus::Directory,
        PathStatus::Other,
        missing(),
        PathStatus::Failed("Permission denied (os error 13)".to_string()),
    ]
}

#[test]
fn empty_old_str_creates_a_missing_file_and_overwrites_an_existing_one() {
    let first = edit_file(&missing(), "", "hello").unwrap();
    assert_eq!(first, EditAction::Create);
    assert_eq!(first.report(), "file created");

    // The same call once the file is there.
    let second = edit_file(&PathStatus::File, "", "hello").unwrap();
    assert_eq!(second, EditAction::Overwrite);
    assert_eq!(second.report(), "entire file modified");
}

#[test]
fn edit_of_a_text_to_itself_fails_whatever_the_path_is() {
    for status in every_status() {
        for text in ["", "x", "hello world"] {
            let error = edit_file(&status, text, text).unwrap_err();
            assert_eq!(error, ToolExecutionError::OldEqualsNew);
            assert_eq!(error.message(), "old_str is equal to new_str");
        }
    }
    assert_eq!(check_edit("a", "a"), Err(ToolExecutionError::OldEqualsNew));
    assert_eq!(check_edit("", ""), Err(ToolExecutionError::OldEqualsNew));
    assert_eq!(check_edit("a", "b"), Ok(()));
}

#[test]
fn old_str_in_an_existing_file_is_replaced() {
    let action = edit_file(&PathStatus::File, "foo", "bar").unwrap();
    assert_eq!(action, EditAction::Replace);
    assert_eq!(action.report(), "file modified");
    assert_eq!(rewrite("foo and foo\n", "foo", "bar").unwrap(), "bar and bar\n");
}

#[test]
fn old_str_that_does_not_occur_is_a_no_op_error() {
    let error = rewrite("some contents\n", "absent", "present").unwrap_err();
    assert_eq!(error, ToolExecutionError::NothingChanged);
    assert_eq!(error.message(), "nothing changed in file");
    // An empty file holds no occurrence either.
    assert_eq!(
        rewrite("", "a", "b"),
        Err(ToolExecutionError::NothingChanged)
    );
}

#[test]
fn old_str_with_a_missing_file_fails() {
    let error = edit_file(&missing(), "foo", "bar").unwrap_err();
    assert_eq!(error, ToolExecutionError::MissingWithOldStr);
    assert_eq!(error.message(), "path doesn't exist and old_str is not empty");
}

#[test]
fn path_that_is_no_regular_file_is_always_rejected() {
    for (old_str, new_str) in [("", "hello"), ("foo", "bar"), ("foo", "")] {
        for status in [PathStatus::Directory, PathStatus::Other] {
            let error = edit_file(&status, old_str, new_str).unwrap_err();
            assert_eq!(error, ToolExecutionError::NotAFile);
            assert_eq!(error.message(), "provided path is not a file");
        }
    }
}

#[test]
fn path_that_cannot_be_looked_up_fails_with_the_system_message() {
    let status = PathStatus::Failed("Permission denied (os error 13)".to_string());
    let error = edit_file(&status, "", "hello").unwrap_err();
    assert_eq!(
        error,
        ToolExecutionError::MetadataCheck("Permission denied (os error 13)".to_string())
    );
    assert_eq!(
        error.message(),
        "couldn't check for file metadata: Permission denied (os error 13)"
    );
}

#[test]
fn all_occurrences_are_replaced() {
    let cases = [
        ("aaa", "a", "b"),
        ("aaa", "aa", "b"),
        ("aaaa", "aa", "a"),
        ("abcabc", "bc", ""),
        ("abab", "ab", "abab"),
        ("héllo wörld", "ö", "oe"),
        ("line one\nline two\n", "line", "row"),
        ("short", "longer than the text", "x"),
        ("tail match xx", "xx", "y"),
        ("世界世界", "界", "世"),
    ];
    for (contents, old_str, new_str) in cases {
        let expected = contents.replace(old_str, new_str);
        match rewrite(contents, old_str, new_str) {
            Ok(new_contents) => {
                assert_ne!(expected, contents);
                assert_eq!(new_contents, expected);
            }
            Err(error) => {
                assert_eq!(error, ToolExecutionError::NothingChanged);
                assert_eq!(expected, contents);
            }
        }
    }
}

#[test]
fn io_failures_have_their_messages() {
    assert_eq!(
        ToolExecutionError::CreateDirectory.message(),
        "couldn't create directory"
    );
    assert_eq!(ToolExecutionError::Write.message(), "couldn't write to file");
    assert_eq!(ToolExecutionError::Read.message(), "couldn't read file");
}
