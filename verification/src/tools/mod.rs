//! The tools that the model may call, as far as they compute: what to do with a
//! path, a walk of a directory or a finished command, and what to report.

pub mod edit_file;
pub mod list_files;
pub mod read_file;
pub mod run_cmd;

use vstd::prelude::*;
use vstd::string::StringExecFns;

pub use edit_file::edit_file;
pub use list_files::list_files;
pub use read_file::read_file;
pub use run_cmd::run_cmd;

verus! {

/// What the file system says of a path, links followed. `Missing` and `Failed`
/// hold the system's message.
#[derive(Debug, PartialEq, Eq)]
pub enum PathStatus {
    /// A regular file.
    File,
    /// A directory.
    Directory,
    /// Something else that exists.
    Other,
    /// Nothing is there.
    Missing(String),
    /// The path could not be looked up.
    Failed(String),
}

/// `PathStatus` as a mathematical value.
pub enum PathStatusView {
    File,
    Directory,
    Other,
    Missing(Seq<char>),
    Failed(Seq<char>),
}

impl View for PathStatus {
    type V = PathStatusView;

    open spec fn view(&self) -> PathStatusView {
        match self {
            PathStatus::File => PathStatusView::File,
            PathStatus::Directory => PathStatusView::Directory,
            PathStatus::Other => PathStatusView::Other,
            PathStatus::Missing(m) => PathStatusView::Missing(m@),
            PathStatus::Failed(m) => PathStatusView::Failed(m@),
        }
    }
}

/// Why a tool failed.
#[derive(Debug, PartialEq, Eq)]
pub enum ToolExecutionError {
    /// The file could not be read, or does not hold text.
    ReadContents,
    /// The path to list could not be looked up; the message is the system's.
    Metadata(String),
    /// The path to list is no directory.
    NotADirectory,
    /// The walk of the directory failed; the message is the walker's.
    Walk(String),
    /// An edit that would replace a text by itself.
    OldEqualsNew,
    /// The path to edit exists and is no regular file.
    NotAFile,
    /// A text is to be replaced in a file that is not there.
    MissingWithOldStr,
    /// The path to edit could not be looked up; the message is the system's.
    MetadataCheck(String),
    /// The directories above a new file could not be made.
    CreateDirectory,
    /// The file could not be written.
    Write,
    /// The file to edit could not be read.
    Read,
    /// The edit would leave the file as it is.
    NothingChanged,
    /// There is no command to run.
    EmptyCommand,
    /// The command holds the named pattern of the denylist.
    ForbiddenPattern(String),
    /// The shell could not be started.
    Spawn,
    /// What the command wrote to its standard output is no text.
    Stdout,
    /// What the command wrote to its standard error is no text.
    Stderr,
}

/// `ToolExecutionError` as a mathematical value.
pub enum ToolFault {
    ReadContents,
    Metadata(Seq<char>),
    NotADirectory,
    Walk(Seq<char>),
    OldEqualsNew,
    NotAFile,
    MissingWithOldStr,
    MetadataCheck(Seq<char>),
    CreateDirectory,
    Write,
    Read,
    NothingChanged,
    EmptyCommand,
    ForbiddenPattern(Seq<char>),
    Spawn,
    Stdout,
    Stderr,
}

impl View for ToolExecutionError {
    type V = ToolFault;

    open spec fn view(&self) -> ToolFault {
        match self {
            ToolExecutionError::ReadContents => ToolFault::ReadContents,
            ToolExecutionError::Metadata(m) => ToolFault::Metadata(m@),
            ToolExecutionError::NotADirectory => ToolFault::NotADirectory,
            ToolExecutionError::Walk(m) => ToolFault::Walk(m@),
            ToolExecutionError::OldEqualsNew => ToolFault::OldEqualsNew,
            ToolExecutionError::NotAFile => ToolFault::NotAFile,
            ToolExecutionError::MissingWithOldStr => ToolFault::MissingWithOldStr,
            ToolExecutionError::MetadataCheck(m) => ToolFault::MetadataCheck(m@),
            ToolExecutionError::CreateDirectory => ToolFault::CreateDirectory,
            ToolExecutionError::Write => ToolFault::Write,
            ToolExecutionError::Read => ToolFault::Read,
            ToolExecutionError::NothingChanged => ToolFault::NothingChanged,
            ToolExecutionError::EmptyCommand => ToolFault::EmptyCommand,
            ToolExecutionError::ForbiddenPattern(p) => ToolFault::ForbiddenPattern(p@),
            ToolExecutionError::Spawn => ToolFault::Spawn,
            ToolExecutionError::Stdout => ToolFault::Stdout,
            ToolExecutionError::Stderr => ToolFault::Stderr,
        }
    }
}

impl ToolFault {
    /// The message that the model is given.
    pub open spec fn message(self) -> Seq<char> {
        match self {
            ToolFault::ReadContents => "couldn't read file contents"@,
            ToolFault::Metadata(m) => m,
            ToolFault::NotADirectory => "provided path is not a directory"@,
            ToolFault::Walk(m) => "couldn't list files: "@ + m,
            ToolFault::OldEqualsNew => "old_str is equal to new_str"@,
            ToolFault::NotAFile => "provided path is not a file"@,
            ToolFault::MissingWithOldStr => "path doesn't exist and old_str is not empty"@,
            ToolFault::MetadataCheck(m) => "couldn't check for file metadata: "@ + m,
            ToolFault::CreateDirectory => "couldn't create directory"@,
            ToolFault::Write => "couldn't write to file"@,
            ToolFault::Read => "couldn't read file"@,
            ToolFault::NothingChanged => "nothing changed in file"@,
            ToolFault::EmptyCommand => "command is empty"@,
            ToolFault::ForbiddenPattern(p) => "command contains a forbidden pattern '"@ + p
                + "'; blocked for security reasons"@,
            ToolFault::Spawn => "couldn't run command"@,
            ToolFault::Stdout => "couldn't get command stdout"@,
            ToolFault::Stderr => "couldn't get command stderr"@,
        }
    }
}

impl ToolExecutionError {
    /// The message that the model is given.
    pub fn message(&self) -> (m: String)
        ensures
            m@ == self@.message(),
    {
        match self {
            ToolExecutionError::ReadContents => String::from_str("couldn't read file contents"),
            ToolExecutionError::Metadata(m) => m.clone(),
            ToolExecutionError::NotADirectory => String::from_str(
                "provided path is not a directory",
            ),
            ToolExecutionError::Walk(m) => {
                let mut text = String::from_str("couldn't list files: ");
                text.append(m.as_str());
                text
            },
            ToolExecutionError::OldEqualsNew => String::from_str("old_str is equal to new_str"),
            ToolExecutionError::NotAFile => String::from_str("provided path is not a file"),
            ToolExecutionError::MissingWithOldStr => String::from_str(
                "path doesn't exist and old_str is not empty",
            ),
            ToolExecutionError::MetadataCheck(m) => {
                let mut text = String::from_str("couldn't check for file metadata: ");
                text.append(m.as_str());
                text
            },
            ToolExecutionError::CreateDirectory => String::from_str("couldn't create directory"),
            ToolExecutionError::Write => String::from_str("couldn't write to file"),
            ToolExecutionError::Read => String::from_str("couldn't read file"),
            ToolExecutionError::NothingChanged => String::from_str("nothing changed in file"),
            ToolExecutionError::EmptyCommand => String::from_str("command is empty"),
            ToolExecutionError::ForbiddenPattern(p) => {
                let mut text = String::from_str("command contains a forbidden pattern '");
                text.append(p.as_str());
                text.append("'; blocked for security reasons");
                text
            },
            ToolExecutionError::Spawn => String::from_str("couldn't run command"),
            ToolExecutionError::Stdout => String::from_str("couldn't get command stdout"),
            ToolExecutionError::Stderr => String::from_str("couldn't get command stderr"),
        }
    }
}

/// What a tool gave, as a mathematical value.
pub open spec fn result_view(r: Result<String, ToolExecutionError>) -> Result<Seq<char>, ToolFault> {
    match r {
        Ok(t) => Ok(t@),
        Err(e) => Err(e@),
    }
}

} // verus!
