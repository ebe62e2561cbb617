//! Editing a file: what to do with it, and what its new contents are.

use crate::text::{lemma_replaced_without_occurrence, occurs, replace, replaced, same};
use crate::tools::{PathStatus, PathStatusView, ToolExecutionError, ToolFault};
use vstd::prelude::*;
use vstd::string::StringExecFns;

verus! {

/// What an edit does to the file.
#[derive(Debug, Clone, Copy, PartialEq, Eq, Structural)]
pub enum EditAction {
    /// The file is not there: make the directories above it, then write the new
    /// text as the whole file.
    Create,
    /// The file is there: write the new text as the whole file.
    Overwrite,
    /// The file is there: read it, replace the old text in it, write it back.
    Replace,
}

impl EditAction {
    /// What is reported once the action is done.
    pub open spec fn report_of(self) -> Seq<char> {
        match self {
            EditAction::Create => "file created"@,
            EditAction::Overwrite => "entire file modified"@,
            EditAction::Replace => "file modified"@,
        }
    }

    /// What is reported once the action is done.
    pub fn report(&self) -> (r: String)
        ensures
            r@ == self.report_of(),
    {
        match self {
            EditAction::Create => String::from_str("file created"),
            EditAction::Overwrite => String::from_str("entire file modified"),
            EditAction::Replace => String::from_str("file modified"),
        }
    }
}

/// What an edit of `old_str` to `new_str` does to a path of the given status.
pub open spec fn edit_action(
    status: PathStatusView,
    old_str: Seq<char>,
    new_str: Seq<char>,
) -> Result<EditAction, ToolFault> {
    if old_str == new_str {
        Err(ToolFault::OldEqualsNew)
    } else {
        match status {
            PathStatusView::File => if old_str.len() == 0 {
                Ok(EditAction::Overwrite)
            } else {
                Ok(EditAction::Replace)
            },
            PathStatusView::Directory => Err(ToolFault::NotAFile),
            PathStatusView::Other => Err(ToolFault::NotAFile),
            PathStatusView::Missing(_) => if old_str.len() == 0 {
                Ok(EditAction::Create)
            } else {
                Err(ToolFault::MissingWithOldStr)
            },
            PathStatusView::Failed(m) => Err(ToolFault::MetadataCheck(m)),
        }
    }
}

/// What an action gave, as a mathematical value.
pub open spec fn action_view(r: Result<EditAction, ToolExecutionError>) -> Result<
    EditAction,
    ToolFault,
> {
    match r {
        Ok(a) => Ok(a),
        Err(e) => Err(e@),
    }
}

/// Refuses an edit that would replace a text by itself. This needs no look at the
/// file.
pub fn check_edit(old_str: &str, new_str: &str) -> (r: Result<(), ToolExecutionError>)
    ensures
        r is Ok <==> old_str@ != new_str@,
        r matches Err(e) ==> e@ == ToolFault::OldEqualsNew,
{
    if same(old_str, new_str) {
        Err(ToolExecutionError::OldEqualsNew)
    } else {
        Ok(())
    }
}

/// Decides what an edit does, given what the file system says of the path.
///
/// An edit of a text to itself is refused whatever the path is. With an empty
/// `old_str` the whole file is written, and made where it is missing. With any
/// other `old_str` the file must be there. A path that exists and is no regular
/// file is always refused.
pub fn edit_file(status: &PathStatus, old_str: &str, new_str: &str) -> (r: Result<
    EditAction,
    ToolExecutionError,
>)
    ensures
        action_view(r) == edit_action(status@, old_str@, new_str@),
{
    if same(old_str, new_str) {
        return Err(ToolExecutionError::OldEqualsNew);
    }
    match status {
        PathStatus::File => if old_str.is_empty() {
            Ok(EditAction::Overwrite)
        } else {
            Ok(EditAction::Replace)
        },
        PathStatus::Directory => Err(ToolExecutionError::NotAFile),
        PathStatus::Other => Err(ToolExecutionError::NotAFile),
        PathStatus::Missing(_) => if old_str.is_empty() {
            Ok(EditAction::Create)
        } else {
            Err(ToolExecutionError::MissingWithOldStr)
        },
        PathStatus::Failed(m) => Err(ToolExecutionError::MetadataCheck(m.clone())),
    }
}

/// The contents of a file after every occurrence of `old_str` in it was replaced
/// by `new_str`; an error where that leaves the contents as they are.
pub open spec fn rewritten(contents: Seq<char>, old_str: Seq<char>, new_str: Seq<char>) -> Result<
    Seq<char>,
    ToolFault,
> {
    if replaced(contents, old_str, new_str) == contents {
        Err(ToolFault::NothingChanged)
    } else {
        Ok(replaced(contents, old_str, new_str))
    }
}

/// Replaces every occurrence of `old_str` in the contents of a file by `new_str`.
/// Fails where that changes nothing: nothing is then to be written.
pub fn rewrite(contents: &str, old_str: &str, new_str: &str) -> (r: Result<
    String,
    ToolExecutionError,
>)
    ensures
        crate::tools::result_view(r) == rewritten(contents@, old_str@, new_str@),
{
    let new_contents = replace(contents, old_str, new_str);
    if same(contents, new_contents.as_str()) {
        Err(ToolExecutionError::NothingChanged)
    } else {
        Ok(new_contents)
    }
}

/// An edit of a text to itself fails, whatever the file system says of the path.
pub proof fn lemma_edit_to_same_text_fails(status: PathStatusView, text: Seq<char>)
    ensures
        edit_action(status, text, text) == Err::<EditAction, ToolFault>(ToolFault::OldEqualsNew),
{
}

/// Replacing a text that does not occur in a file fails and hands no contents to
/// write.
pub proof fn lemma_edit_without_occurrence_fails(
    contents: Seq<char>,
    old_str: Seq<char>,
    new_str: Seq<char>,
)
    requires
        !occurs(contents, old_str),
    ensures
        rewritten(contents, old_str, new_str) == Err::<Seq<char>, ToolFault>(
            ToolFault::NothingChanged,
        ),
{
    lemma_replaced_without_occurrence(contents, old_str, new_str);
}

} // verus!
