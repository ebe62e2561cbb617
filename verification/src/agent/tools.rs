//! The tools as the model sees them: their declarations, the check of a call's
//! arguments, and the response to a call.

use crate::agent::domain::{
    FunctionCall, FunctionCallResponse, FunctionCallResponseView, FunctionCallView,
    FunctionDeclaration, FunctionDeclarationName, FunctionDeclarationView, FunctionResponse,
    FunctionResponseView, Tool, ToolView,
};
use crate::json::{lookup, member_views, Json, JsonValue};
use crate::model::{copy_text, text_view, views};
use crate::text::{join, joined, same};
use crate::tools::{ToolExecutionError, ToolFault};
use vstd::prelude::*;
use vstd::string::StringExecFns;

verus! {

/// Whether a key of a schema means nothing to the model's side.
pub open spec fn is_metadata_key(key: Seq<char>) -> bool {
    key == "$schema"@ || key == "title"@
}

/// The members of a schema without those whose key is metadata, in their order.
pub open spec fn stripped_members(members: Seq<(Seq<char>, JsonValue)>) -> Seq<
    (Seq<char>, JsonValue),
>
    decreases members.len(),
{
    if members.len() == 0 {
        Seq::empty()
    } else if is_metadata_key(members.last().0) {
        stripped_members(members.drop_last())
    } else {
        stripped_members(members.drop_last()).push(members.last())
    }
}

/// A schema without its metadata: the members `$schema` and `title` of the
/// object itself are left out; what lies deeper stays.
pub open spec fn stripped(schema: JsonValue) -> JsonValue {
    match schema {
        JsonValue::Object(members) => JsonValue::Object(stripped_members(members)),
        other => other,
    }
}

/// Leaves the metadata out of a schema.
pub fn strip_schema(schema: &Json) -> (r: Json)
    ensures
        r@ == stripped(schema@),
{
    match schema {
        Json::Object(members) => {
            let ghost all = schema@->Object_0;
            let mut kept: Vec<(String, Json)> = Vec::new();
            let mut i: usize = 0;
            while i < members.len()
                invariant
                    all.len() == members.len(),
                    forall|k: int|
                        0 <= k < all.len() ==> all[k] == (members@[k].0@, members@[k].1@),
                    i <= members.len(),
                    member_views(kept@) == stripped_members(all.take(i as int)),
                decreases members.len() - i,
            {
                proof {
                    assert(all.take(i + 1).drop_last() =~= all.take(i as int));
                }
                let key = &members[i].0;
                if !(same(key.as_str(), "$schema") || same(key.as_str(), "title")) {
                    kept.push((key.clone(), members[i].1.clone()));
                }
                i += 1;
            }
            assert(all.take(members.len() as int) =~= all);
            Json::object(kept)
        },
        _ => schema.clone(),
    }
}

/// A stripped schema has no member `$schema` or `title`, and every other member
/// as the schema has it.
pub proof fn lemma_stripped_members(members: Seq<(Seq<char>, JsonValue)>, key: Seq<char>)
    ensures
        lookup(stripped_members(members), key) == if is_metadata_key(key) {
            None
        } else {
            lookup(members, key)
        },
    decreases members.len(),
{
    if members.len() > 0 {
        lemma_stripped_members(members.drop_last(), key);
        if !is_metadata_key(members.last().0) {
            let kept = stripped_members(members.drop_last()).push(members.last());
            assert(kept.drop_last() =~= stripped_members(members.drop_last()));
        }
    }
}

impl FunctionDeclarationName {
    /// What the model is told that the tool is for.
    pub open spec fn description(self) -> Seq<char> {
        match self {
            FunctionDeclarationName::ReadFile => "Read the contents of a given relative file path. Use this when you want to see what's inside a file. Do not use this with directory names."@,
            FunctionDeclarationName::ListFiles => "List files and directories at a given path. If no path is provided, lists files in the current directory."@,
            FunctionDeclarationName::EditFile => "Make edits to a text file.\n\nReplaces 'old_str' with 'new_str' in the given file. 'old_str' and 'new_str' MUST be different from each other.\n\nIf 'old_str' is empty, the entire file will be replaced with 'new_str' (use this for editing an entire file).\nIf the file specified with path doesn't exist, it will be created."@,
            FunctionDeclarationName::RunCmd => "Run a shell command via bash. Will return the combined stdout and stderr of the command."@,
        }
    }

    /// What the model is told that the tool is for.
    pub fn describe(&self) -> (d: &'static str)
        ensures
            d@ == self.description(),
    {
        match self {
            FunctionDeclarationName::ReadFile => "Read the contents of a given relative file path. Use this when you want to see what's inside a file. Do not use this with directory names.",
            FunctionDeclarationName::ListFiles => "List files and directories at a given path. If no path is provided, lists files in the current directory.",
            FunctionDeclarationName::EditFile => "Make edits to a text file.\n\nReplaces 'old_str' with 'new_str' in the given file. 'old_str' and 'new_str' MUST be different from each other.\n\nIf 'old_str' is empty, the entire file will be replaced with 'new_str' (use this for editing an entire file).\nIf the file specified with path doesn't exist, it will be created.",
            FunctionDeclarationName::RunCmd => "Run a shell command via bash. Will return the combined stdout and stderr of the command.",
        }
    }
}

/// The declaration of one tool, given the schema of its arguments.
pub open spec fn declared(name: FunctionDeclarationName, schema: JsonValue) -> ToolView {
    ToolView::FunctionDeclarations(
        seq![
            FunctionDeclarationView {
                name,
                description: name.description(),
                parameters: stripped(schema),
            },
        ],
    )
}

/// The four tools, each in a group of its own: reading a file, listing files,
/// editing a file, running a command.
pub open spec fn catalogue(
    read_file: JsonValue,
    list_files: JsonValue,
    edit_file: JsonValue,
    run_cmd: JsonValue,
) -> Seq<ToolView> {
    seq![
        declared(FunctionDeclarationName::ReadFile, read_file),
        declared(FunctionDeclarationName::ListFiles, list_files),
        declared(FunctionDeclarationName::EditFile, edit_file),
        declared(FunctionDeclarationName::RunCmd, run_cmd),
    ]
}

fn declare(name: FunctionDeclarationName, schema: &Json) -> (t: Tool)
    ensures
        t@ == declared(name, schema@),
{
    let declaration = FunctionDeclaration {
        name,
        description: String::from_str(name.describe()),
        parameters: strip_schema(schema),
    };
    let mut declarations: Vec<FunctionDeclaration> = Vec::new();
    declarations.push(declaration);
    let t = Tool::FunctionDeclarations(declarations);
    assert(t@->FunctionDeclarations_0 =~= declared(name, schema@)->FunctionDeclarations_0);
    t
}

/// The tools that the model is told of, given the schema of each tool's
/// arguments. The schemas are handed on without their metadata.
pub fn get_tools(
    read_file_schema: &Json,
    list_files_schema: &Json,
    edit_file_schema: &Json,
    run_cmd_schema: &Json,
) -> (tools: Vec<Tool>)
    ensures
        views(tools@) == catalogue(
            read_file_schema@,
            list_files_schema@,
            edit_file_schema@,
            run_cmd_schema@,
        ),
{
    let mut tools: Vec<Tool> = Vec::new();
    tools.push(declare(FunctionDeclarationName::ReadFile, read_file_schema));
    tools.push(declare(FunctionDeclarationName::ListFiles, list_files_schema));
    tools.push(declare(FunctionDeclarationName::EditFile, edit_file_schema));
    tools.push(declare(FunctionDeclarationName::RunCmd, run_cmd_schema));
    assert(views(tools@) =~= catalogue(
        read_file_schema@,
        list_files_schema@,
        edit_file_schema@,
        run_cmd_schema@,
    ));
    tools
}

/// Why the arguments of a call were refused.
#[derive(Debug, Clone, Copy, PartialEq, Eq, Structural)]
pub enum ToolValidationError {
    /// The call has no arguments, and the tool needs some.
    EmptyArgs,
    /// The arguments are not an object with the texts that the tool needs.
    InvalidArgs,
}

impl ToolValidationError {
    /// The message that the model is given.
    pub open spec fn message_of(self) -> Seq<char> {
        match self {
            ToolValidationError::EmptyArgs => "empty args provided"@,
            ToolValidationError::InvalidArgs => "invalid arguments provided"@,
        }
    }

    /// The message that the model is given.
    pub fn message(&self) -> (m: String)
        ensures
            m@ == self.message_of(),
    {
        match self {
            ToolValidationError::EmptyArgs => String::from_str("empty args provided"),
            ToolValidationError::InvalidArgs => String::from_str("invalid arguments provided"),
        }
    }
}

/// A call whose arguments were checked: the one action that it asks for.
#[derive(Debug, PartialEq, Eq)]
pub enum ToolInvocation {
    ReadFile { path: String },
    ListFiles { path: String },
    EditFile { path: String, old_str: String, new_str: String },
    RunCmd { cmd: String },
}

/// `ToolInvocation` as a mathematical value.
pub enum ToolInvocationView {
    ReadFile { path: Seq<char> },
    ListFiles { path: Seq<char> },
    EditFile { path: Seq<char>, old_str: Seq<char>, new_str: Seq<char> },
    RunCmd { cmd: Seq<char> },
}

impl View for ToolInvocation {
    type V = ToolInvocationView;

    open spec fn view(&self) -> ToolInvocationView {
        match self {
            ToolInvocation::ReadFile { path } => ToolInvocationView::ReadFile { path: path@ },
            ToolInvocation::ListFiles { path } => ToolInvocationView::ListFiles { path: path@ },
            ToolInvocation::EditFile { path, old_str, new_str } => ToolInvocationView::EditFile {
                path: path@,
                old_str: old_str@,
                new_str: new_str@,
            },
            ToolInvocation::RunCmd { cmd } => ToolInvocationView::RunCmd { cmd: cmd@ },
        }
    }
}

impl Clone for ToolInvocation {
    fn clone(&self) -> (copy: ToolInvocation)
        ensures
            copy@ == self@,
    {
        match self {
            ToolInvocation::ReadFile { path } => ToolInvocation::ReadFile { path: path.clone() },
            ToolInvocation::ListFiles { path } => ToolInvocation::ListFiles { path: path.clone() },
            ToolInvocation::EditFile { path, old_str, new_str } => ToolInvocation::EditFile {
                path: path.clone(),
                old_str: old_str.clone(),
                new_str: new_str.clone(),
            },
            ToolInvocation::RunCmd { cmd } => ToolInvocation::RunCmd { cmd: cmd.clone() },
        }
    }
}

/// The text that the arguments give under a key: the arguments must be an object
/// whose member of that key is a text.
pub open spec fn text_argument(args: JsonValue, key: Seq<char>) -> Result<
    Seq<char>,
    ToolValidationError,
> {
    match args.member(key) {
        Some(JsonValue::Text(t)) => Ok(t),
        _ => Err(ToolValidationError::InvalidArgs),
    }
}

/// The path that the arguments of a listing give: the current directory where
/// they name none or an empty one.
pub open spec fn listing_path(args: Option<JsonValue>) -> Result<Seq<char>, ToolValidationError> {
    match args {
        None => Ok("."@),
        Some(JsonValue::Object(members)) => match lookup(members, "path"@) {
            None => Ok("."@),
            Some(JsonValue::Text(t)) => if t.len() == 0 {
                Ok("."@)
            } else {
                Ok(t)
            },
            Some(_) => Err(ToolValidationError::InvalidArgs),
        },
        Some(_) => Err(ToolValidationError::InvalidArgs),
    }
}

/// The view of optional arguments.
pub open spec fn arguments_view(args: Option<Json>) -> Option<JsonValue> {
    match args {
        Some(a) => Some(a@),
        None => None,
    }
}

/// What a call to read a file asks for: its arguments give the `path`.
pub open spec fn read_file_invocation(args: Option<JsonValue>) -> Result<
    ToolInvocationView,
    ToolValidationError,
> {
    match args {
        None => Err(ToolValidationError::EmptyArgs),
        Some(args) => match text_argument(args, "path"@) {
            Ok(path) => Ok(ToolInvocationView::ReadFile { path }),
            Err(e) => Err(e),
        },
    }
}

/// What a call to list files asks for: its arguments may give the `path`.
pub open spec fn list_files_invocation(args: Option<JsonValue>) -> Result<
    ToolInvocationView,
    ToolValidationError,
> {
    match listing_path(args) {
        Ok(path) => Ok(ToolInvocationView::ListFiles { path }),
        Err(e) => Err(e),
    }
}

/// What a call to edit a file asks for: its arguments give the `path`, the
/// `old_str` and the `new_str`.
pub open spec fn edit_file_invocation(args: Option<JsonValue>) -> Result<
    ToolInvocationView,
    ToolValidationError,
> {
    match args {
        None => Err(ToolValidationError::EmptyArgs),
        Some(args) => match text_argument(args, "path"@) {
            Err(e) => Err(e),
            Ok(path) => match text_argument(args, "old_str"@) {
                Err(e) => Err(e),
                Ok(old_str) => match text_argument(args, "new_str"@) {
                    Err(e) => Err(e),
                    Ok(new_str) => Ok(ToolInvocationView::EditFile { path, old_str, new_str }),
                },
            },
        },
    }
}

/// What a call to run a command asks for: its arguments give the `cmd`.
pub open spec fn run_cmd_invocation(args: Option<JsonValue>) -> Result<
    ToolInvocationView,
    ToolValidationError,
> {
    match args {
        None => Err(ToolValidationError::EmptyArgs),
        Some(args) => match text_argument(args, "cmd"@) {
            Ok(cmd) => Ok(ToolInvocationView::RunCmd { cmd }),
            Err(e) => Err(e),
        },
    }
}

/// The action that a call asks for, or why its arguments are refused: each tool
/// has its own check.
///
/// Every tool but the listing needs arguments. Arguments are an object; each
/// argument of a tool is a member that holds a text; other members are passed
/// over.
pub open spec fn invocation(call: FunctionCallView) -> Result<
    ToolInvocationView,
    ToolValidationError,
> {
    match call.name {
        FunctionDeclarationName::ReadFile => read_file_invocation(call.args),
        FunctionDeclarationName::ListFiles => list_files_invocation(call.args),
        FunctionDeclarationName::EditFile => edit_file_invocation(call.args),
        FunctionDeclarationName::RunCmd => run_cmd_invocation(call.args),
    }
}

/// What a check of arguments gave, as a mathematical value.
pub open spec fn checked(r: Result<ToolInvocation, ToolValidationError>) -> Result<
    ToolInvocationView,
    ToolValidationError,
> {
    match r {
        Ok(i) => Ok(i@),
        Err(e) => Err(e),
    }
}

fn get_text_argument(args: &Json, key: &str) -> (r: Result<String, ToolValidationError>)
    ensures
        match r {
            Ok(t) => text_argument(args@, key@) == Ok::<Seq<char>, ToolValidationError>(t@),
            Err(e) => text_argument(args@, key@) == Err::<Seq<char>, ToolValidationError>(e),
        },
{
    match args.member(key) {
        Some(Json::Text(t)) => Ok(t.clone()),
        _ => Err(ToolValidationError::InvalidArgs),
    }
}

fn get_listing_path(args: &Option<Json>) -> (r: Result<String, ToolValidationError>)
    ensures
        match r {
            Ok(t) => listing_path(arguments_view(*args)) == Ok::<Seq<char>, ToolValidationError>(
                t@,
            ),
            Err(e) => listing_path(arguments_view(*args)) == Err::<Seq<char>, ToolValidationError>(
                e,
            ),
        },
{
    match args {
        None => Ok(String::from_str(".")),
        Some(a) => match a {
            Json::Object(_) => match a.member("path") {
                None => Ok(String::from_str(".")),
                Some(Json::Text(t)) => if t.as_str().is_empty() {
                    Ok(String::from_str("."))
                } else {
                    Ok(t.clone())
                },
                Some(_) => Err(ToolValidationError::InvalidArgs),
            },
            _ => Err(ToolValidationError::InvalidArgs),
        },
    }
}

/// Checks the arguments of a call to read a file.
pub fn check_read_file(args: &Option<Json>) -> (r: Result<ToolInvocation, ToolValidationError>)
    ensures
        checked(r) == read_file_invocation(arguments_view(*args)),
{
    match args {
        None => Err(ToolValidationError::EmptyArgs),
        Some(args) => match get_text_argument(args, "path") {
            Ok(path) => Ok(ToolInvocation::ReadFile { path }),
            Err(e) => Err(e),
        },
    }
}

/// Checks the arguments of a call to list files.
pub fn check_list_files(args: &Option<Json>) -> (r: Result<ToolInvocation, ToolValidationError>)
    ensures
        checked(r) == list_files_invocation(arguments_view(*args)),
{
    match get_listing_path(args) {
        Ok(path) => Ok(ToolInvocation::ListFiles { path }),
        Err(e) => Err(e),
    }
}

/// Checks the arguments of a call to edit a file.
pub fn check_edit_file(args: &Option<Json>) -> (r: Result<ToolInvocation, ToolValidationError>)
    ensures
        checked(r) == edit_file_invocation(arguments_view(*args)),
{
    match args {
        None => Err(ToolValidationError::EmptyArgs),
        Some(args) => {
            let path = match get_text_argument(args, "path") {
                Ok(t) => t,
                Err(e) => {
                    return Err(e);
                },
            };
            let old_str = match get_text_argument(args, "old_str") {
                Ok(t) => t,
                Err(e) => {
                    return Err(e);
                },
            };
            let new_str = match get_text_argument(args, "new_str") {
                Ok(t) => t,
                Err(e) => {
                    return Err(e);
                },
            };
            Ok(ToolInvocation::EditFile { path, old_str, new_str })
        },
    }
}

/// Checks the arguments of a call to run a command.
pub fn check_run_cmd(args: &Option<Json>) -> (r: Result<ToolInvocation, ToolValidationError>)
    ensures
        checked(r) == run_cmd_invocation(arguments_view(*args)),
{
    match args {
        None => Err(ToolValidationError::EmptyArgs),
        Some(args) => match get_text_argument(args, "cmd") {
            Ok(cmd) => Ok(ToolInvocation::RunCmd { cmd }),
            Err(e) => Err(e),
        },
    }
}

/// Checks the arguments of a call against what its tool needs, and hands back
/// the one action that the call asks for.
pub fn validate(call: &FunctionCall) -> (r: Result<ToolInvocation, ToolValidationError>)
    ensures
        checked(r) == invocation(call@),
{
    match call.name {
        FunctionDeclarationName::ReadFile => check_read_file(&call.args),
        FunctionDeclarationName::ListFiles => check_list_files(&call.args),
        FunctionDeclarationName::EditFile => check_edit_file(&call.args),
        FunctionDeclarationName::RunCmd => check_run_cmd(&call.args),
    }
}

/// What a listing hands to the model: the paths, with a comma and a space
/// between each two.
pub fn listing_output(files: &Vec<String>) -> (output: String)
    ensures
        output@ == joined(views(files@), ", "@),
{
    join(files, ", ")
}

/// What the model is told of a tool's result: the output, or the message of the
/// failure.
pub open spec fn told(result: Result<Seq<char>, ToolFault>) -> FunctionCallResponseView {
    match result {
        Ok(output) => FunctionCallResponseView::Output(output),
        Err(e) => FunctionCallResponseView::Error(e.message()),
    }
}

/// The response to a call: it carries the call's `id` and name, and never says
/// that more will follow.
pub open spec fn response_to(
    call: FunctionCallView,
    response: FunctionCallResponseView,
) -> FunctionResponseView {
    FunctionResponseView { id: call.id, name: call.name, response, will_continue: Some(false) }
}

/// The response to the call of the given `id` and name, whose tool has run.
pub fn answer(
    id: Option<String>,
    name: FunctionDeclarationName,
    result: Result<String, ToolExecutionError>,
) -> (r: FunctionResponse)
    ensures
        r@ == (FunctionResponseView {
            id: text_view(id),
            name,
            response: told(crate::tools::result_view(result)),
            will_continue: Some(false),
        }),
{
    let response = match result {
        Ok(output) => FunctionCallResponse::Output(output),
        Err(e) => FunctionCallResponse::Error(e.message()),
    };
    FunctionResponse { id, name, response, will_continue: Some(false) }
}

/// The response to a call whose tool has run.
pub fn respond(call: &FunctionCall, result: Result<String, ToolExecutionError>) -> (r:
    FunctionResponse)
    ensures
        r@ == response_to(call@, told(crate::tools::result_view(result))),
{
    answer(copy_text(&call.id), call.name, result)
}

/// The response to a call whose arguments were refused.
pub fn refuse(call: &FunctionCall, error: ToolValidationError) -> (r: FunctionResponse)
    ensures
        r@ == response_to(call@, FunctionCallResponseView::Error(error.message_of())),
{
    FunctionResponse {
        id: copy_text(&call.id),
        name: call.name,
        response: FunctionCallResponse::Error(error.message()),
        will_continue: Some(false),
    }
}

} // verus!
