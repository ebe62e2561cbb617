//! What a conversation holds: turns, their parts, tool declarations, and the
//! model's reply.

use crate::json::{Json, JsonValue};
use crate::model::{text_view, views};
use vstd::prelude::*;

verus! {

/// Who speaks in a turn.
#[derive(Debug, Clone, Copy, PartialEq, Eq, Structural)]
pub enum Role {
    User,
    Model,
}

/// The tools that the model may call.
#[derive(Debug, Clone, Copy, PartialEq, Eq, Structural)]
pub enum FunctionDeclarationName {
    ReadFile,
    ListFiles,
    EditFile,
    RunCmd,
}

impl View for Role {
    type V = Role;

    open spec fn view(&self) -> Role {
        *self
    }
}

impl View for FunctionDeclarationName {
    type V = FunctionDeclarationName;

    open spec fn view(&self) -> FunctionDeclarationName {
        *self
    }
}

impl FunctionDeclarationName {
    /// The name under which the tool goes over the wire.
    pub open spec fn wire_name(self) -> Seq<char> {
        match self {
            FunctionDeclarationName::ReadFile => "read_file"@,
            FunctionDeclarationName::ListFiles => "list_files"@,
            FunctionDeclarationName::EditFile => "edit_file"@,
            FunctionDeclarationName::RunCmd => "run_cmd"@,
        }
    }

    /// The name under which the tool goes over the wire.
    pub fn as_str(&self) -> (name: &'static str)
        ensures
            name@ == self.wire_name(),
    {
        match self {
            FunctionDeclarationName::ReadFile => "read_file",
            FunctionDeclarationName::ListFiles => "list_files",
            FunctionDeclarationName::EditFile => "edit_file",
            FunctionDeclarationName::RunCmd => "run_cmd",
        }
    }
}

/// What a tool handed back: its output, or why it failed.
#[derive(Debug, PartialEq, Eq)]
pub enum FunctionCallResponse {
    Output(String),
    Error(String),
}

/// `FunctionCallResponse` as a mathematical value.
pub enum FunctionCallResponseView {
    Output(Seq<char>),
    Error(Seq<char>),
}

impl View for FunctionCallResponse {
    type V = FunctionCallResponseView;

    open spec fn view(&self) -> FunctionCallResponseView {
        match self {
            FunctionCallResponse::Output(t) => FunctionCallResponseView::Output(t@),
            FunctionCallResponse::Error(t) => FunctionCallResponseView::Error(t@),
        }
    }
}

/// The model's request to call a tool.
#[derive(Debug, PartialEq, Eq)]
pub struct FunctionCall {
    /// The token by which the model finds the response again.
    pub id: Option<String>,
    pub name: FunctionDeclarationName,
    /// The arguments as the model wrote them; they are checked when the call is
    /// dispatched.
    pub args: Option<Json>,
}

/// `FunctionCall` as a mathematical value.
pub struct FunctionCallView {
    pub id: Option<Seq<char>>,
    pub name: FunctionDeclarationName,
    pub args: Option<JsonValue>,
}

impl View for FunctionCall {
    type V = FunctionCallView;

    open spec fn view(&self) -> FunctionCallView {
        FunctionCallView {
            id: text_view(self.id),
            name: self.name,
            args: match self.args {
                Some(a) => Some(a@),
                None => None,
            },
        }
    }
}

/// The answer to a `FunctionCall`.
#[derive(Debug, PartialEq, Eq)]
pub struct FunctionResponse {
    /// The `id` of the call that this answers.
    pub id: Option<String>,
    pub name: FunctionDeclarationName,
    pub response: FunctionCallResponse,
    /// Whether more of the result will follow.
    pub will_continue: Option<bool>,
}

/// `FunctionResponse` as a mathematical value.
pub struct FunctionResponseView {
    pub id: Option<Seq<char>>,
    pub name: FunctionDeclarationName,
    pub response: FunctionCallResponseView,
    pub will_continue: Option<bool>,
}

impl View for FunctionResponse {
    type V = FunctionResponseView;

    open spec fn view(&self) -> FunctionResponseView {
        FunctionResponseView {
            id: text_view(self.id),
            name: self.name,
            response: self.response@,
            will_continue: self.will_continue,
        }
    }
}

/// One unit of content within a turn.
#[derive(Debug, PartialEq, Eq)]
pub enum Part {
    Text(String),
    FunctionCall(FunctionCall),
    FunctionResponse(FunctionResponse),
}

/// `Part` as a mathematical value.
pub enum PartView {
    Text(Seq<char>),
    FunctionCall(FunctionCallView),
    FunctionResponse(FunctionResponseView),
}

impl View for Part {
    type V = PartView;

    open spec fn view(&self) -> PartView {
        match self {
            Part::Text(t) => PartView::Text(t@),
            Part::FunctionCall(c) => PartView::FunctionCall(c@),
            Part::FunctionResponse(r) => PartView::FunctionResponse(r@),
        }
    }
}

/// One turn of the conversation.
#[derive(Debug, PartialEq, Eq)]
pub struct Content {
    pub parts: Vec<Part>,
    pub role: Option<Role>,
}

/// `Content` as a mathematical value.
pub struct ContentView {
    pub parts: Seq<PartView>,
    pub role: Option<Role>,
}

impl View for Content {
    type V = ContentView;

    open spec fn view(&self) -> ContentView {
        ContentView { parts: views(self.parts@), role: self.role }
    }
}

/// The instruction that every request carries ahead of the conversation.
#[derive(Debug, PartialEq, Eq)]
pub struct SystemInstruction {
    pub parts: Vec<Part>,
}

impl View for SystemInstruction {
    type V = Seq<PartView>;

    open spec fn view(&self) -> Seq<PartView> {
        views(self.parts@)
    }
}

/// A tool as the model is told of it.
#[derive(Debug, PartialEq, Eq)]
pub struct FunctionDeclaration {
    pub name: FunctionDeclarationName,
    /// What the tool is for; the model chooses by it.
    pub description: String,
    /// The schema of the arguments.
    pub parameters: Json,
}

/// `FunctionDeclaration` as a mathematical value.
pub struct FunctionDeclarationView {
    pub name: FunctionDeclarationName,
    pub description: Seq<char>,
    pub parameters: JsonValue,
}

impl View for FunctionDeclaration {
    type V = FunctionDeclarationView;

    open spec fn view(&self) -> FunctionDeclarationView {
        FunctionDeclarationView {
            name: self.name,
            description: self.description@,
            parameters: self.parameters@,
        }
    }
}

/// A group of tool declarations.
#[derive(Debug, PartialEq, Eq)]
pub enum Tool {
    FunctionDeclarations(Vec<FunctionDeclaration>),
}

/// `Tool` as a mathematical value.
pub enum ToolView {
    FunctionDeclarations(Seq<FunctionDeclarationView>),
}

impl View for Tool {
    type V = ToolView;

    open spec fn view(&self) -> ToolView {
        match self {
            Tool::FunctionDeclarations(d) => ToolView::FunctionDeclarations(views(d@)),
        }
    }
}

/// What a request carries: the conversation so far, the system instruction and
/// the tools.
#[derive(Debug, PartialEq, Eq)]
pub struct GenerateContentBody {
    pub contents: Vec<Content>,
    pub system_instruction: SystemInstruction,
    pub tools: Vec<Tool>,
}

/// `GenerateContentBody` as a mathematical value.
pub struct GenerateContentBodyView {
    pub contents: Seq<ContentView>,
    pub system_instruction: Seq<PartView>,
    pub tools: Seq<ToolView>,
}

impl View for GenerateContentBody {
    type V = GenerateContentBodyView;

    open spec fn view(&self) -> GenerateContentBodyView {
        GenerateContentBodyView {
            contents: views(self.contents@),
            system_instruction: self.system_instruction@,
            tools: views(self.tools@),
        }
    }
}

/// How many tokens a reply cost.
#[derive(Debug, Clone, Copy, PartialEq, Eq, Structural)]
pub struct UsageMetadata {
    pub prompt_token_count: usize,
    pub candidates_token_count: usize,
    pub total_token_count: usize,
}

impl View for UsageMetadata {
    type V = UsageMetadata;

    open spec fn view(&self) -> UsageMetadata {
        *self
    }
}

/// One answer that the model offers.
#[derive(Debug, PartialEq, Eq)]
pub struct Candidate {
    pub content: Content,
    pub finish_reason: String,
}

/// `Candidate` as a mathematical value.
pub struct CandidateView {
    pub content: ContentView,
    pub finish_reason: Seq<char>,
}

impl View for Candidate {
    type V = CandidateView;

    open spec fn view(&self) -> CandidateView {
        CandidateView { content: self.content@, finish_reason: self.finish_reason@ }
    }
}

/// The model's reply.
#[derive(Debug, PartialEq, Eq)]
pub struct GenerateContentResponse {
    pub candidates: Vec<Candidate>,
    pub usage_metadata: UsageMetadata,
}

/// `GenerateContentResponse` as a mathematical value.
pub struct GenerateContentResponseView {
    pub candidates: Seq<CandidateView>,
    pub usage_metadata: UsageMetadata,
}

impl View for GenerateContentResponse {
    type V = GenerateContentResponseView;

    open spec fn view(&self) -> GenerateContentResponseView {
        GenerateContentResponseView {
            candidates: views(self.candidates@),
            usage_metadata: self.usage_metadata,
        }
    }
}

} // verus!
