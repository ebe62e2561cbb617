//! The agent loop as a state machine: from a state and an event to the next
//! state, what to show the user, and what to do next.
//!
//! The caller does the outside work. It performs the action that the agent
//! waits for (reads a line, sends a request, runs a tool) and hands back
//! what came of it as an event.

use crate::agent::domain::{
    Content, ContentView, FunctionCallResponseView, FunctionDeclarationName, FunctionResponseView,
    GenerateContentBody, GenerateContentBodyView, GenerateContentResponse, Part, PartView, Role,
    SystemInstruction, Tool, ToolView,
};
use crate::agent::order::{lemma_step_keeps_well_formed, well_formed};
use crate::agent::tools::{
    answer, invocation, refuse, response_to, told, validate, ToolInvocation, ToolInvocationView,
};
use crate::agent::wire::{
    decode, encode_request, request_json, text_reply, DecodeError, Fault,
};
use crate::model::{copy_text, lemma_views_push, text_view, views};
use crate::text::{decimal, decimal_text, same, trim, trimmed};
use crate::tools::{result_view, ToolExecutionError, ToolFault};
use vstd::prelude::*;
use vstd::string::StringExecFns;

verus! {

/// What looking up the credential in the environment gave.
#[derive(Debug, PartialEq, Eq)]
pub enum KeyLookup {
    /// The variable is set to this text.
    Present(String),
    /// The variable is not set.
    NotPresent,
    /// The variable is set to something that is no text.
    NotUnicode,
}

/// Why the agent cannot start.
#[derive(Debug, Clone, Copy, PartialEq, Eq, Structural)]
pub enum ConfigurationError {
    /// The credential is not set.
    KeyNotSet,
    /// The credential is no text.
    KeyNotUnicode,
}

impl ConfigurationError {
    /// The message of the error.
    pub open spec fn message_of(self) -> Seq<char> {
        match self {
            ConfigurationError::KeyNotSet => "environment variable GEMINI_API_KEY not set"@,
            ConfigurationError::KeyNotUnicode => "environment variable GEMINI_API_KEY is not valid unicode"@,
        }
    }

    /// The message of the error.
    pub fn message(&self) -> (m: String)
        ensures
            m@ == self.message_of(),
    {
        match self {
            ConfigurationError::KeyNotSet => String::from_str(
                "environment variable GEMINI_API_KEY not set",
            ),
            ConfigurationError::KeyNotUnicode => String::from_str(
                "environment variable GEMINI_API_KEY is not valid unicode",
            ),
        }
    }
}

/// The credential, or why the agent cannot start.
pub fn api_key(lookup: KeyLookup) -> (r: Result<String, ConfigurationError>)
    ensures
        match lookup {
            KeyLookup::Present(key) => r == Ok::<String, ConfigurationError>(key),
            KeyLookup::NotPresent => r == Err::<String, ConfigurationError>(
                ConfigurationError::KeyNotSet,
            ),
            KeyLookup::NotUnicode => r == Err::<String, ConfigurationError>(
                ConfigurationError::KeyNotUnicode,
            ),
        },
{
    match lookup {
        KeyLookup::Present(key) => Ok(key),
        KeyLookup::NotPresent => Err(ConfigurationError::KeyNotSet),
        KeyLookup::NotUnicode => Err(ConfigurationError::KeyNotUnicode),
    }
}

/// The remote side answered with a status that is no success. This ends the
/// agent.
#[derive(Debug, Clone, Copy, PartialEq, Eq, Structural)]
pub struct ProtocolError {
    pub code: u16,
}

impl ProtocolError {
    /// The message of the error.
    pub open spec fn message_of(self) -> Seq<char> {
        "gemini API returned a non success code: "@ + decimal(self.code as nat)
    }

    /// The message of the error.
    pub fn message(&self) -> (m: String)
        ensures
            m@ == self.message_of(),
    {
        let mut m = String::from_str("gemini API returned a non success code: ");
        let digits = decimal_text(self.code as u64);
        m.append(digits.as_str());
        m
    }
}

/// Whether a status of HTTP says success: the codes from 200 to 299.
pub open spec fn is_success(status: u16) -> bool {
    200 <= status < 300
}

/// Whether a status of HTTP says success.
pub fn is_success_code(status: u16) -> (b: bool)
    ensures
        b == is_success(status),
{
    200 <= status && status < 300
}

/// What the agent waits for.
pub enum PhaseView {
    /// A line of the user.
    AwaitingUserInput,
    /// The reply to the request that carries the whole history.
    AwaitingModelReply,
    /// The result of the tool that the running call of a round asks for.
    DispatchingTools(RoundView),
    /// Nothing: the user has quit.
    Finished,
    /// Nothing: the remote side answered with this status, which is no success.
    Failed(u16),
}

/// A model's turn whose calls are being run, one after the other.
pub struct RoundView {
    /// The model's turn. It joins the history when the round is over.
    pub turn: ContentView,
    /// Where in the turn the part after the running call stands.
    pub next: int,
    /// The `id` of the running call.
    pub id: Option<Seq<char>>,
    /// The tool of the running call.
    pub name: FunctionDeclarationName,
    /// The action that the running call asks for.
    pub invocation: ToolInvocationView,
    /// The responses to the calls before the running one, in their order.
    pub responses: Seq<PartView>,
}

/// The state of the agent as a mathematical value.
pub struct AgentView {
    /// The system instruction, the tools and the history.
    pub body: GenerateContentBodyView,
    /// The tokens used since the session began.
    pub total_token_count: usize,
    pub phase: PhaseView,
}

/// What happened outside.
#[derive(Debug, PartialEq, Eq)]
pub enum Event {
    /// The user entered a line.
    Line(String),
    /// The request could not be sent, or no reply came; the message says why.
    TransportFailure(String),
    /// The remote side replied.
    Reply { status: u16, body: String },
    /// The tool has run.
    ToolResult(Result<String, ToolExecutionError>),
}

/// `Event` as a mathematical value.
pub enum EventView {
    Line(Seq<char>),
    TransportFailure(Seq<char>),
    Reply { status: u16, body: Seq<char> },
    ToolResult(Result<Seq<char>, ToolFault>),
}

impl View for Event {
    type V = EventView;

    open spec fn view(&self) -> EventView {
        match self {
            Event::Line(l) => EventView::Line(l@),
            Event::TransportFailure(m) => EventView::TransportFailure(m@),
            Event::Reply { status, body } => EventView::Reply { status: *status, body: body@ },
            Event::ToolResult(r) => EventView::ToolResult(result_view(*r)),
        }
    }
}

/// Something to show the user.
#[derive(Debug, PartialEq, Eq)]
pub enum Notice {
    /// The session starts anew: the screen is to be cleared.
    SessionCleared,
    /// The screen is to be cleared.
    ScreenCleared,
    /// The request could not be sent.
    TransportFailure(String),
    /// The reply could not be read.
    DecodeFailure(DecodeError),
    /// The reply holds no candidate.
    EmptyResponse,
    /// The model said this.
    ModelText(String),
    /// The model wants to call this tool.
    ToolCall(FunctionDeclarationName),
    /// The tokens used since the session began.
    TokensUsed(usize),
    /// The model's turn is over.
    EndOfTurn,
}

/// `Notice` as a mathematical value.
pub enum NoticeView {
    SessionCleared,
    ScreenCleared,
    TransportFailure(Seq<char>),
    DecodeFailure(Fault),
    EmptyResponse,
    ModelText(Seq<char>),
    ToolCall(FunctionDeclarationName),
    TokensUsed(usize),
    EndOfTurn,
}

impl View for Notice {
    type V = NoticeView;

    open spec fn view(&self) -> NoticeView {
        match self {
            Notice::SessionCleared => NoticeView::SessionCleared,
            Notice::ScreenCleared => NoticeView::ScreenCleared,
            Notice::TransportFailure(m) => NoticeView::TransportFailure(m@),
            Notice::DecodeFailure(e) => NoticeView::DecodeFailure(e@),
            Notice::EmptyResponse => NoticeView::EmptyResponse,
            Notice::ModelText(t) => NoticeView::ModelText(t@),
            Notice::ToolCall(name) => NoticeView::ToolCall(*name),
            Notice::TokensUsed(n) => NoticeView::TokensUsed(*n),
            Notice::EndOfTurn => NoticeView::EndOfTurn,
        }
    }
}

/// What the caller is to do next.
#[derive(Debug, PartialEq, Eq)]
pub enum Action {
    /// Read a line from the user.
    ReadLine,
    /// Send this request and wait for the reply.
    Send(String),
    /// Run this tool.
    Dispatch(ToolInvocation),
    /// Stop: the user has quit.
    Exit,
    /// Stop with a failure.
    Abort(ProtocolError),
}

/// `Action` as a mathematical value.
pub enum ActionView {
    ReadLine,
    Send(Seq<char>),
    Dispatch(ToolInvocationView),
    Exit,
    Abort(ProtocolError),
}

impl View for Action {
    type V = ActionView;

    open spec fn view(&self) -> ActionView {
        match self {
            Action::ReadLine => ActionView::ReadLine,
            Action::Send(text) => ActionView::Send(text@),
            Action::Dispatch(i) => ActionView::Dispatch(i@),
            Action::Exit => ActionView::Exit,
            Action::Abort(e) => ActionView::Abort(*e),
        }
    }
}

/// The action that the agent waits for in a state.
pub open spec fn pending(s: AgentView) -> ActionView {
    match s.phase {
        PhaseView::AwaitingUserInput => ActionView::ReadLine,
        PhaseView::AwaitingModelReply => ActionView::Send(request_json(s.body).printed()),
        PhaseView::DispatchingTools(round) => ActionView::Dispatch(round.invocation),
        PhaseView::Finished => ActionView::Exit,
        PhaseView::Failed(code) => ActionView::Abort(ProtocolError { code }),
    }
}

/// The state at the start of a session: no history, no tokens used, waiting for
/// the user.
pub open spec fn initial(system_prompt: Seq<char>, tools: Seq<ToolView>) -> AgentView {
    AgentView {
        body: GenerateContentBodyView {
            contents: Seq::empty(),
            system_instruction: seq![PartView::Text(system_prompt)],
            tools,
        },
        total_token_count: 0,
        phase: PhaseView::AwaitingUserInput,
    }
}

/// The state with another phase.
pub open spec fn in_phase(s: AgentView, phase: PhaseView) -> AgentView {
    AgentView { body: s.body, total_token_count: s.total_token_count, phase }
}

/// The turn that a line of the user makes.
pub open spec fn user_turn(text: Seq<char>) -> ContentView {
    ContentView { parts: seq![PartView::Text(text)], role: Some(Role::User) }
}

/// What a line of the user does. The line is taken without the white space
/// around it. `/bye`, `/quit` and `/exit` end the agent; `/new` empties the
/// history and the count of tokens; `/clear` and an empty line change nothing;
/// any other line joins the history as a turn of the user, and the request is
/// due.
pub open spec fn on_line(s: AgentView, line: Seq<char>) -> (AgentView, Seq<NoticeView>) {
    let input = trimmed(line);
    if input == "/bye"@ || input == "/quit"@ || input == "/exit"@ {
        (in_phase(s, PhaseView::Finished), Seq::empty())
    } else if input == "/new"@ {
        (
            state(s.body, Seq::empty(), 0, PhaseView::AwaitingUserInput),
            seq![NoticeView::SessionCleared],
        )
    } else if input == "/clear"@ {
        (s, seq![NoticeView::ScreenCleared])
    } else if input.len() == 0 {
        (s, Seq::empty())
    } else {
        (
            state(
                s.body,
                s.body.contents.push(user_turn(input)),
                s.total_token_count,
                PhaseView::AwaitingModelReply,
            ),
            Seq::empty(),
        )
    }
}

/// The state that holds a history, a count of tokens and a phase.
pub open spec fn state(
    body: GenerateContentBodyView,
    contents: Seq<ContentView>,
    total_token_count: usize,
    phase: PhaseView,
) -> AgentView {
    AgentView {
        body: GenerateContentBodyView {
            contents,
            system_instruction: body.system_instruction,
            tools: body.tools,
        },
        total_token_count,
        phase,
    }
}

/// The end of a model's turn. The turn joins the history; where calls were
/// answered, the responses follow it as one turn of the user and the next
/// request is due; else the user is asked.
pub open spec fn finish(
    body: GenerateContentBodyView,
    total: usize,
    turn: ContentView,
    responses: Seq<PartView>,
    notices: Seq<NoticeView>,
) -> (AgentView, Seq<NoticeView>) {
    let counted = if total > 0 {
        notices.push(NoticeView::TokensUsed(total))
    } else {
        notices
    };
    let shown = counted.push(NoticeView::EndOfTurn);
    if responses.len() == 0 {
        (state(body, body.contents.push(turn), total, PhaseView::AwaitingUserInput), shown)
    } else {
        (
            state(
                body,
                body.contents.push(turn).push(
                    ContentView { parts: responses, role: Some(Role::User) },
                ),
                total,
                PhaseView::AwaitingModelReply,
            ),
            shown,
        )
    }
}

/// Goes through the parts of a model's turn from the part `i` on, in their
/// order. A text is shown. A call is announced and checked: where its arguments
/// are refused, the response says so and the walk goes on; else the walk stops
/// there and the tool is due. A response that the model wrote is passed over.
pub open spec fn scan(
    body: GenerateContentBodyView,
    total: usize,
    turn: ContentView,
    i: int,
    responses: Seq<PartView>,
    notices: Seq<NoticeView>,
) -> (AgentView, Seq<NoticeView>)
    decreases turn.parts.len() - i,
{
    if i < 0 || i >= turn.parts.len() {
        finish(body, total, turn, responses, notices)
    } else {
        match turn.parts[i] {
            PartView::Text(t) => scan(
                body,
                total,
                turn,
                i + 1,
                responses,
                notices.push(NoticeView::ModelText(trimmed(t))),
            ),
            PartView::FunctionResponse(_) => scan(body, total, turn, i + 1, responses, notices),
            PartView::FunctionCall(call) => match invocation(call) {
                Err(e) => scan(
                    body,
                    total,
                    turn,
                    i + 1,
                    responses.push(
                        PartView::FunctionResponse(
                            response_to(call, FunctionCallResponseView::Error(e.message_of())),
                        ),
                    ),
                    notices.push(NoticeView::ToolCall(call.name)),
                ),
                Ok(action) => (
                    state(
                        body,
                        body.contents,
                        total,
                        PhaseView::DispatchingTools(
                            RoundView {
                                turn,
                                next: i + 1,
                                id: call.id,
                                name: call.name,
                                invocation: action,
                                responses,
                            },
                        ),
                    ),
                    notices.push(NoticeView::ToolCall(call.name)),
                ),
            },
        }
    }
}

/// The count of tokens after a reply: the sum, and the largest count that the
/// machine holds where the sum is above it.
pub open spec fn counted(total: usize, used: usize) -> usize {
    if total + used > usize::MAX {
        usize::MAX
    } else {
        (total + used) as usize
    }
}

/// The model's turn as it joins the history: the content of the candidate, in
/// the role of the model.
pub open spec fn model_turn(content: ContentView) -> ContentView {
    ContentView { parts: content.parts, role: Some(Role::Model) }
}

/// What a reply does. A status that is no success ends the agent with a
/// failure. A body that cannot be read is reported, and the user is asked; the
/// history stays. Else the tokens are counted; without a candidate that is
/// reported, and the user is asked; with candidates the first one is the
/// model's turn, and its parts are gone through.
pub open spec fn on_reply(s: AgentView, status: u16, body: Seq<char>) -> (
    AgentView,
    Seq<NoticeView>,
) {
    if !is_success(status) {
        (in_phase(s, PhaseView::Failed(status)), Seq::empty())
    } else {
        match text_reply(body) {
            Err(fault) => (
                in_phase(s, PhaseView::AwaitingUserInput),
                seq![NoticeView::DecodeFailure(fault)],
            ),
            Ok(reply) => {
                let total = counted(s.total_token_count, reply.usage_metadata.total_token_count);
                if reply.candidates.len() == 0 {
                    (
                        state(s.body, s.body.contents, total, PhaseView::AwaitingUserInput),
                        seq![NoticeView::EmptyResponse],
                    )
                } else {
                    scan(
                        s.body,
                        total,
                        model_turn(reply.candidates[0].content),
                        0,
                        Seq::empty(),
                        Seq::empty(),
                    )
                }
            },
        }
    }
}

/// What the result of the running tool does: the response to the running call
/// joins the responses of the round, and the walk through the model's turn goes
/// on behind the call.
pub open spec fn on_tool_result(s: AgentView, round: RoundView, result: Result<Seq<char>, ToolFault>) -> (
    AgentView,
    Seq<NoticeView>,
) {
    let response = FunctionResponseView {
        id: round.id,
        name: round.name,
        response: told(result),
        will_continue: Some(false),
    };
    scan(
        s.body,
        s.total_token_count,
        round.turn,
        round.next,
        round.responses.push(PartView::FunctionResponse(response)),
        Seq::empty(),
    )
}

/// The next state and what to show the user, given a state and an event. An
/// event that the agent does not wait for changes nothing.
pub open spec fn step(s: AgentView, e: EventView) -> (AgentView, Seq<NoticeView>) {
    match (s.phase, e) {
        (PhaseView::AwaitingUserInput, EventView::Line(line)) => on_line(s, line),
        (PhaseView::AwaitingModelReply, EventView::TransportFailure(m)) => (
            in_phase(s, PhaseView::AwaitingUserInput),
            seq![NoticeView::TransportFailure(m)],
        ),
        (PhaseView::AwaitingModelReply, EventView::Reply { status, body }) => on_reply(
            s,
            status,
            body,
        ),
        (PhaseView::DispatchingTools(round), EventView::ToolResult(result)) => on_tool_result(
            s,
            round,
            result,
        ),
        _ => (s, Seq::empty()),
    }
}

/// A model's turn whose calls are being run.
#[derive(Debug)]
struct Round {
    turn: Content,
    next: usize,
    id: Option<String>,
    name: FunctionDeclarationName,
    invocation: ToolInvocation,
    responses: Vec<Part>,
}

impl View for Round {
    type V = RoundView;

    closed spec fn view(&self) -> RoundView {
        RoundView {
            turn: self.turn@,
            next: self.next as int,
            id: text_view(self.id),
            name: self.name,
            invocation: self.invocation@,
            responses: views(self.responses@),
        }
    }
}

/// What the agent waits for.
#[derive(Debug)]
enum Phase {
    AwaitingUserInput,
    AwaitingModelReply,
    DispatchingTools(Round),
    Finished,
    Failed(u16),
}

impl View for Phase {
    type V = PhaseView;

    closed spec fn view(&self) -> PhaseView {
        match self {
            Phase::AwaitingUserInput => PhaseView::AwaitingUserInput,
            Phase::AwaitingModelReply => PhaseView::AwaitingModelReply,
            Phase::DispatchingTools(round) => PhaseView::DispatchingTools(round@),
            Phase::Finished => PhaseView::Finished,
            Phase::Failed(code) => PhaseView::Failed(*code),
        }
    }
}

/// The agent: the conversation, the count of tokens, and what it waits for.
#[derive(Debug)]
pub struct Agent {
    body: GenerateContentBody,
    total_token_count: usize,
    phase: Phase,
}

impl View for Agent {
    type V = AgentView;

    closed spec fn view(&self) -> AgentView {
        AgentView {
            body: self.body@,
            total_token_count: self.total_token_count,
            phase: self.phase@,
        }
    }
}

/// What a step gave: what to show the user, in this order, and what to do next.
#[derive(Debug, PartialEq, Eq)]
pub struct Step {
    pub notices: Vec<Notice>,
    pub action: Action,
}

impl Agent {
    /// The agent at the start of a session.
    pub fn new(system_prompt: &str, tools: Vec<Tool>) -> (agent: Agent)
        ensures
            agent@ == initial(system_prompt@, views(tools@)),
            well_formed(agent@),
    {
        let mut parts: Vec<Part> = Vec::new();
        parts.push(Part::Text(String::from_str(system_prompt)));
        let agent = Agent {
            body: GenerateContentBody {
                contents: Vec::new(),
                system_instruction: SystemInstruction { parts },
                tools,
            },
            total_token_count: 0,
            phase: Phase::AwaitingUserInput,
        };
        assert(agent@.body.contents =~= Seq::empty());
        assert(agent@.body.system_instruction =~= seq![PartView::Text(system_prompt@)]);
        agent
    }

    /// The turns of the conversation so far.
    pub fn history(&self) -> (turns: &Vec<Content>)
        ensures
            views(turns@) == self@.body.contents,
    {
        &self.body.contents
    }

    /// The tokens used since the session began.
    pub fn total_token_count(&self) -> (n: usize)
        ensures
            n == self@.total_token_count,
    {
        self.total_token_count
    }

    /// The action that the agent waits for.
    pub fn action(&self) -> (a: Action)
        ensures
            a@ == pending(self@),
    {
        match &self.phase {
            Phase::AwaitingUserInput => Action::ReadLine,
            Phase::AwaitingModelReply => Action::Send(encode_request(&self.body)),
            Phase::DispatchingTools(round) => Action::Dispatch(round.invocation.clone()),
            Phase::Finished => Action::Exit,
            Phase::Failed(code) => Action::Abort(ProtocolError { code: *code }),
        }
    }

    fn on_line(&mut self, line: &str) -> (notices: Vec<Notice>)
        ensures
            (final(self)@, views(notices@)) == on_line(old(self)@, line@),
    {
        let input = trim(line);
        let mut notices: Vec<Notice> = Vec::new();
        if same(input.as_str(), "/bye") || same(input.as_str(), "/quit") || same(
            input.as_str(),
            "/exit",
        ) {
            self.phase = Phase::Finished;
        } else if same(input.as_str(), "/new") {
            self.body.contents = Vec::new();
            self.total_token_count = 0;
            self.phase = Phase::AwaitingUserInput;
            notices.push(Notice::SessionCleared);
            assert(self@.body.contents =~= Seq::empty());
        } else if same(input.as_str(), "/clear") {
            notices.push(Notice::ScreenCleared);
        } else if !input.as_str().is_empty() {
            let mut parts: Vec<Part> = Vec::new();
            parts.push(Part::Text(input));
            let turn = Content { parts, role: Some(Role::User) };
            assert(turn@.parts =~= seq![PartView::Text(trimmed(line@))]);
            proof {
                lemma_views_push(self.body.contents@, turn);
            }
            self.body.contents.push(turn);
            self.phase = Phase::AwaitingModelReply;
        }
        notices
    }

    fn scan(&mut self, turn: Content, start: usize, responses: Vec<Part>, notices: Vec<Notice>) -> (shown:
        Vec<Notice>)
        ensures
            (final(self)@, views(shown@)) == scan(
                old(self)@.body,
                old(self)@.total_token_count,
                turn@,
                start as int,
                views(responses@),
                views(notices@),
            ),
    {
        let ghost body = self@.body;
        let ghost total = self@.total_token_count;
        let ghost goal = scan(
            body,
            total,
            turn@,
            start as int,
            views(responses@),
            views(notices@),
        );
        let mut answers = responses;
        let mut shown = notices;
        let mut i: usize = start;
        while i < turn.parts.len()
            invariant
                self@.body == body,
                self@.total_token_count == total,
                goal == scan(
                    old(self)@.body,
                    old(self)@.total_token_count,
                    turn@,
                    start as int,
                    views(responses@),
                    views(notices@),
                ),
                goal == scan(body, total, turn@, i as int, views(answers@), views(shown@)),
            decreases turn.parts.len() - i,
        {
            match &turn.parts[i] {
                Part::Text(t) => {
                    let said = Notice::ModelText(trim(t.as_str()));
                    proof {
                        lemma_views_push(shown@, said);
                    }
                    shown.push(said);
                },
                Part::FunctionResponse(_) => {},
                Part::FunctionCall(call) => {
                    let announced = Notice::ToolCall(call.name);
                    proof {
                        lemma_views_push(shown@, announced);
                    }
                    shown.push(announced);
                    match validate(call) {
                        Err(e) => {
                            let refused = Part::FunctionResponse(refuse(call, e));
                            proof {
                                lemma_views_push(answers@, refused);
                            }
                            answers.push(refused);
                        },
                        Ok(invocation) => {
                            let id = copy_text(&call.id);
                            let name = call.name;
                            self.phase = Phase::DispatchingTools(
                                Round { turn, next: i + 1, id, name, invocation, responses: answers },
                            );
                            return shown;
                        },
                    }
                },
            }
            i += 1;
        }
        if self.total_token_count > 0 {
            let counted = Notice::TokensUsed(self.total_token_count);
            proof {
                lemma_views_push(shown@, counted);
            }
            shown.push(counted);
        }
        proof {
            lemma_views_push(shown@, Notice::EndOfTurn);
            lemma_views_push(self.body.contents@, turn);
        }
        shown.push(Notice::EndOfTurn);
        self.body.contents.push(turn);
        if answers.len() == 0 {
            self.phase = Phase::AwaitingUserInput;
        } else {
            let answered = Content { parts: answers, role: Some(Role::User) };
            proof {
                lemma_views_push(self.body.contents@, answered);
            }
            self.body.contents.push(answered);
            self.phase = Phase::AwaitingModelReply;
        }
        shown
    }

    fn on_reply(&mut self, status: u16, body: &str) -> (notices: Vec<Notice>)
        ensures
            (final(self)@, views(notices@)) == on_reply(old(self)@, status, body@),
    {
        let mut notices: Vec<Notice> = Vec::new();
        assert(views(notices@) =~= Seq::empty());
        if !is_success_code(status) {
            self.phase = Phase::Failed(status);
            return notices;
        }
        match decode(body) {
            Err(e) => {
                self.phase = Phase::AwaitingUserInput;
                let failed = Notice::DecodeFailure(e);
                proof {
                    lemma_views_push(notices@, failed);
                }
                notices.push(failed);
                notices
            },
            Ok(reply) => {
                let GenerateContentResponse { candidates, usage_metadata } = reply;
                self.total_token_count = self.total_token_count.saturating_add(
                    usage_metadata.total_token_count,
                );
                let mut candidates = candidates;
                if candidates.len() == 0 {
                    self.phase = Phase::AwaitingUserInput;
                    notices.push(Notice::EmptyResponse);
                    notices
                } else {
                    let candidate = candidates.swap_remove(0);
                    let turn = Content { parts: candidate.content.parts, role: Some(Role::Model) };
                    let responses: Vec<Part> = Vec::new();
                    assert(views(responses@) =~= Seq::empty());
                    self.scan(turn, 0, responses, notices)
                }
            },
        }
    }

    fn on_tool_result(&mut self, round: Round, result: Result<String, ToolExecutionError>) -> (notices:
        Vec<Notice>)
        ensures
            (final(self)@, views(notices@)) == on_tool_result(
                old(self)@,
                round@,
                result_view(result),
            ),
    {
        let Round { turn, next, id, name, invocation, responses } = round;
        let answered = Part::FunctionResponse(answer(id, name, result));
        let mut responses = responses;
        proof {
            lemma_views_push(responses@, answered);
        }
        responses.push(answered);
        let notices: Vec<Notice> = Vec::new();
        assert(views(notices@) =~= Seq::empty());
        self.scan(turn, next, responses, notices)
    }

    /// Takes an event and moves on: the new state and what is to be shown are
    /// those that `step` gives for the old state and the event, and the action
    /// is the one that the agent now waits for. A well-formed state stays well
    /// formed.
    pub fn step(&mut self, event: Event) -> (r: Step)
        ensures
            (final(self)@, views(r.notices@)) == step(old(self)@, event@),
            r.action@ == pending(final(self)@),
            well_formed(old(self)@) ==> well_formed(final(self)@),
    {
        proof {
            if well_formed(self@) {
                lemma_step_keeps_well_formed(self@, event@);
            }
        }
        let notices = match event {
            Event::Line(line) => match &self.phase {
                Phase::AwaitingUserInput => self.on_line(line.as_str()),
                _ => Vec::new(),
            },
            Event::TransportFailure(m) => match &self.phase {
                Phase::AwaitingModelReply => {
                    self.phase = Phase::AwaitingUserInput;
                    let mut notices: Vec<Notice> = Vec::new();
                    notices.push(Notice::TransportFailure(m));
                    notices
                },
                _ => Vec::new(),
            },
            Event::Reply { status, body } => match &self.phase {
                Phase::AwaitingModelReply => self.on_reply(status, body.as_str()),
                _ => Vec::new(),
            },
            Event::ToolResult(result) => match &self.phase {
                Phase::DispatchingTools(_) => {
                    let mut phase = Phase::AwaitingUserInput;
                    std::mem::swap(&mut self.phase, &mut phase);
                    match phase {
                        Phase::DispatchingTools(round) => self.on_tool_result(round, result),
                        _ => Vec::new(),
                    }
                },
                _ => Vec::new(),
            },
        };
        let action = self.action();
        Step { notices, action }
    }
}

} // verus!
