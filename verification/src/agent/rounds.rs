//! What the state machine comes to over several steps: a round of tool calls
//! from the model's turn to the next request, a new session, and what never
//! changes.

use crate::agent::domain::{
    ContentView, FunctionCallResponseView, FunctionCallView, FunctionResponseView,
    GenerateContentBodyView, PartView, Role,
};
use crate::agent::run::{
    counted, finish, is_success, model_turn, pending, scan, state, step, user_turn, ActionView,
    AgentView, EventView, NoticeView, PhaseView,
};
use crate::agent::tools::{invocation, response_to, told};
use crate::agent::wire::{request_json, text_reply};
use crate::text::trimmed;
use crate::tools::ToolFault;
use vstd::prelude::*;

verus! {

/// The state after the tools have run one after the other and each result was
/// handed to the agent, in this order.
pub open spec fn after_results(s: AgentView, results: Seq<Result<Seq<char>, ToolFault>>) -> AgentView
    decreases results.len(),
{
    if results.len() == 0 {
        s
    } else {
        after_results(step(s, EventView::ToolResult(results[0])).0, results.drop_first())
    }
}

/// The calls among the parts from the part `i` on, in their order.
pub open spec fn calls_from(parts: Seq<PartView>, i: int) -> Seq<FunctionCallView>
    decreases parts.len() - i,
{
    if i < 0 || i >= parts.len() {
        Seq::empty()
    } else {
        match parts[i] {
            PartView::FunctionCall(call) => seq![call] + calls_from(parts, i + 1),
            _ => calls_from(parts, i + 1),
        }
    }
}

/// How many of the calls from the part `i` on have arguments that pass the
/// check: so many tools are run.
pub open spec fn dispatched_from(parts: Seq<PartView>, i: int) -> nat
    decreases parts.len() - i,
{
    if i < 0 || i >= parts.len() {
        0
    } else {
        match parts[i] {
            PartView::FunctionCall(call) => if invocation(call) is Ok {
                1 + dispatched_from(parts, i + 1)
            } else {
                dispatched_from(parts, i + 1)
            },
            _ => dispatched_from(parts, i + 1),
        }
    }
}

/// The responses to the calls from the part `i` on, in the order of the
/// calls: to a call whose arguments are refused the refusal, to any other the
/// next of the results.
pub open spec fn responses_from(
    parts: Seq<PartView>,
    i: int,
    results: Seq<Result<Seq<char>, ToolFault>>,
) -> Seq<PartView>
    decreases parts.len() - i,
{
    if i < 0 || i >= parts.len() {
        Seq::empty()
    } else {
        match parts[i] {
            PartView::FunctionCall(call) => match invocation(call) {
                Err(e) => seq![
                    PartView::FunctionResponse(
                        response_to(call, FunctionCallResponseView::Error(e.message_of())),
                    ),
                ] + responses_from(parts, i + 1, results),
                Ok(_) => if results.len() == 0 {
                    Seq::empty()
                } else {
                    seq![PartView::FunctionResponse(response_to(call, told(results[0])))]
                        + responses_from(parts, i + 1, results.drop_first())
                },
            },
            _ => responses_from(parts, i + 1, results),
        }
    }
}

/// The history once a model's turn is over: the turn has joined it, and behind
/// the turn, where there are any, the responses as one turn of the user.
pub open spec fn history_after(
    contents: Seq<ContentView>,
    turn: ContentView,
    responses: Seq<PartView>,
) -> Seq<ContentView> {
    if responses.len() == 0 {
        contents.push(turn)
    } else {
        contents.push(turn).push(ContentView { parts: responses, role: Some(Role::User) })
    }
}

/// The phase once a model's turn is over: the next request is due where calls
/// were answered, else the user is asked.
pub open spec fn phase_after(responses: Seq<PartView>) -> PhaseView {
    if responses.len() == 0 {
        PhaseView::AwaitingUserInput
    } else {
        PhaseView::AwaitingModelReply
    }
}

/// A round of tool calls, from any point of the walk through the model's turn.
///
/// Given one result for each call that is dispatched, the round ends with the
/// model's turn in the history and, behind it, one turn of the user that holds
/// the responses gathered before together with those to the calls that were
/// still to come.
pub proof fn lemma_round_from(
    body: GenerateContentBodyView,
    total: usize,
    turn: ContentView,
    i: int,
    responses: Seq<PartView>,
    notices: Seq<NoticeView>,
    results: Seq<Result<Seq<char>, ToolFault>>,
)
    requires
        0 <= i <= turn.parts.len(),
        results.len() == dispatched_from(turn.parts, i),
    ensures
        after_results(scan(body, total, turn, i, responses, notices).0, results) == state(
            body,
            history_after(
                body.contents,
                turn,
                responses + responses_from(turn.parts, i, results),
            ),
            total,
            phase_after(responses + responses_from(turn.parts, i, results)),
        ),
    decreases turn.parts.len() - i,
{
    if i < turn.parts.len() {
        match turn.parts[i] {
            PartView::Text(t) => {
                lemma_round_from(
                    body,
                    total,
                    turn,
                    i + 1,
                    responses,
                    notices.push(NoticeView::ModelText(trimmed(t))),
                    results,
                );
            },
            PartView::FunctionResponse(_) => {
                lemma_round_from(body, total, turn, i + 1, responses, notices, results);
            },
            PartView::FunctionCall(call) => {
                match invocation(call) {
                    Err(e) => {
                        let refusal = PartView::FunctionResponse(
                            response_to(call, FunctionCallResponseView::Error(e.message_of())),
                        );
                        lemma_round_from(
                            body,
                            total,
                            turn,
                            i + 1,
                            responses.push(refusal),
                            notices.push(NoticeView::ToolCall(call.name)),
                            results,
                        );
                        assert(responses.push(refusal) + responses_from(turn.parts, i + 1, results)
                            =~= responses + responses_from(turn.parts, i, results));
                    },
                    Ok(action) => {
                        let answer = PartView::FunctionResponse(
                            response_to(call, told(results[0])),
                        );
                        let waiting = scan(body, total, turn, i, responses, notices).0;
                        assert(step(waiting, EventView::ToolResult(results[0])) == scan(
                            body,
                            total,
                            turn,
                            i + 1,
                            responses.push(answer),
                            Seq::empty(),
                        ));
                        lemma_round_from(
                            body,
                            total,
                            turn,
                            i + 1,
                            responses.push(answer),
                            Seq::empty(),
                            results.drop_first(),
                        );
                        assert(responses.push(answer) + responses_from(
                            turn.parts,
                            i + 1,
                            results.drop_first(),
                        ) =~= responses + responses_from(turn.parts, i, results));
                    },
                }
            },
        }
    }
}

/// Every call of a model's turn gets exactly one response, in the order of the
/// calls: the response carries the `id` and the name of its call and never says
/// that more will follow.
pub proof fn lemma_one_response_for_each_call(
    parts: Seq<PartView>,
    i: int,
    results: Seq<Result<Seq<char>, ToolFault>>,
)
    requires
        0 <= i <= parts.len(),
        results.len() == dispatched_from(parts, i),
    ensures
        responses_from(parts, i, results).len() == calls_from(parts, i).len(),
        forall|k: int|
            0 <= k < calls_from(parts, i).len() ==> {
                &&& #[trigger] responses_from(parts, i, results)[k] is FunctionResponse
                &&& responses_from(parts, i, results)[k]->FunctionResponse_0.id == calls_from(
                    parts,
                    i,
                )[k].id
                &&& responses_from(parts, i, results)[k]->FunctionResponse_0.name == calls_from(
                    parts,
                    i,
                )[k].name
                &&& responses_from(parts, i, results)[k]->FunctionResponse_0.will_continue == Some(
                    false,
                )
            },
    decreases parts.len() - i,
{
    if i < parts.len() {
        match parts[i] {
            PartView::FunctionCall(call) => {
                if invocation(call) is Ok {
                    lemma_one_response_for_each_call(parts, i + 1, results.drop_first());
                } else {
                    lemma_one_response_for_each_call(parts, i + 1, results);
                }
            },
            _ => {
                lemma_one_response_for_each_call(parts, i + 1, results);
            },
        }
    }
}

/// The response to a call whose tool ran holds what the tool gave: its output
/// as it stands, or the message of its failure.
pub proof fn lemma_response_holds_the_result(
    parts: Seq<PartView>,
    i: int,
    results: Seq<Result<Seq<char>, ToolFault>>,
)
    requires
        0 <= i < parts.len(),
        parts[i] is FunctionCall,
        invocation(parts[i]->FunctionCall_0) is Ok,
        results.len() == dispatched_from(parts, i),
    ensures
        responses_from(parts, i, results)[0] == PartView::FunctionResponse(
            response_to(parts[i]->FunctionCall_0, told(results[0])),
        ),
{
}

/// A round of tool calls, from the model's reply to the next request.
///
/// A reply that can be read and holds a candidate makes the first candidate
/// the model's turn. Given one result for each call that is dispatched, the
/// turn joins the history and the responses to all of its calls follow it as
/// one turn of the user; the agent then waits for the next request to be sent
/// where the turn held a call, and for the user where it held none. Between
/// the reply and that request the user is not asked.
pub proof fn lemma_round(
    s: AgentView,
    status: u16,
    body: Seq<char>,
    results: Seq<Result<Seq<char>, ToolFault>>,
)
    requires
        s.phase is AwaitingModelReply,
        is_success(status),
        text_reply(body) is Ok,
        text_reply(body)->Ok_0.candidates.len() > 0,
        results.len() == dispatched_from(text_reply(body)->Ok_0.candidates[0].content.parts, 0),
    ensures
        ({
            let reply = text_reply(body)->Ok_0;
            let turn = model_turn(reply.candidates[0].content);
            let responses = responses_from(turn.parts, 0, results);
            let after = after_results(step(s, EventView::Reply { status, body }).0, results);
            &&& after.body.contents == history_after(s.body.contents, turn, responses)
            &&& after.body.system_instruction == s.body.system_instruction
            &&& after.body.tools == s.body.tools
            &&& after.total_token_count == counted(
                s.total_token_count,
                reply.usage_metadata.total_token_count,
            )
            &&& responses.len() == calls_from(turn.parts, 0).len()
            &&& after.phase == phase_after(responses)
            &&& calls_from(turn.parts, 0).len() > 0 ==> pending(after) is Send
        }),
{
    let reply = text_reply(body)->Ok_0;
    let turn = model_turn(reply.candidates[0].content);
    let total = counted(s.total_token_count, reply.usage_metadata.total_token_count);
    lemma_round_from(s.body, total, turn, 0, Seq::empty(), Seq::empty(), results);
    lemma_one_response_for_each_call(turn.parts, 0, results);
    assert(Seq::<PartView>::empty() + responses_from(turn.parts, 0, results) =~= responses_from(
        turn.parts,
        0,
        results,
    ));
}

/// While the tools of a round run, the agent waits for a tool and for nothing
/// else: as long as results are still to come, the user is not asked and no
/// request is sent.
pub proof fn lemma_round_runs_tools_only(
    body: GenerateContentBodyView,
    total: usize,
    turn: ContentView,
    i: int,
    responses: Seq<PartView>,
    notices: Seq<NoticeView>,
)
    requires
        0 <= i <= turn.parts.len(),
    ensures
        dispatched_from(turn.parts, i) > 0 <==> scan(body, total, turn, i, responses, notices).0.phase
            is DispatchingTools,
    decreases turn.parts.len() - i,
{
    if i < turn.parts.len() {
        match turn.parts[i] {
            PartView::Text(t) => {
                lemma_round_runs_tools_only(
                    body,
                    total,
                    turn,
                    i + 1,
                    responses,
                    notices.push(NoticeView::ModelText(trimmed(t))),
                );
            },
            PartView::FunctionResponse(_) => {
                lemma_round_runs_tools_only(body, total, turn, i + 1, responses, notices);
            },
            PartView::FunctionCall(call) => {
                match invocation(call) {
                    Err(e) => {
                        lemma_round_runs_tools_only(
                            body,
                            total,
                            turn,
                            i + 1,
                            responses.push(
                                PartView::FunctionResponse(
                                    response_to(
                                        call,
                                        FunctionCallResponseView::Error(e.message_of()),
                                    ),
                                ),
                            ),
                            notices.push(NoticeView::ToolCall(call.name)),
                        );
                    },
                    Ok(_) => {},
                }
            },
        }
    }
}

/// A model's turn with exactly one call makes the agent run at most that one
/// tool, and then wait for the next request to be sent: the user is not asked
/// in between. The request's last turn holds exactly one response, which
/// carries the `id` of the call.
pub proof fn lemma_one_call_one_response(
    s: AgentView,
    status: u16,
    body: Seq<char>,
    results: Seq<Result<Seq<char>, ToolFault>>,
)
    requires
        s.phase is AwaitingModelReply,
        is_success(status),
        text_reply(body) is Ok,
        text_reply(body)->Ok_0.candidates.len() > 0,
        calls_from(text_reply(body)->Ok_0.candidates[0].content.parts, 0).len() == 1,
        results.len() == dispatched_from(text_reply(body)->Ok_0.candidates[0].content.parts, 0),
    ensures
        ({
            let parts = text_reply(body)->Ok_0.candidates[0].content.parts;
            let call = calls_from(parts, 0)[0];
            let replied = step(s, EventView::Reply { status, body }).0;
            let after = after_results(replied, results);
            &&& results.len() <= 1
            &&& results.len() == 1 <==> replied.phase is DispatchingTools
            &&& results.len() == 1 ==> pending(replied) == ActionView::Dispatch(
                invocation(call)->Ok_0,
            )
            &&& after.phase is AwaitingModelReply
            &&& pending(after) == ActionView::Send(request_json(after.body).printed())
            &&& after.body.contents.len() == s.body.contents.len() + 2
            &&& after.body.contents.last().role == Some(Role::User)
            &&& after.body.contents.last().parts.len() == 1
            &&& after.body.contents.last().parts[0] is FunctionResponse
            &&& after.body.contents.last().parts[0]->FunctionResponse_0.id == call.id
            &&& after.body.contents.last().parts[0]->FunctionResponse_0.name == call.name
        }),
{
    let reply = text_reply(body)->Ok_0;
    let turn = model_turn(reply.candidates[0].content);
    let total = counted(s.total_token_count, reply.usage_metadata.total_token_count);
    lemma_round(s, status, body, results);
    lemma_one_response_for_each_call(turn.parts, 0, results);
    lemma_dispatched_calls(turn.parts, 0);
    lemma_round_runs_tools_only(s.body, total, turn, 0, Seq::empty(), Seq::empty());
    if results.len() == 1 {
        lemma_first_dispatch(s.body, total, turn, 0, Seq::empty(), Seq::empty());
    }
}

/// No more tools are run than the turn holds calls.
pub proof fn lemma_dispatched_calls(parts: Seq<PartView>, i: int)
    requires
        0 <= i <= parts.len(),
    ensures
        dispatched_from(parts, i) <= calls_from(parts, i).len(),
    decreases parts.len() - i,
{
    if i < parts.len() {
        lemma_dispatched_calls(parts, i + 1);
    }
}

/// The first call of a turn whose arguments pass the check, from the part `i`
/// on.
pub open spec fn first_dispatched(parts: Seq<PartView>, i: int) -> FunctionCallView
    decreases parts.len() - i,
{
    if i < 0 || i >= parts.len() {
        arbitrary()
    } else {
        match parts[i] {
            PartView::FunctionCall(call) => if invocation(call) is Ok {
                call
            } else {
                first_dispatched(parts, i + 1)
            },
            _ => first_dispatched(parts, i + 1),
        }
    }
}

/// Where a tool is run, it is the one that the first call with admitted
/// arguments asks for.
pub proof fn lemma_first_dispatch(
    body: GenerateContentBodyView,
    total: usize,
    turn: ContentView,
    i: int,
    responses: Seq<PartView>,
    notices: Seq<NoticeView>,
)
    requires
        0 <= i <= turn.parts.len(),
        dispatched_from(turn.parts, i) > 0,
    ensures
        pending(scan(body, total, turn, i, responses, notices).0) == ActionView::Dispatch(
            invocation(first_dispatched(turn.parts, i))->Ok_0,
        ),
        calls_from(turn.parts, i).len() == 1 ==> first_dispatched(turn.parts, i) == calls_from(
            turn.parts,
            i,
        )[0],
    decreases turn.parts.len() - i,
{
    if i < turn.parts.len() {
        match turn.parts[i] {
            PartView::Text(t) => {
                lemma_first_dispatch(
                    body,
                    total,
                    turn,
                    i + 1,
                    responses,
                    notices.push(NoticeView::ModelText(trimmed(t))),
                );
            },
            PartView::FunctionResponse(_) => {
                lemma_first_dispatch(body, total, turn, i + 1, responses, notices);
            },
            PartView::FunctionCall(call) => {
                match invocation(call) {
                    Err(e) => {
                        lemma_first_dispatch(
                            body,
                            total,
                            turn,
                            i + 1,
                            responses.push(
                                PartView::FunctionResponse(
                                    response_to(
                                        call,
                                        FunctionCallResponseView::Error(e.message_of()),
                                    ),
                                ),
                            ),
                            notices.push(NoticeView::ToolCall(call.name)),
                        );
                        lemma_dispatched_calls(turn.parts, i + 1);
                    },
                    Ok(_) => {},
                }
            },
        }
    }
}

/// Whether a line, taken without the white space around it, is one of the
/// commands.
pub open spec fn is_command(line: Seq<char>) -> bool {
    let input = trimmed(line);
    input == "/bye"@ || input == "/quit"@ || input == "/exit"@ || input == "/new"@ || input
        == "/clear"@
}

/// Whether a line says something to the model: it is no command, and something
/// is left of it without the white space around it.
pub open spec fn is_message(line: Seq<char>) -> bool {
    !is_command(line) && trimmed(line).len() > 0
}

/// A line that says something to the model joins the history as a turn of the
/// user, and the request that is then due carries the whole history.
pub proof fn lemma_message_is_sent(s: AgentView, line: Seq<char>)
    requires
        s.phase is AwaitingUserInput,
        is_message(line),
    ensures
        ({
            let after = step(s, EventView::Line(line)).0;
            &&& after.body.contents == s.body.contents.push(user_turn(trimmed(line)))
            &&& after.body.system_instruction == s.body.system_instruction
            &&& after.body.tools == s.body.tools
            &&& after.total_token_count == s.total_token_count
            &&& pending(after) == ActionView::Send(request_json(after.body).printed())
        }),
{
}

/// A new session forgets what came before: after `/new`, the request that the
/// next line of the user leads to carries that line as its only turn, and the
/// count of tokens starts again at zero.
pub proof fn lemma_new_session(s: AgentView, reset: Seq<char>, line: Seq<char>)
    requires
        s.phase is AwaitingUserInput,
        trimmed(reset) == "/new"@,
        is_message(line),
    ensures
        ({
            let cleared = step(s, EventView::Line(reset)).0;
            let after = step(cleared, EventView::Line(line)).0;
            &&& cleared.body.contents == Seq::<ContentView>::empty()
            &&& cleared.total_token_count == 0
            &&& cleared.phase is AwaitingUserInput
            &&& after.body.contents == seq![user_turn(trimmed(line))]
            &&& after.body.system_instruction == s.body.system_instruction
            &&& after.body.tools == s.body.tools
            &&& after.total_token_count == 0
            &&& pending(after) == ActionView::Send(
                request_json(
                    GenerateContentBodyView {
                        contents: seq![user_turn(trimmed(line))],
                        system_instruction: s.body.system_instruction,
                        tools: s.body.tools,
                    },
                ).printed(),
            )
        }),
{
    reveal_strlit("/new");
    reveal_strlit("/bye");
    reveal_strlit("/quit");
    reveal_strlit("/exit");
    reveal_strlit("/clear");
    assert("/new"@[1] != "/bye"@[1]);
    let cleared = step(s, EventView::Line(reset)).0;
    let after = step(cleared, EventView::Line(line)).0;
    assert(after.body == GenerateContentBodyView {
        contents: seq![user_turn(trimmed(line))],
        system_instruction: s.body.system_instruction,
        tools: s.body.tools,
    });
}

/// Whether one history begins with another.
pub open spec fn extends(longer: Seq<ContentView>, shorter: Seq<ContentView>) -> bool {
    shorter.len() <= longer.len() && longer.take(shorter.len() as int) == shorter
}

/// The walk through a model's turn leaves the history as it is or adds to its
/// end, and leaves the system instruction, the tools and the count of tokens
/// as they are.
pub proof fn lemma_scan_appends(
    body: GenerateContentBodyView,
    total: usize,
    turn: ContentView,
    i: int,
    responses: Seq<PartView>,
    notices: Seq<NoticeView>,
)
    ensures
        extends(scan(body, total, turn, i, responses, notices).0.body.contents, body.contents),
        scan(body, total, turn, i, responses, notices).0.body.system_instruction
            == body.system_instruction,
        scan(body, total, turn, i, responses, notices).0.body.tools == body.tools,
        scan(body, total, turn, i, responses, notices).0.total_token_count == total,
    decreases turn.parts.len() - i,
{
    if i < 0 || i >= turn.parts.len() {
        let grown = finish(body, total, turn, responses, notices).0.body.contents;
        assert(grown.take(body.contents.len() as int) =~= body.contents);
    } else {
        match turn.parts[i] {
            PartView::Text(t) => {
                lemma_scan_appends(
                    body,
                    total,
                    turn,
                    i + 1,
                    responses,
                    notices.push(NoticeView::ModelText(trimmed(t))),
                );
            },
            PartView::FunctionResponse(_) => {
                lemma_scan_appends(body, total, turn, i + 1, responses, notices);
            },
            PartView::FunctionCall(call) => {
                match invocation(call) {
                    Err(e) => {
                        lemma_scan_appends(
                            body,
                            total,
                            turn,
                            i + 1,
                            responses.push(
                                PartView::FunctionResponse(
                                    response_to(
                                        call,
                                        FunctionCallResponseView::Error(e.message_of()),
                                    ),
                                ),
                            ),
                            notices.push(NoticeView::ToolCall(call.name)),
                        );
                    },
                    Ok(_) => {
                        assert(body.contents.take(body.contents.len() as int) =~= body.contents);
                    },
                }
            },
        }
    }
}

/// The history only grows at its end: whatever the event, the history after a
/// step begins with the history before it. The one exception is the command
/// `/new`, which empties it. No step changes the system instruction or the
/// tools.
pub proof fn lemma_history_is_append_only(s: AgentView, e: EventView)
    ensures
        step(s, e).0.body.system_instruction == s.body.system_instruction,
        step(s, e).0.body.tools == s.body.tools,
        extends(step(s, e).0.body.contents, s.body.contents) || (s.phase is AwaitingUserInput && e
            is Line && trimmed(e->Line_0) == "/new"@ && step(s, e).0.body.contents
            == Seq::<ContentView>::empty()),
{
    assert(s.body.contents.take(s.body.contents.len() as int) =~= s.body.contents);
    match (s.phase, e) {
        (PhaseView::AwaitingUserInput, EventView::Line(line)) => {
            let grown = s.body.contents.push(user_turn(trimmed(line)));
            assert(grown.take(s.body.contents.len() as int) =~= s.body.contents);
        },
        (PhaseView::AwaitingModelReply, EventView::Reply { status, body }) => {
            if is_success(status) && text_reply(body) is Ok {
                let reply = text_reply(body)->Ok_0;
                if reply.candidates.len() > 0 {
                    lemma_scan_appends(
                        s.body,
                        counted(s.total_token_count, reply.usage_metadata.total_token_count),
                        model_turn(reply.candidates[0].content),
                        0,
                        Seq::empty(),
                        Seq::empty(),
                    );
                }
            }
        },
        (PhaseView::DispatchingTools(round), EventView::ToolResult(result)) => {
            lemma_scan_appends(
                s.body,
                s.total_token_count,
                round.turn,
                round.next,
                round.responses.push(
                    PartView::FunctionResponse(
                        FunctionResponseView {
                            id: round.id,
                            name: round.name,
                            response: told(result),
                            will_continue: Some(false),
                        },
                    ),
                ),
                Seq::empty(),
            );
        },
        _ => {},
    }
}

/// A request that fails on the way, or a reply that cannot be read, costs
/// nothing of the conversation: the history stays as it is, with the turn of
/// the user that led to the request, and the user is asked.
pub proof fn lemma_failures_keep_the_history(s: AgentView, e: EventView)
    requires
        s.phase is AwaitingModelReply,
        e is TransportFailure || (e matches EventView::Reply { status, body } && is_success(status)
            && text_reply(body) is Err),
    ensures
        step(s, e).0.body == s.body,
        step(s, e).0.total_token_count == s.total_token_count,
        step(s, e).0.phase is AwaitingUserInput,
{
}

/// A status that is no success ends the agent; nothing that comes after is
/// taken.
pub proof fn lemma_failed_status_ends_the_agent(s: AgentView, status: u16, body: Seq<char>, e: EventView)
    requires
        s.phase is AwaitingModelReply,
        !is_success(status),
    ensures
        step(s, EventView::Reply { status, body }).0.phase == PhaseView::Failed(status),
        step(step(s, EventView::Reply { status, body }).0, e).0 == step(
            s,
            EventView::Reply { status, body },
        ).0,
{
}

} // verus!
