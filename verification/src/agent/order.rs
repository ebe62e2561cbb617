//! What holds of every state that the agent can reach: the turns of the history
//! stand in order, and every call of the model has its response.

use crate::agent::domain::{
    ContentView, FunctionCallResponseView, FunctionCallView, FunctionResponseView,
    GenerateContentBodyView, PartView, Role, ToolView,
};
use crate::agent::rounds::calls_from;
use crate::agent::run::{
    counted, initial, is_success, model_turn, scan, state, step, user_turn, AgentView,
    EventView, NoticeView, PhaseView, RoundView,
};
use crate::agent::tools::{
    invocation, response_to, told, ToolInvocationView, ToolValidationError,
};
use crate::agent::wire::text_reply;
use crate::text::trimmed;
use vstd::prelude::*;

verus! {

/// Whether a part answers a call: it is a response that carries the `id` and
/// the name of the call and does not say that more will follow.
pub open spec fn answer_to(call: FunctionCallView, part: PartView) -> bool {
    &&& part is FunctionResponse
    &&& part->FunctionResponse_0.id == call.id
    &&& part->FunctionResponse_0.name == call.name
    &&& part->FunctionResponse_0.will_continue == Some(false)
}

/// Whether the responses answer the calls one for one, in the order of the
/// calls.
pub open spec fn answered(calls: Seq<FunctionCallView>, responses: Seq<PartView>) -> bool {
    &&& responses.len() == calls.len()
    &&& forall|k: int| 0 <= k < calls.len() ==> answer_to(calls[k], #[trigger] responses[k])
}

/// The calls among the parts of a turn, in their order.
pub open spec fn calls_of(parts: Seq<PartView>) -> Seq<FunctionCallView> {
    calls_from(parts, 0)
}

/// Whether the turn `i` of a history stands in order. Every turn has a role. A
/// turn of the model follows a turn of the user; where it holds calls, the next
/// turn is one of the user that answers them, one response for each call.
pub open spec fn turn_in_order(contents: Seq<ContentView>, i: int) -> bool {
    match contents[i].role {
        None => false,
        Some(Role::User) => true,
        Some(Role::Model) => {
            &&& i > 0
            &&& contents[i - 1].role == Some(Role::User)
            &&& calls_of(contents[i].parts).len() > 0 ==> {
                &&& i + 1 < contents.len()
                &&& contents[i + 1].role == Some(Role::User)
                &&& answered(calls_of(contents[i].parts), contents[i + 1].parts)
            }
        },
    }
}

/// Whether every turn of a history stands in order.
pub open spec fn history_in_order(contents: Seq<ContentView>) -> bool {
    forall|i: int| 0 <= i < contents.len() ==> #[trigger] turn_in_order(contents, i)
}

/// Whether a round stands in order: its turn is one of the model, the running
/// call is the part before `next` and is the one that the round names, and the
/// responses gathered so far answer the calls before the running one.
pub open spec fn round_in_order(round: RoundView) -> bool {
    &&& round.turn.role == Some(Role::Model)
    &&& 0 < round.next <= round.turn.parts.len()
    &&& round.turn.parts[round.next - 1] is FunctionCall
    &&& round.turn.parts[round.next - 1]->FunctionCall_0.id == round.id
    &&& round.turn.parts[round.next - 1]->FunctionCall_0.name == round.name
    &&& invocation(round.turn.parts[round.next - 1]->FunctionCall_0) == Ok::<
        ToolInvocationView,
        ToolValidationError,
    >(round.invocation)
    &&& answered(calls_of(round.turn.parts.take(round.next - 1)), round.responses)
}

/// Whether the last turn of a history is one of the user.
pub open spec fn user_spoke_last(contents: Seq<ContentView>) -> bool {
    contents.len() > 0 && contents.last().role == Some(Role::User)
}

/// What holds of every state that the agent can reach. The history stands in
/// order. While a reply is awaited or tools run, the last turn of the history
/// is one of the user; while tools run, the round stands in order.
pub open spec fn well_formed(s: AgentView) -> bool {
    &&& history_in_order(s.body.contents)
    &&& match s.phase {
        PhaseView::AwaitingModelReply => user_spoke_last(s.body.contents),
        PhaseView::DispatchingTools(round) => user_spoke_last(s.body.contents) && round_in_order(
            round,
        ),
        _ => true,
    }
}

/// The calls among parts with one more part at their end.
pub proof fn lemma_calls_push(parts: Seq<PartView>, last: PartView, i: int)
    requires
        0 <= i <= parts.len(),
    ensures
        calls_from(parts.push(last), i) == match last {
            PartView::FunctionCall(call) => calls_from(parts, i).push(call),
            _ => calls_from(parts, i),
        },
    decreases parts.len() - i,
{
    if i < parts.len() {
        lemma_calls_push(parts, last, i + 1);
        match last {
            PartView::FunctionCall(call) => {
                match parts[i] {
                    PartView::FunctionCall(c) => {
                        assert(seq![c] + calls_from(parts, i + 1).push(call) =~= (seq![c]
                            + calls_from(parts, i + 1)).push(call));
                    },
                    _ => {},
                }
            },
            _ => {},
        }
    } else {
        assert(calls_from(parts.push(last), i + 1) =~= Seq::empty());
        match last {
            PartView::FunctionCall(call) => {
                assert(seq![call] + Seq::<FunctionCallView>::empty() =~= Seq::<
                    FunctionCallView,
                >::empty().push(call));
            },
            _ => {},
        }
    }
}

/// The calls among the first parts of a turn, one part more.
pub proof fn lemma_calls_take(parts: Seq<PartView>, n: int)
    requires
        0 <= n < parts.len(),
    ensures
        calls_of(parts.take(n + 1)) == match parts[n] {
            PartView::FunctionCall(call) => calls_of(parts.take(n)).push(call),
            _ => calls_of(parts.take(n)),
        },
{
    assert(parts.take(n + 1) =~= parts.take(n).push(parts[n]));
    lemma_calls_push(parts.take(n), parts[n], 0);
}

/// A history in order stays in order when a turn of the user joins it, as long
/// as its last turn is not one of the model that waits for responses.
pub proof fn lemma_user_turn_keeps_order(contents: Seq<ContentView>, turn: ContentView)
    requires
        history_in_order(contents),
        turn.role == Some(Role::User),
        contents.len() > 0 && contents.last().role == Some(Role::Model) ==> calls_of(
            contents.last().parts,
        ).len() == 0,
    ensures
        history_in_order(contents.push(turn)),
{
    let longer = contents.push(turn);
    assert forall|i: int| 0 <= i < longer.len() implies #[trigger] turn_in_order(longer, i) by {
        if i < contents.len() {
            assert(turn_in_order(contents, i));
        }
    }
}

/// A history in order whose last turn is one of the user stays in order when
/// a turn of the model joins it together with the responses to all of its
/// calls.
pub proof fn lemma_model_turn_keeps_order(
    contents: Seq<ContentView>,
    turn: ContentView,
    responses: Seq<PartView>,
)
    requires
        history_in_order(contents),
        user_spoke_last(contents),
        turn.role == Some(Role::Model),
        answered(calls_of(turn.parts), responses),
    ensures
        responses.len() == 0 ==> history_in_order(contents.push(turn)),
        responses.len() > 0 ==> history_in_order(
            contents.push(turn).push(ContentView { parts: responses, role: Some(Role::User) }),
        ),
{
    let with_turn = contents.push(turn);
    let answers = ContentView { parts: responses, role: Some(Role::User) };
    let with_answers = with_turn.push(answers);
    if responses.len() == 0 {
        assert forall|i: int| 0 <= i < with_turn.len() implies #[trigger] turn_in_order(
            with_turn,
            i,
        ) by {
            if i < contents.len() {
                assert(turn_in_order(contents, i));
            }
        }
    } else {
        assert forall|i: int| 0 <= i < with_answers.len() implies #[trigger] turn_in_order(
            with_answers,
            i,
        ) by {
            if i < contents.len() {
                assert(turn_in_order(contents, i));
            }
        }
    }
}

/// The walk through a model's turn ends in a state that is well formed, given
/// that the history was in order with a turn of the user at its end and that
/// the responses gathered so far answer the calls before the part `i`.
pub proof fn lemma_scan_keeps_order(
    body: GenerateContentBodyView,
    total: usize,
    turn: ContentView,
    i: int,
    responses: Seq<PartView>,
    notices: Seq<NoticeView>,
)
    requires
        history_in_order(body.contents),
        user_spoke_last(body.contents),
        turn.role == Some(Role::Model),
        0 <= i <= turn.parts.len(),
        answered(calls_of(turn.parts.take(i)), responses),
    ensures
        well_formed(scan(body, total, turn, i, responses, notices).0),
    decreases turn.parts.len() - i,
{
    if i >= turn.parts.len() {
        assert(turn.parts.take(i) =~= turn.parts);
        lemma_model_turn_keeps_order(body.contents, turn, responses);
    } else {
        lemma_calls_take(turn.parts, i);
        match turn.parts[i] {
            PartView::Text(t) => {
                lemma_scan_keeps_order(
                    body,
                    total,
                    turn,
                    i + 1,
                    responses,
                    notices.push(NoticeView::ModelText(trimmed(t))),
                );
            },
            PartView::FunctionResponse(_) => {
                lemma_scan_keeps_order(body, total, turn, i + 1, responses, notices);
            },
            PartView::FunctionCall(call) => {
                match invocation(call) {
                    Err(e) => {
                        let refusal = PartView::FunctionResponse(
                            response_to(call, FunctionCallResponseView::Error(e.message_of())),
                        );
                        lemma_scan_keeps_order(
                            body,
                            total,
                            turn,
                            i + 1,
                            responses.push(refusal),
                            notices.push(NoticeView::ToolCall(call.name)),
                        );
                    },
                    Ok(_) => {},
                }
            },
        }
    }
}

/// The state at the start of a session is well formed.
pub proof fn lemma_initial_is_well_formed(system_prompt: Seq<char>, tools: Seq<ToolView>)
    ensures
        well_formed(initial(system_prompt, tools)),
{
}

/// Every step leads from a well-formed state to a well-formed state, whatever
/// the event: what holds at the start of a session holds ever after.
pub proof fn lemma_step_keeps_well_formed(s: AgentView, e: EventView)
    requires
        well_formed(s),
    ensures
        well_formed(step(s, e).0),
{
    match (s.phase, e) {
        (PhaseView::AwaitingUserInput, EventView::Line(line)) => {
            let input = trimmed(line);
            let turn = user_turn(input);
            if s.body.contents.len() > 0 && s.body.contents.last().role == Some(Role::Model) {
                let last = s.body.contents.len() - 1;
                assert(turn_in_order(s.body.contents, last));
            }
            lemma_user_turn_keeps_order(s.body.contents, turn);
        },
        (PhaseView::AwaitingModelReply, EventView::Reply { status, body }) => {
            if is_success(status) && text_reply(body) is Ok {
                let reply = text_reply(body)->Ok_0;
                if reply.candidates.len() > 0 {
                    let turn = model_turn(reply.candidates[0].content);
                    lemma_scan_keeps_order(
                        s.body,
                        counted(s.total_token_count, reply.usage_metadata.total_token_count),
                        turn,
                        0,
                        Seq::empty(),
                        Seq::empty(),
                    );
                }
            }
        },
        (PhaseView::DispatchingTools(round), EventView::ToolResult(result)) => {
            let answer = PartView::FunctionResponse(
                FunctionResponseView {
                    id: round.id,
                    name: round.name,
                    response: told(result),
                    will_continue: Some(false),
                },
            );
            lemma_calls_take(round.turn.parts, round.next - 1);
            lemma_scan_keeps_order(
                s.body,
                s.total_token_count,
                round.turn,
                round.next,
                round.responses.push(answer),
                Seq::empty(),
            );
        },
        _ => {},
    }
}

} // verus!
