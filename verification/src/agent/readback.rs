//! What is written on the wire is read back as it was.

use crate::agent::domain::{
    ContentView, FunctionCallResponseView, FunctionCallView, FunctionDeclarationName,
    FunctionResponseView, PartView, Role,
};
use crate::agent::wire::{
    call_json, content_json, json_call, json_content, json_function_response, json_name,
    json_outcome, json_part, json_parts, json_role, optional_text_json, outcome_json, part_json,
    parts_json, response_json, Fault,
};
use crate::json::{lookup, JsonValue};
use vstd::prelude::*;

verus! {

/// The member that was added last is found first.
pub proof fn lemma_lookup_push(
    members: Seq<(Seq<char>, JsonValue)>,
    key: Seq<char>,
    value: JsonValue,
    wanted: Seq<char>,
)
    ensures
        lookup(members.push((key, value)), wanted) == if key == wanted {
            Some(value)
        } else {
            lookup(members, wanted)
        },
{
    assert(members.push((key, value)).drop_last() =~= members);
}

/// The keys and names of the wire format differ from each other.
pub proof fn lemma_wire_names_differ()
    ensures
        "id"@ != "name"@,
        "id"@ != "args"@,
        "name"@ != "args"@,
        "id"@ != "response"@,
        "id"@ != "willContinue"@,
        "name"@ != "response"@,
        "name"@ != "willContinue"@,
        "response"@ != "willContinue"@,
        "parts"@ != "role"@,
        "output"@ != "error"@,
        "text"@ != "functionCall"@,
        "text"@ != "functionResponse"@,
        "functionCall"@ != "functionResponse"@,
        "user"@ != "model"@,
        "read_file"@ != "list_files"@,
        "read_file"@ != "edit_file"@,
        "read_file"@ != "run_cmd"@,
        "list_files"@ != "edit_file"@,
        "list_files"@ != "run_cmd"@,
        "edit_file"@ != "run_cmd"@,
{
    reveal_strlit("id");
    reveal_strlit("name");
    reveal_strlit("args");
    reveal_strlit("response");
    reveal_strlit("willContinue");
    reveal_strlit("parts");
    reveal_strlit("role");
    reveal_strlit("output");
    reveal_strlit("error");
    reveal_strlit("text");
    reveal_strlit("functionCall");
    reveal_strlit("functionResponse");
    reveal_strlit("user");
    reveal_strlit("model");
    reveal_strlit("read_file");
    reveal_strlit("list_files");
    reveal_strlit("edit_file");
    reveal_strlit("run_cmd");
    assert("id"@.len() == 2);
    assert("response"@.len() == 8);
    assert("parts"@.len() == 5);
    assert("output"@.len() == 6);
    assert("text"@.len() == 4);
    assert("functionCall"@.len() == 12);
    assert("user"@.len() == 4);
    assert("read_file"@.len() == 9);
    assert("list_files"@.len() == 10);
    assert("name"@[0] != "args"@[0]);
    assert("read_file"@[0] != "edit_file"@[0]);
}

/// The name of a tool is read back as the tool.
pub proof fn lemma_name_reads_back(name: FunctionDeclarationName)
    ensures
        json_name(JsonValue::Text(name.wire_name())) == Ok::<FunctionDeclarationName, Fault>(name),
{
    lemma_wire_names_differ();
}

/// The name of a role is read back as the role.
pub proof fn lemma_role_reads_back(role: Role)
    ensures
        json_role(JsonValue::Text(role.wire_name())) == Ok::<Role, Fault>(role),
{
    lemma_wire_names_differ();
}

/// A call that is written is read back as it was. The one exception is a call
/// whose arguments are `null`: it is read back as a call without arguments.
pub proof fn lemma_call_reads_back(c: FunctionCallView)
    requires
        c.args != Some(JsonValue::Null),
    ensures
        json_call(call_json(c)) == Ok::<FunctionCallView, Fault>(c),
{
    lemma_wire_names_differ();
    lemma_name_reads_back(c.name);
    let id = ("id"@, optional_text_json(c.id));
    let name = ("name"@, JsonValue::Text(c.name.wire_name()));
    let args = (
        "args"@,
        match c.args {
            Some(a) => a,
            None => JsonValue::Null,
        },
    );
    let none = Seq::<(Seq<char>, JsonValue)>::empty();
    lemma_lookup_push(none, id.0, id.1, "id"@);
    lemma_lookup_push(none.push(id), name.0, name.1, "id"@);
    lemma_lookup_push(none.push(id).push(name), args.0, args.1, "id"@);
    lemma_lookup_push(none.push(id), name.0, name.1, "name"@);
    lemma_lookup_push(none.push(id).push(name), args.0, args.1, "name"@);
    lemma_lookup_push(none.push(id).push(name), args.0, args.1, "args"@);
    assert(call_json(c)->Object_0 =~= none.push(id).push(name).push(args));
}

/// What a tool handed back is read back as it was written.
pub proof fn lemma_outcome_reads_back(r: FunctionCallResponseView)
    ensures
        json_outcome(outcome_json(r)) == Ok::<FunctionCallResponseView, Fault>(r),
{
    lemma_wire_names_differ();
}

/// A response that is written is read back as it was.
pub proof fn lemma_response_reads_back(r: FunctionResponseView)
    ensures
        json_function_response(response_json(r)) == Ok::<FunctionResponseView, Fault>(r),
{
    lemma_wire_names_differ();
    lemma_name_reads_back(r.name);
    lemma_outcome_reads_back(r.response);
    let name = ("name"@, JsonValue::Text(r.name.wire_name()));
    let response = ("response"@, outcome_json(r.response));
    let flag = (
        "willContinue"@,
        match r.will_continue {
            Some(b) => JsonValue::Bool(b),
            None => JsonValue::Null,
        },
    );
    let none = Seq::<(Seq<char>, JsonValue)>::empty();
    match r.id {
        Some(text) => {
            let id = ("id"@, JsonValue::Text(text));
            let first = none.push(id);
            assert(response_json(r)->Object_0 =~= first.push(name).push(response).push(flag));
            lemma_lookup_push(none, id.0, id.1, "id"@);
            lemma_lookup_push(first, name.0, name.1, "id"@);
            lemma_lookup_push(first.push(name), response.0, response.1, "id"@);
            lemma_lookup_push(first.push(name).push(response), flag.0, flag.1, "id"@);
            lemma_lookup_push(first, name.0, name.1, "name"@);
            lemma_lookup_push(first.push(name), response.0, response.1, "name"@);
            lemma_lookup_push(first.push(name).push(response), flag.0, flag.1, "name"@);
            lemma_lookup_push(first.push(name), response.0, response.1, "response"@);
            lemma_lookup_push(first.push(name).push(response), flag.0, flag.1, "response"@);
            lemma_lookup_push(first.push(name).push(response), flag.0, flag.1, "willContinue"@);
        },
        None => {
            assert(response_json(r)->Object_0 =~= none.push(name).push(response).push(flag));
            lemma_lookup_push(none, name.0, name.1, "id"@);
            lemma_lookup_push(none.push(name), response.0, response.1, "id"@);
            lemma_lookup_push(none.push(name).push(response), flag.0, flag.1, "id"@);
            lemma_lookup_push(none, name.0, name.1, "name"@);
            lemma_lookup_push(none.push(name), response.0, response.1, "name"@);
            lemma_lookup_push(none.push(name).push(response), flag.0, flag.1, "name"@);
            lemma_lookup_push(none.push(name), response.0, response.1, "response"@);
            lemma_lookup_push(none.push(name).push(response), flag.0, flag.1, "response"@);
            lemma_lookup_push(none.push(name).push(response), flag.0, flag.1, "willContinue"@);
        },
    }
}

/// Whether a part is read back as it is written: every part is, but for a call
/// whose arguments are `null`.
pub open spec fn reads_back(p: PartView) -> bool {
    p is FunctionCall ==> p->FunctionCall_0.args != Some(JsonValue::Null)
}

/// A part that is written is read back as it was.
pub proof fn lemma_part_reads_back(p: PartView)
    requires
        reads_back(p),
    ensures
        json_part(part_json(p)) == Ok::<PartView, Fault>(p),
{
    lemma_wire_names_differ();
    match p {
        PartView::Text(_) => {},
        PartView::FunctionCall(c) => {
            lemma_call_reads_back(c);
        },
        PartView::FunctionResponse(r) => {
            lemma_response_reads_back(r);
        },
    }
}

/// Parts that are written are read back as they were, in their order.
pub proof fn lemma_parts_read_back(parts: Seq<PartView>)
    requires
        forall|i: int| 0 <= i < parts.len() ==> reads_back(#[trigger] parts[i]),
    ensures
        json_parts(parts_json(parts)) == Ok::<Seq<PartView>, Fault>(parts),
    decreases parts.len(),
{
    let items = parts_json(parts)->Array_0;
    if parts.len() == 0 {
        assert(parts =~= Seq::empty());
    } else {
        let first = parts.drop_last();
        lemma_parts_read_back(first);
        assert(items.drop_last() =~= parts_json(first)->Array_0);
        lemma_part_reads_back(parts.last());
        assert(first.push(parts.last()) =~= parts);
    }
}

/// A turn that is written is read back as it was.
pub proof fn lemma_turn_reads_back(c: ContentView)
    requires
        forall|i: int| 0 <= i < c.parts.len() ==> reads_back(#[trigger] c.parts[i]),
    ensures
        json_content(content_json(c)) == Ok::<ContentView, Fault>(c),
{
    lemma_wire_names_differ();
    lemma_parts_read_back(c.parts);
    let parts = ("parts"@, parts_json(c.parts));
    let role = (
        "role"@,
        match c.role {
            Some(r) => JsonValue::Text(r.wire_name()),
            None => JsonValue::Null,
        },
    );
    let none = Seq::<(Seq<char>, JsonValue)>::empty();
    assert(content_json(c)->Object_0 =~= none.push(parts).push(role));
    lemma_lookup_push(none, parts.0, parts.1, "parts"@);
    lemma_lookup_push(none.push(parts), role.0, role.1, "parts"@);
    lemma_lookup_push(none.push(parts), role.0, role.1, "role"@);
    if c.role is Some {
        lemma_role_reads_back(c.role->0);
    }
}

} // verus!
