//! The wire format: how a request is written as a JSON document, and how the
//! model's reply is read from one.

use crate::agent::domain::{
    Candidate, CandidateView, Content, ContentView, FunctionCall, FunctionCallResponse,
    FunctionCallResponseView, FunctionCallView, FunctionDeclaration, FunctionDeclarationName,
    FunctionDeclarationView, FunctionResponse, FunctionResponseView, GenerateContentBody,
    GenerateContentBodyView, GenerateContentResponse, GenerateContentResponseView, Part, PartView,
    Role, Tool, ToolView, UsageMetadata,
};
use crate::json::{lookup, parse, parsed_json, to_text, Json, JsonValue};
use crate::model::views;
use crate::text::{decimal_value, parse_decimal, same};
use vstd::prelude::*;
use vstd::string::StringExecFns;

verus! {

impl Role {
    /// The name under which the role goes over the wire.
    pub open spec fn wire_name(self) -> Seq<char> {
        match self {
            Role::User => "user"@,
            Role::Model => "model"@,
        }
    }

    /// The name under which the role goes over the wire.
    pub fn as_str(&self) -> (name: &'static str)
        ensures
            name@ == self.wire_name(),
    {
        match self {
            Role::User => "user",
            Role::Model => "model",
        }
    }
}

/// An optional text on the wire: the text, or `null`.
pub open spec fn optional_text_json(s: Option<Seq<char>>) -> JsonValue {
    match s {
        Some(t) => JsonValue::Text(t),
        None => JsonValue::Null,
    }
}

/// A call on the wire.
pub open spec fn call_json(c: FunctionCallView) -> JsonValue {
    JsonValue::Object(
        seq![
            ("id"@, optional_text_json(c.id)),
            ("name"@, JsonValue::Text(c.name.wire_name())),
            (
                "args"@,
                match c.args {
                    Some(a) => a,
                    None => JsonValue::Null,
                },
            ),
        ],
    )
}

/// What a tool handed back, on the wire.
pub open spec fn outcome_json(r: FunctionCallResponseView) -> JsonValue {
    match r {
        FunctionCallResponseView::Output(t) => JsonValue::Object(
            seq![("output"@, JsonValue::Text(t))],
        ),
        FunctionCallResponseView::Error(t) => JsonValue::Object(
            seq![("error"@, JsonValue::Text(t))],
        ),
    }
}

/// A response on the wire. Without an `id` the member is left out.
pub open spec fn response_json(r: FunctionResponseView) -> JsonValue {
    let name = ("name"@, JsonValue::Text(r.name.wire_name()));
    let response = ("response"@, outcome_json(r.response));
    let flag = (
        "willContinue"@,
        match r.will_continue {
            Some(b) => JsonValue::Bool(b),
            None => JsonValue::Null,
        },
    );
    match r.id {
        Some(id) => JsonValue::Object(seq![("id"@, JsonValue::Text(id)), name, response, flag]),
        None => JsonValue::Object(seq![name, response, flag]),
    }
}

/// A part on the wire: an object with one member, whose key says what it is.
pub open spec fn part_json(p: PartView) -> JsonValue {
    match p {
        PartView::Text(t) => JsonValue::Object(seq![("text"@, JsonValue::Text(t))]),
        PartView::FunctionCall(c) => JsonValue::Object(seq![("functionCall"@, call_json(c))]),
        PartView::FunctionResponse(r) => JsonValue::Object(
            seq![("functionResponse"@, response_json(r))],
        ),
    }
}

/// Parts on the wire, in their order.
pub open spec fn parts_json(parts: Seq<PartView>) -> JsonValue {
    JsonValue::Array(Seq::new(parts.len(), |i: int| part_json(parts[i])))
}

/// A turn on the wire.
pub open spec fn content_json(c: ContentView) -> JsonValue {
    JsonValue::Object(
        seq![
            ("parts"@, parts_json(c.parts)),
            (
                "role"@,
                match c.role {
                    Some(r) => JsonValue::Text(r.wire_name()),
                    None => JsonValue::Null,
                },
            ),
        ],
    )
}

/// A tool declaration on the wire.
pub open spec fn declaration_json(d: FunctionDeclarationView) -> JsonValue {
    JsonValue::Object(
        seq![
            ("name"@, JsonValue::Text(d.name.wire_name())),
            ("description"@, JsonValue::Text(d.description)),
            ("parameters"@, d.parameters),
        ],
    )
}

/// A group of tool declarations on the wire.
pub open spec fn tool_json(t: ToolView) -> JsonValue {
    match t {
        ToolView::FunctionDeclarations(d) => JsonValue::Object(
            seq![
                (
                    "functionDeclarations"@,
                    JsonValue::Array(Seq::new(d.len(), |i: int| declaration_json(d[i]))),
                ),
            ],
        ),
    }
}

/// A request on the wire: the whole conversation, the system instruction and the
/// tools.
pub open spec fn request_json(b: GenerateContentBodyView) -> JsonValue {
    JsonValue::Object(
        seq![
            (
                "contents"@,
                JsonValue::Array(Seq::new(b.contents.len(), |i: int| content_json(b.contents[i]))),
            ),
            ("system_instruction"@, JsonValue::Object(seq![("parts"@, parts_json(b.system_instruction))])),
            ("tools"@, JsonValue::Array(Seq::new(b.tools.len(), |i: int| tool_json(b.tools[i])))),
        ],
    )
}

/// Writes a call as a JSON document.
pub fn encode_call(c: &FunctionCall) -> (j: Json)
    ensures
        j@ == call_json(c@),
{
    let args = match &c.args {
        Some(a) => a.clone(),
        None => Json::Null,
    };
    let members = vec![
        Json::entry("id", Json::optional_text(&c.id)),
        Json::entry("name", Json::text(c.name.as_str())),
        Json::entry("args", args),
    ];
    let j = Json::object(members);
    assert(j@->Object_0 =~= call_json(c@)->Object_0);
    j
}

/// Writes what a tool handed back as a JSON document.
pub fn encode_outcome(r: &FunctionCallResponse) -> (j: Json)
    ensures
        j@ == outcome_json(r@),
{
    let members = match r {
        FunctionCallResponse::Output(t) => vec![Json::entry("output", Json::text(t.as_str()))],
        FunctionCallResponse::Error(t) => vec![Json::entry("error", Json::text(t.as_str()))],
    };
    let j = Json::object(members);
    assert(j@->Object_0 =~= outcome_json(r@)->Object_0);
    j
}

/// Writes a response as a JSON document.
pub fn encode_response(r: &FunctionResponse) -> (j: Json)
    ensures
        j@ == response_json(r@),
{
    let mut members: Vec<(String, Json)> = Vec::new();
    match &r.id {
        Some(id) => {
            members.push(Json::entry("id", Json::text(id.as_str())));
        },
        None => {},
    }
    members.push(Json::entry("name", Json::text(r.name.as_str())));
    members.push(Json::entry("response", encode_outcome(&r.response)));
    let flag = match r.will_continue {
        Some(b) => Json::Bool(b),
        None => Json::Null,
    };
    members.push(Json::entry("willContinue", flag));
    let j = Json::object(members);
    assert(j@->Object_0 =~= response_json(r@)->Object_0);
    j
}

/// Writes a part as a JSON document.
pub fn encode_part(p: &Part) -> (j: Json)
    ensures
        j@ == part_json(p@),
{
    let members = match p {
        Part::Text(t) => vec![Json::entry("text", Json::text(t.as_str()))],
        Part::FunctionCall(c) => vec![Json::entry("functionCall", encode_call(c))],
        Part::FunctionResponse(r) => vec![Json::entry("functionResponse", encode_response(r))],
    };
    let j = Json::object(members);
    assert(j@->Object_0 =~= part_json(p@)->Object_0);
    j
}

/// Writes parts as a JSON array.
pub fn encode_parts(parts: &Vec<Part>) -> (j: Json)
    ensures
        j@ == parts_json(views(parts@)),
{
    let mut items: Vec<Json> = Vec::new();
    let mut i: usize = 0;
    while i < parts.len()
        invariant
            i <= parts.len(),
            items.len() == i,
            forall|k: int| 0 <= k < i ==> items@[k]@ == part_json(parts@[k]@),
        decreases parts.len() - i,
    {
        items.push(encode_part(&parts[i]));
        i += 1;
    }
    let j = Json::array(items);
    assert(j@->Array_0 =~= parts_json(views(parts@))->Array_0);
    j
}

/// Writes a turn as a JSON document.
pub fn encode_content(c: &Content) -> (j: Json)
    ensures
        j@ == content_json(c@),
{
    let role = match &c.role {
        Some(r) => Json::text(r.as_str()),
        None => Json::Null,
    };
    let members = vec![
        Json::entry("parts", encode_parts(&c.parts)),
        Json::entry("role", role),
    ];
    let j = Json::object(members);
    assert(j@->Object_0 =~= content_json(c@)->Object_0);
    j
}

/// Writes a tool declaration as a JSON document.
pub fn encode_declaration(d: &FunctionDeclaration) -> (j: Json)
    ensures
        j@ == declaration_json(d@),
{
    let members = vec![
        Json::entry("name", Json::text(d.name.as_str())),
        Json::entry("description", Json::text(d.description.as_str())),
        Json::entry("parameters", d.parameters.clone()),
    ];
    let j = Json::object(members);
    assert(j@->Object_0 =~= declaration_json(d@)->Object_0);
    j
}

/// Writes a group of tool declarations as a JSON document.
pub fn encode_tool(t: &Tool) -> (j: Json)
    ensures
        j@ == tool_json(t@),
{
    match t {
        Tool::FunctionDeclarations(declarations) => {
            let mut items: Vec<Json> = Vec::new();
            let mut i: usize = 0;
            while i < declarations.len()
                invariant
                    i <= declarations.len(),
                    items.len() == i,
                    forall|k: int|
                        0 <= k < i ==> items@[k]@ == declaration_json(declarations@[k]@),
                decreases declarations.len() - i,
            {
                items.push(encode_declaration(&declarations[i]));
                i += 1;
            }
            let list = Json::array(items);
            assert(list@->Array_0 =~= Seq::new(
                views(declarations@).len(),
                |i: int| declaration_json(views(declarations@)[i]),
            ));
            let members = vec![Json::entry("functionDeclarations", list)];
            let j = Json::object(members);
            assert(j@->Object_0 =~= tool_json(t@)->Object_0);
            j
        },
    }
}

/// Writes a request as a JSON document.
pub fn encode_body(b: &GenerateContentBody) -> (j: Json)
    ensures
        j@ == request_json(b@),
{
    let mut contents: Vec<Json> = Vec::new();
    let mut i: usize = 0;
    while i < b.contents.len()
        invariant
            i <= b.contents.len(),
            contents.len() == i,
            forall|k: int| 0 <= k < i ==> contents@[k]@ == content_json(b.contents@[k]@),
        decreases b.contents.len() - i,
    {
        contents.push(encode_content(&b.contents[i]));
        i += 1;
    }
    let contents = Json::array(contents);
    assert(contents@->Array_0 =~= Seq::new(b@.contents.len(), |i: int| content_json(b@.contents[i])));
    let mut tools: Vec<Json> = Vec::new();
    let mut i: usize = 0;
    while i < b.tools.len()
        invariant
            i <= b.tools.len(),
            tools.len() == i,
            forall|k: int| 0 <= k < i ==> tools@[k]@ == tool_json(b.tools@[k]@),
        decreases b.tools.len() - i,
    {
        tools.push(encode_tool(&b.tools[i]));
        i += 1;
    }
    let tools = Json::array(tools);
    assert(tools@->Array_0 =~= Seq::new(b@.tools.len(), |i: int| tool_json(b@.tools[i])));
    let instruction = Json::object(vec![Json::entry("parts", encode_parts(&b.system_instruction.parts))]);
    assert(instruction@->Object_0 =~= seq![("parts"@, parts_json(b@.system_instruction))]);
    let members = vec![
        Json::entry("contents", contents),
        Json::entry("system_instruction", instruction),
        Json::entry("tools", tools),
    ];
    let j = Json::object(members);
    assert(j@->Object_0 =~= request_json(b@)->Object_0);
    j
}

/// The text of a request: its JSON document as `serde_json` writes it.
pub fn encode_request(b: &GenerateContentBody) -> (text: String)
    ensures
        text@ == request_json(b@).printed(),
{
    let j = encode_body(b);
    to_text(&j)
}

/// Why a reply could not be read, as a mathematical value.
pub enum Fault {
    /// The text is not JSON.
    Syntax,
    /// An object lacks a member that must be there.
    MissingField(Seq<char>),
    /// A tag names none of the known variants.
    UnknownVariant(Seq<char>),
    /// A value has another type than its place asks for.
    InvalidType,
}

/// Why a reply could not be read.
#[derive(Debug, PartialEq, Eq)]
pub enum DecodeError {
    /// The text is not JSON; the message is the parser's.
    Syntax(String),
    /// An object lacks the named member, which must be there.
    MissingField(String),
    /// The tag names none of the known variants.
    UnknownVariant(String),
    /// A value has another type than its place asks for.
    InvalidType,
}

impl View for DecodeError {
    type V = Fault;

    open spec fn view(&self) -> Fault {
        match self {
            DecodeError::Syntax(_) => Fault::Syntax,
            DecodeError::MissingField(name) => Fault::MissingField(name@),
            DecodeError::UnknownVariant(tag) => Fault::UnknownVariant(tag@),
            DecodeError::InvalidType => Fault::InvalidType,
        }
    }
}

impl DecodeError {
    /// The message of the error, as a mathematical value; of a `Syntax` error,
    /// the parser's.
    pub open spec fn message_of(self) -> Seq<char> {
        match self {
            DecodeError::Syntax(m) => m@,
            DecodeError::MissingField(name) => "missing field `"@ + name@ + "`"@,
            DecodeError::UnknownVariant(tag) => "unknown variant `"@ + tag@ + "`"@,
            DecodeError::InvalidType => "invalid type"@,
        }
    }

    /// The message of the error.
    pub fn message(&self) -> (m: String)
        ensures
            m@ == self.message_of(),
    {
        match self {
            DecodeError::Syntax(m) => m.clone(),
            DecodeError::MissingField(name) => {
                let mut m = String::from_str("missing field `");
                m.append(name.as_str());
                m.append("`");
                m
            },
            DecodeError::UnknownVariant(tag) => {
                let mut m = String::from_str("unknown variant `");
                m.append(tag.as_str());
                m.append("`");
                m
            },
            DecodeError::InvalidType => String::from_str("invalid type"),
        }
    }
}

/// What reading gave, as a mathematical value.
pub open spec fn outcome<T: View>(r: Result<T, DecodeError>) -> Result<T::V, Fault> {
    match r {
        Ok(t) => Ok(t@),
        Err(e) => Err(e@),
    }
}

/// The member `key` of an object, which must be there.
pub open spec fn required(j: JsonValue, key: Seq<char>) -> Result<JsonValue, Fault> {
    match j {
        JsonValue::Object(members) => match lookup(members, key) {
            Some(v) => Ok(v),
            None => Err(Fault::MissingField(key)),
        },
        _ => Err(Fault::InvalidType),
    }
}

/// The member `key` of an object, which may be missing or `null`.
pub open spec fn optional(j: JsonValue, key: Seq<char>) -> Result<Option<JsonValue>, Fault> {
    match j {
        JsonValue::Object(members) => match lookup(members, key) {
            Some(JsonValue::Null) => Ok(None),
            Some(v) => Ok(Some(v)),
            None => Ok(None),
        },
        _ => Err(Fault::InvalidType),
    }
}

/// A text.
pub open spec fn json_text(j: JsonValue) -> Result<Seq<char>, Fault> {
    match j {
        JsonValue::Text(t) => Ok(t),
        _ => Err(Fault::InvalidType),
    }
}

/// A text that may be missing.
pub open spec fn json_optional_text(j: Option<JsonValue>) -> Result<Option<Seq<char>>, Fault> {
    match j {
        Some(JsonValue::Text(t)) => Ok(Some(t)),
        Some(_) => Err(Fault::InvalidType),
        None => Ok(None),
    }
}

/// A count: a number written in digits alone that fits the machine's word.
pub open spec fn json_count(j: JsonValue) -> Result<usize, Fault> {
    match j {
        JsonValue::Number(t) => match decimal_value(t) {
            Some(v) => if v <= usize::MAX {
                Ok(v as usize)
            } else {
                Err(Fault::InvalidType)
            },
            None => Err(Fault::InvalidType),
        },
        _ => Err(Fault::InvalidType),
    }
}

/// The one member of an object that has exactly one: a tag and what it tags.
pub open spec fn json_tagged(j: JsonValue) -> Result<(Seq<char>, JsonValue), Fault> {
    match j {
        JsonValue::Object(members) => if members.len() == 1 {
            Ok(members[0])
        } else {
            Err(Fault::InvalidType)
        },
        _ => Err(Fault::InvalidType),
    }
}

/// A role by its name.
pub open spec fn json_role(j: JsonValue) -> Result<Role, Fault> {
    match j {
        JsonValue::Text(t) => if t == "user"@ {
            Ok(Role::User)
        } else if t == "model"@ {
            Ok(Role::Model)
        } else {
            Err(Fault::UnknownVariant(t))
        },
        _ => Err(Fault::InvalidType),
    }
}

/// A tool by its name.
pub open spec fn json_name(j: JsonValue) -> Result<FunctionDeclarationName, Fault> {
    match j {
        JsonValue::Text(t) => if t == "read_file"@ {
            Ok(FunctionDeclarationName::ReadFile)
        } else if t == "list_files"@ {
            Ok(FunctionDeclarationName::ListFiles)
        } else if t == "edit_file"@ {
            Ok(FunctionDeclarationName::EditFile)
        } else if t == "run_cmd"@ {
            Ok(FunctionDeclarationName::RunCmd)
        } else {
            Err(Fault::UnknownVariant(t))
        },
        _ => Err(Fault::InvalidType),
    }
}

/// A call: `name` must be there; `id` and `args` may be missing or `null`.
pub open spec fn json_call(j: JsonValue) -> Result<FunctionCallView, Fault> {
    match optional(j, "id"@) {
        Err(e) => Err(e),
        Ok(id) => match json_optional_text(id) {
            Err(e) => Err(e),
            Ok(id) => match required(j, "name"@) {
                Err(e) => Err(e),
                Ok(name) => match json_name(name) {
                    Err(e) => Err(e),
                    Ok(name) => match optional(j, "args"@) {
                        Err(e) => Err(e),
                        Ok(args) => Ok(FunctionCallView { id, name, args }),
                    },
                },
            },
        },
    }
}

/// What a tool handed back: an object whose one member is tagged `output` or
/// `error` and holds a text.
pub open spec fn json_outcome(j: JsonValue) -> Result<FunctionCallResponseView, Fault> {
    match json_tagged(j) {
        Err(e) => Err(e),
        Ok((tag, value)) => if tag == "output"@ {
            match json_text(value) {
                Err(e) => Err(e),
                Ok(t) => Ok(FunctionCallResponseView::Output(t)),
            }
        } else if tag == "error"@ {
            match json_text(value) {
                Err(e) => Err(e),
                Ok(t) => Ok(FunctionCallResponseView::Error(t)),
            }
        } else {
            Err(Fault::UnknownVariant(tag))
        },
    }
}

/// A flag that may be missing.
pub open spec fn json_optional_flag(j: Option<JsonValue>) -> Result<Option<bool>, Fault> {
    match j {
        Some(JsonValue::Bool(b)) => Ok(Some(b)),
        Some(_) => Err(Fault::InvalidType),
        None => Ok(None),
    }
}

/// A response: `name` and `response` must be there; `id` and `willContinue` may
/// be missing or `null`.
pub open spec fn json_function_response(j: JsonValue) -> Result<FunctionResponseView, Fault> {
    match optional(j, "id"@) {
        Err(e) => Err(e),
        Ok(id) => match json_optional_text(id) {
            Err(e) => Err(e),
            Ok(id) => match required(j, "name"@) {
                Err(e) => Err(e),
                Ok(name) => match json_name(name) {
                    Err(e) => Err(e),
                    Ok(name) => match required(j, "response"@) {
                        Err(e) => Err(e),
                        Ok(response) => match json_outcome(response) {
                            Err(e) => Err(e),
                            Ok(response) => match optional(j, "willContinue"@) {
                                Err(e) => Err(e),
                                Ok(flag) => match json_optional_flag(flag) {
                                    Err(e) => Err(e),
                                    Ok(will_continue) => Ok(
                                        FunctionResponseView { id, name, response, will_continue },
                                    ),
                                },
                            },
                        },
                    },
                },
            },
        },
    }
}

/// A part: an object whose one member is tagged `text`, `functionCall` or
/// `functionResponse`.
pub open spec fn json_part(j: JsonValue) -> Result<PartView, Fault> {
    match json_tagged(j) {
        Err(e) => Err(e),
        Ok((tag, value)) => if tag == "text"@ {
            match json_text(value) {
                Err(e) => Err(e),
                Ok(t) => Ok(PartView::Text(t)),
            }
        } else if tag == "functionCall"@ {
            match json_call(value) {
                Err(e) => Err(e),
                Ok(c) => Ok(PartView::FunctionCall(c)),
            }
        } else if tag == "functionResponse"@ {
            match json_function_response(value) {
                Err(e) => Err(e),
                Ok(r) => Ok(PartView::FunctionResponse(r)),
            }
        } else {
            Err(Fault::UnknownVariant(tag))
        },
    }
}

/// The items of an array read one by one; the first that cannot be read decides
/// the error.
pub open spec fn json_each<T>(
    items: Seq<JsonValue>,
    read: spec_fn(JsonValue) -> Result<T, Fault>,
) -> Result<Seq<T>, Fault>
    decreases items.len(),
{
    if items.len() == 0 {
        Ok(Seq::empty())
    } else {
        match json_each(items.drop_last(), read) {
            Err(e) => Err(e),
            Ok(first) => match read(items.last()) {
                Err(e) => Err(e),
                Ok(last) => Ok(first.push(last)),
            },
        }
    }
}

/// Once an item cannot be read, the items after it change nothing.
pub proof fn lemma_json_each_fault<T>(
    items: Seq<JsonValue>,
    read: spec_fn(JsonValue) -> Result<T, Fault>,
    n: int,
)
    requires
        0 <= n <= items.len(),
        json_each(items.take(n), read) is Err,
    ensures
        json_each(items, read) == json_each(items.take(n), read),
    decreases items.len() - n,
{
    if n == items.len() {
        assert(items.take(n) =~= items);
    } else {
        assert(items.take(n + 1).drop_last() =~= items.take(n));
        lemma_json_each_fault(items, read, n + 1);
    }
}

/// How one part is read.
pub open spec fn part_reader() -> spec_fn(JsonValue) -> Result<PartView, Fault> {
    |item: JsonValue| json_part(item)
}

/// How one candidate is read.
pub open spec fn candidate_reader() -> spec_fn(JsonValue) -> Result<CandidateView, Fault> {
    |item: JsonValue| json_candidate(item)
}

/// An array of parts.
pub open spec fn json_parts(j: JsonValue) -> Result<Seq<PartView>, Fault> {
    match j {
        JsonValue::Array(items) => json_each(items, part_reader()),
        _ => Err(Fault::InvalidType),
    }
}

/// A turn: `parts` must be there; `role` may be missing or `null`.
pub open spec fn json_content(j: JsonValue) -> Result<ContentView, Fault> {
    match required(j, "parts"@) {
        Err(e) => Err(e),
        Ok(parts) => match json_parts(parts) {
            Err(e) => Err(e),
            Ok(parts) => match optional(j, "role"@) {
                Err(e) => Err(e),
                Ok(None) => Ok(ContentView { parts, role: None }),
                Ok(Some(role)) => match json_role(role) {
                    Err(e) => Err(e),
                    Ok(role) => Ok(ContentView { parts, role: Some(role) }),
                },
            },
        },
    }
}

/// A candidate: `content` and `finishReason` must be there.
pub open spec fn json_candidate(j: JsonValue) -> Result<CandidateView, Fault> {
    match required(j, "content"@) {
        Err(e) => Err(e),
        Ok(content) => match json_content(content) {
            Err(e) => Err(e),
            Ok(content) => match required(j, "finishReason"@) {
                Err(e) => Err(e),
                Ok(reason) => match json_text(reason) {
                    Err(e) => Err(e),
                    Ok(finish_reason) => Ok(CandidateView { content, finish_reason }),
                },
            },
        },
    }
}

/// The member `key` of an object, which must be there and hold a count.
pub open spec fn required_count(j: JsonValue, key: Seq<char>) -> Result<usize, Fault> {
    match required(j, key) {
        Err(e) => Err(e),
        Ok(v) => json_count(v),
    }
}

/// The usage of a reply: its three counts must be there.
pub open spec fn json_usage(j: JsonValue) -> Result<UsageMetadata, Fault> {
    match required_count(j, "promptTokenCount"@) {
        Err(e) => Err(e),
        Ok(prompt_token_count) => match required_count(j, "candidatesTokenCount"@) {
            Err(e) => Err(e),
            Ok(candidates_token_count) => match required_count(j, "totalTokenCount"@) {
                Err(e) => Err(e),
                Ok(total_token_count) => Ok(
                    UsageMetadata { prompt_token_count, candidates_token_count, total_token_count },
                ),
            },
        },
    }
}

/// An array of candidates.
pub open spec fn json_candidates(j: JsonValue) -> Result<Seq<CandidateView>, Fault> {
    match j {
        JsonValue::Array(items) => json_each(items, candidate_reader()),
        _ => Err(Fault::InvalidType),
    }
}

/// A reply: `candidates` and `usageMetadata` must be there. Members that are not
/// named here are passed over, in a reply and in all that it holds.
pub open spec fn json_reply(j: JsonValue) -> Result<GenerateContentResponseView, Fault> {
    match required(j, "candidates"@) {
        Err(e) => Err(e),
        Ok(candidates) => match json_candidates(candidates) {
            Err(e) => Err(e),
            Ok(candidates) => match required(j, "usageMetadata"@) {
                Err(e) => Err(e),
                Ok(usage) => match json_usage(usage) {
                    Err(e) => Err(e),
                    Ok(usage_metadata) => Ok(
                        GenerateContentResponseView { candidates, usage_metadata },
                    ),
                },
            },
        },
    }
}

/// What reading a reply from its text gives.
pub open spec fn text_reply(text: Seq<char>) -> Result<GenerateContentResponseView, Fault> {
    match parsed_json(text) {
        Some(j) => json_reply(j),
        None => Err(Fault::Syntax),
    }
}

fn get_required<'a>(j: &'a Json, key: &str) -> (r: Result<&'a Json, DecodeError>)
    ensures
        match r {
            Ok(v) => required(j@, key@) == Ok::<JsonValue, Fault>(v@),
            Err(e) => required(j@, key@) == Err::<JsonValue, Fault>(e@),
        },
{
    match j {
        Json::Object(_) => match j.member(key) {
            Some(v) => Ok(v),
            None => Err(DecodeError::MissingField(String::from_str(key))),
        },
        _ => Err(DecodeError::InvalidType),
    }
}

fn get_optional<'a>(j: &'a Json, key: &str) -> (r: Result<Option<&'a Json>, DecodeError>)
    ensures
        match r {
            Ok(Some(v)) => optional(j@, key@) == Ok::<Option<JsonValue>, Fault>(Some(v@)),
            Ok(None) => optional(j@, key@) == Ok::<Option<JsonValue>, Fault>(None),
            Err(e) => optional(j@, key@) == Err::<Option<JsonValue>, Fault>(e@),
        },
{
    match j {
        Json::Object(_) => match j.member(key) {
            Some(Json::Null) => Ok(None),
            Some(v) => Ok(Some(v)),
            None => Ok(None),
        },
        _ => Err(DecodeError::InvalidType),
    }
}

fn decode_text(j: &Json) -> (r: Result<String, DecodeError>)
    ensures
        outcome(r) == json_text(j@),
{
    match j {
        Json::Text(t) => Ok(t.clone()),
        _ => Err(DecodeError::InvalidType),
    }
}

fn decode_optional_text(j: Option<&Json>) -> (r: Result<Option<String>, DecodeError>)
    ensures
        match r {
            Ok(t) => json_optional_text(
                match j {
                    Some(v) => Some(v@),
                    None => None,
                },
            ) == Ok::<Option<Seq<char>>, Fault>(crate::model::text_view(t)),
            Err(e) => json_optional_text(
                match j {
                    Some(v) => Some(v@),
                    None => None,
                },
            ) == Err::<Option<Seq<char>>, Fault>(e@),
        },
{
    match j {
        Some(Json::Text(t)) => Ok(Some(t.clone())),
        Some(_) => Err(DecodeError::InvalidType),
        None => Ok(None),
    }
}

fn decode_count(j: &Json) -> (r: Result<usize, DecodeError>)
    ensures
        outcome(r) == json_count(j@),
{
    match j {
        Json::Number(t) => match parse_decimal(t.as_str()) {
            Some(v) => if v <= usize::MAX as u64 {
                Ok(v as usize)
            } else {
                Err(DecodeError::InvalidType)
            },
            None => Err(DecodeError::InvalidType),
        },
        _ => Err(DecodeError::InvalidType),
    }
}

fn decode_tagged<'a>(j: &'a Json) -> (r: Result<(&'a String, &'a Json), DecodeError>)
    ensures
        match r {
            Ok((tag, value)) => json_tagged(j@) == Ok::<(Seq<char>, JsonValue), Fault>(
                (tag@, value@),
            ),
            Err(e) => json_tagged(j@) == Err::<(Seq<char>, JsonValue), Fault>(e@),
        },
{
    match j {
        Json::Object(members) => if members.len() == 1 {
            Ok((&members[0].0, &members[0].1))
        } else {
            Err(DecodeError::InvalidType)
        },
        _ => Err(DecodeError::InvalidType),
    }
}

fn decode_role(j: &Json) -> (r: Result<Role, DecodeError>)
    ensures
        outcome(r) == json_role(j@),
{
    match j {
        Json::Text(t) => if same(t.as_str(), "user") {
            Ok(Role::User)
        } else if same(t.as_str(), "model") {
            Ok(Role::Model)
        } else {
            Err(DecodeError::UnknownVariant(t.clone()))
        },
        _ => Err(DecodeError::InvalidType),
    }
}

fn decode_name(j: &Json) -> (r: Result<FunctionDeclarationName, DecodeError>)
    ensures
        outcome(r) == json_name(j@),
{
    match j {
        Json::Text(t) => if same(t.as_str(), "read_file") {
            Ok(FunctionDeclarationName::ReadFile)
        } else if same(t.as_str(), "list_files") {
            Ok(FunctionDeclarationName::ListFiles)
        } else if same(t.as_str(), "edit_file") {
            Ok(FunctionDeclarationName::EditFile)
        } else if same(t.as_str(), "run_cmd") {
            Ok(FunctionDeclarationName::RunCmd)
        } else {
            Err(DecodeError::UnknownVariant(t.clone()))
        },
        _ => Err(DecodeError::InvalidType),
    }
}

/// Reads a call from a JSON document.
pub fn decode_call(j: &Json) -> (r: Result<FunctionCall, DecodeError>)
    ensures
        outcome(r) == json_call(j@),
{
    let id = match get_optional(j, "id") {
        Ok(v) => v,
        Err(e) => {
            return Err(e);
        },
    };
    let id = match decode_optional_text(id) {
        Ok(v) => v,
        Err(e) => {
            return Err(e);
        },
    };
    let name = match get_required(j, "name") {
        Ok(v) => v,
        Err(e) => {
            return Err(e);
        },
    };
    let name = match decode_name(name) {
        Ok(v) => v,
        Err(e) => {
            return Err(e);
        },
    };
    let args = match get_optional(j, "args") {
        Ok(Some(v)) => Some(v.clone()),
        Ok(None) => None,
        Err(e) => {
            return Err(e);
        },
    };
    Ok(FunctionCall { id, name, args })
}

/// Reads what a tool handed back from a JSON document.
pub fn decode_outcome(j: &Json) -> (r: Result<FunctionCallResponse, DecodeError>)
    ensures
        outcome(r) == json_outcome(j@),
{
    let (tag, value) = match decode_tagged(j) {
        Ok(v) => v,
        Err(e) => {
            return Err(e);
        },
    };
    if same(tag.as_str(), "output") {
        match decode_text(value) {
            Ok(t) => Ok(FunctionCallResponse::Output(t)),
            Err(e) => Err(e),
        }
    } else if same(tag.as_str(), "error") {
        match decode_text(value) {
            Ok(t) => Ok(FunctionCallResponse::Error(t)),
            Err(e) => Err(e),
        }
    } else {
        Err(DecodeError::UnknownVariant(tag.clone()))
    }
}

/// Reads a response from a JSON document.
pub fn decode_function_response(j: &Json) -> (r: Result<FunctionResponse, DecodeError>)
    ensures
        outcome(r) == json_function_response(j@),
{
    let id = match get_optional(j, "id") {
        Ok(v) => v,
        Err(e) => {
            return Err(e);
        },
    };
    let id = match decode_optional_text(id) {
        Ok(v) => v,
        Err(e) => {
            return Err(e);
        },
    };
    let name = match get_required(j, "name") {
        Ok(v) => v,
        Err(e) => {
            return Err(e);
        },
    };
    let name = match decode_name(name) {
        Ok(v) => v,
        Err(e) => {
            return Err(e);
        },
    };
    let response = match get_required(j, "response") {
        Ok(v) => v,
        Err(e) => {
            return Err(e);
        },
    };
    let response = match decode_outcome(response) {
        Ok(v) => v,
        Err(e) => {
            return Err(e);
        },
    };
    let will_continue = match get_optional(j, "willContinue") {
        Ok(Some(Json::Bool(b))) => Some(*b),
        Ok(Some(_)) => {
            return Err(DecodeError::InvalidType);
        },
        Ok(None) => None,
        Err(e) => {
            return Err(e);
        },
    };
    Ok(FunctionResponse { id, name, response, will_continue })
}

/// Reads a part from a JSON document.
pub fn decode_part(j: &Json) -> (r: Result<Part, DecodeError>)
    ensures
        outcome(r) == json_part(j@),
{
    let (tag, value) = match decode_tagged(j) {
        Ok(v) => v,
        Err(e) => {
            return Err(e);
        },
    };
    if same(tag.as_str(), "text") {
        match decode_text(value) {
            Ok(t) => Ok(Part::Text(t)),
            Err(e) => Err(e),
        }
    } else if same(tag.as_str(), "functionCall") {
        match decode_call(value) {
            Ok(c) => Ok(Part::FunctionCall(c)),
            Err(e) => Err(e),
        }
    } else if same(tag.as_str(), "functionResponse") {
        match decode_function_response(value) {
            Ok(r) => Ok(Part::FunctionResponse(r)),
            Err(e) => Err(e),
        }
    } else {
        Err(DecodeError::UnknownVariant(tag.clone()))
    }
}

/// Reads an array of parts from a JSON document.
pub fn decode_parts(j: &Json) -> (r: Result<Vec<Part>, DecodeError>)
    ensures
        match r {
            Ok(parts) => json_parts(j@) == Ok::<Seq<PartView>, Fault>(views(parts@)),
            Err(e) => json_parts(j@) == Err::<Seq<PartView>, Fault>(e@),
        },
{
    match j {
        Json::Array(items) => {
            let ghost all = j@->Array_0;
            let mut parts: Vec<Part> = Vec::new();
            let mut i: usize = 0;
            assert(views(parts@) =~= Seq::<PartView>::empty());
            while i < items.len()
                invariant
                    j@ == JsonValue::Array(all),
                    all.len() == items.len(),
                    forall|k: int| 0 <= k < all.len() ==> all[k] == items@[k]@,
                    i <= items.len(),
                    json_each(all.take(i as int), part_reader()) == Ok::<Seq<PartView>, Fault>(
                        views(parts@),
                    ),
                decreases items.len() - i,
            {
                proof {
                    assert(all.take(i + 1).drop_last() =~= all.take(i as int));
                }
                match decode_part(&items[i]) {
                    Ok(p) => {
                        proof {
                            crate::model::lemma_views_push(parts@, p);
                        }
                        parts.push(p);
                    },
                    Err(e) => {
                        proof {
                            lemma_json_each_fault(all, part_reader(), i + 1);
                        }
                        return Err(e);
                    },
                }
                i += 1;
            }
            assert(all.take(items.len() as int) =~= all);
            Ok(parts)
        },
        _ => Err(DecodeError::InvalidType),
    }
}

/// Reads a turn from a JSON document.
pub fn decode_content(j: &Json) -> (r: Result<Content, DecodeError>)
    ensures
        outcome(r) == json_content(j@),
{
    let parts = match get_required(j, "parts") {
        Ok(v) => v,
        Err(e) => {
            return Err(e);
        },
    };
    let parts = match decode_parts(parts) {
        Ok(v) => v,
        Err(e) => {
            return Err(e);
        },
    };
    let role = match get_optional(j, "role") {
        Ok(Some(v)) => match decode_role(v) {
            Ok(role) => Some(role),
            Err(e) => {
                return Err(e);
            },
        },
        Ok(None) => None,
        Err(e) => {
            return Err(e);
        },
    };
    Ok(Content { parts, role })
}

/// Reads a candidate from a JSON document.
pub fn decode_candidate(j: &Json) -> (r: Result<Candidate, DecodeError>)
    ensures
        outcome(r) == json_candidate(j@),
{
    let content = match get_required(j, "content") {
        Ok(v) => v,
        Err(e) => {
            return Err(e);
        },
    };
    let content = match decode_content(content) {
        Ok(v) => v,
        Err(e) => {
            return Err(e);
        },
    };
    let reason = match get_required(j, "finishReason") {
        Ok(v) => v,
        Err(e) => {
            return Err(e);
        },
    };
    let finish_reason = match decode_text(reason) {
        Ok(v) => v,
        Err(e) => {
            return Err(e);
        },
    };
    Ok(Candidate { content, finish_reason })
}

fn decode_required_count(j: &Json, key: &str) -> (r: Result<usize, DecodeError>)
    ensures
        outcome(r) == required_count(j@, key@),
{
    match get_required(j, key) {
        Ok(v) => decode_count(v),
        Err(e) => Err(e),
    }
}

/// Reads the usage of a reply from a JSON document.
pub fn decode_usage(j: &Json) -> (r: Result<UsageMetadata, DecodeError>)
    ensures
        outcome(r) == json_usage(j@),
{
    let prompt_token_count = match decode_required_count(j, "promptTokenCount") {
        Ok(v) => v,
        Err(e) => {
            return Err(e);
        },
    };
    let candidates_token_count = match decode_required_count(j, "candidatesTokenCount") {
        Ok(v) => v,
        Err(e) => {
            return Err(e);
        },
    };
    let total_token_count = match decode_required_count(j, "totalTokenCount") {
        Ok(v) => v,
        Err(e) => {
            return Err(e);
        },
    };
    Ok(UsageMetadata { prompt_token_count, candidates_token_count, total_token_count })
}

/// Reads an array of candidates from a JSON document.
pub fn decode_candidates(j: &Json) -> (r: Result<Vec<Candidate>, DecodeError>)
    ensures
        match r {
            Ok(candidates) => json_candidates(j@) == Ok::<Seq<CandidateView>, Fault>(
                views(candidates@),
            ),
            Err(e) => json_candidates(j@) == Err::<Seq<CandidateView>, Fault>(e@),
        },
{
    match j {
        Json::Array(items) => {
            let ghost all = j@->Array_0;
            let mut candidates: Vec<Candidate> = Vec::new();
            let mut i: usize = 0;
            assert(views(candidates@) =~= Seq::<CandidateView>::empty());
            while i < items.len()
                invariant
                    j@ == JsonValue::Array(all),
                    all.len() == items.len(),
                    forall|k: int| 0 <= k < all.len() ==> all[k] == items@[k]@,
                    i <= items.len(),
                    json_each(all.take(i as int), candidate_reader()) == Ok::<
                        Seq<CandidateView>,
                        Fault,
                    >(views(candidates@)),
                decreases items.len() - i,
            {
                proof {
                    assert(all.take(i + 1).drop_last() =~= all.take(i as int));
                }
                match decode_candidate(&items[i]) {
                    Ok(c) => {
                        proof {
                            crate::model::lemma_views_push(candidates@, c);
                        }
                        candidates.push(c);
                    },
                    Err(e) => {
                        proof {
                            lemma_json_each_fault(all, candidate_reader(), i + 1);
                        }
                        return Err(e);
                    },
                }
                i += 1;
            }
            assert(all.take(items.len() as int) =~= all);
            Ok(candidates)
        },
        _ => Err(DecodeError::InvalidType),
    }
}

/// Reads a reply from a JSON document.
pub fn decode_reply(j: &Json) -> (r: Result<GenerateContentResponse, DecodeError>)
    ensures
        outcome(r) == json_reply(j@),
{
    let candidates = match get_required(j, "candidates") {
        Ok(v) => v,
        Err(e) => {
            return Err(e);
        },
    };
    let candidates = match decode_candidates(candidates) {
        Ok(v) => v,
        Err(e) => {
            return Err(e);
        },
    };
    let usage = match get_required(j, "usageMetadata") {
        Ok(v) => v,
        Err(e) => {
            return Err(e);
        },
    };
    let usage_metadata = match decode_usage(usage) {
        Ok(v) => v,
        Err(e) => {
            return Err(e);
        },
    };
    Ok(GenerateContentResponse { candidates, usage_metadata })
}

/// Reads a reply from its text.
pub fn decode(text: &str) -> (r: Result<GenerateContentResponse, DecodeError>)
    ensures
        outcome(r) == text_reply(text@),
{
    match parse(text) {
        Ok(j) => decode_reply(&j),
        Err(message) => Err(DecodeError::Syntax(message)),
    }
}

} // verus!
