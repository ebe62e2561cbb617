use agent1::agent::domain::{
    Candidate, Content, FunctionCall, FunctionCallResponse, FunctionDeclaration,
    FunctionDeclarationName, FunctionResponse, GenerateContentBody, GenerateContentResponse, Part,
    Role, SystemInstruction, Tool, UsageMetadata,
};
use agent1::agent::wire::{
    decode, decode_content, decode_part, decode_reply, encode_body, encode_content, encode_part,
    encode_request, DecodeError,
};
use agent1::json::{parse, Json};

fn string(s: &str) -> Json {
    Json::Text(s.to_string())
}

fn record(members: Vec<(&str, Json)>) -> Json {
    Json::Object(members.into_iter().map(|(k, v)| (k.to_string(), v)).collect())
}

fn usage() -> &'static str {
    "\"usageMetadata\": {\"promptTokenCount\": 10, \"candidatesTokenCount\": 5, \"totalTokenCount\": 15}"
}

#[test]
fn names_go_over_the_wire_in_snake_case() {
    assert_eq!(FunctionDeclarationName::ReadFile.as_str(), "read_file");
    assert_eq!(FunctionDeclarationName::ListFiles.as_str(), "list_files");
    assert_eq!(FunctionDeclarationName::EditFile.as_str(), "edit_file");
    assert_eq!(FunctionDeclarationName::RunCmd.as_str(), "run_cmd");
    assert_eq!(Role::User.as_str(), "user");
    assert_eq!(Role::Model.as_str(), "model");
}

#[test]
fn reply_with_a_text_is_read() {
    let body = format!(
        "{{\"candidates\": [{{\"content\": {{\"parts\": [{{\"text\": \"Hello!\"}}], \"role\": \"model\"}}, \"finishReason\": \"STOP\"}}], {}, \"modelVersion\": \"gemini-2.0-flash\"}}",
        usage()
    );
    assert_eq!(
        decode(&body),
        Ok(GenerateContentResponse {
            candidates: vec![Candidate {
                content: Content {
                    parts: vec![Part::Text("Hello!".to_string())],
                    role: Some(Role::Model),
                },
                finish_reason: "STOP".to_string(),
            }],
            usage_metadata: UsageMetadata {
                prompt_token_count: 10,
                candidates_token_count: 5,
                total_token_count: 15,
            },
        })
    );
}

#[test]
fn reply_with_a_call_is_read() {
    let body = format!(
        "{{\"candidates\": [{{\"content\": {{\"parts\": [{{\"functionCall\": {{\"id\": \"call-1\", \"name\": \"edit_file\", \"args\": {{\"path\": \"a.txt\", \"old_str\": \"\", \"new_str\": \"hello\"}}}}}}]}}, \"finishReason\": \"STOP\"}}], {}}}",
        usage()
    );
    let reply = decode(&body).unwrap();
    assert_eq!(
        reply.candidates[0].content,
        Content {
            parts: vec![Part::FunctionCall(FunctionCall {
                id: Some("call-1".to_string()),
                name: FunctionDeclarationName::EditFile,
                args: Some(record(vec![
                    ("new_str", string("hello")),
                    ("old_str", string("")),
                    ("path", string("a.txt")),
                ])),
            })],
            role: None,
        }
    );
}

#[test]
fn reply_without_candidates_is_read_as_empty() {
    let body = format!("{{\"candidates\": [], {}}}", usage());
    let reply = decode(&body).unwrap();
    assert!(reply.candidates.is_empty());
    assert_eq!(reply.usage_metadata.total_token_count, 15);
}

#[test]
fn reply_that_lacks_a_field_is_an_error() {
    let error = decode(&format!("{{{}}}", usage())).unwrap_err();
    assert_eq!(error, DecodeError::MissingField("candidates".to_string()));
    assert_eq!(error.message(), "missing field `candidates`");

    assert_eq!(
        decode("{\"candidates\": []}"),
        Err(DecodeError::MissingField("usageMetadata".to_string()))
    );
    assert_eq!(
        decode("{\"candidates\": [], \"usageMetadata\": {\"promptTokenCount\": 1, \"candidatesTokenCount\": 2}}"),
        Err(DecodeError::MissingField("totalTokenCount".to_string()))
    );
    let body = format!(
        "{{\"candidates\": [{{\"content\": {{\"parts\": []}}}}], {}}}",
        usage()
    );
    assert_eq!(
        decode(&body),
        Err(DecodeError::MissingField("finishReason".to_string()))
    );
    let body = format!(
        "{{\"candidates\": [{{\"content\": {{\"role\": \"model\"}}, \"finishReason\": \"STOP\"}}], {}}}",
        usage()
    );
    assert_eq!(decode(&body), Err(DecodeError::MissingField("parts".to_string())));
    let body = format!(
        "{{\"candidates\": [{{\"content\": {{\"parts\": [{{\"functionCall\": {{\"args\": {{}}}}}}]}}, \"finishReason\": \"STOP\"}}], {}}}",
        usage()
    );
    assert_eq!(decode(&body), Err(DecodeError::MissingField("name".to_string())));
}

#[test]
fn reply_with_an_unknown_tag_is_an_error() {
    let body = format!(
        "{{\"candidates\": [{{\"content\": {{\"parts\": [{{\"inlineData\": {{}}}}]}}, \"finishReason\": \"STOP\"}}], {}}}",
        usage()
    );
    let error = decode(&body).unwrap_err();
    assert_eq!(error, DecodeError::UnknownVariant("inlineData".to_string()));
    assert_eq!(error.message(), "unknown variant `inlineData`");

    let body = format!(
        "{{\"candidates\": [{{\"content\": {{\"parts\": [], \"role\": \"system\"}}, \"finishReason\": \"STOP\"}}], {}}}",
        usage()
    );
    assert_eq!(decode(&body), Err(DecodeError::UnknownVariant("system".to_string())));

    let body = format!(
        "{{\"candidates\": [{{\"content\": {{\"parts\": [{{\"functionCall\": {{\"name\": \"delete_file\"}}}}]}}, \"finishReason\": \"STOP\"}}], {}}}",
        usage()
    );
    assert_eq!(
        decode(&body),
        Err(DecodeError::UnknownVariant("delete_file".to_string()))
    );
}

#[test]
fn reply_of_the_wrong_shape_is_an_error() {
    for body in [
        "[]",
        "null",
        "{\"candidates\": {}, \"usageMetadata\": {}}",
        "{\"candidates\": null, \"usageMetadata\": {}}",
        "{\"candidates\": [], \"usageMetadata\": {\"promptTokenCount\": 1, \"candidatesTokenCount\": 2, \"totalTokenCount\": -3}}",
        "{\"candidates\": [], \"usageMetadata\": {\"promptTokenCount\": 1, \"candidatesTokenCount\": 2, \"totalTokenCount\": 3.0}}",
        "{\"candidates\": [], \"usageMetadata\": {\"promptTokenCount\": 1, \"candidatesTokenCount\": 2, \"totalTokenCount\": \"3\"}}",
        "{\"candidates\": [], \"usageMetadata\": {\"promptTokenCount\": 1, \"candidatesTokenCount\": 2, \"totalTokenCount\": 18446744073709551616}}",
    ] {
        let error = decode(body).unwrap_err();
        assert_eq!(error, DecodeError::InvalidType, "{body}");
        assert_eq!(error.message(), "invalid type");
    }
}

#[test]
fn reply_that_is_no_json_is_an_error() {
    match decode("<html>502 Bad Gateway</html>") {
        Err(DecodeError::Syntax(message)) => {
            assert_eq!(message, "expected value at line 1 column 1");
        }
        other => panic!("{other:?}"),
    }
    let error = decode("").unwrap_err();
    assert_eq!(error.message(), "EOF while parsing a value at line 1 column 0");
}

#[test]
fn first_part_that_cannot_be_read_decides_the_error() {
    let parts = parse("{\"parts\": [{\"text\": \"ok\"}, {\"text\": 1}, {\"bogus\": 1}]}").unwrap();
    assert_eq!(decode_content(&parts), Err(DecodeError::InvalidType));
    let parts = parse("{\"parts\": [{\"text\": \"ok\"}, {\"bogus\": 1}, {\"text\": 1}]}").unwrap();
    assert_eq!(
        decode_content(&parts),
        Err(DecodeError::UnknownVariant("bogus".to_string()))
    );
}

#[test]
fn part_must_have_exactly_one_member() {
    let two = parse("{\"text\": \"a\", \"thought\": true}").unwrap();
    assert_eq!(decode_part(&two), Err(DecodeError::InvalidType));
    let none = parse("{}").unwrap();
    assert_eq!(decode_part(&none), Err(DecodeError::InvalidType));
    let one = parse("{\"text\": \"a\"}").unwrap();
    assert_eq!(decode_part(&one), Ok(Part::Text("a".to_string())));
}

#[test]
fn members_that_are_null_count_as_missing_where_they_may_be() {
    let call = parse("{\"functionCall\": {\"id\": null, \"name\": \"run_cmd\", \"args\": null}}").unwrap();
    assert_eq!(
        decode_part(&call),
        Ok(Part::FunctionCall(FunctionCall {
            id: None,
            name: FunctionDeclarationName::RunCmd,
            args: None,
        }))
    );
    let content = parse("{\"parts\": [], \"role\": null}").unwrap();
    assert_eq!(
        decode_content(&content),
        Ok(Content { parts: Vec::new(), role: None })
    );
    let reply = parse("{\"candidates\": [], \"usageMetadata\": null}").unwrap();
    assert_eq!(decode_reply(&reply), Err(DecodeError::InvalidType));
}

fn every_part() -> Vec<Part> {
    vec![
        Part::Text("some \"text\"\n".to_string()),
        Part::Text(String::new()),
        Part::FunctionCall(FunctionCall {
            id: Some("id-7".to_string()),
            name: FunctionDeclarationName::ReadFile,
            args: Some(record(vec![("path", string("src/main.rs"))])),
        }),
        Part::FunctionCall(FunctionCall {
            id: None,
            name: FunctionDeclarationName::ListFiles,
            args: None,
        }),
        Part::FunctionResponse(FunctionResponse {
            id: Some("id-7".to_string()),
            name: FunctionDeclarationName::ReadFile,
            response: FunctionCallResponse::Output("fn main() {}\n".to_string()),
            will_continue: Some(false),
        }),
        Part::FunctionResponse(FunctionResponse {
            id: None,
            name: FunctionDeclarationName::EditFile,
            response: FunctionCallResponse::Error("nothing changed in file".to_string()),
            will_continue: None,
        }),
    ]
}

#[test]
fn part_that_is_written_is_read_back() {
    for part in every_part() {
        let written = encode_part(&part);
        assert_eq!(decode_part(&written), Ok(part));
    }
}

#[test]
fn turn_that_is_written_is_read_back() {
    for role in [Some(Role::User), Some(Role::Model), None] {
        let written = encode_content(&Content { parts: every_part(), role });
        assert_eq!(decode_content(&written), Ok(Content { parts: every_part(), role }));
    }
}

#[test]
fn response_is_written_with_its_members() {
    let part = Part::FunctionResponse(FunctionResponse {
        id: Some("call-1".to_string()),
        name: FunctionDeclarationName::ListFiles,
        response: FunctionCallResponse::Output("src/main.rs, src/log.rs".to_string()),
        will_continue: Some(false),
    });
    assert_eq!(
        encode_part(&part),
        record(vec![(
            "functionResponse",
            record(vec![
                ("id", string("call-1")),
                ("name", string("list_files")),
                ("response", record(vec![("output", string("src/main.rs, src/log.rs"))])),
                ("willContinue", Json::Bool(false)),
            ])
        )])
    );
    let part = Part::FunctionResponse(FunctionResponse {
        id: None,
        name: FunctionDeclarationName::RunCmd,
        response: FunctionCallResponse::Error("command is empty".to_string()),
        will_continue: None,
    });
    assert_eq!(
        encode_part(&part),
        record(vec![(
            "functionResponse",
            record(vec![
                ("name", string("run_cmd")),
                ("response", record(vec![("error", string("command is empty"))])),
                ("willContinue", Json::Null),
            ])
        )])
    );
}

#[test]
fn request_is_written_with_history_instruction_and_tools() {
    let body = GenerateContentBody {
        contents: vec![Content {
            parts: vec![Part::Text("hi".to_string())],
            role: Some(Role::User),
        }],
        system_instruction: SystemInstruction {
            parts: vec![Part::Text("be brief".to_string())],
        },
        tools: vec![Tool::FunctionDeclarations(vec![FunctionDeclaration {
            name: FunctionDeclarationName::ReadFile,
            description: "Read a file.".to_string(),
            parameters: record(vec![("type", string("object"))]),
        }])],
    };
    assert_eq!(
        encode_body(&body),
        record(vec![
            (
                "contents",
                Json::Array(vec![record(vec![
                    ("parts", Json::Array(vec![record(vec![("text", string("hi"))])])),
                    ("role", string("user")),
                ])])
            ),
            (
                "system_instruction",
                record(vec![(
                    "parts",
                    Json::Array(vec![record(vec![("text", string("be brief"))])])
                )])
            ),
            (
                "tools",
                Json::Array(vec![record(vec![(
                    "functionDeclarations",
                    Json::Array(vec![record(vec![
                        ("name", string("read_file")),
                        ("description", string("Read a file.")),
                        ("parameters", record(vec![("type", string("object"))])),
                    ])])
                )])])
            ),
        ])
    );
    assert_eq!(
        encode_request(&body),
        "{\"contents\":[{\"parts\":[{\"text\":\"hi\"}],\"role\":\"user\"}],\"system_instruction\":{\"parts\":[{\"text\":\"be brief\"}]},\"tools\":[{\"functionDeclarations\":[{\"description\":\"Read a file.\",\"name\":\"read_file\",\"parameters\":{\"type\":\"object\"}}]}]}"
    );
}

#[test]
fn request_is_the_same_for_the_same_body() {
    let body = || GenerateContentBody {
        contents: vec![Content { parts: every_part(), role: Some(Role::Model) }],
        system_instruction: SystemInstruction { parts: Vec::new() },
        tools: Vec::new(),
    };
    assert_eq!(encode_request(&body()), encode_request(&body()));
}
