use agent1::agent::domain::{
    FunctionCall, FunctionCallResponse, FunctionDeclarationName, FunctionResponse, Tool,
};
use agent1::agent::tools::{
    get_tools, listing_output, refuse, respond, strip_schema, validate, ToolInvocation,
    ToolValidationError,
};
use agent1::json::{parse, Json};
use agent1::tools::ToolExecutionError;

fn call(name: FunctionDeclarationName, args: Option<&str>) -> FunctionCall {
    FunctionCall {
        id: Some("call-1".to_string()),
        name,
        args: args.map(|a| parse(a).expect("valid JSON")),
    }
}

#[test]
fn arguments_of_each_tool_are_checked() {
    assert_eq!(
        validate(&call(FunctionDeclarationName::ReadFile, Some("{\"path\": \"a.txt\"}"))),
        Ok(ToolInvocation::ReadFile { path: "a.txt".to_string() })
    );
    assert_eq!(
        validate(&call(FunctionDeclarationName::ListFiles, Some("{\"path\": \"src\"}"))),
        Ok(ToolInvocation::ListFiles { path: "src".to_string() })
    );
    assert_eq!(
        validate(&call(
            FunctionDeclarationName::EditFile,
            Some("{\"path\": \"a.txt\", \"old_str\": \"\", \"new_str\": \"hello\"}")
        )),
        Ok(ToolInvocation::EditFile {
            path: "a.txt".to_string(),
            old_str: String::new(),
            new_str: "hello".to_string(),
        })
    );
    assert_eq!(
        validate(&call(FunctionDeclarationName::RunCmd, Some("{\"cmd\": \"ls -la\"}"))),
        Ok(ToolInvocation::RunCmd { cmd: "ls -la".to_string() })
    );
}

#[test]
fn listing_defaults_to_the_current_directory() {
    for args in [None, Some("{}"), Some("{\"path\": \"\"}"), Some("{\"other\": 1}")] {
        assert_eq!(
            validate(&call(FunctionDeclarationName::ListFiles, args)),
            Ok(ToolInvocation::ListFiles { path: ".".to_string() }),
            "{args:?}"
        );
    }
}

#[test]
fn call_without_arguments_is_refused() {
    for name in [
        FunctionDeclarationName::ReadFile,
        FunctionDeclarationName::EditFile,
        FunctionDeclarationName::RunCmd,
    ] {
        let error = validate(&call(name, None)).unwrap_err();
        assert_eq!(error, ToolValidationError::EmptyArgs);
        assert_eq!(error.message(), "empty args provided");
    }
}

#[test]
fn arguments_of_the_wrong_shape_are_refused() {
    let cases = [
        (FunctionDeclarationName::ReadFile, "{}"),
        (FunctionDeclarationName::ReadFile, "{\"path\": 1}"),
        (FunctionDeclarationName::ReadFile, "{\"path\": null}"),
        (FunctionDeclarationName::ReadFile, "{\"Path\": \"a.txt\"}"),
        (FunctionDeclarationName::ReadFile, "\"a.txt\""),
        (FunctionDeclarationName::ReadFile, "[\"a.txt\"]"),
        (FunctionDeclarationName::ReadFile, "null"),
        (FunctionDeclarationName::ListFiles, "{\"path\": 1}"),
        (FunctionDeclarationName::ListFiles, "{\"path\": [\"src\"]}"),
        (FunctionDeclarationName::ListFiles, "\"src\""),
        (FunctionDeclarationName::ListFiles, "null"),
        (FunctionDeclarationName::EditFile, "{\"path\": \"a\", \"old_str\": \"b\"}"),
        (FunctionDeclarationName::EditFile, "{\"path\": \"a\", \"new_str\": \"b\"}"),
        (FunctionDeclarationName::EditFile, "{\"old_str\": \"a\", \"new_str\": \"b\"}"),
        (FunctionDeclarationName::EditFile, "{\"path\": \"a\", \"old_str\": 1, \"new_str\": \"b\"}"),
        (FunctionDeclarationName::RunCmd, "{\"command\": \"ls\"}"),
        (FunctionDeclarationName::RunCmd, "{\"cmd\": [\"ls\"]}"),
    ];
    for (name, args) in cases {
        let error = validate(&call(name, Some(args))).unwrap_err();
        assert_eq!(error, ToolValidationError::InvalidArgs, "{args}");
        assert_eq!(error.message(), "invalid arguments provided");
    }
}

#[test]
fn members_that_the_tool_does_not_know_are_passed_over() {
    assert_eq!(
        validate(&call(
            FunctionDeclarationName::RunCmd,
            Some("{\"cmd\": \"ls\", \"timeout\": 5}")
        )),
        Ok(ToolInvocation::RunCmd { cmd: "ls".to_string() })
    );
}

#[test]
fn response_carries_the_id_and_name_of_its_call() {
    let request = call(FunctionDeclarationName::ListFiles, Some("{\"path\": \"src\"}"));
    assert_eq!(
        respond(&request, Ok("src/main.rs, src/log.rs".to_string())),
        FunctionResponse {
            id: Some("call-1".to_string()),
            name: FunctionDeclarationName::ListFiles,
            response: FunctionCallResponse::Output("src/main.rs, src/log.rs".to_string()),
            will_continue: Some(false),
        }
    );
    let request = FunctionCall { id: None, name: FunctionDeclarationName::ReadFile, args: None };
    assert_eq!(
        respond(&request, Err(ToolExecutionError::ReadContents)),
        FunctionResponse {
            id: None,
            name: FunctionDeclarationName::ReadFile,
            response: FunctionCallResponse::Error("couldn't read file contents".to_string()),
            will_continue: Some(false),
        }
    );
    assert_eq!(
        refuse(&request, ToolValidationError::EmptyArgs),
        FunctionResponse {
            id: None,
            name: FunctionDeclarationName::ReadFile,
            response: FunctionCallResponse::Error("empty args provided".to_string()),
            will_continue: Some(false),
        }
    );
}

#[test]
fn schema_is_stripped_of_its_metadata() {
    let schema = parse(
        "{\"$schema\": \"https://json-schema.org/draft/2020-12/schema\", \"title\": \"ReadFileToolArgs\", \"type\": \"object\", \"properties\": {\"path\": {\"type\": \"string\", \"title\": \"kept\"}}, \"required\": [\"path\"]}",
    )
    .unwrap();
    let expected = parse(
        "{\"type\": \"object\", \"properties\": {\"path\": {\"type\": \"string\", \"title\": \"kept\"}}, \"required\": [\"path\"]}",
    )
    .unwrap();
    assert_eq!(strip_schema(&schema), expected);
    assert_eq!(strip_schema(&expected), expected);
    assert_eq!(strip_schema(&Json::Bool(true)), Json::Bool(true));
    assert_eq!(
        strip_schema(&Json::Array(vec![Json::Text("title".to_string())])),
        Json::Array(vec![Json::Text("title".to_string())])
    );
}

#[test]
fn four_tools_are_declared() {
    let schema = |title: &str| {
        parse(&format!(
            "{{\"$schema\": \"s\", \"title\": \"{title}\", \"type\": \"object\"}}"
        ))
        .unwrap()
    };
    let tools = get_tools(&schema("A"), &schema("B"), &schema("C"), &schema("D"));
    let names: Vec<FunctionDeclarationName> = tools
        .iter()
        .map(|tool| match tool {
            Tool::FunctionDeclarations(declarations) => {
                assert_eq!(declarations.len(), 1);
                assert_eq!(declarations[0].parameters, parse("{\"type\": \"object\"}").unwrap());
                assert_eq!(declarations[0].description, declarations[0].name.describe());
                declarations[0].name
            }
        })
        .collect();
    assert_eq!(
        names,
        vec![
            FunctionDeclarationName::ReadFile,
            FunctionDeclarationName::ListFiles,
            FunctionDeclarationName::EditFile,
            FunctionDeclarationName::RunCmd,
        ]
    );
    assert_eq!(
        FunctionDeclarationName::RunCmd.describe(),
        "Run a shell command via bash. Will return the combined stdout and stderr of the command."
    );
    assert!(FunctionDeclarationName::EditFile
        .describe()
        .starts_with("Make edits to a text file.\n\nReplaces 'old_str' with 'new_str'"));
}

#[test]
fn listing_is_handed_to_the_model_as_one_line() {
    assert_eq!(
        listing_output(&vec!["src/main.rs".to_string(), "src/log.rs".to_string()]),
        "src/main.rs, src/log.rs"
    );
    assert_eq!(listing_output(&vec!["only".to_string()]), "only");
    assert_eq!(listing_output(&Vec::new()), "");
}
