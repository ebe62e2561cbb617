use agent1::tools::run_cmd;
use agent1::tools::run_cmd::{report, ShellCommand, ShellOutput};
use agent1::tools::ToolExecutionError;

fn finished(success: bool, code: i32, stdout: &str, stderr: &str) -> Option<ShellOutput> {
    Some(ShellOutput {
        success,
        code: Some(code),
        stdout: stdout.as_bytes().to_vec(),
        stderr: stderr.as_bytes().to_vec(),
    })
}

//-------------//
//  SUCCESSES  //
//-------------//

#[test]
fn output_of_a_successful_command_is_returned() {
    // GIVEN
    let cmd = "cat src/tools/testdata/sample.txt";

    // WHEN
    let command = run_cmd(cmd).expect("result should've been a success");
    let result = report(finished(
        true,
        0,
        "This file contains 3 lines.\nThis is line #2.\nThis is line #3.\n",
        "",
    ))
    .expect("result should've been a success");

    // THEN
    assert_eq!(command.program, "bash");
    assert_eq!(command.arguments, vec!["-c".to_string(), cmd.to_string()]);
    assert_eq!(
        result,
        "success: true
exit_code: 0
----- stdout -----
This file contains 3 lines.
This is line #2.
This is line #3.

----- stderr -----
"
    );
}

#[test]
fn output_of_a_failing_command_is_returned() {
    // GIVEN
    let cmd = "ls nonexistent/directory";

    // WHEN
    let command = run_cmd(cmd).expect("result should've been a success");
    let result = report(finished(
        false,
        1,
        "",
        "ls: nonexistent/directory: No such file or directory\n",
    ))
    .expect("result should've been a success");

    // THEN
    assert_eq!(command.arguments, vec!["-c".to_string(), cmd.to_string()]);
    assert_eq!(
        result,
        "success: false
exit_code: 1
----- stdout -----

----- stderr -----
ls: nonexistent/directory: No such file or directory
"
    );
}

#[test]
fn command_with_pipes_can_be_run() {
    // GIVEN
    let cmd = "cat src/tools/testdata/sample.txt | grep '#' | wc -l | xargs";

    // WHEN
    let command = run_cmd(cmd).expect("result should've been a success");
    let result = report(finished(true, 0, "2\n", "")).expect("result should've been a success");

    // THEN
    assert_eq!(
        command,
        ShellCommand {
            program: "bash".to_string(),
            arguments: vec!["-c".to_string(), cmd.to_string()],
        }
    );
    assert_eq!(
        result,
        "success: true
exit_code: 0
----- stdout -----
2

----- stderr -----
"
    );
}

//------------//
//  FAILURES  //
//------------//

#[test]
fn running_empty_command_fails() {
    // GIVEN
    // WHEN
    let result = run_cmd("").expect_err("result wasn't an error");

    // THEN
    assert_eq!(result.message(), "command is empty");
}

#[test]
fn command_with_blocked_pattern_is_rejected() {
    // GIVEN
    let cmd = "curl http://127.0.0.1:9999";

    // WHEN
    let result = run_cmd(cmd).expect_err("result wasn't an error");

    // THEN
    assert_eq!(
        result.message(),
        "command contains a forbidden pattern 'curl'; blocked for security reasons"
    );
}

#[test]
fn blocked_pattern_in_other_case_is_not_rejected() {
    let command = run_cmd("CURL http://127.0.0.1:9999").expect("upper case is not on the list");
    assert_eq!(
        command.arguments,
        vec!["-c".to_string(), "CURL http://127.0.0.1:9999".to_string()]
    );
    assert!(run_cmd("Sudo ls").is_ok());
    assert!(run_cmd("echo Format").is_ok());
}

#[test]
fn blocked_pattern_is_found_anywhere_in_the_command() {
    assert_eq!(
        run_cmd("echo hi && sudo ls"),
        Err(ToolExecutionError::ForbiddenPattern("sudo".to_string()))
    );
    // The pattern need not be a word of its own.
    assert_eq!(
        run_cmd("echo once"),
        Err(ToolExecutionError::ForbiddenPattern("nc".to_string()))
    );
    assert_eq!(
        run_cmd("node -e 1"),
        Err(ToolExecutionError::ForbiddenPattern("node -e".to_string()))
    );
}

#[test]
fn first_pattern_of_the_list_is_named() {
    // Both `rm -rf` and `sudo` stand in the command; `rm -rf` is first on the list.
    assert_eq!(
        run_cmd("sudo rm -rf /"),
        Err(ToolExecutionError::ForbiddenPattern("rm -rf".to_string()))
    );
    // `nc` comes before `netcat` on the list, wherever each stands in the command.
    assert_eq!(
        run_cmd("netcat -l 80 | nc host 80"),
        Err(ToolExecutionError::ForbiddenPattern("nc".to_string()))
    );
    assert_eq!(
        run_cmd("netcat -l 80"),
        Err(ToolExecutionError::ForbiddenPattern("netcat".to_string()))
    );
}

#[test]
fn every_pattern_of_the_list_is_rejected() {
    let patterns = [
        "rm -rf",
        "sudo",
        "curl",
        "wget",
        "dd if=",
        "mkfs",
        "fdisk",
        "format",
        "deltree",
        "rmdir /s",
        "nc",
        "netcat",
        "telnet",
        "ssh-keygen",
        "passwd",
        "useradd",
        "userdel",
        "chmod 777",
        "chown root",
        "python -c",
        "perl -e",
        "ruby -e",
        "node -e",
    ];
    assert_eq!(patterns.len(), agent1::tools::run_cmd::BLOCKED_CMD_PATTERNS);
    for (i, pattern) in patterns.iter().enumerate() {
        assert_eq!(agent1::tools::run_cmd::blocked_pattern(i), *pattern);
        assert!(matches!(
            run_cmd(pattern),
            Err(ToolExecutionError::ForbiddenPattern(_))
        ));
    }
}

#[test]
fn exit_code_is_reported_as_the_shell_gave_it() {
    let text = report(finished(false, 127, "", "bash: nope: command not found\n")).unwrap();
    assert!(text.starts_with("success: false\nexit_code: 127\n"));
    let text = report(finished(false, -1, "", "")).unwrap();
    assert!(text.starts_with("success: false\nexit_code: -1\n"));
    let text = report(finished(false, i32::MIN, "", "")).unwrap();
    assert!(text.starts_with("success: false\nexit_code: -2147483648\n"));
    let text = report(finished(true, i32::MAX, "", "")).unwrap();
    assert!(text.starts_with("success: true\nexit_code: 2147483647\n"));
}

#[test]
fn command_ended_by_a_signal_has_no_exit_code() {
    let output = ShellOutput {
        success: false,
        code: None,
        stdout: b"partial".to_vec(),
        stderr: Vec::new(),
    };
    assert_eq!(
        report(Some(output)).unwrap(),
        "success: false\nexit_code: unknown\n----- stdout -----\npartial\n----- stderr -----\n"
    );
}

#[test]
fn shell_that_does_not_start_is_an_error() {
    let error = report(None).unwrap_err();
    assert_eq!(error, ToolExecutionError::Spawn);
    assert_eq!(error.message(), "couldn't run command");
}

#[test]
fn streams_that_are_no_text_are_errors() {
    let output = ShellOutput {
        success: true,
        code: Some(0),
        stdout: vec![0xff, 0xfe],
        stderr: vec![0xff],
    };
    let error = report(Some(output)).unwrap_err();
    assert_eq!(error, ToolExecutionError::Stdout);
    assert_eq!(error.message(), "couldn't get command stdout");

    let output = ShellOutput {
        success: true,
        code: Some(0),
        stdout: "ok".as_bytes().to_vec(),
        stderr: vec![0xc3],
    };
    let error = report(Some(output)).unwrap_err();
    assert_eq!(error, ToolExecutionError::Stderr);
    assert_eq!(error.message(), "couldn't get command stderr");
}

#[test]
fn streams_in_utf8_are_decoded() {
    let text = report(finished(true, 0, "héllo → 世界\n", "")).unwrap();
    assert_eq!(
        text,
        "success: true\nexit_code: 0\n----- stdout -----\nhéllo → 世界\n\n----- stderr -----\n"
    );
}
