//! Running a shell command: which commands are refused, how an admitted one is
//! run, and what is reported of it.

use crate::text::{chars, contains_text, decode, occurs, signed_decimal, signed_decimal_text};
use crate::tools::{ToolExecutionError, ToolFault};
use vstd::prelude::*;
use vstd::string::StringExecFns;

verus! {

/// The denylist: a command that holds one of these texts is not run. This is a
/// plain search for the text, upper and lower case told apart; it knows nothing
/// of how a shell reads a command and is no security boundary.
pub open spec fn denylist() -> Seq<Seq<char>> {
    seq![
        "rm -rf"@,
        "sudo"@,
        "curl"@,
        "wget"@,
        "dd if="@,
        "mkfs"@,
        "fdisk"@,
        "format"@,
        "deltree"@,
        "rmdir /s"@,
        "nc"@,
        "netcat"@,
        "telnet"@,
        "ssh-keygen"@,
        "passwd"@,
        "useradd"@,
        "userdel"@,
        "chmod 777"@,
        "chown root"@,
        "python -c"@,
        "perl -e"@,
        "ruby -e"@,
        "node -e"@,
    ]
}

/// How many patterns the denylist holds.
pub const BLOCKED_CMD_PATTERNS: usize = 23;

/// The pattern at a place of the denylist.
pub fn blocked_pattern(i: usize) -> (p: &'static str)
    requires
        i < BLOCKED_CMD_PATTERNS,
    ensures
        denylist().len() == BLOCKED_CMD_PATTERNS,
        p@ == denylist()[i as int],
{
    if i == 0 {
        "rm -rf"
    } else if i == 1 {
        "sudo"
    } else if i == 2 {
        "curl"
    } else if i == 3 {
        "wget"
    } else if i == 4 {
        "dd if="
    } else if i == 5 {
        "mkfs"
    } else if i == 6 {
        "fdisk"
    } else if i == 7 {
        "format"
    } else if i == 8 {
        "deltree"
    } else if i == 9 {
        "rmdir /s"
    } else if i == 10 {
        "nc"
    } else if i == 11 {
        "netcat"
    } else if i == 12 {
        "telnet"
    } else if i == 13 {
        "ssh-keygen"
    } else if i == 14 {
        "passwd"
    } else if i == 15 {
        "useradd"
    } else if i == 16 {
        "userdel"
    } else if i == 17 {
        "chmod 777"
    } else if i == 18 {
        "chown root"
    } else if i == 19 {
        "python -c"
    } else if i == 20 {
        "perl -e"
    } else if i == 21 {
        "ruby -e"
    } else {
        "node -e"
    }
}

/// The first of the patterns that stands somewhere in the command.
pub open spec fn first_blocked(cmd: Seq<char>, patterns: Seq<Seq<char>>) -> Option<Seq<char>>
    decreases patterns.len(),
{
    if patterns.len() == 0 {
        None
    } else if occurs(cmd, patterns[0]) {
        Some(patterns[0])
    } else {
        first_blocked(cmd, patterns.drop_first())
    }
}

/// A command for the shell: a program and its arguments.
#[derive(Debug, PartialEq, Eq)]
pub struct ShellCommand {
    pub program: String,
    pub arguments: Vec<String>,
}

/// `ShellCommand` as a mathematical value.
pub struct ShellCommandView {
    pub program: Seq<char>,
    pub arguments: Seq<Seq<char>>,
}

impl View for ShellCommand {
    type V = ShellCommandView;

    open spec fn view(&self) -> ShellCommandView {
        ShellCommandView {
            program: self.program@,
            arguments: crate::model::views(self.arguments@),
        }
    }
}

/// How a command is run: not at all where it is empty or holds a pattern of the
/// denylist, else by `bash -c` with the command as it stands.
pub open spec fn plan(cmd: Seq<char>) -> Result<ShellCommandView, ToolFault> {
    if cmd.len() == 0 {
        Err(ToolFault::EmptyCommand)
    } else {
        match first_blocked(cmd, denylist()) {
            Some(p) => Err(ToolFault::ForbiddenPattern(p)),
            None => Ok(ShellCommandView { program: "bash"@, arguments: seq!["-c"@, cmd] }),
        }
    }
}

/// Decides how a command is run. An empty command is refused, and so is one that
/// holds a pattern of the denylist: the error names the first such pattern. Any
/// other command is handed to `bash -c` as it stands.
pub fn run_cmd(cmd: &str) -> (r: Result<ShellCommand, ToolExecutionError>)
    ensures
        match r {
            Ok(c) => plan(cmd@) == Ok::<ShellCommandView, ToolFault>(c@),
            Err(e) => plan(cmd@) == Err::<ShellCommandView, ToolFault>(e@),
        },
{
    if cmd.is_empty() {
        return Err(ToolExecutionError::EmptyCommand);
    }
    let text = chars(cmd);
    let mut i: usize = 0;
    assert(denylist().skip(0) =~= denylist());
    while i < BLOCKED_CMD_PATTERNS
        invariant
            text@ == cmd@,
            cmd@.len() > 0,
            i <= BLOCKED_CMD_PATTERNS,
            denylist().len() == BLOCKED_CMD_PATTERNS,
            first_blocked(cmd@, denylist()) == first_blocked(cmd@, denylist().skip(i as int)),
        decreases BLOCKED_CMD_PATTERNS - i,
    {
        let pattern = blocked_pattern(i);
        proof {
            assert(denylist().skip(i as int).drop_first() =~= denylist().skip(i + 1));
        }
        if contains_text(&text, pattern) {
            return Err(ToolExecutionError::ForbiddenPattern(String::from_str(pattern)));
        }
        i += 1;
    }
    let mut arguments: Vec<String> = Vec::new();
    arguments.push(String::from_str("-c"));
    arguments.push(String::from_str(cmd));
    let c = ShellCommand { program: String::from_str("bash"), arguments };
    assert(c@.arguments =~= seq!["-c"@, cmd@]);
    Ok(c)
}

/// What the shell handed back once the command had finished.
#[derive(Debug, PartialEq, Eq)]
pub struct ShellOutput {
    /// Whether the command ended well.
    pub success: bool,
    /// The exit code; `None` where a signal ended the command.
    pub code: Option<i32>,
    /// What the command wrote to its standard output.
    pub stdout: Vec<u8>,
    /// What the command wrote to its standard error.
    pub stderr: Vec<u8>,
}

/// `ShellOutput` as a mathematical value.
pub struct ShellOutputView {
    pub success: bool,
    pub code: Option<i32>,
    pub stdout: Seq<u8>,
    pub stderr: Seq<u8>,
}

impl View for ShellOutput {
    type V = ShellOutputView;

    open spec fn view(&self) -> ShellOutputView {
        ShellOutputView {
            success: self.success,
            code: self.code,
            stdout: self.stdout@,
            stderr: self.stderr@,
        }
    }
}

/// The report of a finished command: whether it ended well, its exit code or
/// `unknown`, and what it wrote to its two streams.
pub open spec fn report_text(
    success: bool,
    code: Option<i32>,
    stdout: Seq<char>,
    stderr: Seq<char>,
) -> Seq<char> {
    "success: "@ + (if success {
        "true"@
    } else {
        "false"@
    }) + "\nexit_code: "@ + (match code {
        Some(c) => signed_decimal(c as int),
        None => "unknown"@,
    }) + "\n----- stdout -----\n"@ + stdout + "\n----- stderr -----\n"@ + stderr
}

/// What is reported of a command that was handed to the shell: `None` where the
/// shell could not be started. A command that ended badly is reported like any
/// other.
pub open spec fn shell_report(output: Option<ShellOutputView>) -> Result<Seq<char>, ToolFault> {
    match output {
        None => Err(ToolFault::Spawn),
        Some(o) => if !vstd::utf8::valid_utf8(o.stdout) {
            Err(ToolFault::Stdout)
        } else if !vstd::utf8::valid_utf8(o.stderr) {
            Err(ToolFault::Stderr)
        } else {
            Ok(
                report_text(
                    o.success,
                    o.code,
                    vstd::utf8::decode_utf8(o.stdout),
                    vstd::utf8::decode_utf8(o.stderr),
                ),
            )
        },
    }
}

/// Reports what became of a command that was handed to the shell: `None` where
/// the shell could not be started. Fails where one of the streams holds no text.
pub fn report(output: Option<ShellOutput>) -> (r: Result<String, ToolExecutionError>)
    ensures
        crate::tools::result_view(r) == shell_report(
            match output {
                Some(o) => Some(o@),
                None => None,
            },
        ),
{
    let output = match output {
        Some(o) => o,
        None => {
            return Err(ToolExecutionError::Spawn);
        },
    };
    let ShellOutput { success, code, stdout, stderr } = output;
    let stdout = match decode(stdout) {
        Some(t) => t,
        None => {
            return Err(ToolExecutionError::Stdout);
        },
    };
    let stderr = match decode(stderr) {
        Some(t) => t,
        None => {
            return Err(ToolExecutionError::Stderr);
        },
    };
    let mut text = String::from_str("success: ");
    text.append(if success {
        "true"
    } else {
        "false"
    });
    text.append("\nexit_code: ");
    match code {
        Some(c) => {
            let digits = signed_decimal_text(c as i64);
            text.append(digits.as_str());
        },
        None => {
            text.append("unknown");
        },
    }
    text.append("\n----- stdout -----\n");
    text.append(stdout.as_str());
    text.append("\n----- stderr -----\n");
    text.append(stderr.as_str());
    Ok(text)
}

/// Where none of the patterns stands in a command, none is found.
pub proof fn lemma_nothing_blocked(cmd: Seq<char>, patterns: Seq<Seq<char>>)
    requires
        forall|i: int| 0 <= i < patterns.len() ==> !occurs(cmd, patterns[i]),
    ensures
        first_blocked(cmd, patterns) is None,
    decreases patterns.len(),
{
    if patterns.len() > 0 {
        assert forall|i: int| 0 <= i < patterns.drop_first().len() implies !occurs(
            cmd,
            patterns.drop_first()[i],
        ) by {
            assert(patterns.drop_first()[i] == patterns[i + 1]);
        }
        lemma_nothing_blocked(cmd, patterns.drop_first());
    }
}

/// Where one of the patterns stands in a command, a pattern is found, and the
/// one found stands in the command.
pub proof fn lemma_something_blocked(cmd: Seq<char>, patterns: Seq<Seq<char>>, i: int)
    requires
        0 <= i < patterns.len(),
        occurs(cmd, patterns[i]),
    ensures
        first_blocked(cmd, patterns) is Some,
        occurs(cmd, first_blocked(cmd, patterns)->0),
    decreases patterns.len(),
{
    if !occurs(cmd, patterns[0]) {
        lemma_something_blocked(cmd, patterns.drop_first(), i - 1);
    }
}

/// No pattern of the denylist is empty.
pub proof fn lemma_patterns_are_not_empty()
    ensures
        denylist().len() == BLOCKED_CMD_PATTERNS,
        forall|i: int| 0 <= i < denylist().len() ==> (#[trigger] denylist()[i]).len() > 0,
{
    reveal_strlit("rm -rf");
    reveal_strlit("sudo");
    reveal_strlit("curl");
    reveal_strlit("wget");
    reveal_strlit("dd if=");
    reveal_strlit("mkfs");
    reveal_strlit("fdisk");
    reveal_strlit("format");
    reveal_strlit("deltree");
    reveal_strlit("rmdir /s");
    reveal_strlit("nc");
    reveal_strlit("netcat");
    reveal_strlit("telnet");
    reveal_strlit("ssh-keygen");
    reveal_strlit("passwd");
    reveal_strlit("useradd");
    reveal_strlit("userdel");
    reveal_strlit("chmod 777");
    reveal_strlit("chown root");
    reveal_strlit("python -c");
    reveal_strlit("perl -e");
    reveal_strlit("ruby -e");
    reveal_strlit("node -e");
}

/// A command that holds a pattern of the denylist, character for character, is
/// refused, wherever in the command the pattern stands; the error names a
/// pattern of the denylist that stands in the command.
pub proof fn lemma_command_with_pattern_is_refused(cmd: Seq<char>, i: int)
    requires
        0 <= i < denylist().len(),
        occurs(cmd, denylist()[i]),
    ensures
        plan(cmd) is Err,
        plan(cmd)->Err_0 is ForbiddenPattern,
        occurs(cmd, plan(cmd)->Err_0->ForbiddenPattern_0),
{
    lemma_patterns_are_not_empty();
    lemma_something_blocked(cmd, denylist(), i);
    let at = choose|at: int| crate::text::occurs_at(cmd, denylist()[i], at);
    assert(cmd.len() >= at + denylist()[i].len());
}

/// A command that is not empty and holds no pattern of the denylist is handed to
/// the shell as it stands, and the report of what the shell gave states the exit
/// code that the shell gave, in decimal digits.
pub proof fn lemma_admitted_command_reports_exit_status(cmd: Seq<char>, output: ShellOutputView)
    requires
        cmd.len() > 0,
        forall|i: int| 0 <= i < denylist().len() ==> !occurs(cmd, denylist()[i]),
        vstd::utf8::valid_utf8(output.stdout),
        vstd::utf8::valid_utf8(output.stderr),
    ensures
        plan(cmd) == Ok::<ShellCommandView, ToolFault>(
            ShellCommandView { program: "bash"@, arguments: seq!["-c"@, cmd] },
        ),
        shell_report(Some(output)) == Ok::<Seq<char>, ToolFault>(
            report_text(
                output.success,
                output.code,
                vstd::utf8::decode_utf8(output.stdout),
                vstd::utf8::decode_utf8(output.stderr),
            ),
        ),
        output.code matches Some(c) ==> occurs(
            shell_report(Some(output))->Ok_0,
            "\nexit_code: "@ + signed_decimal(c as int) + "\n"@,
        ),
{
    lemma_nothing_blocked(cmd, denylist());
    if output.code is Some {
        let c = output.code->0;
        let head = "success: "@ + (if output.success {
            "true"@
        } else {
            "false"@
        });
        let needle = "\nexit_code: "@ + signed_decimal(c as int) + "\n"@;
        let text = shell_report(Some(output))->Ok_0;
        reveal_strlit("\n----- stdout -----\n");
        reveal_strlit("\n");
        assert(text.subrange(head.len() as int, (head.len() + needle.len()) as int) =~= needle);
        assert(crate::text::occurs_at(text, needle, head.len() as int));
    }
}

} // verus!
