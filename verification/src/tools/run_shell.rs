//! `run_shell`: runs a command in the workspace, in a process of its own, with
//! a minimal environment and a time limit.

use vstd::prelude::*;
use vstd::string::*;

use crate::llm::ToolSchema;
use crate::outside;
use crate::text;
use crate::tools::{self, ToolResult};

verus! {

/// The tool.
pub struct RunShell;

/// Seconds after which a command is killed.
pub const TIMEOUT_S: u64 = 120;

/// What came of a command.
#[derive(Debug, PartialEq)]
pub enum ShellOutcome {
    /// It could not be started.
    NotStarted(String),
    /// It was killed after the time limit.
    TimedOut,
    /// Waiting for it failed.
    Failed(String),
    /// It ended; without a code if a signal ended it.
    Exited { stdout: Vec<u8>, stderr: Vec<u8>, success: bool, code: Option<i32> },
}

/// Whether a schema is that of the tool.
pub open spec fn is_schema(s: ToolSchema) -> bool {
    &&& s.name@ == "run_shell"@
    &&& s.description@
        == "Ejecuta un comando de shell en el workspace (subproceso aislado, timeout 120 s)"@
    &&& s.parameters@
        == "{\"properties\":{\"cmd\":{\"description\":\"Comando a ejecutar\",\"type\":\"string\"}},\"required\":[\"cmd\"],\"type\":\"object\"}"@
}

/// What a command printed: its output, then its errors unless they are blank.
pub open spec fn printed(stdout: Seq<char>, stderr: Seq<char>) -> Seq<char> {
    if text::trim(stderr).len() == 0 {
        stdout
    } else {
        stdout + "\n[stderr]\n"@ + stderr
    }
}

/// The exit code as the model reads it.
pub open spec fn code_text(code: Option<i32>) -> Seq<char> {
    match code {
        Some(c) => text::signed_decimal(c as int),
        None => "señal"@,
    }
}

/// Whether a result is that of a command that ended.
pub open spec fn is_end(
    r: ToolResult,
    stdout: Seq<char>,
    stderr: Seq<char>,
    success: bool,
    code: Option<i32>,
) -> bool {
    if success {
        r.is_result(true, printed(stdout, stderr), None)
    } else {
        r.is_result(false, "exit "@ + code_text(code) + "\n"@ + printed(stdout, stderr), None)
    }
}

/// What a command comes to.
pub open spec fn ends(outcome: ShellOutcome, r: ToolResult) -> bool {
    match outcome {
        ShellOutcome::NotStarted(e) => r.is_result(
            false,
            "no se pudo lanzar el comando: "@ + e@,
            None,
        ),
        ShellOutcome::TimedOut => r.is_result(
            false,
            "timeout: el comando superó "@ + text::decimal(TIMEOUT_S as nat)
                + " s y fue terminado"@,
            None,
        ),
        ShellOutcome::Failed(e) => r.is_result(
            false,
            "fallo de ejecución: "@ + e@,
            None,
        ),
        ShellOutcome::Exited { stdout, stderr, success, code } => is_end(
            r,
            outside::lossy_text(stdout@),
            outside::lossy_text(stderr@),
            success,
            code,
        ),
    }
}

impl RunShell {
    /// The name of the tool.
    pub fn name(&self) -> (r: &'static str)
        ensures
            r@ == "run_shell"@,
    {
        "run_shell"
    }

    /// The tool as the model sees it.
    pub fn schema(&self) -> (r: ToolSchema)
        ensures
            is_schema(r),
    {
        ToolSchema {
            name: "run_shell".to_owned(),
            description: "Ejecuta un comando de shell en el workspace (subproceso aislado, timeout 120 s)".to_owned(),
            parameters: "{\"properties\":{\"cmd\":{\"description\":\"Comando a ejecutar\",\"type\":\"string\"}},\"required\":[\"cmd\"],\"type\":\"object\"}".to_owned(),
        }
    }

    /// Running a command needs a decision.
    pub fn requires_approval(&self) -> (r: bool)
        ensures
            r,
    {
        true
    }

    /// The variables that a command inherits; it sees no others.
    pub fn env_whitelist(&self) -> (r: Vec<&'static str>)
        ensures
            r@.len() == 3,
            r@[0]@ == "PATH"@,
            r@[1]@ == "HOME"@,
            r@[2]@ == "LANG"@,
    {
        let mut names: Vec<&'static str> = Vec::new();
        names.push("PATH");
        names.push("HOME");
        names.push("LANG");
        names
    }

    /// The command to run, literally, or the failure of a call without one.
    pub fn request(&self, args: &str) -> (r: Result<String, ToolResult>)
        ensures
            match r {
                Ok(cmd) => tools::string_arg(args@, "cmd"@) == Some(cmd@),
                Err(res) => tools::string_arg(args@, "cmd"@) is None && res.is_result(
                    false,
                    tools::missing_arg("cmd"@),
                    None,
                ),
            },
    {
        match tools::str_arg(args, "cmd") {
            Ok(cmd) => Ok(cmd),
            Err(e) => Err(ToolResult::fail(e)),
        }
    }

    /// The result, given what came of the command.
    pub fn execute(&self, outcome: ShellOutcome) -> (r: ToolResult)
        ensures
            ends(outcome, r),
    {
        match outcome {
            ShellOutcome::NotStarted(e) => {
                ToolResult::fail(text::join2("no se pudo lanzar el comando: ", e.as_str()))
            },
            ShellOutcome::TimedOut => {
                ToolResult::fail(
                    text::join3(
                        "timeout: el comando superó ",
                        text::number(TIMEOUT_S).as_str(),
                        " s y fue terminado",
                    ),
                )
            },
            ShellOutcome::Failed(e) => {
                ToolResult::fail(text::join2("fallo de ejecución: ", e.as_str()))
            },
            ShellOutcome::Exited { stdout, stderr, success, code } => {
                let out = outside::utf8_lossy(stdout.as_slice());
                let err = outside::utf8_lossy(stderr.as_slice());
                exited(out, err, success, code)
            },
        }
    }
}

/// The result of a command that ended, given what it printed.
pub fn exited(stdout: String, stderr: String, success: bool, code: Option<i32>) -> (r: ToolResult)
    ensures
        is_end(r, stdout@, stderr@, success, code),
{
    let mut shown = stdout;
    if !text::trimmed(stderr.as_str()).as_str().is_empty() {
        shown = text::join3(shown.as_str(), "\n[stderr]\n", stderr.as_str());
    }
    if success {
        ToolResult::ok(shown)
    } else {
        let code = match code {
            Some(c) => text::integer(c),
            None => "señal".to_owned(),
        };
        let head = text::join3("exit ", code.as_str(), "\n");
        ToolResult::fail(text::join2(head.as_str(), shown.as_str()))
    }
}

/// Law: nothing that a command printed is lost. Its output opens what is shown,
/// after a line with the exit code if it failed; where its errors are not
/// blank they close it, and where they are blank nothing follows the output.
/// The verdict is the command's own, and only what exceeds the limit of every
/// tool is cut.
pub proof fn law_everything_printed_is_shown(
    stdout: Seq<char>,
    stderr: Seq<char>,
    success: bool,
    code: Option<i32>,
    r: ToolResult,
)
    requires
        is_end(r, stdout, stderr, success, code),
    ensures
        r.ok == success,
        r.diff is None,
        exists|full: Seq<char>| #[trigger]
            shows(full, stdout, stderr, success, code) && r.output@.is_prefix_of(full) && (
            !r.truncated ==> r.output@ == full) && (r.truncated <==> text::byte_len(full) > 65_536),
{
    let shown = printed(stdout, stderr);
    let line = "exit "@ + code_text(code) + "\n"@;
    let full = if success {
        shown
    } else {
        line + shown
    };
    if !success {
        assert(full.skip(line.len() as int) == shown);
    }
    if code is None {
        reveal_strlit("exit ");
        reveal_strlit("señal");
        reveal_strlit("\n");
        reveal_strlit("exit señal\n");
        assert(line == "exit señal\n"@);
    }
    let body = if success {
        full
    } else {
        full.skip(line.len() as int)
    };
    assert(body == shown);
    assert(stdout.is_prefix_of(body));
    if text::trim(stderr).len() > 0 {
        assert(stderr.is_suffix_of(body));
        assert(body.subrange(stdout.len() as int, body.len() - stderr.len()) == "\n[stderr]\n"@);
    }
    assert(shows(full, stdout, stderr, success, code));
}

/// Whether a text shows all that a command printed.
pub open spec fn shows(
    full: Seq<char>,
    stdout: Seq<char>,
    stderr: Seq<char>,
    success: bool,
    code: Option<i32>,
) -> bool {
    let line = match code {
        Some(c) => "exit "@ + text::signed_decimal(c as int) + "\n"@,
        None => "exit señal\n"@,
    };
    let body = if success {
        full
    } else {
        full.skip(line.len() as int)
    };
    &&& !success ==> line.is_prefix_of(full)
    &&& stdout.is_prefix_of(body)
    &&& text::trim(stderr).len() > 0 ==> stderr.is_suffix_of(body) && body.len() == stdout.len()
        + stderr.len() + "\n[stderr]\n"@.len() && body.subrange(
        stdout.len() as int,
        body.len() - stderr.len(),
    ) == "\n[stderr]\n"@
    &&& text::trim(stderr).len() == 0 ==> body.len() == stdout.len()
}

/// Law: a command succeeds exactly when it ran to its end and said so. One that
/// did not start, was killed after 120 seconds or was lost fails, and says
/// which; what one that ended printed is shown.
pub proof fn law_shell_outcome(outcome: ShellOutcome, r: ToolResult)
    requires
        ends(outcome, r),
    ensures
        r.ok <==> (outcome matches ShellOutcome::Exited { success, .. } && success),
        r.diff is None,
        outcome is TimedOut && !r.truncated ==> text::occurs(r.output@, text::decimal(120)),
        outcome matches ShellOutcome::NotStarted(e) ==> (!r.truncated ==> e@.is_suffix_of(
            r.output@,
        )),
        outcome matches ShellOutcome::Failed(e) ==> (!r.truncated ==> e@.is_suffix_of(r.output@)),
        outcome matches ShellOutcome::Exited { stdout, stderr, success, code } ==> is_end(
            r,
            outside::lossy_text(stdout@),
            outside::lossy_text(stderr@),
            success,
            code,
        ),
{
    match outcome {
        ShellOutcome::TimedOut => {
            let at = "timeout: el comando superó "@.len() as int;
            let n = text::decimal(120);
            let full = "timeout: el comando superó "@ + n + " s y fue terminado"@;
            assert(full.subrange(at, at + n.len()) == n);
            assert(text::occurs_at(full, n, at));
        },
        ShellOutcome::NotStarted(e) => {
            assert(e@.is_suffix_of("no se pudo lanzar el comando: "@ + e@));
        },
        ShellOutcome::Failed(e) => {
            assert(e@.is_suffix_of("fallo de ejecución: "@ + e@));
        },
        _ => {},
    }
}

} // verus!
