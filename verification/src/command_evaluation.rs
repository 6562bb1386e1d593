//! Execution policy and per-command outcome logic.
//!
//! A command is run either directly (`Unsafe` mode, guarded by a textual
//! blocklist) or wrapped in a sandboxing invocation (`Isolated` mode). The
//! policy here decides the full process invocation; actually spawning the
//! process, waiting for it and draining its pipes is the caller's concern,
//! and the results of those steps are handed back in as plain values.

use crate::strutil::{
    contains_str, join_strings, push_decimal, spec_contains, spec_decimal, spec_join,
};
use vstd::prelude::*;

verus! {

/// Execution mode for commands.
#[derive(Debug, Eq, PartialEq, Structural, Clone, Copy)]
pub enum ExecutionMode {
    /// Run commands directly without isolation (potentially dangerous).
    Unsafe,
    /// Run commands in a sandboxed environment.
    Isolated,
}

/// Represents a command that should be executed, with optional stdin.
pub struct CommandExecutionRequest {
    pub command: String,
    pub stdin: Option<Vec<String>>,
}

impl CommandExecutionRequest {
    /// Create a new command execution request.
    pub fn new(command: String, stdin: Option<Vec<String>>) -> (r: Self)
        ensures
            r.command == command,
            r.stdin == stdin,
    {
        Self { command, stdin }
    }
}

/// Output from an executed command.
#[derive(Debug)]
pub enum CmdOutput {
    /// Command executed successfully with output.
    Okay(String),
    /// Command failed with error message.
    NotOk(String),
}

/// Why the policy refused to build an invocation.
#[derive(Debug, Eq, PartialEq, Structural, Clone, Copy)]
pub enum PolicyError {
    /// The command text matched the blocklist in `Unsafe` mode.
    UnsafeCommandRejected,
    /// `Unsafe` mode needs a non-empty shell invocation prefix.
    ShellPrefixEmpty,
}

impl PolicyError {
    /// The fixed, user-visible text for this refusal.
    pub fn message(&self) -> (r: String)
        ensures
            *self == PolicyError::UnsafeCommandRejected ==> r@
                == "Will not run this command, it's for your own good. Believe me."@,
            *self == PolicyError::ShellPrefixEmpty ==> r@ == "shell_command is empty"@,
    {
        match self {
            PolicyError::UnsafeCommandRejected => String::from_str(
                "Will not run this command, it's for your own good. Believe me.",
            ),
            PolicyError::ShellPrefixEmpty => String::from_str("shell_command is empty"),
        }
    }
}

/// The fixed prefix reported when spawning the invocation fails.
pub fn spawn_failure_text() -> (r: String)
    ensures
        r@ == "Unable to spawn command"@,
{
    String::from_str("Unable to spawn command")
}

/// The command text contains one of the blocklisted operations. The blocklist
/// is a convenience guard against self-inflicted damage, not a security
/// boundary: it looks for deletion, move and raw block-device writes.
pub open spec fn spec_is_unsafe(cmd: Seq<char>) -> bool {
    spec_contains(cmd, "rm "@) || spec_contains(cmd, "mv "@) || spec_contains(cmd, "dd "@)
}

/// Check if a command contains potentially unsafe operations.
pub fn is_unsafe_command(cmd: &str) -> (r: bool)
    ensures
        r == spec_is_unsafe(cmd@),
{
    contains_str(cmd, "rm ") || contains_str(cmd, "mv ") || contains_str(cmd, "dd ")
}

/// A fully-formed process invocation: the program to run and its arguments.
/// The process is to be started with piped stdin, stdout and stderr.
#[derive(Debug)]
pub struct Invocation {
    pub program: String,
    pub args: Vec<String>,
}

/// The fixed argument list of the sandboxing invocation: bind the filesystem
/// root read-only at the same path, mount a fresh writable temporary
/// directory, provide isolated device and process-information views, kill the
/// sandboxed process when the parent dies, keep network access, and give the
/// process its own process-id namespace.
pub open spec fn sandbox_args() -> Seq<Seq<char>> {
    seq![
        "--ro-bind"@,
        "/"@,
        "/"@,
        "--tmpfs"@,
        "/tmp"@,
        "--dev"@,
        "/dev"@,
        "--proc"@,
        "/proc"@,
        "--die-with-parent"@,
        "--share-net"@,
        "--unshare-pid"@,
    ]
}

/// Decide the full process invocation for `cmd`, or refuse.
///
/// In `Isolated` mode the shell prefix is wrapped in the fixed sandboxing
/// invocation; in `Unsafe` mode the blocklist is consulted first and the
/// shell prefix must be non-empty. Either way the command text becomes the
/// final argument.
pub fn build_invocation(shell_command: &Vec<String>, cmd: &str, mode: ExecutionMode) -> (r: Result<
    Invocation,
    PolicyError,
>)
    ensures
        mode == ExecutionMode::Isolated ==> (r matches Ok(inv) && inv.program@ == "bwrap"@
            && inv.args.deep_view() == sandbox_args() + shell_command.deep_view() + seq![cmd@]),
        mode == ExecutionMode::Unsafe && spec_is_unsafe(cmd@) ==> r == Err::<
            Invocation,
            PolicyError,
        >(PolicyError::UnsafeCommandRejected),
        mode == ExecutionMode::Unsafe && !spec_is_unsafe(cmd@) && shell_command@.len() == 0 ==> r
            == Err::<Invocation, PolicyError>(PolicyError::ShellPrefixEmpty),
        mode == ExecutionMode::Unsafe && !spec_is_unsafe(cmd@) && shell_command@.len() > 0 ==> (
        r matches Ok(inv) && inv.program@ == shell_command.deep_view()[0]
            && inv.args.deep_view() == shell_command.deep_view().skip(1) + seq![cmd@]),
{
    match mode {
        ExecutionMode::Isolated => {
            let mut args: Vec<String> = Vec::new();
            args.push(String::from_str("--ro-bind"));
            args.push(String::from_str("/"));
            args.push(String::from_str("/"));
            args.push(String::from_str("--tmpfs"));
            args.push(String::from_str("/tmp"));
            args.push(String::from_str("--dev"));
            args.push(String::from_str("/dev"));
            args.push(String::from_str("--proc"));
            args.push(String::from_str("/proc"));
            args.push(String::from_str("--die-with-parent"));
            args.push(String::from_str("--share-net"));
            args.push(String::from_str("--unshare-pid"));
            proof {
                assert(args.deep_view() =~= sandbox_args());
            }
            let mut j: usize = 0;
            while j < shell_command.len()
                invariant
                    j <= shell_command@.len(),
                    args.deep_view() =~= sandbox_args() + shell_command.deep_view().take(j as int),
                decreases shell_command@.len() - j,
            {
                let ghost pre = args.deep_view();
                args.push(shell_command[j].clone());
                proof {
                    assert(args.deep_view() =~= pre.push(shell_command.deep_view()[j as int]));
                    assert(args.deep_view() =~= sandbox_args() + shell_command.deep_view().take(
                        j + 1,
                    ));
                }
                j = j + 1;
            }
            let ghost pre = args.deep_view();
            args.push(String::from_str(cmd));
            proof {
                assert(args.deep_view() =~= pre.push(cmd@));
                assert(shell_command.deep_view().take(shell_command@.len() as int)
                    =~= shell_command.deep_view());
                assert(args.deep_view() =~= sandbox_args() + shell_command.deep_view() + seq![
                    cmd@,
                ]);
            }
            Ok(Invocation { program: String::from_str("bwrap"), args })
        },
        ExecutionMode::Unsafe => {
            if is_unsafe_command(cmd) {
                return Err(PolicyError::UnsafeCommandRejected);
            }
            if shell_command.len() == 0 {
                return Err(PolicyError::ShellPrefixEmpty);
            }
            let program = shell_command[0].clone();
            let mut args: Vec<String> = Vec::new();
            let mut j: usize = 1;
            while j < shell_command.len()
                invariant
                    1 <= j <= shell_command@.len(),
                    args.deep_view() =~= shell_command.deep_view().subrange(1, j as int),
                decreases shell_command@.len() - j,
            {
                let ghost pre = args.deep_view();
                args.push(shell_command[j].clone());
                proof {
                    assert(args.deep_view() =~= pre.push(shell_command.deep_view()[j as int]));
                    assert(args.deep_view() =~= shell_command.deep_view().subrange(1, j + 1));
                }
                j = j + 1;
            }
            let ghost pre = args.deep_view();
            args.push(String::from_str(cmd));
            proof {
                assert(args.deep_view() =~= pre.push(cmd@));
                assert(args.deep_view() =~= shell_command.deep_view().skip(1) + seq![cmd@]);
            }
            Ok(Invocation { program, args })
        },
    }
}

/// Read lines collected from one output stream into a single text: joined
/// with newlines and newline-terminated; a read failure degrades to the
/// error's description as the captured text.
pub fn read_lines_to_string(lines: Result<Vec<String>, String>) -> (r: String)
    ensures
        lines matches Ok(v) ==> r@ == spec_join(v.deep_view(), "\n"@) + "\n"@,
        lines matches Err(e) ==> r == e,
{
    match lines {
        Ok(v) => {
            let mut s = join_strings(&v, "\n");
            s.append("\n");
            s
        },
        Err(e) => e,
    }
}

/// The text captured from one output stream, as `read_lines_to_string`
/// produces it.
pub open spec fn spec_read_text(lines: Result<Vec<String>, String>) -> Seq<char> {
    match lines {
        Ok(v) => spec_join(v.deep_view(), "\n"@) + "\n"@,
        Err(e) => e@,
    }
}

/// What the wait for a spawned process ended with: exit (with success flag
/// and the lines drained from each output stream, a read failure degrading
/// to its description), timeout, or a failure of the wait itself.
pub enum WaitResult {
    Exited {
        success: bool,
        stdout: Result<Vec<String>, String>,
        stderr: Result<Vec<String>, String>,
    },
    TimedOut,
    WaitFailed(String),
}

/// The watcher's report for a finished wait. `won` says whether this watcher
/// won the termination guard: a watcher that lost it reports nothing, because
/// the process was intentionally discarded. A winning watcher reports exactly
/// one outcome: captured standard output on success, captured standard error
/// on a non-zero exit, the fixed timeout notice, or the wait failure's text.
pub fn watcher_report(won: bool, result: WaitResult) -> (out: Option<CmdOutput>)
    ensures
        out is Some <==> won,
        won ==> (result matches WaitResult::Exited { success: true, stdout, .. } ==> (out matches
            Some(CmdOutput::Okay(t)) && t@ == spec_read_text(stdout))),
        won ==> (result matches WaitResult::Exited { success: false, stderr, .. } ==> (out matches
            Some(CmdOutput::NotOk(t)) && t@ == spec_read_text(stderr))),
        won && result is TimedOut ==> (out matches Some(CmdOutput::NotOk(t)) && t@
            == "Command timed out"@),
        won ==> (result matches WaitResult::WaitFailed(e) ==> out == Some(CmdOutput::NotOk(e))),
{
    if !won {
        return None;
    }
    match result {
        WaitResult::Exited { success, stdout, stderr } => {
            if success {
                Some(CmdOutput::Okay(read_lines_to_string(stdout)))
            } else {
                Some(CmdOutput::NotOk(read_lines_to_string(stderr)))
            }
        },
        WaitResult::TimedOut => Some(CmdOutput::NotOk(String::from_str("Command timed out"))),
        WaitResult::WaitFailed(e) => Some(CmdOutput::NotOk(e)),
    }
}

/// The decimal text of `n`, with a leading minus sign when negative.
pub open spec fn spec_int_text(n: int) -> Seq<char> {
    if n < 0 {
        seq!['-'] + spec_decimal(-n)
    } else {
        spec_decimal(n)
    }
}

/// The outcome of one blocking command evaluation: the captured lines when
/// the process succeeded, else a message naming the exit code (`-1` when the
/// process was ended by a signal and reported none).
pub fn blocking_outcome(success: bool, code: Option<i32>, lines: Vec<String>) -> (r: Result<
    Vec<String>,
    String,
>)
    ensures
        success ==> r == Ok::<Vec<String>, String>(lines),
        !success ==> (r matches Err(m) && m@ == "Non-zero exit code: "@ + spec_int_text(
            match code {
                Some(c) => c as int,
                None => -1,
            },
        )),
{
    if success {
        return Ok(lines);
    }
    let c: i32 = match code {
        Some(c) => c,
        None => -1,
    };
    let mut m = String::from_str("Non-zero exit code: ");
    if c < 0 {
        m.push('-');
        push_decimal(&mut m, (-(c as i64)) as u64);
        proof {
            assert(m@ =~= "Non-zero exit code: "@ + spec_int_text(c as int));
        }
    } else {
        push_decimal(&mut m, c as u64);
    }
    Err(m)
}

} // verus!
