//! One request, from the bytes received to the result record: decoding the
//! command, the script fed to the interpreter, and what is returned for each
//! way the interpreter can end.
//!
//! Commands run in interactive pipe mode: the interpreter reads the command
//! from its standard input, followed by a line that exits with the status of
//! that command, all under a deadline of `CMD_TIMEOUT_SECS` seconds.
use vstd::prelude::*;

verus! {

/// The most bytes read for one request; the rest of a longer one is dropped.
pub const BUF_SIZE: usize = 65536;

/// Wall-clock deadline for writing the script, waiting and draining output.
pub const CMD_TIMEOUT_SECS: u64 = 10;

/// The line that makes the interpreter exit with the status of the command
/// that ran before it.
pub const EXIT_LINE: &'static str = "exit $?\n";

/// What `String::from_utf8_lossy` makes of some bytes.
pub uninterp spec fn lossy_utf8(b: Seq<u8>) -> Seq<char>;

/// What `str::trim` makes of a text.
pub uninterp spec fn trimmed(s: Seq<char>) -> Seq<char>;

/// Relies on String::from_utf8_lossy: decodes the bytes, putting U+FFFD in
/// place of invalid sequences; it never fails.
#[verifier::external_body]
fn decode_lossy(b: &[u8]) -> (r: String)
    ensures
        r@ == lossy_utf8(b@),
{
    String::from_utf8_lossy(b).into_owned()
}

/// Relies on str::trim: the text without leading and trailing whitespace.
#[verifier::external_body]
fn trim_text(s: &str) -> (r: String)
    ensures
        r@ == trimmed(s@),
        s@.len() == 0 ==> r@.len() == 0,
{
    s.trim().to_string()
}

/// The part of a received buffer that a request holds.
pub open spec fn request_bytes(received: Seq<u8>) -> Seq<u8> {
    if received.len() <= BUF_SIZE {
        received
    } else {
        received.take(BUF_SIZE as int)
    }
}

/// The command carried by the received bytes: at most `BUF_SIZE` of them,
/// decoded lossily and trimmed.
pub fn command_from_bytes(received: &[u8]) -> (r: String)
    ensures
        r@ == trimmed(lossy_utf8(request_bytes(received@))),
{
    let n = if received.len() <= BUF_SIZE {
        received.len()
    } else {
        BUF_SIZE
    };
    let part = vstd::slice::slice_subrange(received, 0, n);
    assert(part@ =~= request_bytes(received@));
    let text = decode_lossy(part);
    trim_text(text.as_str())
}

/// The text written to the interpreter's standard input for a command.
pub open spec fn script_text(command: Seq<char>) -> Seq<char> {
    command + seq!['\n'] + EXIT_LINE@
}

/// The script for `command`: the command on a line of its own, then the
/// line that exits with its status.
pub fn stdin_script(command: &str) -> (r: String)
    ensures
        r@ == script_text(command@),
{
    let s = String::from_str(command);
    let s = s.concat("\n");
    proof {
        reveal_strlit("\n");
        assert("\n"@ =~= seq!['\n']);
    }
    s.concat(EXIT_LINE)
}

/// How the interpreter ended, as far as the handler saw it.
#[derive(Debug, Clone, Copy, PartialEq, Eq, Structural)]
pub enum ExitStatus {
    /// It exited with this code.
    Code(i32),
    /// It ended without a code (killed by a signal).
    NoCode,
    /// The deadline passed before it ended.
    Pending,
}

/// Why a request produced no result.
#[derive(Debug, Clone, Copy, PartialEq, Eq, Structural)]
pub enum ExecError {
    /// The interpreter ended without an exit code.
    NoExitCode,
}

/// The reply to one command.
#[derive(Debug)]
pub struct ExecutionResult {
    pub stdout: String,
    pub stderr: String,
    pub exit_code: i32,
}

/// A captured stream's text, or the empty text where it was not captured.
pub open spec fn captured(s: Option<String>) -> Seq<char> {
    match s {
        Some(t) => t@,
        None => Seq::empty(),
    }
}

impl ExecutionResult {
    /// The reply for an interpreter that ended as `status`, with the output
    /// that was captured before the deadline. An interpreter that ended
    /// without a code yields no reply; one still running at the deadline
    /// yields exit code 0 with whatever output was captured.
    pub fn from_outcome(status: ExitStatus, stdout: Option<String>, stderr: Option<String>) -> (r:
        Result<ExecutionResult, ExecError>)
        ensures
            status == ExitStatus::NoCode <==> r == Err::<ExecutionResult, ExecError>(
                ExecError::NoExitCode,
            ),
            r matches Ok(res) ==> {
                &&& res.stdout@ == captured(stdout)
                &&& res.stderr@ == captured(stderr)
                &&& res.exit_code == match status {
                    ExitStatus::Code(c) => c,
                    _ => 0,
                }
            },
    {
        let exit_code: i32 = match status {
            ExitStatus::Code(c) => c,
            ExitStatus::NoCode => {
                return Err(ExecError::NoExitCode);
            },
            ExitStatus::Pending => 0,
        };
        let stdout = match stdout {
            Some(t) => t,
            None => String::new(),
        };
        let stderr = match stderr {
            Some(t) => t,
            None => String::new(),
        };
        Ok(ExecutionResult { stdout, stderr, exit_code })
    }
}

} // verus!
