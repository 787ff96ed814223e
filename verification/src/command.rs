//! External commands as plain values: the command line to run, what came back
//! from running it, and how an outcome turns into a result or an error.
//! Spawning the process is left to the caller; the functions here take what
//! came back.
use vstd::prelude::*;

use crate::error::{AudioError, AudioResult, ErrorText};
use crate::text::{concat2, decimal, decimal_i32, chars_of, trim, trim_range, string_from_range};

verus! {

/// A program and its arguments.
#[derive(Clone, Debug)]
pub struct CommandLine {
    pub program: String,
    pub args: Vec<String>,
}

/// A command line as plain text: the program and each argument.
pub type CommandText = (Seq<char>, Seq<Seq<char>>);

impl View for CommandLine {
    type V = CommandText;

    open spec fn view(&self) -> CommandText {
        (self.program@, self.args@.map_values(|a: String| a@))
    }
}

/// What a finished process handed back: its exit code (`None` when a signal
/// ended it) and the bytes it wrote.
#[derive(Clone, Debug)]
pub struct CommandOutput {
    pub exit_code: Option<i32>,
    pub stdout: Vec<u8>,
    pub stderr: Vec<u8>,
}

/// The outcome of starting a command: what it handed back, or the text of the
/// error that kept it from starting.
pub type SpawnResult = Result<CommandOutput, String>;

/// A command line built from a program name and arguments.
pub fn command_line(program: &str, args: &[&str]) -> (c: CommandLine)
    ensures
        c@ == (program@, args@.map_values(|a: &str| a@)),
{
    let mut v: Vec<String> = Vec::new();
    let mut i: usize = 0;
    while i < args.len()
        invariant
            i <= args@.len(),
            v@.len() == i,
            forall|j: int| 0 <= j < i ==> #[trigger] v@[j]@ == args@[j]@,
        decreases args@.len() - i,
    {
        v.push(String::from_str(args[i]));
        i = i + 1;
    }
    assert(v@.map_values(|a: String| a@) =~= args@.map_values(|a: &str| a@));
    CommandLine { program: String::from_str(program), args: v }
}

// ---------------------------------------------------------------------------
// Rendering a command line
// ---------------------------------------------------------------------------

/// The parts joined by single spaces.
pub open spec fn join_spaced(parts: Seq<Seq<char>>) -> Seq<char>
    decreases parts.len(),
{
    if parts.len() == 0 {
        seq![]
    } else if parts.len() == 1 {
        parts[0]
    } else {
        join_spaced(parts.drop_last()) + " "@ + parts.last()
    }
}

/// A command line as a shell user would type it: the program, then each
/// argument after a single space.
pub open spec fn rendered(c: CommandText) -> Seq<char> {
    if c.1.len() == 0 {
        c.0
    } else {
        c.0 + " "@ + join_spaced(c.1)
    }
}

/// The command line as text, for error messages.
pub fn render_command(cmd: &CommandLine) -> (s: String)
    ensures
        s@ == rendered(cmd@),
{
    let ghost parts = cmd@.1;
    if cmd.args.len() == 0 {
        return cmd.program.clone();
    }
    let mut joined = String::new();
    let mut i: usize = 0;
    while i < cmd.args.len()
        invariant
            parts == cmd.args@.map_values(|a: String| a@),
            i <= cmd.args@.len(),
            joined@ == join_spaced(parts.take(i as int)),
        decreases cmd.args@.len() - i,
    {
        if i != 0 {
            joined.append(" ");
        }
        joined.append(cmd.args[i].as_str());
        assert(parts.take(i + 1).drop_last() =~= parts.take(i as int));
        i = i + 1;
    }
    assert(parts.take(cmd.args@.len() as int) =~= parts);
    let mut s = cmd.program.clone();
    s.append(" ");
    s.append(joined.as_str());
    s
}

// ---------------------------------------------------------------------------
// Decoding bytes
// ---------------------------------------------------------------------------

/// What `String::from_utf8_lossy` makes of `bytes`.
pub uninterp spec fn lossy_utf8(bytes: Seq<u8>) -> Seq<char>;

/// `String::from_utf8_lossy`: the text of `bytes`, each invalid sequence
/// replaced by U+FFFD. The contract names the result and states only that
/// valid UTF-8 is decoded unchanged.
#[verifier::external_body]
fn decode_lossy(bytes: &[u8]) -> (s: String)
    ensures
        s@ == lossy_utf8(bytes@),
        vstd::utf8::valid_utf8(bytes@) ==> s@ == vstd::utf8::decode_utf8(bytes@),
{
    String::from_utf8_lossy(bytes).into_owned()
}

/// The text of the error that `String::from_utf8` reports for `bytes`.
pub uninterp spec fn utf8_error_text(bytes: Seq<u8>) -> Seq<char>;

/// `String::from_utf8`: the text of `bytes` when they are valid UTF-8, else
/// the text (`Display`) of the error it reports. The contract names that error
/// text and does not spell it out.
#[verifier::external_body]
fn decode_strict(bytes: Vec<u8>) -> (r: Result<String, String>)
    ensures
        r is Ok <==> vstd::utf8::valid_utf8(bytes@),
        r matches Ok(s) ==> s@ == vstd::utf8::decode_utf8(bytes@),
        r matches Err(e) ==> e@ == utf8_error_text(bytes@),
{
    match String::from_utf8(bytes) {
        Ok(s) => Ok(s),
        Err(e) => Err(e.to_string()),
    }
}

// ---------------------------------------------------------------------------
// Outcomes
// ---------------------------------------------------------------------------

/// How a process ended, as the error details name it.
pub open spec fn status_text(code: Option<i32>) -> Seq<char> {
    match code {
        None => "terminated by signal"@,
        Some(c) => "exit status "@ + decimal(c as int),
    }
}

/// Standard error as text: decoded as is when it is valid UTF-8, else
/// decoded with each invalid sequence replaced.
pub open spec fn stderr_text(stderr: Seq<u8>) -> Seq<char> {
    if vstd::utf8::valid_utf8(stderr) {
        vstd::utf8::decode_utf8(stderr)
    } else {
        lossy_utf8(stderr)
    }
}

/// The details of a failed command: how it ended, then its trimmed standard
/// error if that is not empty.
pub open spec fn failure_details(code: Option<i32>, stderr: Seq<u8>) -> Seq<char> {
    let err = trim(stderr_text(stderr));
    if err.len() == 0 {
        status_text(code)
    } else {
        status_text(code) + ": "@ + err
    }
}

/// A process succeeded when it exited with code zero.
pub open spec fn succeeded(code: Option<i32>) -> bool {
    code == Some(0i32)
}

/// What `ensure_success` gives for a finished command.
pub open spec fn checked_output(cmd: CommandText, out: CommandOutput) -> Result<CommandOutput, ErrorText> {
    if succeeded(out.exit_code) {
        Ok(out)
    } else {
        Err((rendered(cmd), failure_details(out.exit_code, out.stderr@)))
    }
}

/// A result with the error taken as plain text.
pub open spec fn error_view<T>(r: AudioResult<T>) -> Result<T, ErrorText> {
    match r {
        Ok(t) => Ok(t),
        Err(e) => Err(e@),
    }
}

/// Passes the output of a command that exited with code zero; any other
/// ending becomes an error named after the command line.
pub fn ensure_success(cmd: &CommandLine, output: CommandOutput) -> (r: AudioResult<CommandOutput>)
    ensures
        error_view(r) == checked_output(cmd@, output),
{
    if output.exit_code == Some(0i32) {
        return Ok(output);
    }
    let status = match output.exit_code {
        None => String::from_str("terminated by signal"),
        Some(code) => concat2("exit status ", decimal_i32(code).as_str()),
    };
    let lossy = decode_lossy(output.stderr.as_slice());
    let chars = chars_of(lossy.as_str());
    let (a, b) = trim_range(&chars, 0, chars.len());
    assert(chars@.subrange(0, chars@.len() as int) =~= chars@);
    let stderr = string_from_range(&chars, a, b);
    let details = if stderr.as_str().is_empty() {
        status
    } else {
        let mut d = status;
        d.append(": ");
        d.append(stderr.as_str());
        d
    };
    Err(AudioError::new(render_command(cmd), details))
}

/// What `run_output` gives for a spawn outcome.
pub open spec fn spawn_checked(cmd: CommandText, spawned: SpawnResult) -> Result<CommandOutput, ErrorText> {
    match spawned {
        Ok(out) => Ok(out),
        Err(e) => Err(("spawn "@ + rendered(cmd), e@)),
    }
}

/// Turns a failure to start the command into an error naming it.
pub fn run_output(cmd: &CommandLine, spawned: SpawnResult) -> (r: AudioResult<CommandOutput>)
    ensures
        error_view(r) == spawn_checked(cmd@, spawned),
{
    match spawned {
        Ok(out) => Ok(out),
        Err(e) => Err(AudioError::new(concat2("spawn ", render_command(cmd).as_str()), e)),
    }
}

/// What `run_status` gives: success exactly when the command started and
/// exited with code zero.
pub open spec fn status_outcome(cmd: CommandText, spawned: SpawnResult) -> Result<(), ErrorText> {
    match spawn_checked(cmd, spawned) {
        Err(e) => Err(e),
        Ok(out) => match checked_output(cmd, out) {
            Err(e) => Err(e),
            Ok(_) => Ok(()),
        },
    }
}

/// The outcome of a command that is run only for its effect.
pub fn run_status(cmd: &CommandLine, spawned: SpawnResult) -> (r: AudioResult<()>)
    ensures
        error_view(r) == status_outcome(cmd@, spawned),
{
    let output = run_output(cmd, spawned)?;
    ensure_success(cmd, output)?;
    Ok(())
}

/// What `run_capture` gives: the decoded standard output of a command that
/// started and exited with code zero.
pub open spec fn capture_outcome(cmd: CommandText, spawned: SpawnResult) -> Result<Seq<char>, ErrorText> {
    match spawn_checked(cmd, spawned) {
        Err(e) => Err(e),
        Ok(out) => match checked_output(cmd, out) {
            Err(e) => Err(e),
            Ok(o) => if vstd::utf8::valid_utf8(o.stdout@) {
                Ok(vstd::utf8::decode_utf8(o.stdout@))
            } else {
                Err(("decode stdout from "@ + rendered(cmd), utf8_error_text(o.stdout@)))
            },
        },
    }
}

/// A captured result with the text taken as plain characters.
pub open spec fn text_view(r: AudioResult<String>) -> Result<Seq<char>, ErrorText> {
    match r {
        Ok(s) => Ok(s@),
        Err(e) => Err(e@),
    }
}

/// The standard output of a command that is run for what it prints.
pub fn run_capture(cmd: &CommandLine, spawned: SpawnResult) -> (r: AudioResult<String>)
    ensures
        text_view(r) == capture_outcome(cmd@, spawned),
{
    let output = run_output(cmd, spawned)?;
    let output = ensure_success(cmd, output)?;
    match decode_strict(output.stdout) {
        Ok(s) => Ok(s),
        Err(e) => Err(
            AudioError::new(concat2("decode stdout from ", render_command(cmd).as_str()), e),
        ),
    }
}

} // verus!
