use std::time::Duration;
use vstd::prelude::*;
use vstd::utf8::{decode_utf8, valid_utf8};

use crate::outside::{duration_text, io_error_text, json_error_text};
use crate::text::{append_signed, signed_decimal};

verus! {

/// Failures of running a provider's command-line tool.
#[derive(Debug)]
pub enum ExecError {
    Spawn(String, std::io::Error),
    Timeout(String, Duration),
    NonZeroExit(String, i32, String),
    JsonParse(String, serde_json::Error),
}

/// `text` is a message that shows `e`: fixed wording around the command's
/// name, with the texts that I/O errors, durations and JSON errors give of
/// themselves left open.
pub open spec fn shows_exec_error(e: ExecError, text: Seq<char>) -> bool {
    match e {
        ExecError::Spawn(b, _) => exists|t: Seq<char>|
            text == "failed to spawn process '"@ + b@ + "': "@ + t,
        ExecError::Timeout(b, _) => exists|t: Seq<char>|
            text == "process '"@ + b@ + "' timed out after "@ + t,
        ExecError::NonZeroExit(b, code, out) => text == "process '"@ + b@ + "' exited with status "@
            + signed_decimal(code as int) + ": "@ + out@,
        ExecError::JsonParse(b, _) => exists|t: Seq<char>|
            text == "failed to parse output of '"@ + b@ + "' as JSON: "@ + t,
    }
}

impl ExecError {
    /// The text of the error, as it is shown to users. The texts that the
    /// I/O error, the duration and the JSON error give of themselves come
    /// from their own `Display` or `Debug` and are not stated.
    pub fn message(&self) -> (r: String)
        ensures
            shows_exec_error(*self, r@),
    {
        match self {
            ExecError::Spawn(b, e) => {
                let mut r = String::from_str("failed to spawn process '");
                r.append(b.as_str());
                r.append("': ");
                let t = io_error_text(e);
                r.append(t.as_str());
                r
            },
            ExecError::Timeout(b, d) => {
                let mut r = String::from_str("process '");
                r.append(b.as_str());
                r.append("' timed out after ");
                let t = duration_text(*d);
                r.append(t.as_str());
                r
            },
            ExecError::NonZeroExit(b, code, text) => {
                let mut r = String::from_str("process '");
                r.append(b.as_str());
                r.append("' exited with status ");
                append_signed(&mut r, *code);
                r.append(": ");
                r.append(text.as_str());
                r
            },
            ExecError::JsonParse(b, e) => {
                let mut r = String::from_str("failed to parse output of '");
                r.append(b.as_str());
                r.append("' as JSON: ");
                let t = json_error_text(e);
                r.append(t.as_str());
                r
            },
        }
    }
}

/// What a successful run of a command printed.
pub struct ExecOutput {
    pub stdout: String,
    pub stderr: String,
}

/// How a run of a command ended, as the operating system reports it.
pub enum ProcessOutcome {
    /// The command did not finish within the runner's timeout.
    TimedOut,
    /// The command could not be started.
    SpawnFailed(std::io::Error),
    /// The command exited; `code` is its exit code, when it has one.
    Exited { success: bool, code: Option<i32>, stdout: Vec<u8>, stderr: Vec<u8> },
}

/// The text that `String::from_utf8_lossy` makes of `bytes`.
pub uninterp spec fn lossy_utf8(bytes: Seq<u8>) -> Seq<char>;

/// `String::from_utf8_lossy` (std), made an owned string: the text of
/// `bytes`, with each invalid sequence replaced by U+FFFD. Stated here: the
/// result is `lossy_utf8` of the bytes, and valid UTF-8 decodes unchanged.
#[verifier::external_body]
fn utf8_lossy(bytes: &[u8]) -> (s: String)
    ensures
        s@ == lossy_utf8(bytes@),
        valid_utf8(bytes@) ==> s@ == decode_utf8(bytes@),
{
    String::from_utf8_lossy(bytes).into_owned()
}

/// The `Duration` that `Duration::from_secs` makes of `secs`.
pub uninterp spec fn duration_from_secs(secs: u64) -> Duration;

/// `Duration::from_secs` (std): a duration of `secs` whole seconds, named
/// by `duration_from_secs`.
#[verifier::external_body]
fn seconds(secs: u64) -> (d: Duration)
    ensures
        d == duration_from_secs(secs),
{
    Duration::from_secs(secs)
}

/// Runs a provider's command-line tool; any provider without a Rust SDK
/// builds on this.
pub struct CliRunner {
    binary: String,
    default_timeout: Duration,
}

/// The timeout that a new runner gives each run, in seconds.
pub const DEFAULT_TIMEOUT_SECS: u64 = 30;

/// The text of the error of a run that failed: standard error, or
/// standard output when standard error is empty.
pub open spec fn failure_text(stdout: Seq<char>, stderr: Seq<char>) -> Seq<char> {
    if stderr.len() == 0 {
        stdout
    } else {
        stderr
    }
}

impl CliRunner {
    /// The command that the runner runs.
    pub closed spec fn spec_binary(&self) -> Seq<char> {
        self.binary@
    }

    /// How long the runner lets each run take.
    pub closed spec fn spec_timeout(&self) -> Duration {
        self.default_timeout
    }

    /// A runner for `binary`, with the default timeout.
    pub fn new(binary: String) -> (r: Self)
        ensures
            r.spec_binary() == binary@,
            r.spec_timeout() == duration_from_secs(DEFAULT_TIMEOUT_SECS),
    {
        CliRunner { binary, default_timeout: seconds(DEFAULT_TIMEOUT_SECS) }
    }

    /// The same runner, with each run given `timeout`.
    pub fn with_timeout(self, timeout: Duration) -> (r: Self)
        ensures
            r.spec_binary() == self.spec_binary(),
            r.spec_timeout() == timeout,
    {
        let mut this = self;
        this.default_timeout = timeout;
        this
    }

    pub fn binary(&self) -> (r: &str)
        ensures
            r@ == self.spec_binary(),
    {
        self.binary.as_str()
    }

    pub fn default_timeout(&self) -> (r: Duration)
        ensures
            r == self.spec_timeout(),
    {
        self.default_timeout
    }

    /// The result of a run that ended as `outcome`: a timeout or a failure
    /// to start names the command; a command that exited with failure
    /// reports its exit code (-1 when it has none) and its error text; a
    /// successful one yields its output, decoded as UTF-8 text.
    pub fn finish(&self, outcome: ProcessOutcome) -> (r: Result<ExecOutput, ExecError>)
        ensures
            match outcome {
                ProcessOutcome::TimedOut => r matches Err(ExecError::Timeout(b, d)) && b@
                    == self.spec_binary() && d == self.spec_timeout(),
                ProcessOutcome::SpawnFailed(e) => r matches Err(ExecError::Spawn(b, e2)) && b@
                    == self.spec_binary() && e2 == e,
                ProcessOutcome::Exited { success, code, stdout, stderr } => {
                    let out = lossy_utf8(stdout@);
                    let err = lossy_utf8(stderr@);
                    if success {
                        r matches Ok(o) && o.stdout@ == out && o.stderr@ == err
                    } else {
                        r matches Err(ExecError::NonZeroExit(b, c, text)) && b@ == self.spec_binary()
                            && c == (match code {
                            Some(c) => c,
                            None => -1i32,
                        }) && text@ == failure_text(out, err)
                    }
                },
            },
    {
        match outcome {
            ProcessOutcome::TimedOut => Err(
                ExecError::Timeout(self.binary.clone(), self.default_timeout),
            ),
            ProcessOutcome::SpawnFailed(e) => Err(ExecError::Spawn(self.binary.clone(), e)),
            ProcessOutcome::Exited { success, code, stdout, stderr } => {
                let stdout = utf8_lossy(stdout.as_slice());
                let stderr = utf8_lossy(stderr.as_slice());
                if !success {
                    let code: i32 = match code {
                        Some(c) => c,
                        None => -1,
                    };
                    let text = if stderr.unicode_len() == 0 {
                        stdout.clone()
                    } else {
                        stderr.clone()
                    };
                    return Err(ExecError::NonZeroExit(self.binary.clone(), code, text));
                }
                Ok(ExecOutput { stdout, stderr })
            },
        }
    }

    /// The result of parsing a run's output as JSON: a parse failure names
    /// the command.
    pub fn json_result<T>(&self, parsed: Result<T, serde_json::Error>) -> (r: Result<T, ExecError>)
        ensures
            match parsed {
                Ok(v) => r matches Ok(w) && w == v,
                Err(e) => r matches Err(ExecError::JsonParse(b, e2)) && b@ == self.spec_binary()
                    && e2 == e,
            },
    {
        match parsed {
            Ok(v) => Ok(v),
            Err(e) => Err(ExecError::JsonParse(self.binary.clone(), e)),
        }
    }
}

} // verus!
