//! What came of the child process, and the errors of a command.

use crate::style::{paint_red, red_code, shown_as};
use vstd::prelude::*;

verus! {

/// The text that `String::from_utf8_lossy` makes of `bytes`.
pub uninterp spec fn lossy_text(bytes: Seq<u8>) -> Seq<char>;

/// Decodes `bytes` with `String::from_utf8_lossy`. Not proved, but taken
/// from its documentation: the text depends on the bytes alone, valid UTF-8
/// is decoded as it is, and U+FFFD stands in place of what is not valid.
#[verifier::external_body]
pub(crate) fn decode_lossy(bytes: &[u8]) -> (text: String)
    ensures
        text@ == lossy_text(bytes@),
        vstd::utf8::valid_utf8(bytes@) ==> text@ == vstd::utf8::decode_utf8(bytes@),
{
    String::from_utf8_lossy(bytes).into_owned()
}

/// What is known of a child process that has ended.
#[derive(Debug)]
pub struct ExecutionResult {
    /// The exit code; `None` where the process was ended by a signal.
    pub code: Option<i32>,
    /// The exit status in words, as the platform describes it.
    pub status: String,
    /// All that the process wrote to its standard output.
    pub stdout: Vec<u8>,
    /// All that the process wrote to its standard error.
    pub stderr: Vec<u8>,
}

impl ExecutionResult {
    /// The process ended by itself, with exit code 0.
    pub open spec fn succeeded(&self) -> bool {
        self.code == Some(0i32)
    }

    /// Whether the process ended with success.
    pub fn success(&self) -> (ok: bool)
        ensures
            ok == self.succeeded(),
    {
        match self.code {
            Some(code) => code == 0,
            None => false,
        }
    }
}

/// Why a command did not end well.
#[derive(Debug)]
pub enum CommandError {
    /// No default target was found. Nothing was started.
    Configuration { cause: String },
    /// The child process could not be started.
    Io { cause: String },
    /// `cargo` ran and failed. The result is kept whole, beside its
    /// standard error as text in the form in which it is shown.
    Build { result: ExecutionResult, shown_stderr: String },
}

impl CommandError {
    /// The message that reports the error.
    pub open spec fn message_text(&self) -> Seq<char> {
        match self {
            CommandError::Configuration { cause } => {
                "Unable to find default target triple for your platform: "@ + cause@
            },
            CommandError::Io { cause } => cause@,
            CommandError::Build { result, shown_stderr } => {
                "Cargo error ("@ + result.status@ + "): "@ + shown_stderr@
            },
        }
    }

    /// Returns the message that reports the error.
    pub fn message(&self) -> (text: String)
        ensures
            text@ == self.message_text(),
    {
        match self {
            CommandError::Configuration { cause } => {
                let mut text = String::from_str(
                    "Unable to find default target triple for your platform: ",
                );
                text.append(cause.as_str());
                text
            },
            CommandError::Io { cause } => cause.clone(),
            CommandError::Build { result, shown_stderr } => {
                let mut text = String::from_str("Cargo error (");
                text.append(result.status.as_str());
                text.append("): ");
                text.append(shown_stderr.as_str());
                text
            },
        }
    }
}

/// Takes what came of starting the child process: its result, or the
/// reason why it could not be started. A process that ran is no error
/// here, whatever its exit status: the result is handed on unchanged.
pub fn run_outcome(spawned: Result<ExecutionResult, String>) -> (outcome: Result<
    ExecutionResult,
    CommandError,
>)
    ensures
        match spawned {
            Ok(result) => outcome == Ok::<ExecutionResult, CommandError>(result),
            Err(reason) => outcome == Err::<ExecutionResult, CommandError>(
                CommandError::Io { cause: reason },
            ),
        },
{
    match spawned {
        Ok(result) => Ok(result),
        Err(reason) => Err(CommandError::Io { cause: reason }),
    }
}

/// Tells a build that went well from one that failed. A result with
/// success is handed back unchanged. Any other becomes a build failure that
/// keeps the result and holds its standard error as text, in red where the
/// process writes colours. Standard error that is valid UTF-8 is shown as
/// it decodes.
pub fn require_success(result: ExecutionResult) -> (checked: Result<ExecutionResult, CommandError>)
    ensures
        match checked {
            Ok(kept) => result.succeeded() && kept == result,
            Err(error) => {
                &&& !result.succeeded()
                &&& error matches CommandError::Build { result: kept, shown_stderr }
                &&& kept == result
                &&& shown_as(shown_stderr@, red_code(), lossy_text(result.stderr@))
                &&& vstd::utf8::valid_utf8(result.stderr@) ==> shown_as(
                    shown_stderr@,
                    red_code(),
                    vstd::utf8::decode_utf8(result.stderr@),
                )
            },
        },
{
    if result.success() {
        Ok(result)
    } else {
        let text = decode_lossy(result.stderr.as_slice());
        let shown = paint_red(text.as_str());
        Err(CommandError::Build { result, shown_stderr: shown })
    }
}

} // verus!
