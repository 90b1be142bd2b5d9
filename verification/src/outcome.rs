//! What the caller reports back after performing an action.

use crate::error::ErrorKind;
use vstd::prelude::*;
use vstd::utf8::{decode_utf8, valid_utf8};

verus! {

/// The error of `core::str::from_utf8`. It is passed along unopened.
#[verifier::external_type_specification]
#[verifier::external_body]
pub struct ExUtf8Error(core::str::Utf8Error);

/// How an action ended.
#[derive(Debug, PartialEq, Eq)]
pub enum Outcome {
    /// The collaborator did its work. `output` is what it wrote to its
    /// standard output, if it is a tool that writes any.
    Completed { output: Vec<u8> },
    /// The collaborator failed.
    Failed { kind: ErrorKind, detail: String },
}

/// What an [`Outcome`] holds, as plain sequences.
pub enum OutcomeView {
    Completed { output: Seq<u8> },
    Failed { kind: ErrorKind, detail: Seq<char> },
}

impl View for Outcome {
    type V = OutcomeView;

    open spec fn view(&self) -> OutcomeView {
        match self {
            Outcome::Completed { output } => OutcomeView::Completed { output: output@ },
            Outcome::Failed { kind, detail } => OutcomeView::Failed {
                kind: *kind,
                detail: detail@,
            },
        }
    }
}

/// The outcome of a tool that ran as a process of its own. A process
/// succeeded if it ended by itself with status zero; any other status, and
/// an end without a status, is a failure of the stage.
pub open spec fn exit_outcome(status: Option<i32>, output: Seq<u8>) -> OutcomeView {
    match status {
        Some(code) => if code == 0 {
            OutcomeView::Completed { output }
        } else {
            OutcomeView::Failed {
                kind: ErrorKind::Io,
                detail: "the tool ended with a failure status"@,
            }
        },
        None => OutcomeView::Failed {
            kind: ErrorKind::Io,
            detail: "the tool ended without a status"@,
        },
    }
}

/// The handle that a tool printed: its output without the line end that
/// closes it, read as UTF-8. `None` where that is not valid UTF-8.
pub open spec fn handle_text(output: Seq<u8>) -> Option<Seq<char>>
    recommends
        output.len() > 0,
{
    if valid_utf8(output.drop_last()) {
        Some(decode_utf8(output.drop_last()))
    } else {
        None
    }
}

/// Calls `core::str::from_utf8`. The call succeeds exactly on valid UTF-8,
/// and the text it gives back is the one that the bytes encode.
#[verifier::external_body]
fn text_of(bytes: &[u8]) -> (text: Result<&str, core::str::Utf8Error>)
    ensures
        text is Ok <==> valid_utf8(bytes@),
        text matches Ok(decoded) ==> decoded@ == decode_utf8(bytes@),
{
    core::str::from_utf8(bytes)
}

/// Reads the handle that a tool printed on its standard output: drops the
/// last byte, which ends the line, and decodes the rest as UTF-8.
///
/// Returns `None` exactly where the rest is not valid UTF-8.
pub fn parse_handle(output: &[u8]) -> (handle: Option<String>)
    requires
        output@.len() > 0,
    ensures
        handle is Some <==> handle_text(output@) is Some,
        handle matches Some(text) ==> handle_text(output@) == Some(text@),
{
    let line = vstd::slice::slice_subrange(output, 0, output.len() - 1);
    match text_of(line) {
        Ok(text) => Some(text.to_owned()),
        Err(_) => None,
    }
}

impl Outcome {
    /// Judges a tool that ran as a process of its own by its exit status:
    /// `Some(0)` completes the stage and hands on the output, anything else
    /// fails it.
    pub fn of_process(status: Option<i32>, output: Vec<u8>) -> (outcome: Outcome)
        ensures
            outcome@ == exit_outcome(status, output@),
    {
        match status {
            Some(code) => {
                if code == 0 {
                    Outcome::Completed { output }
                } else {
                    Outcome::Failed {
                        kind: ErrorKind::Io,
                        detail: "the tool ended with a failure status".to_owned(),
                    }
                }
            },
            None => Outcome::Failed {
                kind: ErrorKind::Io,
                detail: "the tool ended without a status".to_owned(),
            },
        }
    }

    /// Returns whether the collaborator did its work.
    pub fn is_completed(&self) -> (completed: bool)
        ensures
            completed == (self@ is Completed),
    {
        match self {
            Outcome::Completed { .. } => true,
            Outcome::Failed { .. } => false,
        }
    }
}

} // verus!
