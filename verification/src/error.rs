//! The one error type of a build.

use crate::stage::Stage;
use vstd::prelude::*;

verus! {

/// Where a failure came from. The kind is for the log; nothing in a build
/// branches on it.
#[derive(Clone, Copy, Debug, PartialEq, Eq, Structural)]
pub enum ErrorKind {
    /// A tool could not be started, read from or waited for, or it ended
    /// unsuccessfully.
    Io,
    /// A tool's output was expected to be text and is not valid UTF-8.
    Encoding,
    /// A collaborating library reported a failure of its own.
    Collaborator,
    /// The name of the invoking user could not be determined.
    Identity,
}

impl ErrorKind {
    /// The kind's name in diagnostics.
    pub open spec fn label(self) -> Seq<char> {
        match self {
            ErrorKind::Io => "i/o"@,
            ErrorKind::Encoding => "encoding"@,
            ErrorKind::Collaborator => "collaborator"@,
            ErrorKind::Identity => "identity"@,
        }
    }

    /// Returns the kind's name for diagnostics.
    pub fn name(&self) -> (text: String)
        ensures
            text@ == self.label(),
    {
        match self {
            ErrorKind::Io => "i/o".to_owned(),
            ErrorKind::Encoding => "encoding".to_owned(),
            ErrorKind::Collaborator => "collaborator".to_owned(),
            ErrorKind::Identity => "identity".to_owned(),
        }
    }
}

/// The failure of a build: the stage that failed, the kind of failure, and
/// what the collaborator said about it.
#[derive(Debug, PartialEq, Eq)]
pub struct PipelineError {
    pub stage: Stage,
    pub kind: ErrorKind,
    pub detail: String,
}

/// What a [`PipelineError`] holds, with the detail as a plain sequence.
pub struct ErrorView {
    pub stage: Stage,
    pub kind: ErrorKind,
    pub detail: Seq<char>,
}

impl ErrorView {
    /// The one-line diagnostic of the failure.
    pub open spec fn message(self) -> Seq<char> {
        "stage "@ + self.stage.label() + " failed ("@ + self.kind.label() + "): "@ + self.detail
    }
}

impl View for PipelineError {
    type V = ErrorView;

    open spec fn view(&self) -> ErrorView {
        ErrorView { stage: self.stage, kind: self.kind, detail: self.detail@ }
    }
}

impl DeepView for PipelineError {
    type V = ErrorView;

    open spec fn deep_view(&self) -> ErrorView {
        self.view()
    }
}

impl Clone for PipelineError {
    fn clone(&self) -> (copy: PipelineError)
        ensures
            copy@ == self@,
    {
        PipelineError { stage: self.stage, kind: self.kind, detail: self.detail.clone() }
    }
}

impl PipelineError {
    /// Returns the one-line diagnostic of the failure: the stage, the kind
    /// and the collaborator's own words.
    pub fn message(&self) -> (text: String)
        ensures
            text@ == self@.message(),
    {
        let mut text = "stage ".to_owned();
        let stage = self.stage.name();
        text.append(stage.as_str());
        text.append(" failed (");
        let kind = self.kind.name();
        text.append(kind.as_str());
        text.append("): ");
        text.append(self.detail.as_str());
        text
    }
}

} // verus!
