//! The build itself: which action is due, and what an outcome leads to.
//!
//! A [`Pipeline`] never touches the outside world. Its caller asks for the
//! pending [`Action`], performs it, and reports the [`Outcome`]; the
//! pipeline answers with the following action until it hands out
//! [`Action::Finish`] or [`Action::Abort`]. A stage that fails ends the
//! build at once: nothing is retried and nothing is undone.

use crate::action::{action_for, action_of, Action, ActionView};
use crate::error::{ErrorKind, ErrorView, PipelineError};
use crate::outcome::{handle_text, parse_handle, Outcome, OutcomeView};
use crate::request::{BuildRequest, RequestView};
use crate::stage::Stage;
use vstd::prelude::*;

verus! {

/// How far a build has come.
pub enum ProgressView {
    /// The action of `stage` is due, or under way.
    Running { stage: Stage },
    /// Every stage succeeded.
    Succeeded,
    /// A stage failed, and the build ended there.
    Failed { error: ErrorView },
}

/// The state of a build.
pub struct PipelineView {
    /// What was asked for. It never changes during a build.
    pub request: RequestView,
    /// How far the build has come.
    pub progress: ProgressView,
    /// The name of the working container, once it is created.
    pub image: Seq<char>,
    /// The mount point of the working container, once it is mounted.
    pub mount: Seq<char>,
}

/// What is said of a tool whose output should name a handle and is no text.
pub open spec fn unreadable_output() -> Seq<char> {
    "the tool's output is not valid UTF-8"@
}

/// The handle that a tool named when it completed.
pub open spec fn named(outcome: OutcomeView) -> Seq<char>
    recommends
        outcome matches OutcomeView::Completed { output } && handle_text(output) is Some,
{
    match outcome {
        OutcomeView::Completed { output } => handle_text(output).unwrap(),
        OutcomeView::Failed { .. } => Seq::empty(),
    }
}

impl PipelineView {
    /// The state in which every build begins: the first stage is due, and
    /// no handle is known yet.
    pub open spec fn start(request: RequestView) -> PipelineView {
        PipelineView {
            request,
            progress: ProgressView::Running { stage: Stage::Create },
            image: Seq::empty(),
            mount: Seq::empty(),
        }
    }

    /// The stage in flight belongs to the build, and the request is one
    /// that a machine can hold.
    pub open spec fn wf(self) -> bool {
        &&& self.request.extras() <= usize::MAX
        &&& (self.progress matches ProgressView::Running { stage } ==> self.request.has_stage(
            stage,
        ))
    }

    /// The stage whose action is due, if the build has not ended.
    pub open spec fn in_flight(self) -> Option<Stage> {
        match self.progress {
            ProgressView::Running { stage } => Some(stage),
            _ => None,
        }
    }

    /// Whether the pending action's output names a handle that later
    /// actions need.
    pub open spec fn awaits_handle(self) -> bool {
        self.in_flight() == Some(Stage::Create) || self.in_flight() == Some(Stage::Mount)
    }

    /// Whether `outcome` can be reported in this state. A tool that names a
    /// handle ends it with a line end, so its output is never empty.
    pub open spec fn admits(self, outcome: OutcomeView) -> bool {
        self.awaits_handle() ==> (outcome matches OutcomeView::Completed { output }
            ==> output.len() > 0)
    }

    /// The action that is due.
    pub open spec fn pending(self) -> ActionView {
        match self.progress {
            ProgressView::Running { stage } => action_of(
                stage,
                self.request,
                self.image,
                self.mount,
            ),
            ProgressView::Succeeded => ActionView::Finish {
                archive: self.request.profile.archive_label(),
            },
            ProgressView::Failed { error } => ActionView::Abort { error },
        }
    }

    /// The failure that `outcome` means for the stage in flight, if it
    /// means one: the collaborator's own failure, or a handle that cannot
    /// be read.
    pub open spec fn failure(self, outcome: OutcomeView) -> Option<ErrorView> {
        match self.progress {
            ProgressView::Running { stage } => match outcome {
                OutcomeView::Failed { kind, detail } => Some(ErrorView { stage, kind, detail }),
                OutcomeView::Completed { output } => if self.awaits_handle() && handle_text(
                    output,
                ) is None {
                    Some(
                        ErrorView {
                            stage,
                            kind: ErrorKind::Encoding,
                            detail: unreadable_output(),
                        },
                    )
                } else {
                    None
                },
            },
            _ => None,
        }
    }

    /// The progress after the stage in flight has succeeded.
    pub open spec fn following(self, stage: Stage) -> ProgressView {
        match stage.successor(self.request.extras(), self.request.cleanup()) {
            Some(next) => ProgressView::Running { stage: next },
            None => ProgressView::Succeeded,
        }
    }

    /// The state after `outcome` is reported for the pending action.
    ///
    /// A build that has ended stays as it is. A failure ends the build with
    /// the error of the stage in flight. A success moves on to the
    /// following stage, and where the stage names a handle, keeps it.
    pub open spec fn after(self, outcome: OutcomeView) -> PipelineView {
        match self.progress {
            ProgressView::Running { stage } => match self.failure(outcome) {
                Some(error) => PipelineView { progress: ProgressView::Failed { error }, ..self },
                None => PipelineView {
                    progress: self.following(stage),
                    image: if stage is Create {
                        named(outcome)
                    } else {
                        self.image
                    },
                    mount: if stage is Mount {
                        named(outcome)
                    } else {
                        self.mount
                    },
                    ..self
                },
            },
            _ => self,
        }
    }

    /// The state after the outcomes are reported one after the other.
    pub open spec fn run(self, outcomes: Seq<OutcomeView>) -> PipelineView
        decreases outcomes.len(),
    {
        if outcomes.len() == 0 {
            self
        } else {
            self.run(outcomes.drop_last()).after(outcomes.last())
        }
    }
}

enum Progress {
    Running { stage: Stage },
    Succeeded,
    Failed { error: PipelineError },
}

impl View for Progress {
    type V = ProgressView;

    closed spec fn view(&self) -> ProgressView {
        match self {
            Progress::Running { stage } => ProgressView::Running { stage: *stage },
            Progress::Succeeded => ProgressView::Succeeded,
            Progress::Failed { error } => ProgressView::Failed { error: error@ },
        }
    }
}

/// A build in progress.
pub struct Pipeline {
    request: BuildRequest,
    progress: Progress,
    image: String,
    mount: String,
}

impl View for Pipeline {
    type V = PipelineView;

    closed spec fn view(&self) -> PipelineView {
        PipelineView {
            request: self.request@,
            progress: self.progress@,
            image: self.image@,
            mount: self.mount@,
        }
    }
}

impl Pipeline {
    #[verifier::type_invariant]
    spec fn inv(self) -> bool {
        self@.wf()
    }

    /// Begins a build: the first stage is due.
    pub fn new(request: BuildRequest) -> (pipeline: Pipeline)
        ensures
            pipeline@ == PipelineView::start(request@),
            pipeline@.wf(),
    {
        assert(request@.extra_repositories.len() == request.extra_repositories.len());
        Pipeline {
            request,
            progress: Progress::Running { stage: Stage::Create },
            image: String::new(),
            mount: String::new(),
        }
    }

    /// Returns what was asked for.
    pub fn request(&self) -> (request: &BuildRequest)
        ensures
            request@ == self@.request,
    {
        &self.request
    }

    /// Returns the stage whose action is due, or `None` once the build has
    /// ended.
    pub fn stage(&self) -> (stage: Option<Stage>)
        ensures
            stage == self@.in_flight(),
    {
        match &self.progress {
            Progress::Running { stage } => Some(*stage),
            _ => None,
        }
    }

    /// Returns whether the pending action's output names a handle.
    pub fn awaits_handle(&self) -> (awaited: bool)
        ensures
            awaited == self@.awaits_handle(),
    {
        match &self.progress {
            Progress::Running { stage } => match stage {
                Stage::Create => true,
                Stage::Mount => true,
                _ => false,
            },
            _ => false,
        }
    }

    /// Returns whether `outcome` can be reported now: it cannot where a
    /// handle is awaited and the tool completed without any output.
    pub fn admits(&self, outcome: &Outcome) -> (admitted: bool)
        ensures
            admitted == self@.admits(outcome@),
    {
        if self.awaits_handle() {
            match outcome {
                Outcome::Completed { output } => output.len() > 0,
                Outcome::Failed { .. } => true,
            }
        } else {
            true
        }
    }

    /// Returns the action that is due: the action of the stage in flight,
    /// or the final action once the build has ended.
    pub fn action(&self) -> (action: Action)
        ensures
            action@ == self@.pending(),
    {
        proof {
            use_type_invariant(self);
        }
        match &self.progress {
            Progress::Running { stage } => action_for(
                *stage,
                &self.request,
                &self.image,
                &self.mount,
            ),
            Progress::Succeeded => Action::Finish { archive: self.request.profile.archive_name() },
            Progress::Failed { error } => Action::Abort { error: error.clone() },
        }
    }

    /// Takes in how the pending action ended.
    ///
    /// A failure ends the build with an error that names the stage in
    /// flight; so does a handle that is no text. A success makes the
    /// following stage due, or ends the build after the last one. Once the
    /// build has ended, a report changes nothing.
    pub fn report(&mut self, outcome: Outcome)
        requires
            old(self)@.admits(outcome@),
        ensures
            final(self)@ == old(self)@.after(outcome@),
            final(self)@.wf(),
    {
        proof {
            use_type_invariant(&*self);
        }
        let stage = match &self.progress {
            Progress::Running { stage } => *stage,
            _ => {
                return ;
            },
        };
        let cleanup = self.request.has_cleanup();
        let extras = self.request.extra_repositories.len();
        proof {
            crate::stage::lemma_successor_advances(stage, extras as nat, cleanup);
        }
        let following = match stage.next(extras, cleanup) {
            Some(next) => Progress::Running { stage: next },
            None => Progress::Succeeded,
        };
        match outcome {
            Outcome::Failed { kind, detail } => {
                self.progress = Progress::Failed { error: PipelineError { stage, kind, detail } };
            },
            Outcome::Completed { output } => {
                match stage {
                    Stage::Create => {
                        match parse_handle(output.as_slice()) {
                            Some(handle) => {
                                self.image = handle;
                                self.progress = following;
                            },
                            None => {
                                self.progress = Progress::Failed {
                                    error: unreadable(stage),
                                };
                            },
                        }
                    },
                    Stage::Mount => {
                        match parse_handle(output.as_slice()) {
                            Some(handle) => {
                                self.mount = handle;
                                self.progress = following;
                            },
                            None => {
                                self.progress = Progress::Failed {
                                    error: unreadable(stage),
                                };
                            },
                        }
                    },
                    _ => {
                        self.progress = following;
                    },
                }
            },
        }
    }
}

fn unreadable(stage: Stage) -> (error: PipelineError)
    ensures
        error@ == (ErrorView { stage, kind: ErrorKind::Encoding, detail: unreadable_output() }),
{
    PipelineError {
        stage,
        kind: ErrorKind::Encoding,
        detail: "the tool's output is not valid UTF-8".to_owned(),
    }
}

} // verus!
