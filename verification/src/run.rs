//! What holds of every run of a build, whatever its collaborators report.
//!
//! A run is a build's first state together with the outcomes that are
//! reported to it, in order. The state after the first `k` of them is
//! `PipelineView::start(request).run(outcomes.take(k))`.

use crate::action::{action_of, ActionView, ChrootCommandView};
use crate::error::ErrorView;
use crate::outcome::OutcomeView;
use crate::pipeline::{named, PipelineView, ProgressView};
use crate::repository::{registered_repositories, RepositoryView};
use crate::request::RequestView;
use crate::stage::{
    lemma_place_holds_its_stage, lemma_stage_at_its_position, lemma_successor_advances, Stage,
};
use vstd::prelude::*;

verus! {

/// The repositories that an action registers.
pub open spec fn repositories_of(action: ActionView) -> Seq<RepositoryView> {
    match action {
        ActionView::Chroot { command: ChrootCommandView::AddRepository { repositories }, .. } =>
            repositories,
        _ => Seq::empty(),
    }
}

/// The repositories that are registered by the pending action of `state`
/// when `outcome` is reported for it: those of the action if it succeeded,
/// none otherwise.
pub open spec fn registered_by(state: PipelineView, outcome: OutcomeView) -> Seq<RepositoryView> {
    if state.failure(outcome) is None {
        repositories_of(state.pending())
    } else {
        Seq::empty()
    }
}

/// The repositories that are registered in the course of a run, in the
/// order in which they are registered.
pub open spec fn registered(state: PipelineView, outcomes: Seq<OutcomeView>) -> Seq<
    RepositoryView,
>
    decreases outcomes.len(),
{
    if outcomes.len() == 0 {
        Seq::empty()
    } else {
        registered(state, outcomes.drop_last()) + registered_by(
            state.run(outcomes.drop_last()),
            outcomes.last(),
        )
    }
}

/// The repositories that are registered once every stage before place `k`
/// has succeeded.
pub open spec fn registered_before(request: RequestView, k: nat) -> Seq<RepositoryView> {
    if k <= 8 {
        Seq::empty()
    } else if k < 9 + request.extras() {
        registered_repositories(request.extra_repositories.take(k - 9))
    } else {
        registered_repositories(request.extra_repositories)
    }
}

/// Reporting one more outcome is one step of the build.
pub proof fn lemma_run_step(state: PipelineView, outcomes: Seq<OutcomeView>, k: int)
    requires
        0 <= k < outcomes.len(),
    ensures
        state.run(outcomes.take(k + 1)) == state.run(outcomes.take(k)).after(outcomes[k]),
{
    assert(outcomes.take(k + 1).drop_last() =~= outcomes.take(k));
}

/// A run begins in its first state, and ends where all its outcomes lead.
pub proof fn lemma_run_ends(state: PipelineView, outcomes: Seq<OutcomeView>)
    ensures
        state.run(outcomes.take(0)) == state,
        state.run(outcomes.take(outcomes.len() as int)) == state.run(outcomes),
{
    assert(outcomes.take(outcomes.len() as int) =~= outcomes);
}

/// A report never changes what was asked for, and never leaves the build
/// at a stage that does not belong to it.
pub proof fn lemma_report_keeps_build(state: PipelineView, outcome: OutcomeView)
    requires
        state.wf(),
    ensures
        state.after(outcome).wf(),
        state.after(outcome).request == state.request,
{
    if let ProgressView::Running { stage } = state.progress {
        lemma_successor_advances(stage, state.request.extras(), state.request.cleanup());
    }
}

/// A run never changes what was asked for, and never leaves the build at a
/// stage that does not belong to it.
pub proof fn lemma_run_keeps_build(state: PipelineView, outcomes: Seq<OutcomeView>)
    requires
        state.wf(),
    ensures
        state.run(outcomes).wf(),
        state.run(outcomes).request == state.request,
    decreases outcomes.len(),
{
    if outcomes.len() > 0 {
        lemma_run_keeps_build(state, outcomes.drop_last());
        lemma_report_keeps_build(state.run(outcomes.drop_last()), outcomes.last());
    }
}

/// A build that has ended stays as it is, whatever is reported to it: it
/// asks for nothing more.
pub proof fn lemma_ended_build_is_settled(state: PipelineView, outcomes: Seq<OutcomeView>)
    requires
        state.in_flight() is None,
    ensures
        state.run(outcomes) == state,
        state.pending().is_final(),
    decreases outcomes.len(),
{
    if outcomes.len() > 0 {
        lemma_ended_build_is_settled(state, outcomes.drop_last());
    }
}

/// As long as a build is running, it has done exactly the stages before the
/// one in flight, each at its place: after `k` reports the stage at place
/// `k` is due, and after `i <= k` reports the stage at place `i` was.
pub proof fn lemma_run_follows_plan(request: RequestView, outcomes: Seq<OutcomeView>, k: int)
    requires
        request.extras() <= usize::MAX,
        0 <= k <= outcomes.len(),
        PipelineView::start(request).run(outcomes.take(k)).in_flight() is Some,
    ensures
        k < request.stages(),
        forall|i: int|
            0 <= i <= k ==> (#[trigger] PipelineView::start(request).run(
                outcomes.take(i),
            )).in_flight() == Some(request.stage_at(i as nat)),
    decreases k,
{
    let start = PipelineView::start(request);
    let extras = request.extras();
    let cleanup = request.cleanup();
    if k == 0 {
        lemma_run_ends(start, outcomes);
    } else {
        // The build was running one report earlier, or it would not be now.
        lemma_run_step(start, outcomes, k - 1);
        lemma_run_follows_plan(request, outcomes, k - 1);
        lemma_run_keeps_build(start, outcomes.take(k - 1));
        // It was at place `k - 1`, and has moved on by one.
        let stage = request.stage_at((k - 1) as nat);
        lemma_place_holds_its_stage((k - 1) as nat, extras, cleanup);
        lemma_successor_advances(stage, extras, cleanup);
        lemma_stage_at_its_position(stage.successor(extras, cleanup).unwrap(), extras, cleanup);
    }
}

/// Each handle is named once, by the stage that produces it, and kept as it
/// is from there on: while the build is running, the working container is
/// the one that the first tool named, and its mount point the one that the
/// second tool named.
pub proof fn lemma_handles_are_kept(request: RequestView, outcomes: Seq<OutcomeView>, k: int)
    requires
        request.extras() <= usize::MAX,
        0 <= k <= outcomes.len(),
        PipelineView::start(request).run(outcomes.take(k)).in_flight() is Some,
    ensures
        1 <= k ==> PipelineView::start(request).run(outcomes.take(k)).image == named(outcomes[0]),
        2 <= k ==> PipelineView::start(request).run(outcomes.take(k)).mount == named(outcomes[1]),
    decreases k,
{
    let start = PipelineView::start(request);
    if k > 0 {
        lemma_run_step(start, outcomes, k - 1);
        lemma_run_follows_plan(request, outcomes, k);
        lemma_place_holds_its_stage((k - 1) as nat, request.extras(), request.cleanup());
        if k > 1 {
            lemma_handles_are_kept(request, outcomes, k - 1);
        } else {
            lemma_run_ends(start, outcomes);
        }
    }
}

/// Every stage before the one in flight was due earlier, at its own place.
pub proof fn lemma_earlier_stages_were_due(
    request: RequestView,
    outcomes: Seq<OutcomeView>,
    k: int,
    earlier: Stage,
)
    requires
        request.extras() <= usize::MAX,
        0 <= k <= outcomes.len(),
        request.has_stage(earlier),
        PipelineView::start(request).run(outcomes.take(k)).in_flight() matches Some(later)
            && earlier.position(request.extras(), request.cleanup()) < later.position(
            request.extras(),
            request.cleanup(),
        ),
    ensures
        earlier.position(request.extras(), request.cleanup()) < k,
        PipelineView::start(request).run(
            outcomes.take(earlier.position(request.extras(), request.cleanup()) as int),
        ).in_flight() == Some(earlier),
{
    let extras = request.extras();
    let cleanup = request.cleanup();
    lemma_run_follows_plan(request, outcomes, k);
    lemma_place_holds_its_stage(k as nat, extras, cleanup);
    lemma_stage_at_its_position(earlier, extras, cleanup);
}

/// In every run the stages come in their fixed order. In particular the
/// key is imported before any repository is registered, every repository
/// is registered before the index is refreshed, the index is refreshed
/// before the profile's and the caller's packages are installed, and
/// nothing is removed before everything is installed.
pub proof fn lemma_stages_keep_their_order(
    request: RequestView,
    outcomes: Seq<OutcomeView>,
    i: int,
    j: int,
)
    requires
        request.extras() <= usize::MAX,
        0 <= i <= outcomes.len(),
        0 <= j <= outcomes.len(),
        PipelineView::start(request).run(outcomes.take(i)).in_flight() is Some,
        PipelineView::start(request).run(outcomes.take(j)).in_flight() is Some,
    ensures
        ({
            let a = PipelineView::start(request).run(outcomes.take(i)).in_flight().unwrap();
            let b = PipelineView::start(request).run(outcomes.take(j)).in_flight().unwrap();
            &&& a.position(request.extras(), request.cleanup()) == i
            &&& b.position(request.extras(), request.cleanup()) == j
            &&& a is TrustKey && b.registers() ==> i < j
            &&& a.registers() && b is UpdateIndex ==> i < j
            &&& a is UpdateIndex && (b is InstallProfile || b is InstallExtras) ==> i < j
            &&& a.installs() && b is Cleanup ==> i < j
        }),
{
    let extras = request.extras();
    let cleanup = request.cleanup();
    lemma_run_follows_plan(request, outcomes, i);
    lemma_run_follows_plan(request, outcomes, j);
    lemma_place_holds_its_stage(i as nat, extras, cleanup);
    lemma_place_holds_its_stage(j as nat, extras, cleanup);
    crate::stage::lemma_stage_order(
        request.stage_at(i as nat),
        request.stage_at(j as nat),
        extras,
        cleanup,
    );
}

/// Whenever a stage is due, what it depends on has been done: the key was
/// imported before a repository is registered; the fixed repositories and
/// every staging branch were registered before the index is refreshed; and
/// the profile's and the caller's packages were installed before anything
/// is removed.
pub proof fn lemma_prerequisites_were_due(
    request: RequestView,
    outcomes: Seq<OutcomeView>,
    k: int,
)
    requires
        request.extras() <= usize::MAX,
        0 <= k <= outcomes.len(),
        PipelineView::start(request).run(outcomes.take(k)).in_flight() is Some,
    ensures
        ({
            let start = PipelineView::start(request);
            let due = start.run(outcomes.take(k)).in_flight().unwrap();
            let extras = request.extras();
            &&& due.registers() ==> 7 < k && start.run(outcomes.take(7)).in_flight() == Some(
                Stage::TrustKey,
            )
            &&& due is UpdateIndex ==> k == 9 + extras && start.run(outcomes.take(8)).in_flight()
                == Some(Stage::BaseRepositories) && forall|index: usize|
                index < extras ==> (#[trigger] start.run(outcomes.take(9 + index))).in_flight()
                    == Some(Stage::ExtraRepository { index })
            &&& due is InstallProfile ==> k == 11 + extras && start.run(
                outcomes.take(9 + extras as int),
            ).in_flight() == Some(Stage::UpdateIndex)
            &&& due is Cleanup ==> k == 13 + extras && start.run(
                outcomes.take(11 + extras as int),
            ).in_flight() == Some(Stage::InstallProfile) && start.run(
                outcomes.take(12 + extras as int),
            ).in_flight() == Some(Stage::InstallExtras)
        }),
{
    lemma_run_follows_plan(request, outcomes, k);
    lemma_place_holds_its_stage(k as nat, request.extras(), request.cleanup());
}

/// A failure ends the build: once an outcome means a failure for the stage
/// in flight, every later state of the run is that failure, which names
/// the stage, and the only action handed out from there on is the one that
/// aborts. No later stage is ever due.
pub proof fn lemma_fail_fast(
    state: PipelineView,
    outcomes: Seq<OutcomeView>,
    k: int,
    j: int,
    error: ErrorView,
)
    requires
        0 <= k < j <= outcomes.len(),
        state.run(outcomes.take(k)).failure(outcomes[k]) == Some(error),
    ensures
        state.run(outcomes.take(k)).in_flight() == Some(error.stage),
        state.run(outcomes.take(j)).progress == (ProgressView::Failed { error }),
        state.run(outcomes.take(j)).in_flight() is None,
        state.run(outcomes.take(j)).pending() == (ActionView::Abort { error }),
    decreases j - k,
{
    lemma_run_step(state, outcomes, j - 1);
    if j - 1 > k {
        lemma_fail_fast(state, outcomes, k, j - 1, error);
    }
}

/// The collaborator's own failure is passed on as it was reported, under
/// the name of the stage that was in flight.
pub proof fn lemma_failure_names_stage(state: PipelineView, outcome: OutcomeView)
    requires
        state.in_flight() is Some,
        outcome is Failed,
    ensures
        state.failure(outcome) == Some(
            ErrorView {
                stage: state.in_flight().unwrap(),
                kind: outcome->kind,
                detail: outcome->detail,
            },
        ),
        state.after(outcome).pending() == (ActionView::Abort {
            error: ErrorView {
                stage: state.in_flight().unwrap(),
                kind: outcome->kind,
                detail: outcome->detail,
            },
        }),
{
}

/// A build succeeds only by doing every stage: the run that ends in
/// success was at each place of the build in turn, and no outcome at any of
/// these places meant a failure.
pub proof fn lemma_success_takes_every_stage(request: RequestView, outcomes: Seq<OutcomeView>)
    requires
        request.extras() <= usize::MAX,
        PipelineView::start(request).run(outcomes).progress is Succeeded,
    ensures
        request.stages() <= outcomes.len(),
        forall|i: int|
            0 <= i < request.stages() ==> (#[trigger] PipelineView::start(request).run(
                outcomes.take(i),
            )).in_flight() == Some(request.stage_at(i as nat)),
        forall|i: int|
            0 <= i < request.stages() ==> (#[trigger] PipelineView::start(request).run(
                outcomes.take(i),
            )).failure(outcomes[i]) is None,
    decreases outcomes.len(),
{
    let start = PipelineView::start(request);
    let extras = request.extras();
    let cleanup = request.cleanup();
    let n = outcomes.len() as int;
    lemma_run_ends(start, outcomes);
    if n > 0 {
        let shorter = outcomes.drop_last();
        // The states of the shorter run are states of this run.
        assert forall|i: int| 0 <= i <= n - 1 implies #[trigger] shorter.take(i) == outcomes.take(
            i,
        ) by {
            assert(shorter.take(i) =~= outcomes.take(i));
        }
        if start.run(shorter).progress is Succeeded {
            lemma_success_takes_every_stage(request, shorter);
            assert forall|i: int| 0 <= i < request.stages() implies (#[trigger] start.run(
                outcomes.take(i),
            )).in_flight() == Some(request.stage_at(i as nat)) && start.run(
                outcomes.take(i),
            ).failure(outcomes[i]) is None by {
                assert(shorter.take(i) == outcomes.take(i));
                assert(shorter[i] == outcomes[i]);
            }
        } else {
            // The last report was for the last stage, and completed it.
            lemma_run_follows_plan(request, outcomes, n - 1);
            let stage = request.stage_at((n - 1) as nat);
            lemma_place_holds_its_stage((n - 1) as nat, extras, cleanup);
            lemma_successor_advances(stage, extras, cleanup);
            assert forall|i: int| 0 <= i < request.stages() implies (#[trigger] start.run(
                outcomes.take(i),
            )).failure(outcomes[i]) is None by {
                lemma_run_step(start, outcomes, i);
                if start.run(outcomes.take(i)).failure(outcomes[i]) is Some {
                    let error = start.run(outcomes.take(i)).failure(outcomes[i]).unwrap();
                    lemma_fail_fast(start, outcomes, i, n, error);
                }
            }
        }
    }
}

/// Once a run has ended, reporting more outcomes leads nowhere else.
pub proof fn lemma_run_stays_ended(
    state: PipelineView,
    outcomes: Seq<OutcomeView>,
    k: int,
    j: int,
)
    requires
        0 <= k <= j <= outcomes.len(),
        state.run(outcomes.take(k)).in_flight() is None,
    ensures
        state.run(outcomes.take(j)) == state.run(outcomes.take(k)),
    decreases j - k,
{
    if k < j {
        lemma_run_stays_ended(state, outcomes, k, j - 1);
        lemma_run_step(state, outcomes, j - 1);
    }
}

/// As long as no outcome means a failure, each report moves the build one
/// place forward, and the report for the last stage completes it.
pub proof fn lemma_unfailing_run_advances(
    request: RequestView,
    outcomes: Seq<OutcomeView>,
    k: int,
)
    requires
        request.extras() <= usize::MAX,
        0 <= k <= outcomes.len(),
        k <= request.stages(),
        forall|i: int|
            0 <= i < k ==> (#[trigger] PipelineView::start(request).run(
                outcomes.take(i),
            )).failure(outcomes[i]) is None,
    ensures
        k < request.stages() ==> PipelineView::start(request).run(outcomes.take(k)).in_flight()
            == Some(request.stage_at(k as nat)),
        k == request.stages() ==> PipelineView::start(request).run(outcomes.take(k)).progress
            is Succeeded,
    decreases k,
{
    let start = PipelineView::start(request);
    let extras = request.extras();
    let cleanup = request.cleanup();
    if k == 0 {
        lemma_run_ends(start, outcomes);
    } else {
        lemma_unfailing_run_advances(request, outcomes, k - 1);
        lemma_run_step(start, outcomes, k - 1);
        lemma_run_keeps_build(start, outcomes.take(k - 1));
        let stage = request.stage_at((k - 1) as nat);
        lemma_place_holds_its_stage((k - 1) as nat, extras, cleanup);
        lemma_successor_advances(stage, extras, cleanup);
        if let Some(following) = stage.successor(extras, cleanup) {
            lemma_stage_at_its_position(following, extras, cleanup);
        }
    }
}

/// A build whose collaborators all do their work succeeds, whatever was
/// asked for: if none of the outcomes reported for the stages of the build
/// means a failure, the run ends in success and hands out the archive named
/// after the profile. Names that occur twice in the request, or that the
/// profile installs anyway, make no difference to that.
pub proof fn lemma_unfailing_run_succeeds(request: RequestView, outcomes: Seq<OutcomeView>)
    requires
        request.extras() <= usize::MAX,
        request.stages() <= outcomes.len(),
        forall|i: int|
            0 <= i < request.stages() ==> (#[trigger] PipelineView::start(request).run(
                outcomes.take(i),
            )).failure(outcomes[i]) is None,
    ensures
        PipelineView::start(request).run(outcomes).progress is Succeeded,
        PipelineView::start(request).run(outcomes).pending() == (ActionView::Finish {
            archive: request.profile.archive_label(),
        }),
{
    let start = PipelineView::start(request);
    let n = request.stages() as int;
    lemma_unfailing_run_advances(request, outcomes, n);
    lemma_run_stays_ended(start, outcomes, n, outcomes.len() as int);
    lemma_run_ends(start, outcomes);
    lemma_run_keeps_build(start, outcomes);
}

/// What one successful stage adds to the registered repositories.
proof fn lemma_stage_registers(
    request: RequestView,
    stage: Stage,
    image: Seq<char>,
    mount: Seq<char>,
)
    requires
        request.extras() <= usize::MAX,
        request.has_stage(stage),
    ensures
        registered_before(request, stage.position(request.extras(), request.cleanup()))
            + repositories_of(action_of(stage, request, image, mount)) == registered_before(
            request,
            stage.position(request.extras(), request.cleanup()) + 1,
        ),
        registered_before(request, request.stages()) == registered_repositories(
            request.extra_repositories,
        ),
{
    let extras = request.extra_repositories;
    if let Stage::ExtraRepository { index } = stage {
        // One more branch is one more staging repository at the end.
        assert(extras.take(index + 1) =~= extras.take(index as int).push(extras[index as int]));
    }
}

/// What a run has registered is told by how far it has come: everything
/// that the stages before the one in flight register, or before the one
/// that failed, and everything there is once the build has succeeded.
pub proof fn lemma_registered_tracks_progress(request: RequestView, outcomes: Seq<OutcomeView>)
    requires
        request.extras() <= usize::MAX,
    ensures
        ({
            let start = PipelineView::start(request);
            let extras = request.extras();
            let cleanup = request.cleanup();
            match start.run(outcomes).progress {
                ProgressView::Running { stage } => registered(start, outcomes) == registered_before(
                    request,
                    stage.position(extras, cleanup),
                ),
                ProgressView::Succeeded => registered(start, outcomes) == registered_repositories(
                    request.extra_repositories,
                ),
                ProgressView::Failed { error } => request.has_stage(error.stage) && registered(
                    start,
                    outcomes,
                ) == registered_before(request, error.stage.position(extras, cleanup)),
            }
        }),
    decreases outcomes.len(),
{
    let start = PipelineView::start(request);
    let extras = request.extras();
    let cleanup = request.cleanup();
    if outcomes.len() > 0 {
        let shorter = outcomes.drop_last();
        let before = start.run(shorter);
        lemma_registered_tracks_progress(request, shorter);
        lemma_run_keeps_build(start, shorter);
        if let ProgressView::Running { stage } = before.progress {
            lemma_stage_registers(request, stage, before.image, before.mount);
            lemma_successor_advances(stage, extras, cleanup);
        }
    }
}

/// In every run the repositories are registered in one order: the fixed
/// ones as they are listed, and after them the caller's staging branches
/// as they were given. A run that fails has registered a leading part of
/// that list; a run that succeeds has registered all of it.
pub proof fn lemma_run_registers_in_order(request: RequestView, outcomes: Seq<OutcomeView>)
    requires
        request.extras() <= usize::MAX,
    ensures
        registered(PipelineView::start(request), outcomes).is_prefix_of(
            registered_repositories(request.extra_repositories),
        ),
        PipelineView::start(request).run(outcomes).progress is Succeeded ==> registered(
            PipelineView::start(request),
            outcomes,
        ) == registered_repositories(request.extra_repositories),
{
    lemma_registered_tracks_progress(request, outcomes);
}

} // verus!
