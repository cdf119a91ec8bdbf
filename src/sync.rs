//! The synchronization engine: reconciles the local store with its remote.
//!
//! The caller runs each git step that [`SyncAction::Run`] names in the store's
//! root and hands the outcome to [`step`]. Dirtiness is read once, from the
//! first `status`; a commit and a push happen only when it was dirty, and the
//! first failing step ends the synchronization.
use vstd::prelude::*;
use crate::error::GitStep;

verus! {

/// Where a synchronization stands.
#[derive(Debug, Clone, Copy, PartialEq, Eq, Structural)]
pub enum SyncState {
    /// Waiting for the output of `status`.
    AwaitingStatus,
    /// Waiting for the outcome of `step`; `dirty` is what `status` said.
    Awaiting { step: GitStep, dirty: bool },
    /// Done with success.
    Finished,
    /// Ended by the failure of `step`.
    Failed { step: GitStep },
}

/// What the caller observed after the last action.
#[derive(Debug, Clone, Copy, PartialEq, Eq, Structural)]
pub enum SyncEvent {
    /// `status` ran; whether it listed any change.
    StatusRead { dirty: bool },
    /// The step that was asked for exited with success.
    StepSucceeded,
    /// The step that was asked for failed.
    StepFailed,
}

/// What the caller is to do next.
#[derive(Debug, Clone, Copy, PartialEq, Eq, Structural)]
pub enum SyncAction {
    /// Run this git step in the store's root.
    Run(GitStep),
    /// The synchronization succeeded.
    Finish,
    /// The synchronization failed at this step; its diagnostic is the error.
    Abort(GitStep),
}

/// The commit message of an automatic commit.
pub const COMMIT_MESSAGE: &'static str = "zime: auto commit";

/// The branch that is pulled and pushed.
pub const MAIN_BRANCH: &'static str = "main";

/// The first state and action: without a remote there is nothing to do.
pub open spec fn begin_spec(remote_bound: bool) -> (SyncState, SyncAction) {
    if remote_bound {
        (SyncState::AwaitingStatus, SyncAction::Run(GitStep::Status))
    } else {
        (SyncState::Finished, SyncAction::Finish)
    }
}

/// What follows the success of `step`.
pub open spec fn after_success(step: GitStep, dirty: bool) -> (SyncState, SyncAction) {
    match step {
        GitStep::StageAll => (
            SyncState::Awaiting { step: GitStep::Commit, dirty },
            SyncAction::Run(GitStep::Commit),
        ),
        GitStep::Commit => (
            SyncState::Awaiting { step: GitStep::PullRebase, dirty },
            SyncAction::Run(GitStep::PullRebase),
        ),
        GitStep::PullRebase => if dirty {
            (SyncState::Awaiting { step: GitStep::Push, dirty }, SyncAction::Run(GitStep::Push))
        } else {
            (SyncState::Finished, SyncAction::Finish)
        },
        _ => (SyncState::Finished, SyncAction::Finish),
    }
}

/// The state and action that follow `s` once `e` was observed. An event that
/// does not answer the pending step counts as that step's failure.
pub open spec fn step_spec(s: SyncState, e: SyncEvent) -> (SyncState, SyncAction) {
    match s {
        SyncState::AwaitingStatus => match e {
            SyncEvent::StatusRead { dirty } => if dirty {
                (
                    SyncState::Awaiting { step: GitStep::StageAll, dirty: true },
                    SyncAction::Run(GitStep::StageAll),
                )
            } else {
                (
                    SyncState::Awaiting { step: GitStep::PullRebase, dirty: false },
                    SyncAction::Run(GitStep::PullRebase),
                )
            },
            _ => (SyncState::Failed { step: GitStep::Status }, SyncAction::Abort(GitStep::Status)),
        },
        SyncState::Awaiting { step, dirty } => match e {
            SyncEvent::StepSucceeded => after_success(step, dirty),
            _ => (SyncState::Failed { step }, SyncAction::Abort(step)),
        },
        SyncState::Finished => (SyncState::Finished, SyncAction::Finish),
        SyncState::Failed { step } => (SyncState::Failed { step }, SyncAction::Abort(step)),
    }
}

/// The actions that answer `events`, one by one, from `s`.
pub open spec fn trace(s: SyncState, events: Seq<SyncEvent>) -> Seq<SyncAction>
    decreases events.len(),
{
    if events.len() == 0 {
        Seq::empty()
    } else {
        let (s2, a) = step_spec(s, events[0]);
        seq![a] + trace(s2, events.drop_first())
    }
}

/// Starts a synchronization of a store whose remote is bound or not.
pub fn begin(remote_bound: bool) -> (r: (SyncState, SyncAction))
    ensures
        r == begin_spec(remote_bound),
{
    if remote_bound {
        (SyncState::AwaitingStatus, SyncAction::Run(GitStep::Status))
    } else {
        (SyncState::Finished, SyncAction::Finish)
    }
}

/// Whether the output of `status --porcelain` lists any change.
pub fn is_dirty(status: &str) -> (r: bool)
    ensures
        r == (status@.len() > 0),
{
    !status.is_empty()
}

/// Takes the synchronization one step further.
pub fn step(s: SyncState, e: SyncEvent) -> (r: (SyncState, SyncAction))
    ensures
        r == step_spec(s, e),
{
    match s {
        SyncState::AwaitingStatus => match e {
            SyncEvent::StatusRead { dirty } => {
                if dirty {
                    (
                        SyncState::Awaiting { step: GitStep::StageAll, dirty: true },
                        SyncAction::Run(GitStep::StageAll),
                    )
                } else {
                    (
                        SyncState::Awaiting { step: GitStep::PullRebase, dirty: false },
                        SyncAction::Run(GitStep::PullRebase),
                    )
                }
            },
            _ => (SyncState::Failed { step: GitStep::Status }, SyncAction::Abort(GitStep::Status)),
        },
        SyncState::Awaiting { step, dirty } => match e {
            SyncEvent::StepSucceeded => match step {
                GitStep::StageAll => (
                    SyncState::Awaiting { step: GitStep::Commit, dirty },
                    SyncAction::Run(GitStep::Commit),
                ),
                GitStep::Commit => (
                    SyncState::Awaiting { step: GitStep::PullRebase, dirty },
                    SyncAction::Run(GitStep::PullRebase),
                ),
                GitStep::PullRebase => {
                    if dirty {
                        (
                            SyncState::Awaiting { step: GitStep::Push, dirty },
                            SyncAction::Run(GitStep::Push),
                        )
                    } else {
                        (SyncState::Finished, SyncAction::Finish)
                    }
                },
                _ => (SyncState::Finished, SyncAction::Finish),
            },
            _ => (SyncState::Failed { step }, SyncAction::Abort(step)),
        },
        SyncState::Finished => (SyncState::Finished, SyncAction::Finish),
        SyncState::Failed { step } => (SyncState::Failed { step }, SyncAction::Abort(step)),
    }
}

/// Dirtiness is read once: after the first action, no state of a
/// synchronization asks for `status` again, whatever is observed.
pub proof fn lemma_status_read_once(s: SyncState, events: Seq<SyncEvent>)
    ensures
        forall|i: int|
            0 <= i < trace(s, events).len() ==> trace(s, events)[i] != SyncAction::Run(
                GitStep::Status,
            ),
    decreases events.len(),
{
    lemma_trace_len(s, events);
    if events.len() > 0 {
        let s2 = step_spec(s, events[0]).0;
        lemma_status_read_once(s2, events.drop_first());
        assert forall|i: int| 0 <= i < trace(s, events).len() implies trace(s, events)[i]
            != SyncAction::Run(GitStep::Status) by {
            if i > 0 {
                lemma_trace_index(s, events, i);
            }
        }
    }
}

/// The action runs a step that writes to the repository's history or its
/// remote: a stage, a commit or a push.
pub open spec fn records_changes(a: SyncAction) -> bool {
    a == SyncAction::Run(GitStep::StageAll) || a == SyncAction::Run(GitStep::Commit) || a
        == SyncAction::Run(GitStep::Push)
}

proof fn lemma_trace_index(s: SyncState, events: Seq<SyncEvent>, i: int)
    requires
        0 < i < events.len(),
    ensures
        trace(s, events).len() == events.len(),
        trace(s, events)[i] == trace(step_spec(s, events[0]).0, events.drop_first())[i - 1],
    decreases events.len(),
{
    lemma_trace_len(step_spec(s, events[0]).0, events.drop_first());
}

proof fn lemma_trace_len(s: SyncState, events: Seq<SyncEvent>)
    ensures
        trace(s, events).len() == events.len(),
    decreases events.len(),
{
    if events.len() > 0 {
        lemma_trace_len(step_spec(s, events[0]).0, events.drop_first());
    }
}

/// Once finished, a synchronization stays finished and runs nothing more.
proof fn lemma_finished_stays(events: Seq<SyncEvent>)
    ensures
        forall|i: int|
            0 <= i < trace(SyncState::Finished, events).len() ==> trace(
                SyncState::Finished,
                events,
            )[i] == SyncAction::Finish,
    decreases events.len(),
{
    lemma_trace_len(SyncState::Finished, events);
    if events.len() > 0 {
        lemma_finished_stays(events.drop_first());
        assert forall|i: int| 0 <= i < trace(SyncState::Finished, events).len() implies trace(
            SyncState::Finished,
            events,
        )[i] == SyncAction::Finish by {
            if i > 0 {
                lemma_trace_index(SyncState::Finished, events, i);
            }
        }
    }
}

/// Once failed at `step`, a synchronization runs nothing more.
proof fn lemma_failed_stays(step: GitStep, events: Seq<SyncEvent>)
    ensures
        forall|i: int|
            0 <= i < trace(SyncState::Failed { step }, events).len() ==> trace(
                SyncState::Failed { step },
                events,
            )[i] == SyncAction::Abort(step),
    decreases events.len(),
{
    let s = SyncState::Failed { step };
    lemma_trace_len(s, events);
    if events.len() > 0 {
        lemma_failed_stays(step, events.drop_first());
        assert forall|i: int| 0 <= i < trace(s, events).len() implies trace(s, events)[i]
            == SyncAction::Abort(step) by {
            if i > 0 {
                lemma_trace_index(s, events, i);
            }
        }
    }
}

/// Without a bound remote, a synchronization is a success that runs no git
/// step at all, whatever is observed afterwards.
pub proof fn lemma_unbound_is_noop(events: Seq<SyncEvent>)
    ensures
        begin_spec(false).1 == SyncAction::Finish,
        forall|i: int|
            0 <= i < trace(begin_spec(false).0, events).len() ==> trace(
                begin_spec(false).0,
                events,
            )[i] == SyncAction::Finish,
{
    lemma_finished_stays(events);
}

/// The states that follow a clean `status`: nothing is staged, committed or
/// pushed from any of them.
pub open spec fn after_clean_status(s: SyncState) -> bool {
    s == SyncState::Awaiting { step: GitStep::PullRebase, dirty: false } || s
        == SyncState::Finished || s is Failed
}

proof fn lemma_clean_trace(s: SyncState, events: Seq<SyncEvent>)
    requires
        after_clean_status(s),
    ensures
        forall|i: int|
            0 <= i < trace(s, events).len() ==> !records_changes(#[trigger] trace(s, events)[i]),
    decreases events.len(),
{
    lemma_trace_len(s, events);
    if events.len() > 0 {
        let s2 = step_spec(s, events[0]).0;
        lemma_clean_trace(s2, events.drop_first());
        assert forall|i: int| 0 <= i < trace(s, events).len() implies !records_changes(
            #[trigger] trace(s, events)[i],
        ) by {
            if i > 0 {
                lemma_trace_index(s, events, i);
            }
        }
    }
}

/// With a clean working tree, a synchronization pulls with rebase first and
/// never stages, commits or pushes, whatever the steps answer.
pub proof fn lemma_clean_never_commits_or_pushes(events: Seq<SyncEvent>)
    ensures
        ({
            let t = trace(
                SyncState::AwaitingStatus,
                seq![SyncEvent::StatusRead { dirty: false }] + events,
            );
            &&& t.len() == events.len() + 1
            &&& t[0] == SyncAction::Run(GitStep::PullRebase)
            &&& forall|i: int| 0 <= i < t.len() ==> !records_changes(#[trigger] t[i])
        }),
{
    let evs = seq![SyncEvent::StatusRead { dirty: false }] + events;
    assert(evs.drop_first() =~= events);
    let s2 = SyncState::Awaiting { step: GitStep::PullRebase, dirty: false };
    lemma_trace_len(SyncState::AwaitingStatus, evs);
    lemma_clean_trace(s2, events);
    let t = trace(SyncState::AwaitingStatus, evs);
    assert forall|i: int| 0 <= i < t.len() implies !records_changes(#[trigger] t[i]) by {
        if i > 0 {
            lemma_trace_index(SyncState::AwaitingStatus, evs, i);
        }
    }
}

/// With a dirty working tree and every step succeeding, a synchronization
/// stages, commits, pulls with rebase and pushes, in that order, then
/// finishes.
pub proof fn lemma_dirty_runs_in_order()
    ensures
        trace(
            SyncState::AwaitingStatus,
            seq![
                SyncEvent::StatusRead { dirty: true },
                SyncEvent::StepSucceeded,
                SyncEvent::StepSucceeded,
                SyncEvent::StepSucceeded,
                SyncEvent::StepSucceeded,
            ],
        ) == seq![
            SyncAction::Run(GitStep::StageAll),
            SyncAction::Run(GitStep::Commit),
            SyncAction::Run(GitStep::PullRebase),
            SyncAction::Run(GitStep::Push),
            SyncAction::Finish,
        ],
{
    let evs = seq![
        SyncEvent::StatusRead { dirty: true },
        SyncEvent::StepSucceeded,
        SyncEvent::StepSucceeded,
        SyncEvent::StepSucceeded,
        SyncEvent::StepSucceeded,
    ];
    let e1 = evs.drop_first();
    let e2 = e1.drop_first();
    let e3 = e2.drop_first();
    let e4 = e3.drop_first();
    let e5 = e4.drop_first();
    assert(e5.len() == 0);
    assert(trace(SyncState::Finished, e5) =~= Seq::<SyncAction>::empty());
    assert(trace(SyncState::Awaiting { step: GitStep::Push, dirty: true }, e4) =~= seq![
        SyncAction::Finish,
    ]);
    assert(trace(SyncState::Awaiting { step: GitStep::PullRebase, dirty: true }, e3) =~= seq![
        SyncAction::Run(GitStep::Push),
        SyncAction::Finish,
    ]);
    assert(trace(SyncState::Awaiting { step: GitStep::Commit, dirty: true }, e2) =~= seq![
        SyncAction::Run(GitStep::PullRebase),
        SyncAction::Run(GitStep::Push),
        SyncAction::Finish,
    ]);
    assert(trace(SyncState::Awaiting { step: GitStep::StageAll, dirty: true }, e1) =~= seq![
        SyncAction::Run(GitStep::Commit),
        SyncAction::Run(GitStep::PullRebase),
        SyncAction::Run(GitStep::Push),
        SyncAction::Finish,
    ]);
    assert(trace(SyncState::AwaitingStatus, evs) =~= seq![
        SyncAction::Run(GitStep::StageAll),
        SyncAction::Run(GitStep::Commit),
        SyncAction::Run(GitStep::PullRebase),
        SyncAction::Run(GitStep::Push),
        SyncAction::Finish,
    ]);
}

/// With a dirty working tree, a failed commit ends the synchronization: no
/// pull and no push is attempted, whatever is observed afterwards.
pub proof fn lemma_failed_commit_stops(events: Seq<SyncEvent>)
    ensures
        ({
            let t = trace(
                SyncState::AwaitingStatus,
                seq![
                    SyncEvent::StatusRead { dirty: true },
                    SyncEvent::StepSucceeded,
                    SyncEvent::StepFailed,
                ] + events,
            );
            &&& t.len() == events.len() + 3
            &&& t[0] == SyncAction::Run(GitStep::StageAll)
            &&& t[1] == SyncAction::Run(GitStep::Commit)
            &&& forall|i: int| 2 <= i < t.len() ==> t[i] == SyncAction::Abort(GitStep::Commit)
        }),
{
    let evs = seq![
        SyncEvent::StatusRead { dirty: true },
        SyncEvent::StepSucceeded,
        SyncEvent::StepFailed,
    ] + events;
    let e1 = evs.drop_first();
    let e2 = e1.drop_first();
    let e3 = e2.drop_first();
    assert(e3 =~= events);
    let s1 = SyncState::Awaiting { step: GitStep::StageAll, dirty: true };
    let s2 = SyncState::Awaiting { step: GitStep::Commit, dirty: true };
    let s3 = SyncState::Failed { step: GitStep::Commit };
    lemma_trace_len(SyncState::AwaitingStatus, evs);
    lemma_trace_len(s3, events);
    lemma_failed_stays(GitStep::Commit, events);
    let t = trace(SyncState::AwaitingStatus, evs);
    assert(trace(s2, e2) =~= seq![SyncAction::Abort(GitStep::Commit)] + trace(s3, events));
    assert(trace(s1, e1) =~= seq![SyncAction::Run(GitStep::Commit)] + trace(s2, e2));
    assert(t =~= seq![SyncAction::Run(GitStep::StageAll)] + trace(s1, e1));
    assert forall|i: int| 2 <= i < t.len() implies t[i] == SyncAction::Abort(GitStep::Commit) by {
        if i > 2 {
            assert(t[i] == trace(s3, events)[i - 3]);
        }
    }
}

} // verus!
