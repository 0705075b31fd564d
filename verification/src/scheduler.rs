//! The scheduler's decision machine.
//!
//! Each call into a kernel (a prediction query, an analog advance, a
//! digital confirmation, an analog rollback) is made by the driver; its
//! outcome is handed to [`SchedulerCore::step`] as a [`SchedulerEvent`], and
//! the core answers with the next [`SchedulerAction`] while recording
//! commits, rollbacks and diagnostics.
use vstd::prelude::*;
use vstd::string::StringExecFns;
use crate::mixed_signal::{
    outcome, AnalogSolver, ErrorValue, BoundarySignals, DigitalEventTrace, DigitalSimulator, DigitalStepReport,
    MixedSignalResult, NextEventReport, RollbackEvent, SchedulerError, SchedulerMetadata,
    SchedulerOutcome, rollback_record, scheduler_error_text,
};
use crate::text::push_str;
use crate::time::{SimulationTime, time_text};

verus! {

/// Where the scheduler is in its synchronization loop: which kernel call's
/// outcome it waits for.
#[derive(Debug, Clone, Copy, PartialEq, Eq, Structural)]
pub enum SchedulerPhase {
    /// Waiting for the digital side's next prediction.
    AwaitPrediction,
    /// Waiting for the analog side to reach `boundary`.
    AwaitAdvance {
        /// The predicted boundary.
        boundary: SimulationTime,
    },
    /// Waiting for the digital side's verdict at `boundary`.
    AwaitConfirmation {
        /// The predicted boundary.
        boundary: SimulationTime,
    },
    /// Waiting for the analog side to roll back after a misprediction.
    AwaitRollback {
        /// The refuted boundary.
        mispredicted_at: SimulationTime,
        /// The earlier, actual event time.
        corrected: SimulationTime,
    },
    /// Waiting for the analog side to re-advance to the corrected time.
    AwaitReAdvance {
        /// The corrected event time.
        corrected: SimulationTime,
    },
    /// Waiting for the analog side to roll back after a postponement.
    AwaitPostponeRollback {
        /// The boundary that was postponed.
        from: SimulationTime,
        /// The revised prediction.
        to: SimulationTime,
        /// The rollback target (the last commit, or the origin).
        target: SimulationTime,
    },
    /// The loop is over.
    Finished,
}

/// The outcome of the kernel call the scheduler asked for.
#[derive(Debug, PartialEq)]
pub enum SchedulerEvent {
    /// Result of asking the digital side for its next event.
    Prediction(Result<NextEventReport, SchedulerError>),
    /// Result of advancing the analog side.
    Advanced(Result<(), SchedulerError>),
    /// Result of asking the digital side to confirm at a boundary.
    Confirmation(Result<DigitalStepReport, SchedulerError>),
    /// Result of rolling the analog side back.
    RolledBack(Result<(), SchedulerError>),
}

/// The next kernel call, or the end of the loop.
#[derive(Debug, Clone, PartialEq)]
pub enum SchedulerAction {
    /// Ask the digital side for its next predicted event.
    QueryNextEvent,
    /// Advance the analog side to the given time.
    RunUntil(SimulationTime),
    /// Ask the digital side to confirm at the given boundary.
    ConfirmEvent(SimulationTime),
    /// Roll the analog side back to the given time.
    RollbackTo(SimulationTime),
    /// Stop and assemble the result.
    Finish,
    /// Stop with this error.
    Fail(SchedulerError),
}

/// The scheduler's state: horizon, phase, and what it has recorded.
#[derive(Debug, Clone, PartialEq)]
pub struct SchedulerCore {
    /// Upper bound of the simulated timeline.
    pub horizon: SimulationTime,
    /// Which outcome is awaited.
    pub phase: SchedulerPhase,
    /// Commits, rollbacks and diagnostics so far.
    pub metadata: SchedulerMetadata,
    /// Per-boundary verdicts so far.
    pub outcomes: Vec<SchedulerOutcome>,
}

/// Text of the diagnostic recorded when the digital side runs out of events.
pub open spec fn end_of_events_text(e: SchedulerError) -> Seq<char> {
    "digital end-of-events: "@ + scheduler_error_text(e)
}

/// Text of the diagnostic recorded when a prediction lies past the horizon.
pub open spec fn past_horizon_text(p: SimulationTime, h: SimulationTime) -> Seq<char> {
    "next prediction "@ + time_text(p) + " exceeds horizon "@ + time_text(h) + "; stopping"@
}

/// Text of the diagnostic recorded when the digital side postpones.
pub open spec fn postponed_text(from: SimulationTime, to: SimulationTime) -> Seq<char> {
    "digital postponed event from "@ + time_text(from) + " to "@ + time_text(to)
}

/// The reason recorded for a rollback after a misprediction.
pub open spec fn misprediction_reason() -> Seq<char> {
    "no-event-confirmed"@
}

/// The kernel call a core in this state is waiting on.
pub open spec fn pending_action(c: SchedulerCore) -> SchedulerAction {
    match c.phase {
        SchedulerPhase::AwaitPrediction => SchedulerAction::QueryNextEvent,
        SchedulerPhase::AwaitAdvance { boundary } => SchedulerAction::RunUntil(boundary),
        SchedulerPhase::AwaitConfirmation { boundary } => SchedulerAction::ConfirmEvent(boundary),
        SchedulerPhase::AwaitRollback { mispredicted_at, corrected } => SchedulerAction::RollbackTo(corrected),
        SchedulerPhase::AwaitReAdvance { corrected } => SchedulerAction::RunUntil(corrected),
        SchedulerPhase::AwaitPostponeRollback { from, to, target } => SchedulerAction::RollbackTo(target),
        SchedulerPhase::Finished => SchedulerAction::Finish,
    }
}

/// Same horizon and the same records (commits, rollbacks, diagnostics,
/// outcomes).
pub open spec fn same_records(c: SchedulerCore, n: SchedulerCore) -> bool {
    &&& n.horizon == c.horizon
    &&& n.metadata.commits@ == c.metadata.commits@
    &&& n.metadata.rollbacks@ == c.metadata.rollbacks@
    &&& n.metadata.diagnostics@ == c.metadata.diagnostics@
    &&& n.outcomes@ == c.outcomes@
}

/// `n` records everything `c` did plus one diagnostic line `text`.
pub open spec fn adds_diagnostic(c: SchedulerCore, n: SchedulerCore, text: Seq<char>) -> bool {
    &&& n.horizon == c.horizon
    &&& n.metadata.commits@ == c.metadata.commits@
    &&& n.metadata.rollbacks@ == c.metadata.rollbacks@
    &&& n.outcomes@ == c.outcomes@
    &&& n.metadata.diagnostics@.len() == c.metadata.diagnostics@.len() + 1
    &&& n.metadata.diagnostics@.subrange(0, c.metadata.diagnostics@.len() as int) == c.metadata.diagnostics@
    &&& n.metadata.diagnostics@.last()@ == text
}

/// The rollback target after a postponement: the last commit, or the
/// origin when nothing is committed.
pub open spec fn postpone_target(c: SchedulerCore) -> SimulationTime {
    if c.metadata.commits@.len() == 0 {
        SimulationTime { ps: 0 }
    } else {
        c.metadata.commits@.last()
    }
}

/// Where the scheduler goes after committing `t`: it stops once a commit
/// reaches or passes the horizon, and otherwise waits for the next
/// prediction.
pub open spec fn next_phase_after_commit(horizon: SimulationTime, t: SimulationTime) -> SchedulerPhase {
    if t.ps >= horizon.ps {
        SchedulerPhase::Finished
    } else {
        SchedulerPhase::AwaitPrediction
    }
}

/// The call the scheduler makes after committing `t`: none once the commit
/// reaches or passes the horizon, else a query for the next prediction.
pub open spec fn pending_after_commit(horizon: SimulationTime, t: SimulationTime) -> SchedulerAction {
    if t.ps >= horizon.ps {
        SchedulerAction::Finish
    } else {
        SchedulerAction::QueryNextEvent
    }
}

/// One transition of the scheduler: from state `c`, the outcome `e` of the
/// awaited kernel call leads to state `n` and next action `a`. An outcome of
/// a call that is not awaited leaves the state as it is and repeats the
/// awaited call.
pub open spec fn scheduler_step(c: SchedulerCore, e: SchedulerEvent, n: SchedulerCore, a: SchedulerAction) -> bool {
    match (c.phase, e) {
        (SchedulerPhase::AwaitPrediction, SchedulerEvent::Prediction(Err(err))) =>
            if c.outcomes@.len() == 0 {
                n.phase == SchedulerPhase::Finished && same_records(c, n) && a == SchedulerAction::Fail(err)
            } else {
                n.phase == SchedulerPhase::Finished && adds_diagnostic(c, n, end_of_events_text(err))
                    && a == SchedulerAction::Finish
            },
        (SchedulerPhase::AwaitPrediction, SchedulerEvent::Prediction(Ok(r))) =>
            if r.predicted_time.ps > c.horizon.ps {
                n.phase == SchedulerPhase::Finished
                    && adds_diagnostic(c, n, past_horizon_text(r.predicted_time, c.horizon))
                    && a == SchedulerAction::Finish
            } else {
                n.phase == (SchedulerPhase::AwaitAdvance { boundary: r.predicted_time })
                    && same_records(c, n) && a == SchedulerAction::RunUntil(r.predicted_time)
            },
        (SchedulerPhase::AwaitAdvance { boundary }, SchedulerEvent::Advanced(Err(err))) =>
            n.phase == SchedulerPhase::Finished && same_records(c, n) && a == SchedulerAction::Fail(err),
        (SchedulerPhase::AwaitAdvance { boundary }, SchedulerEvent::Advanced(Ok(_))) =>
            n.phase == (SchedulerPhase::AwaitConfirmation { boundary }) && same_records(c, n)
                && a == SchedulerAction::ConfirmEvent(boundary),
        (SchedulerPhase::AwaitConfirmation { boundary }, SchedulerEvent::Confirmation(Err(err))) =>
            n.phase == SchedulerPhase::Finished && same_records(c, n) && a == SchedulerAction::Fail(err),
        (SchedulerPhase::AwaitConfirmation { boundary }, SchedulerEvent::Confirmation(Ok(report))) =>
            match report {
                DigitalStepReport::Confirmed { time } => {
                    &&& n.phase == next_phase_after_commit(c.horizon, time)
                    &&& n.horizon == c.horizon
                    &&& n.metadata.commits@ == c.metadata.commits@.push(time)
                    &&& n.metadata.rollbacks@ == c.metadata.rollbacks@
                    &&& n.metadata.diagnostics@ == c.metadata.diagnostics@
                    &&& n.outcomes@ == c.outcomes@.push(SchedulerOutcome::Committed(time))
                    &&& a == pending_after_commit(c.horizon, time)
                },
                DigitalStepReport::Mispredicted { actual_time } =>
                    n.phase == (SchedulerPhase::AwaitRollback { mispredicted_at: boundary, corrected: actual_time })
                        && same_records(c, n) && a == SchedulerAction::RollbackTo(actual_time),
                DigitalStepReport::Postponed { new_prediction } =>
                    n.phase == (SchedulerPhase::AwaitPostponeRollback {
                        from: boundary,
                        to: new_prediction,
                        target: postpone_target(c),
                    }) && same_records(c, n) && a == SchedulerAction::RollbackTo(postpone_target(c)),
            },
        (SchedulerPhase::AwaitRollback { mispredicted_at, corrected }, SchedulerEvent::RolledBack(Err(err))) =>
            n.phase == SchedulerPhase::Finished && same_records(c, n) && a == SchedulerAction::Fail(err),
        (SchedulerPhase::AwaitRollback { mispredicted_at, corrected }, SchedulerEvent::RolledBack(Ok(_))) => {
            &&& n.phase == (SchedulerPhase::AwaitReAdvance { corrected })
            &&& n.horizon == c.horizon
            &&& n.metadata.commits@ == c.metadata.commits@
            &&& n.metadata.rollbacks@.len() == c.metadata.rollbacks@.len() + 1
            &&& n.metadata.rollbacks@.subrange(0, c.metadata.rollbacks@.len() as int) == c.metadata.rollbacks@
            &&& rollback_record(n.metadata.rollbacks@.last()) == (mispredicted_at, corrected, corrected, misprediction_reason())
            &&& n.metadata.diagnostics@ == c.metadata.diagnostics@
            &&& n.outcomes@ == c.outcomes@.push(SchedulerOutcome::RolledBack { checkpoint: corrected, corrected })
            &&& a == SchedulerAction::RunUntil(corrected)
        },
        (SchedulerPhase::AwaitReAdvance { corrected }, SchedulerEvent::Advanced(Err(err))) =>
            n.phase == SchedulerPhase::Finished && same_records(c, n) && a == SchedulerAction::Fail(err),
        (SchedulerPhase::AwaitReAdvance { corrected }, SchedulerEvent::Advanced(Ok(_))) => {
            &&& n.phase == next_phase_after_commit(c.horizon, corrected)
            &&& n.horizon == c.horizon
            &&& n.metadata.commits@ == c.metadata.commits@.push(corrected)
            &&& n.metadata.rollbacks@ == c.metadata.rollbacks@
            &&& n.metadata.diagnostics@ == c.metadata.diagnostics@
            &&& n.outcomes@ == c.outcomes@
            &&& a == pending_after_commit(c.horizon, corrected)
        },
        (SchedulerPhase::AwaitPostponeRollback { from, to, target }, SchedulerEvent::RolledBack(Err(err))) =>
            n.phase == SchedulerPhase::Finished && same_records(c, n) && a == SchedulerAction::Fail(err),
        (SchedulerPhase::AwaitPostponeRollback { from, to, target }, SchedulerEvent::RolledBack(Ok(_))) =>
            n.phase == SchedulerPhase::AwaitPrediction && adds_diagnostic(c, n, postponed_text(from, to))
                && a == SchedulerAction::QueryNextEvent,
        _ => n.phase == c.phase && same_records(c, n) && a == pending_action(c),
    }
}

/// Every boundary the scheduler is working on, and every commit, lies at or
/// before the horizon.
pub open spec fn within_horizon(c: SchedulerCore) -> bool {
    &&& forall|i: int| 0 <= i < c.metadata.commits@.len() ==> c.metadata.commits@[i].ps <= c.horizon.ps
    &&& match c.phase {
        SchedulerPhase::AwaitAdvance { boundary } => boundary.ps <= c.horizon.ps,
        SchedulerPhase::AwaitConfirmation { boundary } => boundary.ps <= c.horizon.ps,
        SchedulerPhase::AwaitRollback { mispredicted_at, corrected } => corrected.ps <= c.horizon.ps,
        SchedulerPhase::AwaitReAdvance { corrected } => corrected.ps <= c.horizon.ps,
        _ => true,
    }
}

/// The digital side keeps its contract on this outcome: a confirmation
/// happens at the boundary asked about, and a misprediction names a time
/// no later than it.
pub open spec fn digital_keeps_contract(c: SchedulerCore, e: SchedulerEvent) -> bool {
    match (c.phase, e) {
        (SchedulerPhase::AwaitConfirmation { boundary }, SchedulerEvent::Confirmation(Ok(report))) =>
            match report {
                DigitalStepReport::Confirmed { time } => time == boundary,
                DigitalStepReport::Mispredicted { actual_time } => actual_time.ps <= boundary.ps,
                _ => true,
            },
        _ => true,
    }
}

/// The scheduler never drives the analog side, nor commits, past the
/// horizon, as long as the digital side keeps its contract.
pub proof fn law_horizon_respected(c: SchedulerCore, e: SchedulerEvent, n: SchedulerCore, a: SchedulerAction)
    requires
        within_horizon(c),
        digital_keeps_contract(c, e),
        scheduler_step(c, e, n, a),
    ensures
        within_horizon(n),
        a matches SchedulerAction::RunUntil(t) ==> t.ps <= c.horizon.ps,
{
    match (c.phase, e) {
        (SchedulerPhase::AwaitConfirmation { boundary }, SchedulerEvent::Confirmation(Ok(DigitalStepReport::Confirmed { time }))) => {
            assert forall|i: int| 0 <= i < n.metadata.commits@.len() implies n.metadata.commits@[i].ps <= n.horizon.ps by {
                if i < c.metadata.commits@.len() {
                    assert(n.metadata.commits@[i] == c.metadata.commits@[i]);
                }
            }
        },
        (SchedulerPhase::AwaitReAdvance { corrected }, SchedulerEvent::Advanced(Ok(_))) => {
            assert forall|i: int| 0 <= i < n.metadata.commits@.len() implies n.metadata.commits@[i].ps <= n.horizon.ps by {
                if i < c.metadata.commits@.len() {
                    assert(n.metadata.commits@[i] == c.metadata.commits@[i]);
                }
            }
        },
        _ => {},
    }
}

/// A rollback is recorded only in answer to a misprediction: from any state
/// not already handling one, an outcome that is not a misprediction records
/// no rollback and does not start handling one.
pub proof fn law_no_rollback_without_misprediction(c: SchedulerCore, e: SchedulerEvent, n: SchedulerCore, a: SchedulerAction)
    requires
        !(c.phase is AwaitRollback),
        !(e matches SchedulerEvent::Confirmation(Ok(DigitalStepReport::Mispredicted { .. }))),
        scheduler_step(c, e, n, a),
    ensures
        n.metadata.rollbacks@ == c.metadata.rollbacks@,
        !(n.phase is AwaitRollback),
{
}

/// Commits, rollbacks and diagnostics are append-only logs: each step keeps
/// what was recorded before as a prefix.
pub proof fn law_records_only_grow(c: SchedulerCore, e: SchedulerEvent, n: SchedulerCore, a: SchedulerAction)
    requires
        scheduler_step(c, e, n, a),
    ensures
        c.metadata.commits@.len() <= n.metadata.commits@.len(),
        n.metadata.commits@.subrange(0, c.metadata.commits@.len() as int) == c.metadata.commits@,
        c.metadata.rollbacks@.len() <= n.metadata.rollbacks@.len(),
        n.metadata.rollbacks@.subrange(0, c.metadata.rollbacks@.len() as int) == c.metadata.rollbacks@,
        c.metadata.diagnostics@.len() <= n.metadata.diagnostics@.len(),
        n.metadata.diagnostics@.subrange(0, c.metadata.diagnostics@.len() as int) == c.metadata.diagnostics@,
        n.horizon == c.horizon,
{
    assert(c.metadata.commits@.subrange(0, c.metadata.commits@.len() as int) =~= c.metadata.commits@);
    assert(c.metadata.rollbacks@.subrange(0, c.metadata.rollbacks@.len() as int) =~= c.metadata.rollbacks@);
    assert(c.metadata.diagnostics@.subrange(0, c.metadata.diagnostics@.len() as int) =~= c.metadata.diagnostics@);
    match (c.phase, e) {
        (SchedulerPhase::AwaitConfirmation { boundary }, SchedulerEvent::Confirmation(Ok(DigitalStepReport::Confirmed { time }))) => {
            assert(c.metadata.commits@.push(time).subrange(0, c.metadata.commits@.len() as int) =~= c.metadata.commits@);
        },
        (SchedulerPhase::AwaitReAdvance { corrected }, SchedulerEvent::Advanced(Ok(_))) => {
            assert(c.metadata.commits@.push(corrected).subrange(0, c.metadata.commits@.len() as int) =~= c.metadata.commits@);
        },
        _ => {},
    }
}

/// Once finished, the scheduler stays finished, records nothing more and
/// only answers with `Finish`.
pub proof fn law_finished_is_final(c: SchedulerCore, e: SchedulerEvent, n: SchedulerCore, a: SchedulerAction)
    requires
        c.phase == SchedulerPhase::Finished,
        scheduler_step(c, e, n, a),
    ensures
        n.phase == SchedulerPhase::Finished,
        same_records(c, n),
        a == SchedulerAction::Finish,
{
}

/// The scheduler stops driving the kernels once a commit reaches or passes
/// the horizon: that step finishes and asks for no further kernel call.
pub proof fn law_stops_at_horizon(c: SchedulerCore, e: SchedulerEvent, n: SchedulerCore, a: SchedulerAction)
    requires
        scheduler_step(c, e, n, a),
        n.metadata.commits@.len() > c.metadata.commits@.len(),
        n.metadata.commits@.last().ps >= c.horizon.ps,
    ensures
        n.phase == SchedulerPhase::Finished,
        a == SchedulerAction::Finish,
{
}

/// The optimistic advance with a correct prediction: a prediction within
/// the horizon, the analog advance to it and the digital confirmation there
/// drive the analog side to that time, ask for confirmation there, and
/// commit exactly that time, with no rollback and no diagnostic; a commit
/// that reaches the horizon ends the run, otherwise the next prediction is
/// asked for.
pub proof fn law_correct_prediction_commits(
    c0: SchedulerCore,
    t: SimulationTime,
    c1: SchedulerCore,
    a1: SchedulerAction,
    c2: SchedulerCore,
    a2: SchedulerAction,
    c3: SchedulerCore,
    a3: SchedulerAction,
)
    requires
        c0.phase == SchedulerPhase::AwaitPrediction,
        t.ps <= c0.horizon.ps,
        scheduler_step(c0, SchedulerEvent::Prediction(Ok(NextEventReport { predicted_time: t })), c1, a1),
        scheduler_step(c1, SchedulerEvent::Advanced(Ok(())), c2, a2),
        scheduler_step(c2, SchedulerEvent::Confirmation(Ok(DigitalStepReport::Confirmed { time: t })), c3, a3),
    ensures
        a1 == SchedulerAction::RunUntil(t),
        a2 == SchedulerAction::ConfirmEvent(t),
        a3 == pending_after_commit(c0.horizon, t),
        c3.phase == next_phase_after_commit(c0.horizon, t),
        t.ps == c0.horizon.ps ==> a3 == SchedulerAction::Finish,
        c3.metadata.commits@ == c0.metadata.commits@.push(t),
        c3.metadata.rollbacks@ == c0.metadata.rollbacks@,
        c3.metadata.diagnostics@ == c0.metadata.diagnostics@,
        c3.outcomes@ == c0.outcomes@.push(SchedulerOutcome::Committed(t)),
{
}

/// The optimistic advance with a misprediction: when the digital side
/// reports that the event happened earlier, at `actual`, the scheduler rolls
/// the analog side back to `actual`, records one rollback (refuted boundary
/// `t`, corrected and restored time `actual`, reason `no-event-confirmed`),
/// re-advances to `actual` and commits `actual`, stopping when that commit
/// reaches the horizon.
pub proof fn law_misprediction_rolls_back_then_commits(
    c0: SchedulerCore,
    t: SimulationTime,
    actual: SimulationTime,
    c1: SchedulerCore,
    a1: SchedulerAction,
    c2: SchedulerCore,
    a2: SchedulerAction,
    c3: SchedulerCore,
    a3: SchedulerAction,
    c4: SchedulerCore,
    a4: SchedulerAction,
    c5: SchedulerCore,
    a5: SchedulerAction,
)
    requires
        c0.phase == SchedulerPhase::AwaitPrediction,
        t.ps <= c0.horizon.ps,
        scheduler_step(c0, SchedulerEvent::Prediction(Ok(NextEventReport { predicted_time: t })), c1, a1),
        scheduler_step(c1, SchedulerEvent::Advanced(Ok(())), c2, a2),
        scheduler_step(c2, SchedulerEvent::Confirmation(Ok(DigitalStepReport::Mispredicted { actual_time: actual })), c3, a3),
        scheduler_step(c3, SchedulerEvent::RolledBack(Ok(())), c4, a4),
        scheduler_step(c4, SchedulerEvent::Advanced(Ok(())), c5, a5),
    ensures
        a1 == SchedulerAction::RunUntil(t),
        a2 == SchedulerAction::ConfirmEvent(t),
        a3 == SchedulerAction::RollbackTo(actual),
        a4 == SchedulerAction::RunUntil(actual),
        a5 == pending_after_commit(c0.horizon, actual),
        c5.phase == next_phase_after_commit(c0.horizon, actual),
        c5.metadata.commits@ == c0.metadata.commits@.push(actual),
        c5.metadata.rollbacks@.len() == c0.metadata.rollbacks@.len() + 1,
        c5.metadata.rollbacks@.subrange(0, c0.metadata.rollbacks@.len() as int) == c0.metadata.rollbacks@,
        rollback_record(c5.metadata.rollbacks@.last()) == (t, actual, actual, misprediction_reason()),
        c5.outcomes@ == c0.outcomes@.push(SchedulerOutcome::RolledBack { checkpoint: actual, corrected: actual }),
{
}

/// A postponement re-targets without committing: when the digital side
/// reports that its event moved later, to `p`, the scheduler rolls the
/// analog side back to its last commit (or the origin when nothing is
/// committed), notes the postponement from `t` to `p`, commits nothing and
/// asks for the next prediction.
pub proof fn law_postponement_retargets(
    c0: SchedulerCore,
    t: SimulationTime,
    p: SimulationTime,
    c1: SchedulerCore,
    a1: SchedulerAction,
    c2: SchedulerCore,
    a2: SchedulerAction,
    c3: SchedulerCore,
    a3: SchedulerAction,
    c4: SchedulerCore,
    a4: SchedulerAction,
)
    requires
        c0.phase == SchedulerPhase::AwaitPrediction,
        t.ps <= c0.horizon.ps,
        scheduler_step(c0, SchedulerEvent::Prediction(Ok(NextEventReport { predicted_time: t })), c1, a1),
        scheduler_step(c1, SchedulerEvent::Advanced(Ok(())), c2, a2),
        scheduler_step(c2, SchedulerEvent::Confirmation(Ok(DigitalStepReport::Postponed { new_prediction: p })), c3, a3),
        scheduler_step(c3, SchedulerEvent::RolledBack(Ok(())), c4, a4),
    ensures
        a3 == SchedulerAction::RollbackTo(postpone_target(c0)),
        a4 == SchedulerAction::QueryNextEvent,
        c4.phase == SchedulerPhase::AwaitPrediction,
        c4.metadata.commits@ == c0.metadata.commits@,
        c4.metadata.rollbacks@ == c0.metadata.rollbacks@,
        c4.outcomes@ == c0.outcomes@,
        c4.metadata.diagnostics@ == c0.metadata.diagnostics@.push(c4.metadata.diagnostics@.last()),
        c4.metadata.diagnostics@.last()@ == postponed_text(t, p),
{
    assert(c4.metadata.diagnostics@ =~= c0.metadata.diagnostics@.push(c4.metadata.diagnostics@.last()));
}

/// A postponement rolls the analog side back to the most recent commit, the
/// last entry of the commit log, or to the origin when nothing has been
/// committed: no commit of the log comes after the rollback target. The
/// scheduler then waits on exactly that rollback.
pub proof fn law_postponement_rolls_back_to_last_commit(
    c: SchedulerCore,
    boundary: SimulationTime,
    p: SimulationTime,
    n: SchedulerCore,
    a: SchedulerAction,
)
    requires
        c.phase == (SchedulerPhase::AwaitConfirmation { boundary }),
        scheduler_step(c, SchedulerEvent::Confirmation(Ok(DigitalStepReport::Postponed { new_prediction: p })), n, a),
    ensures
        c.metadata.commits@.len() == 0 ==> a == SchedulerAction::RollbackTo(SimulationTime { ps: 0 }),
        c.metadata.commits@.len() > 0 ==> a == SchedulerAction::RollbackTo(c.metadata.commits@.last()),
        c.metadata.commits@.len() > 0 ==> c.metadata.commits@ == c.metadata.commits@.drop_last().push(
            c.metadata.commits@.last(),
        ),
        pending_action(n) == a,
        n.metadata.commits@ == c.metadata.commits@,
{
    if c.metadata.commits@.len() > 0 {
        assert(c.metadata.commits@ =~= c.metadata.commits@.drop_last().push(c.metadata.commits@.last()));
    }
}

/// The scheduler waits on the call it last asked for: after any step that
/// asks for a kernel call or for the end of the run, the call it awaits,
/// and so the one the next turn makes, is exactly that action. After a
/// misprediction that is the rollback to the corrected time.
pub proof fn law_pending_is_last_action(c: SchedulerCore, e: SchedulerEvent, n: SchedulerCore, a: SchedulerAction)
    requires
        scheduler_step(c, e, n, a),
        !(a is Fail),
    ensures
        pending_action(n) == a,
        c.phase is AwaitConfirmation ==> (e matches SchedulerEvent::Confirmation(
            Ok(DigitalStepReport::Mispredicted { actual_time }),
        ) ==> pending_action(n) == SchedulerAction::RollbackTo(actual_time)),
{
}

impl SchedulerCore {
    /// A scheduler with the given horizon, waiting for the first
    /// prediction, with nothing recorded.
    pub fn new(horizon: SimulationTime) -> (c: SchedulerCore)
        ensures
            c.horizon == horizon,
            c.phase == SchedulerPhase::AwaitPrediction,
            c.metadata.commits@.len() == 0,
            c.metadata.rollbacks@.len() == 0,
            c.metadata.diagnostics@.len() == 0,
            c.outcomes@.len() == 0,
    {
        SchedulerCore {
            horizon,
            phase: SchedulerPhase::AwaitPrediction,
            metadata: SchedulerMetadata::default(),
            outcomes: Vec::new(),
        }
    }

    /// The kernel call this scheduler is waiting on.
    pub fn pending(&self) -> (a: SchedulerAction)
        ensures
            a == pending_action(*self),
    {
        match self.phase {
            SchedulerPhase::AwaitPrediction => SchedulerAction::QueryNextEvent,
            SchedulerPhase::AwaitAdvance { boundary } => SchedulerAction::RunUntil(boundary),
            SchedulerPhase::AwaitConfirmation { boundary } => SchedulerAction::ConfirmEvent(boundary),
            SchedulerPhase::AwaitRollback { mispredicted_at, corrected } => SchedulerAction::RollbackTo(corrected),
            SchedulerPhase::AwaitReAdvance { corrected } => SchedulerAction::RunUntil(corrected),
            SchedulerPhase::AwaitPostponeRollback { from, to, target } => SchedulerAction::RollbackTo(target),
            SchedulerPhase::Finished => SchedulerAction::Finish,
        }
    }

    fn after_commit(&mut self, t: SimulationTime) -> (a: SchedulerAction)
        ensures
            final(self).horizon == old(self).horizon,
            final(self).metadata == old(self).metadata,
            final(self).outcomes == old(self).outcomes,
            final(self).phase == next_phase_after_commit(old(self).horizon, t),
            a == pending_after_commit(old(self).horizon, t),
    {
        if t.ps >= self.horizon.ps {
            self.phase = SchedulerPhase::Finished;
            SchedulerAction::Finish
        } else {
            self.phase = SchedulerPhase::AwaitPrediction;
            SchedulerAction::QueryNextEvent
        }
    }

    fn push_diagnostic(&mut self, line: String)
        ensures
            final(self).horizon == old(self).horizon,
            final(self).phase == old(self).phase,
            final(self).metadata.commits@ == old(self).metadata.commits@,
            final(self).metadata.rollbacks@ == old(self).metadata.rollbacks@,
            final(self).outcomes@ == old(self).outcomes@,
            final(self).metadata.diagnostics@ == old(self).metadata.diagnostics@.push(line),
    {
        self.metadata.diagnostics.push(line);
    }

    /// Takes the outcome of the awaited kernel call and returns the next
    /// call to make, recording commits, rollbacks and diagnostics.
    pub fn step(&mut self, event: SchedulerEvent) -> (a: SchedulerAction)
        ensures
            scheduler_step(*old(self), event, *final(self), a),
    {
        let ghost c = *self;
        match (self.phase, event) {
            (SchedulerPhase::AwaitPrediction, SchedulerEvent::Prediction(Err(err))) => {
                self.phase = SchedulerPhase::Finished;
                if self.outcomes.len() == 0 {
                    SchedulerAction::Fail(err)
                } else {
                    let mut line = String::from_str("digital end-of-events: ");
                    let et = err.to_string();
                    push_str(&mut line, et.as_str());
                    proof {
                        reveal_strlit("digital end-of-events: ");
                    }
                    assert(line@ =~= end_of_events_text(err));
                    self.push_diagnostic(line);
                    assert(self.metadata.diagnostics@.subrange(0, c.metadata.diagnostics@.len() as int)
                        =~= c.metadata.diagnostics@);
                    SchedulerAction::Finish
                }
            },
            (SchedulerPhase::AwaitPrediction, SchedulerEvent::Prediction(Ok(r))) => {
                if r.predicted_time.ps > self.horizon.ps {
                    self.phase = SchedulerPhase::Finished;
                    let mut line = String::from_str("next prediction ");
                    let p = r.predicted_time.to_string();
                    push_str(&mut line, p.as_str());
                    push_str(&mut line, " exceeds horizon ");
                    let h = self.horizon.to_string();
                    push_str(&mut line, h.as_str());
                    push_str(&mut line, "; stopping");
                    proof {
                        reveal_strlit("next prediction ");
                    }
                    assert(line@ =~= past_horizon_text(r.predicted_time, c.horizon));
                    self.push_diagnostic(line);
                    assert(self.metadata.diagnostics@.subrange(0, c.metadata.diagnostics@.len() as int)
                        =~= c.metadata.diagnostics@);
                    SchedulerAction::Finish
                } else {
                    self.phase = SchedulerPhase::AwaitAdvance { boundary: r.predicted_time };
                    SchedulerAction::RunUntil(r.predicted_time)
                }
            },
            (SchedulerPhase::AwaitAdvance { boundary }, SchedulerEvent::Advanced(Err(err))) => {
                self.phase = SchedulerPhase::Finished;
                SchedulerAction::Fail(err)
            },
            (SchedulerPhase::AwaitAdvance { boundary }, SchedulerEvent::Advanced(Ok(_))) => {
                self.phase = SchedulerPhase::AwaitConfirmation { boundary };
                SchedulerAction::ConfirmEvent(boundary)
            },
            (SchedulerPhase::AwaitConfirmation { boundary }, SchedulerEvent::Confirmation(Err(err))) => {
                self.phase = SchedulerPhase::Finished;
                SchedulerAction::Fail(err)
            },
            (SchedulerPhase::AwaitConfirmation { boundary }, SchedulerEvent::Confirmation(Ok(report))) => {
                match report {
                    DigitalStepReport::Confirmed { time } => {
                        self.metadata.commits.push(time);
                        self.outcomes.push(SchedulerOutcome::Committed(time));
                        self.after_commit(time)
                    },
                    DigitalStepReport::Mispredicted { actual_time } => {
                        self.phase = SchedulerPhase::AwaitRollback {
                            mispredicted_at: boundary,
                            corrected: actual_time,
                        };
                        SchedulerAction::RollbackTo(actual_time)
                    },
                    DigitalStepReport::Postponed { new_prediction } => {
                        let n = self.metadata.commits.len();
                        let target = if n == 0 {
                            SimulationTime::zero()
                        } else {
                            self.metadata.commits[n - 1]
                        };
                        self.phase = SchedulerPhase::AwaitPostponeRollback {
                            from: boundary,
                            to: new_prediction,
                            target,
                        };
                        SchedulerAction::RollbackTo(target)
                    },
                }
            },
            (SchedulerPhase::AwaitRollback { mispredicted_at, corrected }, SchedulerEvent::RolledBack(Err(err))) => {
                self.phase = SchedulerPhase::Finished;
                SchedulerAction::Fail(err)
            },
            (SchedulerPhase::AwaitRollback { mispredicted_at, corrected }, SchedulerEvent::RolledBack(Ok(_))) => {
                let reason = String::from_str("no-event-confirmed");
                proof {
                    reveal_strlit("no-event-confirmed");
                }
                self.metadata.rollbacks.push(RollbackEvent {
                    mispredicted_at,
                    corrected_to: corrected,
                    checkpoint_at: corrected,
                    reason,
                });
                assert(self.metadata.rollbacks@.subrange(0, c.metadata.rollbacks@.len() as int)
                    =~= c.metadata.rollbacks@);
                self.outcomes.push(SchedulerOutcome::RolledBack { checkpoint: corrected, corrected });
                self.phase = SchedulerPhase::AwaitReAdvance { corrected };
                SchedulerAction::RunUntil(corrected)
            },
            (SchedulerPhase::AwaitReAdvance { corrected }, SchedulerEvent::Advanced(Err(err))) => {
                self.phase = SchedulerPhase::Finished;
                SchedulerAction::Fail(err)
            },
            (SchedulerPhase::AwaitReAdvance { corrected }, SchedulerEvent::Advanced(Ok(_))) => {
                self.metadata.commits.push(corrected);
                self.after_commit(corrected)
            },
            (SchedulerPhase::AwaitPostponeRollback { from, to, target }, SchedulerEvent::RolledBack(Err(err))) => {
                self.phase = SchedulerPhase::Finished;
                SchedulerAction::Fail(err)
            },
            (SchedulerPhase::AwaitPostponeRollback { from, to, target }, SchedulerEvent::RolledBack(Ok(_))) => {
                let mut line = String::from_str("digital postponed event from ");
                let f = from.to_string();
                push_str(&mut line, f.as_str());
                push_str(&mut line, " to ");
                let t = to.to_string();
                push_str(&mut line, t.as_str());
                proof {
                    reveal_strlit("digital postponed event from ");
                }
                assert(line@ =~= postponed_text(from, to));
                self.push_diagnostic(line);
                assert(self.metadata.diagnostics@.subrange(0, c.metadata.diagnostics@.len() as int)
                    =~= c.metadata.diagnostics@);
                self.phase = SchedulerPhase::AwaitPrediction;
                SchedulerAction::QueryNextEvent
            },
            _ => self.pending(),
        }
    }
}

/// A kernel answer with its report dropped: whether it succeeded, or its
/// error.
pub open spec fn without_report<T>(r: Result<T, ErrorValue>) -> Result<(), ErrorValue> {
    match r {
        Ok(_) => Ok(()),
        Err(e) => Err(e),
    }
}

/// The outcome `e` is what the kernels in states `analog` and `digital`
/// answer to the call `a`, made with the call's own argument. A finished
/// scheduler makes no call, and any outcome stands for that.
pub open spec fn kernel_answered<A: AnalogSolver, D: DigitalSimulator>(
    a: SchedulerAction,
    analog: A,
    digital: D,
    e: SchedulerEvent,
) -> bool {
    match a {
        SchedulerAction::QueryNextEvent => e matches SchedulerEvent::Prediction(r) && outcome(r)
            == D::prediction_outcome(digital.state()),
        SchedulerAction::RunUntil(t) => e matches SchedulerEvent::Advanced(r) && outcome(r) == without_report(
            analog.run_outcome(t),
        ),
        SchedulerAction::ConfirmEvent(t) => e matches SchedulerEvent::Confirmation(r) && outcome(r)
            == D::confirm_outcome(digital.state(), t),
        SchedulerAction::RollbackTo(t) => e matches SchedulerEvent::RolledBack(r) && outcome(r)
            == analog.rollback_outcome(t),
        _ => true,
    }
}

/// The mixed-signal scheduler: the analog and digital kernels, the
/// boundary signals between them, and the decision machine that mediates.
///
/// Each [`turn`](MixedSignalScheduler::turn) makes the kernel call that the
/// decision machine waits on and feeds its outcome back; the caller repeats
/// turns until the answer is `Finish` (then takes
/// [`into_result`](MixedSignalScheduler::into_result)) or `Fail`.
pub struct MixedSignalScheduler<A: AnalogSolver, D: DigitalSimulator> {
    analog: A,
    digital: D,
    boundaries: BoundarySignals,
    machine: SchedulerCore,
}

impl<A: AnalogSolver, D: DigitalSimulator> MixedSignalScheduler<A, D> {
    /// The decision machine's state.
    pub closed spec fn state(&self) -> SchedulerCore {
        self.machine
    }

    /// The configured boundary signals.
    pub closed spec fn boundary_pairs(&self) -> BoundarySignals {
        self.boundaries
    }

    /// The analog kernel in its present state.
    pub closed spec fn analog_part(&self) -> A {
        self.analog
    }

    /// The digital kernel in its present state.
    pub closed spec fn digital_part(&self) -> D {
        self.digital
    }

    /// A scheduler over the two kernels that stops at `horizon`, waiting for
    /// the first prediction with nothing recorded.
    pub fn new(analog: A, digital: D, boundaries: BoundarySignals, horizon: SimulationTime) -> (s: Self)
        ensures
            s.state().horizon == horizon,
            s.state().phase == SchedulerPhase::AwaitPrediction,
            s.state().metadata.commits@.len() == 0,
            s.state().metadata.rollbacks@.len() == 0,
            s.state().metadata.diagnostics@.len() == 0,
            s.state().outcomes@.len() == 0,
            s.boundary_pairs() == boundaries,
            s.analog_part() == analog,
            s.digital_part() == digital,
    {
        MixedSignalScheduler { analog, digital, boundaries, machine: SchedulerCore::new(horizon) }
    }

    /// The configured boundary signals.
    pub fn boundaries(&self) -> (b: &BoundarySignals)
        ensures
            *b == self.boundary_pairs(),
    {
        &self.boundaries
    }

    /// The horizon given at construction.
    pub fn horizon(&self) -> (h: SimulationTime)
        ensures
            h == self.state().horizon,
    {
        self.machine.horizon
    }

    /// The decision machine, for inspection.
    pub fn decisions(&self) -> (c: &SchedulerCore)
        ensures
            *c == self.state(),
    {
        &self.machine
    }

    /// Makes the kernel call that the decision machine waits on, hands it
    /// the outcome and returns its next action. A finished scheduler makes
    /// no call and answers `Finish`.
    pub fn turn(&mut self) -> (a: SchedulerAction)
        ensures
            final(self).boundary_pairs() == old(self).boundary_pairs(),
            exists|e: SchedulerEvent|
                kernel_answered(pending_action(old(self).state()), old(self).analog_part(), old(self).digital_part(), e)
                    && #[trigger] scheduler_step(old(self).state(), e, final(self).state(), a),
            pending_action(old(self).state()) matches SchedulerAction::RunUntil(t) ==> final(self).analog_part()
                == old(self).analog_part().after_run(t) && final(self).digital_part() == old(self).digital_part(),
            pending_action(old(self).state()) matches SchedulerAction::RollbackTo(t) ==> final(self).analog_part()
                == old(self).analog_part().after_rollback(t) && final(self).digital_part() == old(self).digital_part(),
            pending_action(old(self).state()) is QueryNextEvent ==> final(self).digital_part().state()
                == D::after_query(old(self).digital_part().state()) && final(self).analog_part() == old(self).analog_part(),
            pending_action(old(self).state()) matches SchedulerAction::ConfirmEvent(t) ==> final(self).digital_part().state()
                == D::after_confirm(old(self).digital_part().state(), t) && final(self).analog_part() == old(self).analog_part(),
            !(pending_action(old(self).state()) is QueryNextEvent || pending_action(old(self).state()) is RunUntil
                || pending_action(old(self).state()) is ConfirmEvent || pending_action(old(self).state()) is RollbackTo)
                ==> final(self).analog_part() == old(self).analog_part() && final(self).digital_part() == old(self).digital_part(),
    {
        let pending = self.machine.pending();
        let event = match pending {
            SchedulerAction::QueryNextEvent => SchedulerEvent::Prediction(self.digital.next_event_time()),
            SchedulerAction::RunUntil(t) => {
                let advanced = match self.analog.run_until(t) {
                    Ok(_) => Ok(()),
                    Err(err) => Err(err),
                };
                SchedulerEvent::Advanced(advanced)
            },
            SchedulerAction::ConfirmEvent(t) => SchedulerEvent::Confirmation(self.digital.confirm_event(t)),
            SchedulerAction::RollbackTo(t) => SchedulerEvent::RolledBack(self.analog.rollback_to(t)),
            _ => {
                let ghost idle = SchedulerEvent::Advanced(Ok(()));
                assert(scheduler_step(self.machine, idle, self.machine, pending));
                return pending;
            },
        };
        let ghost e = event;
        let a = self.machine.step(event);
        assert(scheduler_step(old(self).state(), e, self.state(), a));
        a
    }

    /// Hands over both kernels' traces together with what the scheduler
    /// recorded.
    pub fn into_result(self) -> (r: MixedSignalResult<A::Trace>)
        ensures
            r.scheduler == self.state().metadata,
            r.analog == self.analog_part().trace(),
            (r.digital.vcd@, crate::icarus::index_view(r.digital.events_by_signal@)) == D::trace_view(self.digital_part().state()),
    {
        let mut analog = self.analog;
        let mut digital = self.digital;
        let analog_trace = analog.take_trace();
        let digital_trace: DigitalEventTrace = digital.take_trace();
        MixedSignalResult { analog: analog_trace, digital: digital_trace, scheduler: self.machine.metadata }
    }
}

} // verus!
