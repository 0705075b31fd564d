//! Rollback on misprediction.
//!
//! When the digital side reports that its predicted event happened earlier
//! than predicted, the [`RollbackHandler`] finds the latest checkpoint at or
//! before the corrected time, restores the analog solver there, discards
//! the checkpoints after it, re-advances the solver to the corrected time,
//! and records what it did.
use vstd::prelude::*;
use vstd::string::StringExecFns;
use crate::checkpoint::{
    CheckpointError, SparseCheckpoint, SparseCheckpointManager, checkpoint_error_text,
    has_at_or_before, is_restore_index, same_checkpoint, save_accepts, times_non_decreasing,
};
use crate::mixed_signal::{AnalogSolver, AnalogStepReport, RollbackEvent, SchedulerError, error_value, rollback_record};
use crate::text::push_str;
use crate::time::SimulationTime;

verus! {

/// The entry a restore at `target` answers with (meaningful when one
/// exists).
pub open spec fn restore_index<S>(s: Seq<SparseCheckpoint<S>>, target: SimulationTime) -> int {
    choose|i: int| is_restore_index(s, target, i)
}

/// At most one entry answers a restore.
pub proof fn lemma_restore_index_unique<S>(s: Seq<SparseCheckpoint<S>>, target: SimulationTime, i: int, j: int)
    requires
        is_restore_index(s, target, i),
        is_restore_index(s, target, j),
    ensures
        i == j,
{
}

/// `after` is `before` with `c` saved at its end (holding the same state).
pub open spec fn saved_copy<S>(before: Seq<SparseCheckpoint<S>>, after: Seq<SparseCheckpoint<S>>, c: SparseCheckpoint<S>) -> bool {
    &&& after.len() == before.len() + 1
    &&& after.subrange(0, before.len() as int) == before
    &&& same_checkpoint(after.last(), c)
}

/// Text of the error raised when the re-advance hands back a checkpoint
/// earlier than the restored one.
pub open spec fn non_monotonic_readvance_text(e: CheckpointError) -> Seq<char> {
    "rollback re-advance produced non-monotonic checkpoint: "@ + checkpoint_error_text(e)
}

/// What a rollback did: the record for the scheduler's log, the solver's
/// report from re-advancing, and how many checkpoints were discarded.
#[derive(Debug, Clone, PartialEq)]
pub struct RollbackOutcome<S> {
    /// The record for the scheduler's log.
    pub event: RollbackEvent,
    /// The analog solver's report from the re-advance.
    pub re_advance: AnalogStepReport<S>,
    /// Number of checkpoints discarded (those after the restored one).
    pub pruned_checkpoints: usize,
}

/// Couples a checkpoint store with an analog solver to carry out rollbacks.
#[derive(Debug)]
pub struct RollbackHandler<S> {
    manager: SparseCheckpointManager<S>,
}

impl<S> View for RollbackHandler<S> {
    type V = Seq<SparseCheckpoint<S>>;

    closed spec fn view(&self) -> Seq<SparseCheckpoint<S>> {
        self.manager@
    }
}

impl<S> RollbackHandler<S> {
    /// A handler with an empty store.
    pub fn new() -> (h: RollbackHandler<S>)
        ensures
            h@ == Seq::<SparseCheckpoint<S>>::empty(),
    {
        RollbackHandler { manager: SparseCheckpointManager::new() }
    }

    /// A handler over the given store.
    pub fn with_manager(manager: SparseCheckpointManager<S>) -> (h: RollbackHandler<S>)
        ensures
            h@ == manager@,
    {
        RollbackHandler { manager }
    }

    /// The underlying store.
    pub fn manager(&self) -> (m: &SparseCheckpointManager<S>)
        ensures
            m@ == self@,
    {
        &self.manager
    }

    /// Number of checkpoints held.
    pub fn checkpoint_count(&self) -> (n: usize)
        ensures
            n == self@.len(),
    {
        self.manager.len()
    }
}

impl<S> Default for RollbackHandler<S> {
    fn default() -> (h: Self)
        ensures
            h@ == Seq::<SparseCheckpoint<S>>::empty(),
    {
        RollbackHandler::new()
    }
}

impl<S: Copy> RollbackHandler<S> {
    /// Records the checkpoint carried by `report`, if any. A report without
    /// a checkpoint changes nothing; a checkpoint earlier than the latest
    /// stored one is refused and changes nothing.
    pub fn observe_step(&mut self, report: &AnalogStepReport<S>) -> (r: Result<(), CheckpointError>)
        ensures
            report.checkpoint is None ==> r is Ok && final(self)@ == old(self)@,
            report.checkpoint matches Some(c) ==> {
                &&& (r is Ok <==> save_accepts(old(self)@, c.time))
                &&& (r is Ok ==> saved_copy(old(self)@, final(self)@, c))
                &&& (r matches Err(e) ==> final(self)@ == old(self)@ && e == (CheckpointError::NonMonotonicSave {
                    latest: old(self)@.last().time,
                    attempted: c.time,
                }))
            },
    {
        match &report.checkpoint {
            Some(c) => {
                let copy = c.duplicate();
                let r = self.manager.save(copy);
                if r.is_ok() {
                    assert(self@.subrange(0, old(self)@.len() as int) =~= old(self)@);
                }
                r
            },
            None => Ok(()),
        }
    }

    /// Records the checkpoint of the solver's report after re-advancing, as
    /// [`observe_step`](RollbackHandler::observe_step) does; a refused
    /// checkpoint (earlier than the latest stored one) is the solver's
    /// failure, reported as `AnalogSolveFailed` with the refusal's text.
    pub fn record_re_advance(&mut self, report: &AnalogStepReport<S>) -> (r: Result<(), SchedulerError>)
        ensures
            report.checkpoint is None ==> r is Ok && final(self)@ == old(self)@,
            report.checkpoint matches Some(c) ==> {
                &&& (r is Ok <==> save_accepts(old(self)@, c.time))
                &&& (r is Ok ==> saved_copy(old(self)@, final(self)@, c))
                &&& (r is Err ==> final(self)@ == old(self)@ && (r matches Err(SchedulerError::AnalogSolveFailed(m))
                    && m@ == non_monotonic_readvance_text(CheckpointError::NonMonotonicSave {
                    latest: old(self)@.last().time,
                    attempted: c.time,
                })))
            },
    {
        match self.observe_step(report) {
            Ok(()) => Ok(()),
            Err(err) => {
                let mut msg = String::from_str("rollback re-advance produced non-monotonic checkpoint: ");
                let et = err.to_string();
                push_str(&mut msg, et.as_str());
                proof {
                    reveal_strlit("rollback re-advance produced non-monotonic checkpoint: ");
                }
                assert(msg@ =~= non_monotonic_readvance_text(err));
                Err(SchedulerError::AnalogSolveFailed(msg))
            },
        }
    }

    /// Rolls the analog solver back for a misprediction at
    /// `mispredicted_at` whose event actually happened at `corrected`:
    /// restores the latest checkpoint at or before `corrected`, discards the
    /// checkpoints after it, re-advances the solver to `corrected`, and
    /// records the re-advance's checkpoint.
    ///
    /// The solver is asked to restore the checkpoint's time and then to
    /// advance to `corrected`. Without a checkpoint at or before `corrected`
    /// nothing is touched and the error is `NoCheckpoint(corrected)`. A
    /// failure of the solver's restore is handed back as the solver reported
    /// it with the store unchanged; a failure of its re-advance likewise,
    /// with the later checkpoints already discarded; a re-advance checkpoint
    /// earlier than the restored one is refused with `AnalogSolveFailed`.
    pub fn rollback_to<A: AnalogSolver<Scalar = S>>(
        &mut self,
        analog: &mut A,
        mispredicted_at: SimulationTime,
        corrected: SimulationTime,
        reason: &str,
    ) -> (r: Result<RollbackOutcome<S>, SchedulerError>)
        ensures
            !has_at_or_before(old(self)@, corrected) ==> {
                &&& r == Err::<RollbackOutcome<S>, SchedulerError>(SchedulerError::NoCheckpoint(corrected))
                &&& final(self)@ == old(self)@
                &&& *final(analog) == *old(analog)
            },
            has_at_or_before(old(self)@, corrected) ==> {
                let i = restore_index(old(self)@, corrected);
                let restored = old(self)@[i].time;
                let kept = old(self)@.subrange(0, i + 1);
                let mid = old(analog).after_rollback(restored);
                &&& is_restore_index(old(self)@, corrected, i)
                &&& match old(analog).rollback_outcome(restored) {
                    Err(ev) => (r matches Err(e) && error_value(e) == ev) && final(self)@ == old(self)@
                        && *final(analog) == mid,
                    Ok(_) => {
                        &&& *final(analog) == mid.after_run(corrected)
                        &&& match mid.run_outcome(corrected) {
                            Err(ev) => (r matches Err(e) && error_value(e) == ev) && final(self)@ == kept,
                            Ok(rep) => re_advance_recorded(
                                r,
                                rep,
                                kept,
                                final(self)@,
                                (mispredicted_at, corrected, restored, reason@),
                                old(self)@.len() - (i + 1),
                            ),
                        }
                    },
                }
            },
    {
        let ghost s = self@;
        let found = self.manager.restore_at_or_before(corrected);
        let checkpoint_time = match found {
            Ok(c) => c.time(),
            Err(_) => {
                return Err(SchedulerError::NoCheckpoint(corrected));
            },
        };
        let ghost i = restore_index(s, corrected);
        proof {
            let i0 = choose|k: int| is_restore_index(s, corrected, k) && s[k].time == checkpoint_time;
            lemma_restore_index_unique(s, corrected, i, i0);
        }
        match analog.rollback_to(checkpoint_time) {
            Ok(()) => {},
            Err(e) => {
                return Err(e);
            },
        }
        let pruned = self.manager.drop_after(checkpoint_time);
        proof {
            assert(self@.len() == i + 1) by {
                if self@.len() > i + 1 {
                    assert(s[i + 1].time.ps <= checkpoint_time.ps);
                }
                if self@.len() < i + 1 {
                    let k = self@.len() as int;
                    assert(s[k].time.ps <= s[i].time.ps);
                }
            }
            assert(self@ =~= s.subrange(0, i + 1));
        }
        let report = match analog.run_until(corrected) {
            Ok(rep) => rep,
            Err(e) => {
                return Err(e);
            },
        };
        match self.record_re_advance(&report) {
            Ok(()) => {},
            Err(e) => {
                return Err(e);
            },
        }
        let reason_owned = String::from_str(reason);
        Ok(RollbackOutcome {
            event: RollbackEvent {
                mispredicted_at,
                corrected_to: corrected,
                checkpoint_at: checkpoint_time,
                reason: reason_owned,
            },
            re_advance: report,
            pruned_checkpoints: pruned,
        })
    }
}

/// What a rollback gives once the solver has restored and re-advanced with
/// report `rep`: the re-advance's checkpoint, if any, is recorded after the
/// kept checkpoints, and the outcome carries the record `event`, the report
/// and the number of checkpoints pruned; a re-advance checkpoint earlier
/// than the latest kept one is refused as the solver's failure and the
/// store stays at the kept checkpoints.
pub open spec fn re_advance_recorded<S>(
    r: Result<RollbackOutcome<S>, SchedulerError>,
    rep: AnalogStepReport<S>,
    kept: Seq<SparseCheckpoint<S>>,
    after: Seq<SparseCheckpoint<S>>,
    event: (SimulationTime, SimulationTime, SimulationTime, Seq<char>),
    pruned: int,
) -> bool {
    let accepted = match rep.checkpoint {
        None => after == kept,
        Some(c) => save_accepts(kept, c.time) && saved_copy(kept, after, c),
    };
    let refused = match rep.checkpoint {
        None => false,
        Some(c) => !save_accepts(kept, c.time),
    };
    if refused {
        &&& after == kept
        &&& r matches Err(SchedulerError::AnalogSolveFailed(m))
        &&& m@ == non_monotonic_readvance_text(CheckpointError::NonMonotonicSave {
            latest: kept.last().time,
            attempted: rep.checkpoint->0.time,
        })
    } else {
        &&& accepted
        &&& r matches Ok(out)
        &&& rollback_record(out.event) == event
        &&& out.re_advance == rep
        &&& out.pruned_checkpoints == pruned
    }
}

} // verus!
