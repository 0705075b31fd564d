//! The mixed-signal co-simulation surface: boundary-signal configuration,
//! the analog-solver and digital-simulator interfaces, the per-boundary
//! reports the kernels give, and the scheduler's errors and records.
//!
//! The scheduler mediates between the two kernels: it asks the digital side
//! for its next predicted event, advances the analog side to that boundary,
//! asks the digital side to confirm, and commits, rolls back, or re-targets
//! accordingly. Its decisions stand in the `scheduler` module.
use vstd::prelude::*;
use vstd::string::StringExecFns;
use crate::checkpoint::SparseCheckpoint;
use crate::text::push_str;
use crate::time::{SignalName, SimulationTime, time_text};

verus! {

/// The named signals exchanged between the kernels at every
/// synchronization point.
#[derive(Debug, Clone, PartialEq)]
pub struct BoundarySignals {
    /// Pairs (analog source, digital destination).
    pub analog_to_digital: Vec<(SignalName, SignalName)>,
    /// Pairs (digital source, analog destination).
    pub digital_to_analog: Vec<(SignalName, SignalName)>,
}

impl Default for BoundarySignals {
    fn default() -> (b: Self)
        ensures
            b.analog_to_digital@.len() == 0,
            b.digital_to_analog@.len() == 0,
    {
        BoundarySignals { analog_to_digital: Vec::new(), digital_to_analog: Vec::new() }
    }
}

/// Which digital kernel the scheduler is mediating.
#[derive(Debug, Clone, Copy, PartialEq, Eq, Hash, Structural)]
pub enum DigitalAdapterKind {
    /// Icarus Verilog through its VVP runtime.
    IcarusVerilog,
    /// A Verilator-built model.
    Verilator,
    /// A scripted stand-in used in tests.
    TestDouble,
    /// The in-process native digital kernel.
    NativeKernel,
}

/// The stable text name of an adapter kind.
pub open spec fn adapter_kind_text(k: DigitalAdapterKind) -> Seq<char> {
    match k {
        DigitalAdapterKind::IcarusVerilog => "icarus-verilog"@,
        DigitalAdapterKind::Verilator => "verilator"@,
        DigitalAdapterKind::TestDouble => "test-double"@,
        DigitalAdapterKind::NativeKernel => "native-kernel"@,
    }
}

impl DigitalAdapterKind {
    /// The stable text name of this adapter kind.
    pub fn to_string(&self) -> (s: String)
        ensures
            s@ == adapter_kind_text(*self),
    {
        match self {
            DigitalAdapterKind::IcarusVerilog => String::from_str("icarus-verilog"),
            DigitalAdapterKind::Verilator => String::from_str("verilator"),
            DigitalAdapterKind::TestDouble => String::from_str("test-double"),
            DigitalAdapterKind::NativeKernel => String::from_str("native-kernel"),
        }
    }
}

/// What the analog solver reports after advancing to a boundary.
#[derive(Debug, Clone, PartialEq)]
pub struct AnalogStepReport<S> {
    /// The time actually reached.
    pub time_reached: SimulationTime,
    /// Whether a checkpoint was saved at `time_reached`.
    pub checkpoint_saved: bool,
    /// The saved checkpoint, when the solver hands it over.
    pub checkpoint: Option<SparseCheckpoint<S>>,
}

impl<S> AnalogStepReport<S> {
    /// A report of reaching `time` and saving `checkpoint` there.
    pub fn with_checkpoint(time: SimulationTime, checkpoint: SparseCheckpoint<S>) -> (r: AnalogStepReport<S>)
        ensures
            r.time_reached == time,
            r.checkpoint_saved,
            r.checkpoint == Some(checkpoint),
    {
        AnalogStepReport { time_reached: time, checkpoint_saved: true, checkpoint: Some(checkpoint) }
    }

    /// A report of reaching `time` and saving a checkpoint whose contents
    /// the solver keeps to itself.
    pub fn saved_at(time: SimulationTime) -> (r: AnalogStepReport<S>)
        ensures
            r.time_reached == time,
            r.checkpoint_saved,
            r.checkpoint is None,
    {
        AnalogStepReport { time_reached: time, checkpoint_saved: true, checkpoint: None }
    }
}

/// The digital side's predicted next event.
#[derive(Debug, Clone, Copy, PartialEq, Eq, Structural)]
pub struct NextEventReport {
    /// The predicted time of the next digital event.
    pub predicted_time: SimulationTime,
}

/// The digital side's verdict at a synchronization boundary.
#[derive(Debug, Clone, Copy, PartialEq, Eq, Structural)]
pub enum DigitalStepReport {
    /// An event happened at the boundary.
    Confirmed {
        /// The event time.
        time: SimulationTime,
    },
    /// No event at the boundary, but one happened earlier.
    Mispredicted {
        /// The earlier event time.
        actual_time: SimulationTime,
    },
    /// No event at the boundary; the next one is predicted later.
    Postponed {
        /// The revised prediction.
        new_prediction: SimulationTime,
    },
}

/// Failures that stop the scheduler.
#[derive(Debug, Clone, PartialEq)]
pub enum SchedulerError {
    /// The analog solver could not advance or restore.
    AnalogSolveFailed(String),
    /// The digital adapter failed to answer.
    DigitalAdapterFailed(String),
    /// No checkpoint lies at or before the requested rollback time.
    NoCheckpoint(SimulationTime),
    /// The digital side reported an event earlier than it had announced.
    ContractViolation {
        /// The announced time.
        predicted: SimulationTime,
        /// The earlier reported time.
        actual: SimulationTime,
    },
}

/// The human-readable text of a scheduler error.
pub open spec fn scheduler_error_text(e: SchedulerError) -> Seq<char> {
    match e {
        SchedulerError::AnalogSolveFailed(msg) => "analog solver failed: "@ + msg@,
        SchedulerError::DigitalAdapterFailed(msg) => "digital adapter failed: "@ + msg@,
        SchedulerError::NoCheckpoint(t) => "no checkpoint at or before "@ + time_text(t),
        SchedulerError::ContractViolation { predicted, actual } =>
            "digital next-event-time contract violation: predicted "@ + time_text(predicted)
                + ", actual "@ + time_text(actual),
    }
}

impl SchedulerError {
    /// The human-readable message for this error.
    pub fn to_string(&self) -> (s: String)
        ensures
            s@ == scheduler_error_text(*self),
    {
        let mut s = String::new();
        match self {
            SchedulerError::AnalogSolveFailed(msg) => {
                push_str(&mut s, "analog solver failed: ");
                push_str(&mut s, msg.as_str());
            },
            SchedulerError::DigitalAdapterFailed(msg) => {
                push_str(&mut s, "digital adapter failed: ");
                push_str(&mut s, msg.as_str());
            },
            SchedulerError::NoCheckpoint(t) => {
                push_str(&mut s, "no checkpoint at or before ");
                let ts = t.to_string();
                push_str(&mut s, ts.as_str());
            },
            SchedulerError::ContractViolation { predicted, actual } => {
                push_str(&mut s, "digital next-event-time contract violation: predicted ");
                let ps = predicted.to_string();
                push_str(&mut s, ps.as_str());
                push_str(&mut s, ", actual ");
                let a_s = actual.to_string();
                push_str(&mut s, a_s.as_str());
            },
        }
        assert(s@ =~= scheduler_error_text(*self));
        s
    }
}

/// The scheduler's verdict on one boundary.
#[derive(Debug, Clone, Copy, PartialEq, Eq, Structural)]
pub enum SchedulerOutcome {
    /// The boundary was committed at the predicted time.
    Committed(SimulationTime),
    /// The boundary was refuted; analog state went back to `checkpoint` and
    /// re-advanced to `corrected`.
    RolledBack {
        /// The restored time.
        checkpoint: SimulationTime,
        /// The corrected event time.
        corrected: SimulationTime,
    },
}

/// Record of one rollback.
#[derive(Debug, Clone, PartialEq)]
pub struct RollbackEvent {
    /// The refuted boundary.
    pub mispredicted_at: SimulationTime,
    /// The corrected event time.
    pub corrected_to: SimulationTime,
    /// The checkpoint time the analog state was restored to.
    pub checkpoint_at: SimulationTime,
    /// Why the rollback happened.
    pub reason: String,
}

/// The four times-and-reason of a rollback record, as plain values.
pub open spec fn rollback_record(e: RollbackEvent) -> (SimulationTime, SimulationTime, SimulationTime, Seq<char>) {
    (e.mispredicted_at, e.corrected_to, e.checkpoint_at, e.reason@)
}

/// A scheduler error as plain values: its kind (analog failure, digital
/// failure, missing checkpoint, contract violation, in that order from 0),
/// its message, and the times it names.
pub type ErrorValue = (nat, Seq<char>, SimulationTime, SimulationTime);

/// A digital trace as plain values: its VCD text and, per signal, the
/// event times.
pub type TraceView = (Seq<char>, Seq<(Seq<char>, Seq<SimulationTime>)>);

/// The plain value of a scheduler error; a time it does not name is the
/// origin.
pub open spec fn error_value(e: SchedulerError) -> ErrorValue {
    let origin = SimulationTime { ps: 0 };
    match e {
        SchedulerError::AnalogSolveFailed(m) => (0, m@, origin, origin),
        SchedulerError::DigitalAdapterFailed(m) => (1, m@, origin, origin),
        SchedulerError::NoCheckpoint(t) => (2, Seq::empty(), t, origin),
        SchedulerError::ContractViolation { predicted, actual } => (3, Seq::empty(), predicted, actual),
    }
}

/// The plain value of a digital-adapter failure with message `text`.
pub open spec fn digital_failure(text: Seq<char>) -> ErrorValue {
    (1, text, SimulationTime { ps: 0 }, SimulationTime { ps: 0 })
}

/// A kernel call's result with its error as plain values.
pub open spec fn outcome<T>(r: Result<T, SchedulerError>) -> Result<T, ErrorValue> {
    match r {
        Ok(v) => Ok(v),
        Err(e) => Err(error_value(e)),
    }
}

/// The analog continuous-time solver, as the scheduler sees it.
///
/// What each call answers, and the state it leaves, is a function of the
/// solver's state and the call's argument; the spec functions name them.
pub trait AnalogSolver: Sized {
    /// Scalar type of the solver's saved state.
    type Scalar;
    /// What the solver hands back as its trace at the end of a run.
    type Trace;

    /// What advancing to `target` answers from this state.
    spec fn run_outcome(&self, target: SimulationTime) -> Result<AnalogStepReport<Self::Scalar>, ErrorValue>;

    /// The state after advancing to `target`.
    spec fn after_run(&self, target: SimulationTime) -> Self;

    /// What restoring to `target` answers from this state.
    spec fn rollback_outcome(&self, target: SimulationTime) -> Result<(), ErrorValue>;

    /// The state after restoring to `target`.
    spec fn after_rollback(&self, target: SimulationTime) -> Self;

    /// The trace this state hands over.
    spec fn trace(&self) -> Self::Trace;

    /// Advance up to `target`, saving a checkpoint there.
    fn run_until(&mut self, target: SimulationTime) -> (r: Result<AnalogStepReport<Self::Scalar>, SchedulerError>)
        ensures
            outcome(r) == old(self).run_outcome(target),
            *final(self) == old(self).after_run(target),
    ;

    /// Restore the state saved at the latest checkpoint at or before `target`.
    fn rollback_to(&mut self, target: SimulationTime) -> (r: Result<(), SchedulerError>)
        ensures
            outcome(r) == old(self).rollback_outcome(target),
            *final(self) == old(self).after_rollback(target),
    ;

    /// Hand over the accumulated trace.
    fn take_trace(&mut self) -> (t: Self::Trace)
        ensures
            t == old(self).trace(),
    ;
}

/// The event-driven digital simulator, as the scheduler sees it.
///
/// The simulator's state is named as a plain value; what each call answers,
/// and the state it leaves, is a function of that state and the call's
/// argument, named by the spec functions.
pub trait DigitalSimulator {
    /// The simulator's state as a plain value.
    type State;

    /// The present state.
    spec fn state(&self) -> Self::State;

    /// The prediction a query gives from state `s`.
    spec fn prediction_outcome(s: Self::State) -> Result<NextEventReport, ErrorValue>;

    /// The state a query leaves from state `s`.
    spec fn after_query(s: Self::State) -> Self::State;

    /// The verdict a confirmation at `boundary` gives from state `s`.
    spec fn confirm_outcome(s: Self::State, boundary: SimulationTime) -> Result<DigitalStepReport, ErrorValue>;

    /// The state a confirmation at `boundary` leaves from state `s`.
    spec fn after_confirm(s: Self::State, boundary: SimulationTime) -> Self::State;

    /// The trace state `s` hands over, as plain values.
    spec fn trace_view(s: Self::State) -> TraceView;

    /// The state handing over the trace leaves from state `s`.
    spec fn after_take(s: Self::State) -> Self::State;

    /// Which adapter this is.
    fn adapter_kind(&self) -> DigitalAdapterKind;

    /// The predicted time of the next event.
    fn next_event_time(&mut self) -> (r: Result<NextEventReport, SchedulerError>)
        ensures
            outcome(r) == Self::prediction_outcome(old(self).state()),
            final(self).state() == Self::after_query(old(self).state()),
    ;

    /// Advance to `boundary` and report whether the predicted event happened.
    fn confirm_event(&mut self, boundary: SimulationTime) -> (r: Result<DigitalStepReport, SchedulerError>)
        ensures
            outcome(r) == Self::confirm_outcome(old(self).state(), boundary),
            final(self).state() == Self::after_confirm(old(self).state(), boundary),
    ;

    /// Hand over the accumulated event trace.
    fn take_trace(&mut self) -> (t: DigitalEventTrace)
        ensures
            (t.vcd@, crate::icarus::index_view(t.events_by_signal@)) == Self::trace_view(old(self).state()),
            final(self).state() == Self::after_take(old(self).state()),
    ;
}

/// The digital half of a co-simulation result: VCD text and, per signal,
/// the times at which it had events.
#[derive(Debug, Clone, PartialEq)]
pub struct DigitalEventTrace {
    /// The trace in Value Change Dump format.
    pub vcd: String,
    /// Event times per signal.
    pub events_by_signal: Vec<(SignalName, Vec<SimulationTime>)>,
}

impl DigitalEventTrace {
    /// The event times recorded for `signal` (the first entry of that
    /// name), if any.
    pub fn events_for(&self, signal: &SignalName) -> (r: Option<&[SimulationTime]>)
        ensures
            r is Some <==> exists|i: int| 0 <= i < self.events_by_signal@.len() && self.events_by_signal@[i].0@ == signal@,
            r matches Some(ts) ==> exists|i: int| 0 <= i < self.events_by_signal@.len()
                && self.events_by_signal@[i].0@ == signal@
                && ts@ == self.events_by_signal@[i].1@
                && forall|j: int| 0 <= j < i ==> self.events_by_signal@[j].0@ != signal@,
    {
        let mut i: usize = 0;
        while i < self.events_by_signal.len()
            invariant
                i <= self.events_by_signal@.len(),
                forall|j: int| 0 <= j < i ==> self.events_by_signal@[j].0@ != signal@,
            decreases self.events_by_signal@.len() - i,
        {
            if self.events_by_signal[i].0.same_as(signal) {
                return Some(self.events_by_signal[i].1.as_slice());
            }
            i += 1;
        }
        None
    }
}

/// What the scheduler records while running.
#[derive(Debug, Clone, PartialEq)]
pub struct SchedulerMetadata {
    /// Committed boundaries, in order.
    pub commits: Vec<SimulationTime>,
    /// Rollbacks performed, in order.
    pub rollbacks: Vec<RollbackEvent>,
    /// Diagnostic lines, in order.
    pub diagnostics: Vec<String>,
}

impl Default for SchedulerMetadata {
    fn default() -> (m: Self)
        ensures
            m.commits@.len() == 0,
            m.rollbacks@.len() == 0,
            m.diagnostics@.len() == 0,
    {
        SchedulerMetadata { commits: Vec::new(), rollbacks: Vec::new(), diagnostics: Vec::new() }
    }
}

/// The unified co-simulation result: the analog trace (of the solver's own
/// trace type), the digital trace, and the scheduler's record.
#[derive(Debug, Clone, PartialEq)]
pub struct MixedSignalResult<T> {
    /// The analog solver's trace.
    pub analog: T,
    /// The digital simulator's trace.
    pub digital: DigitalEventTrace,
    /// Commits, rollbacks and diagnostics.
    pub scheduler: SchedulerMetadata,
}

impl<T> MixedSignalResult<T> {
    /// The last committed boundary.
    pub fn final_commit(&self) -> (r: Option<SimulationTime>)
        ensures
            r == (if self.scheduler.commits@.len() == 0 {
                None
            } else {
                Some(self.scheduler.commits@.last())
            }),
    {
        let n = self.scheduler.commits.len();
        if n == 0 {
            None
        } else {
            Some(self.scheduler.commits[n - 1])
        }
    }

    /// Whether no rollback was performed.
    pub fn rollback_free(&self) -> (b: bool)
        ensures
            b == (self.scheduler.rollbacks@.len() == 0),
    {
        self.scheduler.rollbacks.len() == 0
    }
}

} // verus!
