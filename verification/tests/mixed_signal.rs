use std::collections::VecDeque;

use analysis_orchestration::mixed_signal::{
    AnalogSolver, AnalogStepReport, BoundarySignals, DigitalAdapterKind, DigitalEventTrace, DigitalSimulator,
    DigitalStepReport, MixedSignalResult, NextEventReport, SchedulerError, SchedulerOutcome,
};
use analysis_orchestration::scheduler::{
    MixedSignalScheduler, SchedulerAction, SchedulerCore, SchedulerEvent, SchedulerPhase,
};
use analysis_orchestration::time::{SignalName, SimulationTime};

use analysis_orchestration::mixed_signal::{ErrorValue, TraceView};

struct AnalogTrace {
    samples: Vec<(SimulationTime, f64)>,
    committed_through: SimulationTime,
}

struct AnalogSolverDouble {
    voltage_at: fn(SimulationTime) -> f64,
    samples: Vec<(SimulationTime, f64)>,
}

impl AnalogSolverDouble {
    fn new(voltage_at: fn(SimulationTime) -> f64) -> Self {
        Self { voltage_at, samples: vec![(SimulationTime::zero(), voltage_at(SimulationTime::zero()))] }
    }
}

impl AnalogSolver for AnalogSolverDouble {
    type Scalar = f64;
    type Trace = AnalogTrace;

    // The trait's specification items exist for verification only; they are never called.
    fn run_outcome(&self, _target: SimulationTime) -> Result<AnalogStepReport<f64>, ErrorValue> {
        unreachable!()
    }

    fn after_run(&self, _target: SimulationTime) -> Self {
        unreachable!()
    }

    fn rollback_outcome(&self, _target: SimulationTime) -> Result<(), ErrorValue> {
        unreachable!()
    }

    fn after_rollback(&self, _target: SimulationTime) -> Self {
        unreachable!()
    }

    fn trace(&self) -> AnalogTrace {
        unreachable!()
    }

    fn run_until(&mut self, target: SimulationTime) -> Result<AnalogStepReport<f64>, SchedulerError> {
        self.samples.push((target, (self.voltage_at)(target)));
        Ok(AnalogStepReport::saved_at(target))
    }

    fn rollback_to(&mut self, target: SimulationTime) -> Result<(), SchedulerError> {
        self.samples.retain(|(t, _)| *t <= target);
        Ok(())
    }

    fn take_trace(&mut self) -> AnalogTrace {
        let committed_through = self.samples.last().map(|s| s.0).unwrap_or(SimulationTime::zero());
        AnalogTrace { samples: self.samples.clone(), committed_through }
    }
}

struct DigitalSimulatorDouble {
    script: VecDeque<SimulationTime>,
    confirmed: Vec<SimulationTime>,
    signals: Vec<SignalName>,
}

impl DigitalSimulatorDouble {
    fn new(script: Vec<SimulationTime>, signals: Vec<SignalName>) -> Self {
        Self { script: script.into_iter().collect(), confirmed: Vec::new(), signals }
    }
}

impl DigitalSimulator for DigitalSimulatorDouble {
    type State = ();

    // The trait's specification items exist for verification only; they are never called.
    fn state(&self) {
        unreachable!()
    }

    fn prediction_outcome(_s: ()) -> Result<NextEventReport, ErrorValue> {
        unreachable!()
    }

    fn after_query(_s: ()) {
        unreachable!()
    }

    fn confirm_outcome(_s: (), _boundary: SimulationTime) -> Result<DigitalStepReport, ErrorValue> {
        unreachable!()
    }

    fn after_confirm(_s: (), _boundary: SimulationTime) {
        unreachable!()
    }

    fn trace_view(_s: ()) -> TraceView {
        unreachable!()
    }

    fn after_take(_s: ()) {
        unreachable!()
    }

    fn adapter_kind(&self) -> DigitalAdapterKind {
        DigitalAdapterKind::TestDouble
    }

    fn next_event_time(&mut self) -> Result<NextEventReport, SchedulerError> {
        match self.script.front().copied() {
            Some(t) => Ok(NextEventReport { predicted_time: t }),
            None => Err(SchedulerError::DigitalAdapterFailed("test double exhausted".to_string())),
        }
    }

    fn confirm_event(&mut self, boundary: SimulationTime) -> Result<DigitalStepReport, SchedulerError> {
        match self.script.pop_front() {
            Some(t) if t == boundary => {
                self.confirmed.push(t);
                Ok(DigitalStepReport::Confirmed { time: t })
            }
            Some(t) => Err(SchedulerError::ContractViolation { predicted: t, actual: boundary }),
            None => Err(SchedulerError::DigitalAdapterFailed("script exhausted".to_string())),
        }
    }

    fn take_trace(&mut self) -> DigitalEventTrace {
        let mut vcd = String::new();
        vcd.push_str("$timescale 1ps $end\n");
        vcd.push_str("$scope module mixed_signal_test $end\n");
        for (i, sig) in self.signals.iter().enumerate() {
            let id = char::from(b'!' + i as u8);
            vcd.push_str(&format!("$var wire 1 {} {} $end\n", id, sig.as_str()));
        }
        vcd.push_str("$upscope $end\n$enddefinitions $end\n");
        for t in &self.confirmed {
            vcd.push_str(&format!("#{}\n", t.as_picoseconds()));
            for (i, _) in self.signals.iter().enumerate() {
                let id = char::from(b'!' + i as u8);
                vcd.push_str(&format!("1{}\n", id));
            }
        }
        let events_by_signal = self.signals.iter().map(|s| (s.clone(), self.confirmed.clone())).collect();
        DigitalEventTrace { vcd, events_by_signal }
    }
}

fn run<A: AnalogSolver, D: DigitalSimulator>(
    mut s: MixedSignalScheduler<A, D>,
) -> Result<MixedSignalResult<A::Trace>, SchedulerError> {
    loop {
        match s.turn() {
            SchedulerAction::Finish => return Ok(s.into_result()),
            SchedulerAction::Fail(e) => return Err(e),
            _ => {}
        }
    }
}

fn vout_profile(t: SimulationTime) -> f64 {
    let ns = t.as_nanoseconds() as f64;
    let scaled = (ns / 50.0).clamp(0.0, 1.0);
    3.3 * scaled
}

#[test]
fn optimistic_advance_with_correct_prediction() {
    let analog = AnalogSolverDouble::new(vout_profile);
    let digital = DigitalSimulatorDouble::new(
        vec![SimulationTime::from_nanoseconds(50)],
        vec![SignalName::new("din"), SignalName::new("dout")],
    );
    let boundaries = BoundarySignals {
        analog_to_digital: vec![(SignalName::new("vout"), SignalName::new("din"))],
        digital_to_analog: vec![(SignalName::new("dout"), SignalName::new("vin"))],
    };
    let scheduler = MixedSignalScheduler::new(analog, digital, boundaries, SimulationTime::from_nanoseconds(100));
    let result = run(scheduler).expect("scheduler run must succeed");

    assert_eq!(result.final_commit(), Some(SimulationTime::from_nanoseconds(50)));
    assert_eq!(result.scheduler.commits, vec![SimulationTime::from_nanoseconds(50)]);
    assert!(result.analog.samples.iter().any(|s| s.0 == SimulationTime::from_nanoseconds(50)));
    assert_eq!(result.analog.committed_through, SimulationTime::from_nanoseconds(50));
    assert!(result.digital.vcd.contains("$timescale 1ps $end"));
    assert!(result.digital.vcd.contains("$enddefinitions $end"));
    assert!(result.digital.vcd.contains(&format!("#{}\n", 50_000_i64)));
    for sig in [SignalName::new("din"), SignalName::new("dout")] {
        assert_eq!(result.digital.events_for(&sig), Some(&[SimulationTime::from_nanoseconds(50)][..]));
    }
    assert!(result.rollback_free());
    assert!(result.scheduler.rollbacks.is_empty());
}

#[test]
fn scheduler_call_sequence_matches_adr_0004() {
    let analog = AnalogSolverDouble::new(vout_profile);
    let digital =
        DigitalSimulatorDouble::new(vec![SimulationTime::from_nanoseconds(50)], vec![SignalName::new("din")]);
    let scheduler =
        MixedSignalScheduler::new(analog, digital, BoundarySignals::default(), SimulationTime::from_nanoseconds(100));
    let result = run(scheduler).unwrap();
    assert_eq!(result.scheduler.commits, vec![SimulationTime::from_nanoseconds(50)]);
    assert!(result.scheduler.rollbacks.is_empty());
    let halted_cleanly = result
        .scheduler
        .diagnostics
        .iter()
        .any(|d| d.contains("end-of-events") || d.contains("exceeds horizon"));
    assert!(halted_cleanly, "diagnostics: {:?}", result.scheduler.diagnostics);
}

#[test]
fn scheduler_respects_horizon() {
    let analog = AnalogSolverDouble::new(vout_profile);
    let digital =
        DigitalSimulatorDouble::new(vec![SimulationTime::from_nanoseconds(150)], vec![SignalName::new("din")]);
    let scheduler =
        MixedSignalScheduler::new(analog, digital, BoundarySignals::default(), SimulationTime::from_nanoseconds(100));
    let result = run(scheduler).unwrap();
    assert!(result.scheduler.commits.is_empty());
    assert!(result.scheduler.diagnostics.iter().any(|d| d.contains("exceeds horizon")));
    for (t, _) in &result.analog.samples {
        assert!(*t <= SimulationTime::from_nanoseconds(100));
    }
}

#[test]
fn adapter_kind_display_strings_are_stable() {
    assert_eq!(DigitalAdapterKind::IcarusVerilog.to_string(), "icarus-verilog");
    assert_eq!(DigitalAdapterKind::Verilator.to_string(), "verilator");
    assert_eq!(DigitalAdapterKind::TestDouble.to_string(), "test-double");
}

#[test]
fn native_kernel_kind_has_its_own_name() {
    assert_eq!(DigitalAdapterKind::NativeKernel.to_string(), "native-kernel");
}

#[test]
fn first_query_failure_is_returned() {
    let analog = AnalogSolverDouble::new(vout_profile);
    let digital = DigitalSimulatorDouble::new(vec![], vec![]);
    let scheduler =
        MixedSignalScheduler::new(analog, digital, BoundarySignals::default(), SimulationTime::from_nanoseconds(100));
    let err = run(scheduler).err().expect("no boundary confirmed, so the query failure is the result");
    assert_eq!(err, SchedulerError::DigitalAdapterFailed("test double exhausted".to_string()));
}

#[test]
fn exhaustion_after_a_commit_is_logged_verbatim() {
    let analog = AnalogSolverDouble::new(vout_profile);
    let digital = DigitalSimulatorDouble::new(vec![SimulationTime::from_nanoseconds(10)], vec![]);
    let scheduler =
        MixedSignalScheduler::new(analog, digital, BoundarySignals::default(), SimulationTime::from_nanoseconds(100));
    let result = run(scheduler).unwrap();
    assert_eq!(
        result.scheduler.diagnostics,
        vec!["digital end-of-events: digital adapter failed: test double exhausted".to_string()]
    );
}

#[test]
fn horizon_diagnostic_text_is_exact() {
    let mut core = SchedulerCore::new(SimulationTime::from_picoseconds(100));
    let a = core.step(SchedulerEvent::Prediction(Ok(NextEventReport {
        predicted_time: SimulationTime::from_picoseconds(101),
    })));
    assert_eq!(a, SchedulerAction::Finish);
    assert_eq!(core.phase, SchedulerPhase::Finished);
    assert_eq!(core.metadata.diagnostics, vec!["next prediction 101 ps exceeds horizon 100 ps; stopping".to_string()]);
}

#[test]
fn prediction_at_the_horizon_is_driven() {
    let mut core = SchedulerCore::new(SimulationTime::from_picoseconds(100));
    let a = core.step(SchedulerEvent::Prediction(Ok(NextEventReport {
        predicted_time: SimulationTime::from_picoseconds(100),
    })));
    assert_eq!(a, SchedulerAction::RunUntil(SimulationTime::from_picoseconds(100)));
}

#[test]
fn misprediction_rolls_back_re_advances_and_commits() {
    let t = SimulationTime::from_nanoseconds;
    let mut core = SchedulerCore::new(t(100));
    assert_eq!(core.pending(), SchedulerAction::QueryNextEvent);
    let a = core.step(SchedulerEvent::Prediction(Ok(NextEventReport { predicted_time: t(50) })));
    assert_eq!(a, SchedulerAction::RunUntil(t(50)));
    let a = core.step(SchedulerEvent::Advanced(Ok(())));
    assert_eq!(a, SchedulerAction::ConfirmEvent(t(50)));
    let a = core.step(SchedulerEvent::Confirmation(Ok(DigitalStepReport::Mispredicted { actual_time: t(30) })));
    assert_eq!(a, SchedulerAction::RollbackTo(t(30)));
    assert!(core.metadata.rollbacks.is_empty());
    let a = core.step(SchedulerEvent::RolledBack(Ok(())));
    assert_eq!(a, SchedulerAction::RunUntil(t(30)));
    assert_eq!(core.metadata.rollbacks.len(), 1);
    assert_eq!(core.metadata.rollbacks[0].mispredicted_at, t(50));
    assert_eq!(core.metadata.rollbacks[0].corrected_to, t(30));
    assert_eq!(core.metadata.rollbacks[0].checkpoint_at, t(30));
    assert_eq!(core.metadata.rollbacks[0].reason, "no-event-confirmed");
    assert_eq!(core.outcomes, vec![SchedulerOutcome::RolledBack { checkpoint: t(30), corrected: t(30) }]);
    let a = core.step(SchedulerEvent::Advanced(Ok(())));
    assert_eq!(a, SchedulerAction::QueryNextEvent);
    assert_eq!(core.metadata.commits, vec![t(30)]);
}

#[test]
fn postponement_rolls_back_to_last_commit_or_origin() {
    let t = SimulationTime::from_nanoseconds;
    let mut core = SchedulerCore::new(t(100));
    core.step(SchedulerEvent::Prediction(Ok(NextEventReport { predicted_time: t(40) })));
    core.step(SchedulerEvent::Advanced(Ok(())));
    let a = core.step(SchedulerEvent::Confirmation(Ok(DigitalStepReport::Postponed { new_prediction: t(60) })));
    assert_eq!(a, SchedulerAction::RollbackTo(SimulationTime::zero()));
    let a = core.step(SchedulerEvent::RolledBack(Ok(())));
    assert_eq!(a, SchedulerAction::QueryNextEvent);
    assert_eq!(core.metadata.diagnostics, vec!["digital postponed event from 40000 ps to 60000 ps".to_string()]);
    core.step(SchedulerEvent::Prediction(Ok(NextEventReport { predicted_time: t(60) })));
    core.step(SchedulerEvent::Advanced(Ok(())));
    core.step(SchedulerEvent::Confirmation(Ok(DigitalStepReport::Confirmed { time: t(60) })));
    core.step(SchedulerEvent::Prediction(Ok(NextEventReport { predicted_time: t(70) })));
    core.step(SchedulerEvent::Advanced(Ok(())));
    let a = core.step(SchedulerEvent::Confirmation(Ok(DigitalStepReport::Postponed { new_prediction: t(80) })));
    assert_eq!(a, SchedulerAction::RollbackTo(t(60)));
}

#[test]
fn kernel_failures_stop_with_that_error() {
    let t = SimulationTime::from_nanoseconds;
    let mut core = SchedulerCore::new(t(100));
    core.step(SchedulerEvent::Prediction(Ok(NextEventReport { predicted_time: t(10) })));
    let err = SchedulerError::AnalogSolveFailed("singular matrix".to_string());
    let a = core.step(SchedulerEvent::Advanced(Err(err.clone())));
    assert_eq!(a, SchedulerAction::Fail(err));
    assert_eq!(core.phase, SchedulerPhase::Finished);
    // A finished scheduler stays finished whatever it is told.
    let a = core.step(SchedulerEvent::Advanced(Ok(())));
    assert_eq!(a, SchedulerAction::Finish);
    assert!(core.metadata.commits.is_empty());
}

#[test]
fn an_unexpected_outcome_repeats_the_awaited_call() {
    let t = SimulationTime::from_nanoseconds;
    let mut core = SchedulerCore::new(t(100));
    let a = core.step(SchedulerEvent::RolledBack(Ok(())));
    assert_eq!(a, SchedulerAction::QueryNextEvent);
    assert_eq!(core.phase, SchedulerPhase::AwaitPrediction);
}

#[test]
fn scheduler_error_texts_are_exact() {
    let t = SimulationTime::from_picoseconds;
    assert_eq!(SchedulerError::AnalogSolveFailed("x".to_string()).to_string(), "analog solver failed: x");
    assert_eq!(SchedulerError::DigitalAdapterFailed("y".to_string()).to_string(), "digital adapter failed: y");
    assert_eq!(SchedulerError::NoCheckpoint(t(5)).to_string(), "no checkpoint at or before 5 ps");
    assert_eq!(
        SchedulerError::ContractViolation { predicted: t(9), actual: t(7) }.to_string(),
        "digital next-event-time contract violation: predicted 9 ps, actual 7 ps"
    );
}

#[test]
fn scheduler_accessors_return_construction_values() {
    let analog = AnalogSolverDouble::new(vout_profile);
    let digital = DigitalSimulatorDouble::new(vec![], vec![]);
    let b = BoundarySignals {
        analog_to_digital: vec![(SignalName::new("a"), SignalName::new("b"))],
        digital_to_analog: vec![],
    };
    let s = MixedSignalScheduler::new(analog, digital, b.clone(), SimulationTime::from_nanoseconds(7));
    assert_eq!(s.boundaries(), &b);
    assert_eq!(s.horizon(), SimulationTime::from_nanoseconds(7));
    assert_eq!(s.decisions().phase, SchedulerPhase::AwaitPrediction);
}

#[test]
fn time_conversions_and_text() {
    let t = SimulationTime::from_nanoseconds(3);
    assert_eq!(t.as_picoseconds(), 3000);
    assert_eq!(SimulationTime::from_picoseconds(-2500).as_nanoseconds(), -2);
    assert_eq!(SimulationTime::from_picoseconds(-12).to_string(), "-12 ps");
    assert_eq!(SimulationTime::zero().to_string(), "0 ps");
}

#[test]
fn a_commit_at_the_horizon_ends_the_run() {
    let t = SimulationTime::from_nanoseconds;
    let mut core = SchedulerCore::new(t(100));
    core.step(SchedulerEvent::Prediction(Ok(NextEventReport { predicted_time: t(100) })));
    core.step(SchedulerEvent::Advanced(Ok(())));
    let a = core.step(SchedulerEvent::Confirmation(Ok(DigitalStepReport::Confirmed { time: t(100) })));
    assert_eq!(a, SchedulerAction::Finish);
    assert_eq!(core.phase, SchedulerPhase::Finished);
    assert_eq!(core.metadata.commits, vec![t(100)]);
}

#[test]
fn scheduler_stops_after_committing_at_the_horizon() {
    let analog = AnalogSolverDouble::new(vout_profile);
    let digital = DigitalSimulatorDouble::new(
        vec![SimulationTime::from_nanoseconds(100), SimulationTime::from_nanoseconds(100)],
        vec![SignalName::new("din")],
    );
    let scheduler =
        MixedSignalScheduler::new(analog, digital, BoundarySignals::default(), SimulationTime::from_nanoseconds(100));
    let result = run(scheduler).unwrap();
    assert_eq!(result.scheduler.commits, vec![SimulationTime::from_nanoseconds(100)]);
    assert!(result.scheduler.diagnostics.is_empty());
}
