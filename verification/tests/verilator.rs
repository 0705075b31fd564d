use analysis_orchestration::mixed_signal::{
    AnalogSolver, AnalogStepReport, BoundarySignals, DigitalAdapterKind, DigitalSimulator, DigitalStepReport,
    MixedSignalResult, SchedulerError,
};
use analysis_orchestration::scheduler::{MixedSignalScheduler, SchedulerAction};
use analysis_orchestration::time::{SignalName, SimulationTime};
use analysis_orchestration::verilator::{
    ScriptedVerilatorBackend, VerilatorAdapter, VerilatorBackend, VerilatorEvent, VerilatorStepOutcome,
};

use analysis_orchestration::mixed_signal::ErrorValue;

struct ConstantSolver {
    samples: Vec<SimulationTime>,
}

struct ConstantTrace {
    committed_through: SimulationTime,
}

impl AnalogSolver for ConstantSolver {
    type Scalar = f64;
    type Trace = ConstantTrace;

    // The trait's specification items exist for verification only; they are never called.
    fn run_outcome(&self, _target: SimulationTime) -> Result<AnalogStepReport<f64>, ErrorValue> {
        unreachable!()
    }

    fn after_run(&self, _target: SimulationTime) -> Self {
        unreachable!()
    }

    fn rollback_outcome(&self, _target: SimulationTime) -> Result<(), ErrorValue> {
        unreachable!()
    }

    fn after_rollback(&self, _target: SimulationTime) -> Self {
        unreachable!()
    }

    fn trace(&self) -> ConstantTrace {
        unreachable!()
    }

    fn run_until(&mut self, target: SimulationTime) -> Result<AnalogStepReport<f64>, SchedulerError> {
        self.samples.push(target);
        Ok(AnalogStepReport::saved_at(target))
    }

    fn rollback_to(&mut self, target: SimulationTime) -> Result<(), SchedulerError> {
        self.samples.retain(|t| *t <= target);
        Ok(())
    }

    fn take_trace(&mut self) -> ConstantTrace {
        ConstantTrace { committed_through: self.samples.last().copied().unwrap_or(SimulationTime::zero()) }
    }
}

fn run<A: AnalogSolver, D: DigitalSimulator>(
    mut s: MixedSignalScheduler<A, D>,
) -> Result<MixedSignalResult<A::Trace>, SchedulerError> {
    loop {
        match s.turn() {
            SchedulerAction::Finish => return Ok(s.into_result()),
            SchedulerAction::Fail(e) => return Err(e),
            _ => {}
        }
    }
}

fn event(time: SimulationTime, signal: &SignalName, value: &str) -> VerilatorEvent {
    VerilatorEvent { time, signal: signal.clone(), new_value: value.to_string() }
}

#[test]
fn adapter_kind_is_verilator() {
    let backend = ScriptedVerilatorBackend::new(vec![], vec![], vec![]);
    let signals = vec![SignalName::new("clk"), SignalName::new("dout")];
    let adapter = VerilatorAdapter::new(backend, BoundarySignals::default(), signals);
    assert_eq!(adapter.adapter_kind(), DigitalAdapterKind::Verilator);
}

#[test]
fn correct_prediction_50ns_single_event_confirms_and_records() {
    let t50 = SimulationTime::from_nanoseconds(50);
    let clk = SignalName::new("clk");
    let backend = ScriptedVerilatorBackend::new(
        vec![t50],
        vec![(t50, VerilatorStepOutcome::Confirmed)],
        vec![vec![event(t50, &clk, "1")]],
    );
    let mut adapter = VerilatorAdapter::new(backend, BoundarySignals::default(), vec![clk.clone()]);
    let predicted = adapter.next_event_time().expect("prediction");
    assert_eq!(predicted.predicted_time, t50);
    let report = adapter.confirm_event(t50).expect("confirm");
    assert_eq!(report, DigitalStepReport::Confirmed { time: t50 });
    let trace = adapter.take_trace();
    let events = trace.events_for(&clk).expect("clk events");
    assert_eq!(events, &[t50]);
    let ps = t50.as_picoseconds();
    assert!(trace.vcd.contains(&format!("#{ps}")));
    assert!(trace.vcd.contains("$timescale 1ps $end"));
    assert!(trace.vcd.contains("$var wire 1 ! clk $end"));
    assert!(trace.vcd.contains("1!"));
}

#[test]
fn scheduler_drives_verilator_adapter_to_completion() {
    let t50 = SimulationTime::from_nanoseconds(50);
    let horizon = SimulationTime::from_nanoseconds(100);
    let analog = ConstantSolver { samples: vec![SimulationTime::zero()] };
    let clk = SignalName::new("clk");
    let backend = ScriptedVerilatorBackend::new(
        vec![t50],
        vec![(t50, VerilatorStepOutcome::Confirmed)],
        vec![vec![event(t50, &clk, "1")]],
    );
    let digital = VerilatorAdapter::new(backend, BoundarySignals::default(), vec![clk.clone()]);
    let scheduler = MixedSignalScheduler::new(analog, digital, BoundarySignals::default(), horizon);
    let result = run(scheduler).expect("scheduler run must succeed");
    assert_eq!(result.scheduler.commits, vec![t50]);
    assert!(result.rollback_free());
    assert_eq!(result.analog.committed_through, t50);
    assert_eq!(result.final_commit(), Some(t50));
    assert_eq!(result.digital.events_for(&clk), Some([t50].as_slice()));
    let ps = t50.as_picoseconds();
    assert!(result.digital.vcd.contains(&format!("#{ps}")));
}

#[test]
fn mispredicted_step_maps_to_mispredicted_report() {
    let predicted = SimulationTime::from_nanoseconds(100);
    let actual = SimulationTime::from_nanoseconds(80);
    let backend = ScriptedVerilatorBackend::new(
        vec![predicted],
        vec![(predicted, VerilatorStepOutcome::Mispredicted { actual_time: actual })],
        vec![Vec::new()],
    );
    let mut adapter = VerilatorAdapter::new(backend, BoundarySignals::default(), Vec::new());
    let p = adapter.next_event_time().expect("predict");
    assert_eq!(p.predicted_time, predicted);
    let r = adapter.confirm_event(predicted).expect("confirm");
    assert_eq!(r, DigitalStepReport::Mispredicted { actual_time: actual });
}

#[test]
fn postponed_step_caches_new_prediction_for_next_query() {
    let initial = SimulationTime::from_nanoseconds(40);
    let revised = SimulationTime::from_nanoseconds(70);
    let backend = ScriptedVerilatorBackend::new(
        vec![initial],
        vec![(initial, VerilatorStepOutcome::Postponed { new_prediction: revised })],
        vec![Vec::new()],
    );
    let mut adapter = VerilatorAdapter::new(backend, BoundarySignals::default(), Vec::new());
    let p1 = adapter.next_event_time().expect("first predict");
    assert_eq!(p1.predicted_time, initial);
    let r = adapter.confirm_event(initial).expect("confirm");
    assert_eq!(r, DigitalStepReport::Postponed { new_prediction: revised });
    let p2 = adapter.next_event_time().expect("revised predict");
    assert_eq!(p2.predicted_time, revised);
}

#[test]
fn backend_query_failure_propagates_as_digital_adapter_failed() {
    let backend = ScriptedVerilatorBackend::new(vec![], vec![], vec![]);
    let mut adapter = VerilatorAdapter::new(backend, BoundarySignals::default(), Vec::new());
    let err = adapter.next_event_time().expect_err("expected failure");
    match err {
        SchedulerError::DigitalAdapterFailed(_) => {}
        other => panic!("expected DigitalAdapterFailed, got {other:?}"),
    }
}

#[test]
fn backend_step_contract_drift_propagates_as_digital_adapter_failed() {
    let t = SimulationTime::from_nanoseconds(50);
    let backend = ScriptedVerilatorBackend::new(
        vec![t],
        vec![(SimulationTime::from_nanoseconds(40), VerilatorStepOutcome::Confirmed)],
        vec![Vec::new()],
    );
    let mut adapter = VerilatorAdapter::new(backend, BoundarySignals::default(), Vec::new());
    let _ = adapter.next_event_time().expect("predict");
    let err = adapter.confirm_event(t).expect_err("expected failure");
    match err {
        SchedulerError::DigitalAdapterFailed(msg) => {
            assert!(msg.contains("verilator backend step_to"), "got: {msg}");
        }
        other => panic!("expected DigitalAdapterFailed, got {other:?}"),
    }
}

#[test]
fn boundary_signal_map_is_retained_unchanged_for_sibling_task_45() {
    let boundary = BoundarySignals {
        analog_to_digital: vec![(SignalName::new("vout"), SignalName::new("din"))],
        digital_to_analog: vec![(SignalName::new("dout"), SignalName::new("vin"))],
    };
    let backend = ScriptedVerilatorBackend::new(vec![], vec![], vec![]);
    let adapter = VerilatorAdapter::new(backend, boundary.clone(), Vec::new());
    assert_eq!(adapter.boundary_signals(), &boundary);
}

#[test]
fn trace_emits_events_in_chronological_order_across_multiple_steps() {
    let t1 = SimulationTime::from_nanoseconds(25);
    let t2 = SimulationTime::from_nanoseconds(50);
    let clk = SignalName::new("clk");
    let dout = SignalName::new("dout");
    let backend = ScriptedVerilatorBackend::new(
        vec![t1, t2],
        vec![(t1, VerilatorStepOutcome::Confirmed), (t2, VerilatorStepOutcome::Confirmed)],
        vec![vec![event(t1, &clk, "1")], vec![event(t2, &clk, "0"), event(t2, &dout, "1")]],
    );
    let mut adapter = VerilatorAdapter::new(backend, BoundarySignals::default(), vec![clk.clone(), dout.clone()]);
    for boundary in [t1, t2] {
        let _ = adapter.next_event_time().expect("predict");
        let _ = adapter.confirm_event(boundary).expect("confirm");
    }
    let trace = adapter.take_trace();
    assert_eq!(trace.events_for(&clk), Some([t1, t2].as_slice()));
    assert_eq!(trace.events_for(&dout), Some([t2].as_slice()));
    let pos1 = trace.vcd.find(&format!("#{}", t1.as_picoseconds())).expect("t1 timestamp present");
    let pos2 = trace.vcd.find(&format!("#{}", t2.as_picoseconds())).expect("t2 timestamp present");
    assert!(pos1 < pos2);
}

#[test]
fn verilator_vcd_text_is_exact() {
    let a = SignalName::new("a");
    let b = SignalName::new("b");
    let stray = SignalName::new("stray");
    let t = SimulationTime::from_picoseconds;
    let backend = ScriptedVerilatorBackend::new(
        vec![t(5)],
        vec![(t(5), VerilatorStepOutcome::Confirmed)],
        vec![vec![event(t(5), &b, "1010"), event(t(2), &stray, "1"), event(t(5), &a, "x"), event(t(2), &b, "0")]],
    );
    let mut adapter = VerilatorAdapter::new(backend, BoundarySignals::default(), vec![a.clone(), b.clone()]);
    adapter.confirm_event(t(5)).unwrap();
    let trace = adapter.take_trace();
    assert_eq!(
        trace.vcd,
        "$timescale 1ps $end\n$scope module verilator_top $end\n$var wire 1 ! a $end\n$var wire 1 \" b $end\n$upscope $end\n$enddefinitions $end\n#2\n0\"\n#5\nx!\nb1010 \"\n"
    );
    assert_eq!(trace.events_for(&a), Some([t(5)].as_slice()));
    assert_eq!(trace.events_for(&b), Some([t(5), t(2)].as_slice()));
    assert_eq!(trace.events_for(&stray), None);
    // Draining empties the capture buffer.
    let again = adapter.take_trace();
    assert_eq!(again.events_for(&a), Some(&[][..]));
}

#[test]
fn failure_messages_are_exact() {
    let backend = ScriptedVerilatorBackend::new(vec![], vec![], vec![]);
    let mut adapter = VerilatorAdapter::new(backend, BoundarySignals::default(), Vec::new());
    assert_eq!(
        adapter.next_event_time(),
        Err(SchedulerError::DigitalAdapterFailed(
            "verilator backend reports quiescent model with no further events".to_string()
        ))
    );
    assert_eq!(
        adapter.confirm_event(SimulationTime::from_picoseconds(3)),
        Err(SchedulerError::DigitalAdapterFailed(
            "verilator backend step_to(3 ps) failed: scripted backend: step_to called after script exhausted"
                .to_string()
        ))
    );
}

#[test]
fn scripted_backend_reports_unexpected_boundary() {
    let t = SimulationTime::from_picoseconds;
    let mut backend = ScriptedVerilatorBackend::new(vec![t(1)], vec![(t(1), VerilatorStepOutcome::Confirmed)], vec![]);
    assert_eq!(backend.next_event_time(), Ok(Some(t(1))));
    assert_eq!(backend.next_event_time(), Ok(None));
    assert_eq!(
        backend.step_to(t(2)),
        Err("scripted backend: expected step_to(1 ps), got step_to(2 ps)".to_string())
    );
    assert!(backend.take_events().is_empty());
}
