use analysis_orchestration::icarus::{
    IcarusVerilogAdapter, InMemoryVvp, ScriptedEvent, VvpAdvanceReport, VvpCall, VvpTransport,
};
use analysis_orchestration::mixed_signal::{
    AnalogSolver, AnalogStepReport, BoundarySignals, DigitalAdapterKind, DigitalSimulator, DigitalStepReport,
    MixedSignalResult, SchedulerError,
};
use analysis_orchestration::scheduler::{MixedSignalScheduler, SchedulerAction};
use analysis_orchestration::time::{SignalName, SimulationTime};

use analysis_orchestration::mixed_signal::ErrorValue;

struct LinearRamp {
    samples: Vec<(SimulationTime, f64)>,
}

impl LinearRamp {
    fn new() -> Self {
        Self { samples: vec![(SimulationTime::zero(), 0.0)] }
    }
}

impl AnalogSolver for LinearRamp {
    type Scalar = f64;
    type Trace = Vec<(SimulationTime, f64)>;

    // The trait's specification items exist for verification only; they are never called.
    fn run_outcome(&self, _target: SimulationTime) -> Result<AnalogStepReport<f64>, ErrorValue> {
        unreachable!()
    }

    fn after_run(&self, _target: SimulationTime) -> Self {
        unreachable!()
    }

    fn rollback_outcome(&self, _target: SimulationTime) -> Result<(), ErrorValue> {
        unreachable!()
    }

    fn after_rollback(&self, _target: SimulationTime) -> Self {
        unreachable!()
    }

    fn trace(&self) -> Vec<(SimulationTime, f64)> {
        unreachable!()
    }

    fn run_until(&mut self, target: SimulationTime) -> Result<AnalogStepReport<f64>, SchedulerError> {
        let ns = target.as_nanoseconds() as f64;
        let value = 3.3 * (ns / 50.0).clamp(0.0, 1.0);
        self.samples.push((target, value));
        Ok(AnalogStepReport::saved_at(target))
    }

    fn rollback_to(&mut self, target: SimulationTime) -> Result<(), SchedulerError> {
        self.samples.retain(|(t, _)| *t <= target);
        Ok(())
    }

    fn take_trace(&mut self) -> Vec<(SimulationTime, f64)> {
        self.samples.clone()
    }
}

fn run<A: AnalogSolver, D: DigitalSimulator>(
    mut s: MixedSignalScheduler<A, D>,
) -> Result<MixedSignalResult<A::Trace>, SchedulerError> {
    loop {
        match s.turn() {
            SchedulerAction::Finish => return Ok(s.into_result()),
            SchedulerAction::Fail(e) => return Err(e),
            _ => {}
        }
    }
}

fn ev(ns: i64, signals: &[&SignalName]) -> ScriptedEvent {
    ScriptedEvent { time: SimulationTime::from_nanoseconds(ns), signals: signals.iter().map(|s| (*s).clone()).collect() }
}

#[test]
fn icarus_adapter_kind_is_icarus_verilog() {
    let transport = InMemoryVvp::new(Vec::new(), vec![]);
    let adapter = IcarusVerilogAdapter::new(transport);
    assert_eq!(adapter.adapter_kind(), DigitalAdapterKind::IcarusVerilog);
}

#[test]
fn next_event_time_forwards_transport_prediction() {
    let dout = SignalName::new("dout");
    let transport = InMemoryVvp::new(vec![ev(50, &[&dout])], vec![dout.clone()]);
    let mut adapter = IcarusVerilogAdapter::new(transport);
    let report = adapter.next_event_time().expect("transport must answer");
    assert_eq!(report.predicted_time, SimulationTime::from_nanoseconds(50));
    assert!(matches!(adapter.transport().log().first(), Some(VvpCall::QueryNextEvent(Some(_)))));
}

#[test]
fn next_event_time_surfaces_transport_exhaustion() {
    let transport = InMemoryVvp::new(Vec::new(), vec![]);
    let mut adapter = IcarusVerilogAdapter::new(transport);
    let err = adapter.next_event_time().expect_err("empty script must error");
    assert!(matches!(err, SchedulerError::DigitalAdapterFailed(_)), "got {err:?}");
}

#[test]
fn confirm_event_correct_prediction_path() {
    let din = SignalName::new("din");
    let dout = SignalName::new("dout");
    let transport = InMemoryVvp::new(vec![ev(50, &[&din, &dout])], vec![din.clone(), dout.clone()]);
    let mut adapter = IcarusVerilogAdapter::new(transport);
    let _ = adapter.next_event_time().unwrap();
    let report = adapter.confirm_event(SimulationTime::from_nanoseconds(50)).expect("confirm_event must succeed");
    assert_eq!(report, DigitalStepReport::Confirmed { time: SimulationTime::from_nanoseconds(50) });
    let trace = adapter.take_trace();
    for sig in [din, dout] {
        assert_eq!(trace.events_for(&sig), Some(&[SimulationTime::from_nanoseconds(50)][..]));
    }
    assert!(trace.vcd.contains("$timescale 1ps $end"));
    assert!(trace.vcd.contains("$enddefinitions $end"));
    assert!(trace.vcd.contains(&format!("#{}", 50_000_i64)));
}

#[test]
fn rollback_to_checkpoint_prunes_recorded_events() {
    let din = SignalName::new("din");
    let transport = InMemoryVvp::new(vec![ev(30, &[&din]), ev(60, &[&din])], vec![din.clone()]);
    let mut adapter = IcarusVerilogAdapter::new(transport);
    let _ = adapter.next_event_time().unwrap();
    let _ = adapter.confirm_event(SimulationTime::from_nanoseconds(30)).unwrap();
    let _ = adapter.next_event_time().unwrap();
    let _ = adapter.confirm_event(SimulationTime::from_nanoseconds(60)).unwrap();
    adapter.rollback_to_checkpoint(SimulationTime::from_nanoseconds(40)).expect("rollback must succeed");
    let trace = adapter.take_trace();
    assert_eq!(trace.events_for(&din), Some(&[SimulationTime::from_nanoseconds(30)][..]));
}

#[test]
fn rollback_to_checkpoint_rolls_the_runtime_back_once() {
    let din = SignalName::new("din");
    let transport = InMemoryVvp::new(vec![ev(30, &[&din]), ev(60, &[&din])], vec![din.clone()]);
    let mut adapter = IcarusVerilogAdapter::new(transport);
    let _ = adapter.confirm_event(SimulationTime::from_nanoseconds(30)).unwrap();
    let _ = adapter.confirm_event(SimulationTime::from_nanoseconds(60)).unwrap();
    adapter.rollback_to_checkpoint(SimulationTime::from_nanoseconds(40)).expect("rollback must succeed");
    assert_eq!(
        adapter.transport().log(),
        &[
            VvpCall::AdvanceAndReport(SimulationTime::from_nanoseconds(30)),
            VvpCall::AdvanceAndReport(SimulationTime::from_nanoseconds(60)),
            VvpCall::RollbackTo(SimulationTime::from_nanoseconds(40)),
        ][..]
    );
    assert_eq!(adapter.transport().confirmed_count(), 1);
    assert_eq!(
        adapter.next_event_time().unwrap().predicted_time,
        SimulationTime::from_nanoseconds(60)
    );
}

#[test]
fn optimistic_advance_with_correct_prediction_via_icarus_adapter() {
    let din = SignalName::new("din");
    let dout = SignalName::new("dout");
    let transport = InMemoryVvp::new(vec![ev(50, &[&din, &dout])], vec![din.clone(), dout.clone()]);
    let digital = IcarusVerilogAdapter::new(transport);
    let analog = LinearRamp::new();
    let boundaries = BoundarySignals {
        analog_to_digital: vec![(SignalName::new("vout"), din.clone())],
        digital_to_analog: vec![(dout.clone(), SignalName::new("vin"))],
    };
    let scheduler = MixedSignalScheduler::new(analog, digital, boundaries, SimulationTime::from_nanoseconds(100));
    let result = run(scheduler).expect("scheduler run must succeed");
    assert_eq!(result.final_commit(), Some(SimulationTime::from_nanoseconds(50)));
    assert_eq!(result.scheduler.commits, vec![SimulationTime::from_nanoseconds(50)]);
    assert!(result.analog.iter().any(|s| s.0 == SimulationTime::from_nanoseconds(50)));
    assert!(result.digital.vcd.contains("$timescale 1ps $end"));
    assert!(result.digital.vcd.contains(&format!("#{}", 50_000_i64)));
    for sig in [din, dout] {
        assert_eq!(result.digital.events_for(&sig), Some(&[SimulationTime::from_nanoseconds(50)][..]));
    }
    assert!(result.rollback_free());
    assert!(result.scheduler.rollbacks.is_empty());
}

#[test]
fn icarus_vcd_text_is_exact() {
    let din = SignalName::new("din");
    let dout = SignalName::new("dout");
    let transport =
        InMemoryVvp::new(vec![ev(1, &[&dout]), ev(2, &[&din, &dout])], vec![din.clone(), dout.clone()]);
    let mut adapter = IcarusVerilogAdapter::new(transport);
    for ns in [1, 2] {
        adapter.next_event_time().unwrap();
        adapter.confirm_event(SimulationTime::from_nanoseconds(ns)).unwrap();
    }
    let trace = adapter.take_trace();
    assert_eq!(
        trace.vcd,
        "$timescale 1ps $end\n$scope module icarus_verilog_adapter $end\n$var wire 1 ! din $end\n$var wire 1 \" dout $end\n$upscope $end\n$enddefinitions $end\n#1000\n1\"\n#2000\n1!\n1\"\n"
    );
    assert_eq!(trace.events_for(&din), Some(&[SimulationTime::from_nanoseconds(2)][..]));
    assert_eq!(
        trace.events_for(&dout),
        Some(&[SimulationTime::from_nanoseconds(1), SimulationTime::from_nanoseconds(2)][..])
    );
}

#[test]
fn misprediction_and_postponement_are_mapped() {
    let din = SignalName::new("din");
    let transport = InMemoryVvp::new(vec![ev(30, &[&din]), ev(90, &[&din])], vec![din.clone()]);
    let mut adapter = IcarusVerilogAdapter::new(transport);
    let r = adapter.confirm_event(SimulationTime::from_nanoseconds(40)).unwrap();
    assert_eq!(r, DigitalStepReport::Mispredicted { actual_time: SimulationTime::from_nanoseconds(30) });
    let r = adapter.confirm_event(SimulationTime::from_nanoseconds(60)).unwrap();
    assert_eq!(r, DigitalStepReport::Postponed { new_prediction: SimulationTime::from_nanoseconds(90) });
    let trace = adapter.take_trace();
    assert_eq!(trace.events_for(&din), Some(&[SimulationTime::from_nanoseconds(30)][..]));
}

#[test]
fn in_memory_transport_logs_and_rewinds() {
    let din = SignalName::new("din");
    let mut vvp = InMemoryVvp::new(vec![ev(10, &[&din]), ev(20, &[&din]), ev(30, &[&din])], vec![din.clone()]);
    assert_eq!(vvp.query_next_event(), Ok(SimulationTime::from_nanoseconds(10)));
    for ns in [10, 20, 30] {
        match vvp.advance_and_report(SimulationTime::from_nanoseconds(ns)).unwrap() {
            VvpAdvanceReport::Confirmed { time, toggled } => {
                assert_eq!(time, SimulationTime::from_nanoseconds(ns));
                assert_eq!(toggled, vec![din.clone()]);
            }
            other => panic!("expected a confirmation, got {other:?}"),
        }
    }
    assert_eq!(vvp.confirmed_count(), 3);
    assert_eq!(vvp.query_next_event(), Err("in-memory VVP transport exhausted".to_string()));
    assert_eq!(vvp.rollback_to(SimulationTime::from_nanoseconds(15)), Ok(()));
    assert_eq!(vvp.confirmed_count(), 1);
    // The returned events come back in their original order.
    assert_eq!(vvp.query_next_event(), Ok(SimulationTime::from_nanoseconds(20)));
    assert!(matches!(vvp.advance_and_report(SimulationTime::from_nanoseconds(20)), Ok(VvpAdvanceReport::Confirmed { .. })));
    assert_eq!(vvp.query_next_event(), Ok(SimulationTime::from_nanoseconds(30)));
    assert_eq!(vvp.signals(), &[din.clone()][..]);
    assert_eq!(vvp.log().len(), 9);
    assert_eq!(vvp.log()[7], VvpCall::AdvanceAndReport(SimulationTime::from_nanoseconds(20)));
    assert_eq!(vvp.log()[5], VvpCall::RollbackTo(SimulationTime::from_nanoseconds(15)));
    let empty = InMemoryVvp::default();
    assert_eq!(empty.confirmed_count(), 0);
    assert!(empty.log().is_empty());
}

#[test]
fn advance_on_exhausted_script_fails() {
    let mut vvp = InMemoryVvp::new(vec![], vec![]);
    assert_eq!(
        vvp.advance_and_report(SimulationTime::from_nanoseconds(1)),
        Err("in-memory VVP transport script exhausted before advance_and_report".to_string())
    );
}

#[test]
fn rewinding_undoes_a_confirmation() {
    let din = SignalName::new("din");
    let mut vvp = InMemoryVvp::new(vec![ev(10, &[&din]), ev(20, &[&din])], vec![din.clone()]);
    vvp.advance_and_report(SimulationTime::from_nanoseconds(10)).unwrap();
    assert_eq!(vvp.confirmed_count(), 1);
    vvp.advance_and_report(SimulationTime::from_nanoseconds(20)).unwrap();
    vvp.rollback_to(SimulationTime::from_nanoseconds(15)).unwrap();
    assert_eq!(vvp.confirmed_count(), 1);
    assert_eq!(vvp.query_next_event(), Ok(SimulationTime::from_nanoseconds(20)));
}
