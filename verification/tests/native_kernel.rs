use analysis_orchestration::mixed_signal::{DigitalStepReport, NextEventReport, SchedulerError};
use analysis_orchestration::native_kernel::{
    classify_kernel_step, kernel_prediction, native_kernel_trace, KernelCheckpointTimes, KernelRunSummary,
};
use analysis_orchestration::time::{SignalName, SimulationTime};

fn t(ps: i64) -> SimulationTime {
    SimulationTime::from_picoseconds(ps)
}

fn summary(reached: i64, processed_any: bool, settled: bool, next: Option<i64>) -> KernelRunSummary {
    KernelRunSummary {
        time_reached: t(reached),
        processed_any,
        settled_at_boundary: settled,
        next_event_time: next.map(t),
    }
}

#[test]
fn activity_at_the_boundary_confirms() {
    assert_eq!(classify_kernel_step(t(50), summary(50, true, false, Some(90))), Ok(DigitalStepReport::Confirmed { time: t(50) }));
    assert_eq!(classify_kernel_step(t(50), summary(50, false, true, Some(90))), Ok(DigitalStepReport::Confirmed { time: t(50) }));
}

#[test]
fn idle_boundary_with_later_event_postpones() {
    assert_eq!(
        classify_kernel_step(t(50), summary(50, false, false, Some(90))),
        Ok(DigitalStepReport::Postponed { new_prediction: t(90) })
    );
}

#[test]
fn idle_boundary_with_nothing_scheduled_confirms() {
    assert_eq!(classify_kernel_step(t(50), summary(50, false, false, None)), Ok(DigitalStepReport::Confirmed { time: t(50) }));
}

#[test]
fn stopping_short_is_a_misprediction() {
    assert_eq!(
        classify_kernel_step(t(50), summary(30, true, true, Some(90))),
        Ok(DigitalStepReport::Mispredicted { actual_time: t(30) })
    );
}

#[test]
fn overshoot_is_an_error() {
    assert_eq!(
        classify_kernel_step(t(50), summary(60, true, false, None)),
        Err(SchedulerError::DigitalAdapterFailed(
            "native kernel overshot boundary: reached 60 ps > requested 50 ps".to_string()
        ))
    );
}

#[test]
fn predictions_are_forwarded_or_end_the_run() {
    assert_eq!(kernel_prediction(Some(t(7))), Ok(NextEventReport { predicted_time: t(7) }));
    assert_eq!(
        kernel_prediction(None),
        Err(SchedulerError::DigitalAdapterFailed("native kernel: no further events".to_string()))
    );
}

#[test]
fn trace_lists_every_event_for_every_signal() {
    let signals = vec![SignalName::new("q"), SignalName::new("clk")];
    let times = vec![t(20), t(10)];
    let trace = native_kernel_trace(&signals, &times);
    assert_eq!(trace.events_for(&SignalName::new("q")), Some(&[t(20), t(10)][..]));
    assert_eq!(trace.events_for(&SignalName::new("clk")), Some(&[t(20), t(10)][..]));
    assert!(trace.vcd.contains("$scope module native_kernel $end"));
    assert!(trace.vcd.ends_with("#10\n1!\n1\"\n#20\n1!\n1\"\n"));
}

#[test]
fn checkpoint_times_rollback_keeps_the_latest_at_or_before() {
    let mut c = KernelCheckpointTimes::new();
    for ps in [30, 10, 20, 20, 40] {
        c.record(t(ps));
    }
    assert_eq!(c.len(), 4);
    assert_eq!(c.rollback(t(25)), Ok(t(20)));
    assert_eq!(c.len(), 2);
    assert_eq!(c.rollback(t(5)), Err(SchedulerError::NoCheckpoint(t(5))));
    assert_eq!(c.len(), 2);
    assert_eq!(c.rollback(t(10)), Ok(t(10)));
    assert_eq!(c.len(), 1);
    let empty = KernelCheckpointTimes::default();
    assert_eq!(empty.len(), 0);
}
