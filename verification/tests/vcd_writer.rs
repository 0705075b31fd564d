use analysis_orchestration::time::{SignalName, SimulationTime};
use analysis_orchestration::vcd_writer::{build_vcd, VcdTraceInput, MAX_SINGLE_CHAR_SIGNALS};

#[test]
fn empty_signals_produce_a_minimal_header() {
    let vcd = build_vcd(&VcdTraceInput { scope_name: "empty", signals: &[], events_by_signal: &[] });
    assert!(vcd.contains("$timescale 1ps $end"));
    assert!(vcd.contains("$scope module empty $end"));
    assert!(vcd.contains("$upscope $end"));
    assert!(vcd.contains("$enddefinitions $end"));
    assert!(vcd.contains("#0"));
}

#[test]
fn two_signals_get_distinct_ids() {
    let signals = vec![SignalName::new("din"), SignalName::new("dout")];
    let events = vec![vec![SimulationTime::from_nanoseconds(50)], vec![SimulationTime::from_nanoseconds(50)]];
    let vcd = build_vcd(&VcdTraceInput { scope_name: "test", signals: &signals, events_by_signal: &events });
    assert!(vcd.contains("$var wire 1 ! din $end"));
    assert!(vcd.contains("$var wire 1 \" dout $end"));
    assert!(vcd.contains("#50000\n"));
    assert!(vcd.contains("1!\n"));
    assert!(vcd.contains("1\"\n"));
}

#[test]
fn timeline_is_sorted_even_for_unordered_input() {
    let signals = vec![SignalName::new("a"), SignalName::new("b")];
    let events = vec![vec![SimulationTime::from_nanoseconds(80)], vec![SimulationTime::from_nanoseconds(20)]];
    let vcd = build_vcd(&VcdTraceInput { scope_name: "sort", signals: &signals, events_by_signal: &events });
    let body = vcd.split("$enddefinitions $end\n").nth(1).unwrap();
    let twenty_idx = body.find("#20000\n").expect("must have #20000");
    let eighty_idx = body.find("#80000\n").expect("must have #80000");
    assert!(twenty_idx < eighty_idx, "VCD transitions must be time-sorted");
}

#[test]
fn t_zero_events_collapse_into_initial_dump() {
    let signals = vec![SignalName::new("zero")];
    let events = vec![vec![SimulationTime::zero()]];
    let vcd = build_vcd(&VcdTraceInput { scope_name: "z", signals: &signals, events_by_signal: &events });
    assert_eq!(vcd.matches("#0\n").count(), 1);
    assert!(vcd.contains("0!"));
    assert!(!vcd.contains("1!"));
}

#[test]
fn whole_document_is_exact() {
    let signals = vec![SignalName::new("a"), SignalName::new("b")];
    let t = SimulationTime::from_picoseconds;
    let events = vec![vec![t(30), t(10)], vec![t(10), t(0), t(-5)]];
    let vcd = build_vcd(&VcdTraceInput { scope_name: "top", signals: &signals, events_by_signal: &events });
    assert_eq!(
        vcd,
        "$date\n    2026-05-21\n$end\n$version\n    circuit-solver mixed-signal-cosim\n$end\n$timescale 1ps $end\n\
$scope module top $end\n$var wire 1 ! a $end\n$var wire 1 \" b $end\n$upscope $end\n$enddefinitions $end\n\
#0\n$dumpvars\n0!\n0\"\n$end\n#-5\n1\"\n#10\n1!\n1\"\n#30\n1!\n"
    );
}

#[test]
fn the_last_single_character_identifier_is_tilde() {
    let signals: Vec<SignalName> = (0..MAX_SINGLE_CHAR_SIGNALS).map(|i| SignalName::new(&format!("s{i}"))).collect();
    let events: Vec<Vec<SimulationTime>> = (0..MAX_SINGLE_CHAR_SIGNALS).map(|_| Vec::new()).collect();
    let vcd = build_vcd(&VcdTraceInput { scope_name: "wide", signals: &signals, events_by_signal: &events });
    assert!(vcd.contains("$var wire 1 ~ s93 $end"));
    assert_eq!(MAX_SINGLE_CHAR_SIGNALS, 94);
}

#[test]
fn reordering_a_signals_events_keeps_the_text() {
    let signals = vec![SignalName::new("a"), SignalName::new("b")];
    let t = SimulationTime::from_picoseconds;
    let events = vec![vec![t(30), t(10), t(0)], vec![t(20), t(10)]];
    let reordered = vec![vec![t(0), t(10), t(30)], vec![t(10), t(20)]];
    let first = build_vcd(&VcdTraceInput { scope_name: "p", signals: &signals, events_by_signal: &events });
    let second = build_vcd(&VcdTraceInput { scope_name: "p", signals: &signals, events_by_signal: &reordered });
    assert_eq!(first, second);
}
