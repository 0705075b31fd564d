use std::collections::HashMap;

use analysis_orchestration::boundary_exchanger::{
    assemble_packet, AnalogValueProvider, BoundaryExchangerError, BoundaryInterpolationMode, BoundarySignalExchanger,
    DigitalValueProvider,
};
use analysis_orchestration::mixed_signal::BoundarySignals;
use analysis_orchestration::time::SignalName;

struct MapProvider {
    analog: HashMap<String, f64>,
    digital: HashMap<String, f64>,
}

impl MapProvider {
    fn new() -> Self {
        Self { analog: HashMap::new(), digital: HashMap::new() }
    }
    fn with_analog(mut self, name: &str, value: f64) -> Self {
        self.analog.insert(name.to_string(), value);
        self
    }
    fn with_digital(mut self, name: &str, value: f64) -> Self {
        self.digital.insert(name.to_string(), value);
        self
    }
}

impl AnalogValueProvider<f64> for MapProvider {
    // The trait's specification item exists for verification only; it is never called.
    fn analog_value(&self, _signal: SignalName) -> Option<f64> {
        unreachable!()
    }

    fn last_analog_value(&self, signal: &SignalName) -> Option<f64> {
        self.analog.get(signal.as_str()).copied()
    }
}

impl DigitalValueProvider<f64> for MapProvider {
    // The trait's specification item exists for verification only; it is never called.
    fn digital_value(&self, _signal: SignalName) -> Option<f64> {
        unreachable!()
    }

    fn last_digital_value(&self, signal: &SignalName) -> Option<f64> {
        self.digital.get(signal.as_str()).copied()
    }
}

fn vout_din_dout_vin_boundaries() -> BoundarySignals {
    BoundarySignals {
        analog_to_digital: vec![(SignalName::new("vout"), SignalName::new("din"))],
        digital_to_analog: vec![(SignalName::new("dout"), SignalName::new("vin"))],
    }
}

#[test]
fn default_mode_is_zero_order_hold() {
    assert_eq!(BoundaryInterpolationMode::default(), BoundaryInterpolationMode::ZeroOrderHold);
}

#[test]
fn zoh_constructor_pins_mode() {
    let ex = BoundarySignalExchanger::zero_order_hold(BoundarySignals::default());
    assert_eq!(ex.mode(), BoundaryInterpolationMode::ZeroOrderHold);
}

#[test]
fn linear_mode_is_rejected_at_item_45() {
    let err = BoundarySignalExchanger::with_mode(BoundarySignals::default(), BoundaryInterpolationMode::Linear)
        .expect_err("linear must be rejected");
    assert_eq!(err, BoundaryExchangerError::UnsupportedMode(BoundaryInterpolationMode::Linear));
    let msg = err.to_string();
    assert!(msg.contains("linear"));
    assert!(msg.contains("#46"));
}

#[test]
fn with_mode_zoh_succeeds() {
    let ex = BoundarySignalExchanger::with_mode(BoundarySignals::default(), BoundaryInterpolationMode::ZeroOrderHold)
        .unwrap();
    assert_eq!(ex.mode(), BoundaryInterpolationMode::ZeroOrderHold);
}

#[test]
fn zoh_exchange_routes_values_to_destination_names() {
    let provider = MapProvider::new().with_analog("vout", 3.3).with_digital("dout", 1.0);
    let ex = BoundarySignalExchanger::zero_order_hold(vout_din_dout_vin_boundaries());
    let packet = ex.exchange(&provider, &provider);
    assert!(packet.is_complete(), "all four signals are present");
    assert_eq!(packet.analog_to_digital_value(&SignalName::new("din")), Some(3.3));
    assert_eq!(packet.digital_to_analog_value(&SignalName::new("vin")), Some(1.0));
}

#[test]
fn zoh_holds_value_constant_across_repeated_exchanges() {
    let provider = MapProvider::new().with_analog("vout", 1.65).with_digital("dout", 0.0);
    let ex = BoundarySignalExchanger::zero_order_hold(vout_din_dout_vin_boundaries());
    let p1 = ex.exchange(&provider, &provider);
    let p2 = ex.exchange(&provider, &provider);
    assert_eq!(p1, p2, "identical packets when no side has updated");
    assert_eq!(p1.analog_to_digital_value(&SignalName::new("din")), Some(1.65));
    assert_eq!(p1.digital_to_analog_value(&SignalName::new("vin")), Some(0.0));
}

#[test]
fn zoh_reflects_provider_updates_at_next_exchange() {
    let p1 = MapProvider::new().with_analog("vout", 0.0).with_digital("dout", 0.0);
    let p2 = MapProvider::new().with_analog("vout", 3.3).with_digital("dout", 1.0);
    let ex = BoundarySignalExchanger::zero_order_hold(vout_din_dout_vin_boundaries());
    let pkt_t0 = ex.exchange(&p1, &p1);
    let pkt_t1 = ex.exchange(&p2, &p2);
    assert_eq!(pkt_t0.analog_to_digital_value(&SignalName::new("din")), Some(0.0));
    assert_eq!(pkt_t1.analog_to_digital_value(&SignalName::new("din")), Some(3.3));
}

#[test]
fn missing_sources_are_surfaced_not_defaulted() {
    let provider = MapProvider::new().with_analog("vout", 3.3);
    let ex = BoundarySignalExchanger::zero_order_hold(vout_din_dout_vin_boundaries());
    let packet = ex.exchange(&provider, &provider);
    assert!(!packet.is_complete());
    assert_eq!(packet.missing_sources, vec![SignalName::new("dout")]);
    assert_eq!(packet.analog_to_digital_value(&SignalName::new("din")), Some(3.3));
    assert_eq!(packet.digital_to_analog_value(&SignalName::new("vin")), None);
}

#[test]
fn empty_boundaries_yield_empty_complete_packet() {
    let provider = MapProvider::new();
    let ex = BoundarySignalExchanger::zero_order_hold(BoundarySignals::default());
    let packet = ex.exchange(&provider, &provider);
    assert!(packet.is_complete());
    assert!(packet.analog_to_digital.is_empty());
    assert!(packet.digital_to_analog.is_empty());
}

#[test]
fn mode_display_strings_are_stable() {
    assert_eq!(BoundaryInterpolationMode::ZeroOrderHold.to_string(), "zero_order_hold");
    assert_eq!(BoundaryInterpolationMode::Linear.to_string(), "linear");
}

#[test]
fn boundaries_accessor_returns_configured_pairs() {
    let b = vout_din_dout_vin_boundaries();
    let ex = BoundarySignalExchanger::zero_order_hold(b.clone());
    assert_eq!(ex.boundaries(), &b);
}

#[test]
fn multiple_pairs_route_independently() {
    let boundaries = BoundarySignals {
        analog_to_digital: vec![
            (SignalName::new("vout_a"), SignalName::new("din_a")),
            (SignalName::new("vout_b"), SignalName::new("din_b")),
        ],
        digital_to_analog: vec![
            (SignalName::new("dout_x"), SignalName::new("vin_x")),
            (SignalName::new("dout_y"), SignalName::new("vin_y")),
        ],
    };
    let provider = MapProvider::new()
        .with_analog("vout_a", 1.0)
        .with_analog("vout_b", 2.0)
        .with_digital("dout_x", 3.0)
        .with_digital("dout_y", 4.0);
    let ex = BoundarySignalExchanger::zero_order_hold(boundaries);
    let pkt = ex.exchange(&provider, &provider);
    assert!(pkt.is_complete());
    assert_eq!(pkt.analog_to_digital_value(&SignalName::new("din_a")), Some(1.0));
    assert_eq!(pkt.analog_to_digital_value(&SignalName::new("din_b")), Some(2.0));
    assert_eq!(pkt.digital_to_analog_value(&SignalName::new("vin_x")), Some(3.0));
    assert_eq!(pkt.digital_to_analog_value(&SignalName::new("vin_y")), Some(4.0));
}

#[test]
fn exchange_error_text_names_the_mode() {
    let err = BoundaryExchangerError::UnsupportedMode(BoundaryInterpolationMode::Linear);
    assert_eq!(
        err.to_string(),
        "boundary interpolation mode linear is not supported by the zero-order-hold exchanger (tasks.md item #45); linear interpolation is implemented by item #46"
    );
}

#[test]
fn repeated_destination_reads_first_entry() {
    let boundaries = BoundarySignals {
        analog_to_digital: vec![
            (SignalName::new("a"), SignalName::new("d")),
            (SignalName::new("b"), SignalName::new("d")),
        ],
        digital_to_analog: vec![],
    };
    let provider = MapProvider::new().with_analog("a", 1.0).with_analog("b", 2.0);
    let ex = BoundarySignalExchanger::zero_order_hold(boundaries);
    let pkt = ex.exchange(&provider, &provider);
    assert_eq!(pkt.analog_to_digital.len(), 2);
    assert_eq!(pkt.analog_to_digital_value(&SignalName::new("d")), Some(1.0));
    assert_eq!(pkt.analog_to_digital_value(&SignalName::new("unknown")), None);
}

#[test]
fn assembled_packet_routes_answers_in_configuration_order() {
    let b = BoundarySignals {
        analog_to_digital: vec![
            (SignalName::new("a1"), SignalName::new("d1")),
            (SignalName::new("a2"), SignalName::new("d2")),
            (SignalName::new("a3"), SignalName::new("d3")),
        ],
        digital_to_analog: vec![(SignalName::new("q1"), SignalName::new("v1")), (SignalName::new("q2"), SignalName::new("v2"))],
    };
    let p = assemble_packet(&b, vec![Some(1), None, Some(3)], vec![None, Some(7)]);
    assert_eq!(p.analog_to_digital, vec![(SignalName::new("d1"), 1), (SignalName::new("d3"), 3)]);
    assert_eq!(p.digital_to_analog, vec![(SignalName::new("v2"), 7)]);
    assert_eq!(p.missing_sources, vec![SignalName::new("a2"), SignalName::new("q1")]);
    assert!(!p.is_complete());
}
