use analysis_orchestration::time::SimulationTime;
use analysis_orchestration::transient::{check_transient_request, IntegrationMethod, TransientRequestError};

#[test]
fn default_integration_method_is_trapezoidal() {
    assert_eq!(IntegrationMethod::default(), IntegrationMethod::Trapezoidal);
}

#[test]
fn lte_order_per_method() {
    assert_eq!(IntegrationMethod::BackwardEuler.lte_order(), 1);
    assert_eq!(IntegrationMethod::Trapezoidal.lte_order(), 2);
    assert_eq!(IntegrationMethod::Gear2Bdf.lte_order(), 2);
}

#[test]
fn gear2_is_refused_before_the_interval_is_looked_at() {
    let t = SimulationTime::from_nanoseconds;
    assert_eq!(
        check_transient_request(IntegrationMethod::Gear2Bdf, t(10), t(0)),
        Err(TransientRequestError::UnsupportedIntegrationMethod(IntegrationMethod::Gear2Bdf))
    );
}

#[test]
fn empty_or_backward_interval_is_refused() {
    let t = SimulationTime::from_nanoseconds;
    assert_eq!(
        check_transient_request(IntegrationMethod::Trapezoidal, t(5), t(5)),
        Err(TransientRequestError::NonPositiveInterval { t_start: t(5), t_stop: t(5) })
    );
    assert_eq!(
        check_transient_request(IntegrationMethod::BackwardEuler, t(5), t(4)),
        Err(TransientRequestError::NonPositiveInterval { t_start: t(5), t_stop: t(4) })
    );
    assert_eq!(check_transient_request(IntegrationMethod::BackwardEuler, t(0), t(10)), Ok(()));
}
