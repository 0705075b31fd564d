//! Transient-analysis settings that carry no numeric data: the implicit
//! integration method, its local-truncation-error order, and the checks
//! of a transient request's method and interval.
use vstd::prelude::*;
use crate::time::SimulationTime;

verus! {

/// The implicit integration method of a transient analysis.
#[derive(Debug, Clone, Copy, PartialEq, Eq, Hash, Structural)]
pub enum IntegrationMethod {
    /// Backward Euler: first order, L-stable.
    BackwardEuler,
    /// Trapezoidal rule: second order, A-stable (the default).
    Trapezoidal,
    /// Gear-2 backward differentiation formula: second order, L-stable
    /// (not yet available to the transient loop).
    Gear2Bdf,
}

impl IntegrationMethod {
    /// The order of the method's local truncation error estimate: 1 for
    /// Backward Euler, 2 for Trapezoidal and Gear-2.
    pub fn lte_order(self) -> (p: u32)
        ensures
            p == (if self == IntegrationMethod::BackwardEuler {
                1u32
            } else {
                2u32
            }),
    {
        match self {
            IntegrationMethod::BackwardEuler => 1,
            IntegrationMethod::Trapezoidal | IntegrationMethod::Gear2Bdf => 2,
        }
    }
}

impl Default for IntegrationMethod {
    fn default() -> (m: Self)
        ensures
            m == IntegrationMethod::Trapezoidal,
    {
        IntegrationMethod::Trapezoidal
    }
}

/// Why a transient request is refused before any stepping.
#[derive(Debug, Clone, Copy, PartialEq, Eq, Structural)]
pub enum TransientRequestError {
    /// The integration method is not wired into the transient loop.
    UnsupportedIntegrationMethod(IntegrationMethod),
    /// The interval does not move forward: `t_stop <= t_start`.
    NonPositiveInterval {
        /// Start of the interval.
        t_start: SimulationTime,
        /// End of the interval.
        t_stop: SimulationTime,
    },
}

/// Checks a transient request's method and interval, in that order: Gear-2
/// is refused, then an interval with `t_stop <= t_start`.
pub fn check_transient_request(
    method: IntegrationMethod,
    t_start: SimulationTime,
    t_stop: SimulationTime,
) -> (r: Result<(), TransientRequestError>)
    ensures
        method == IntegrationMethod::Gear2Bdf ==> r == Err::<(), TransientRequestError>(
            TransientRequestError::UnsupportedIntegrationMethod(method),
        ),
        method != IntegrationMethod::Gear2Bdf && t_stop.ps <= t_start.ps ==> r == Err::<(), TransientRequestError>(
            TransientRequestError::NonPositiveInterval { t_start, t_stop },
        ),
        method != IntegrationMethod::Gear2Bdf && t_stop.ps > t_start.ps ==> r is Ok,
{
    if method == IntegrationMethod::Gear2Bdf {
        return Err(TransientRequestError::UnsupportedIntegrationMethod(method));
    }
    if t_stop.ps <= t_start.ps {
        return Err(TransientRequestError::NonPositiveInterval { t_start, t_stop });
    }
    Ok(())
}

} // verus!
