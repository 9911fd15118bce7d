//! Estimation stage: its filter is not modelled yet, so it keeps no state.
use vstd::prelude::*;
use crate::sensor_bus::SensorBus;

verus! {

/// Output of the state estimator for one tick.
#[derive(Clone, Copy, Debug, PartialEq, Eq, Structural)]
pub struct EstimationBus {}

impl EstimationBus {
    /// Estimates the state from this tick's sensor bus and the previous
    /// estimate.
    pub fn process(_tlm_sensor: &SensorBus, _prev_est: &EstimationBus) -> (r: Self)
        ensures
            r == (EstimationBus {}),
    {
        EstimationBus {}
    }
}

impl Default for EstimationBus {
    fn default() -> (r: Self)
        ensures
            r == (EstimationBus {}),
    {
        EstimationBus {}
    }
}

} // verus!
