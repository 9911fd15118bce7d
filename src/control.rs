//! Control stage: the control law is not modelled yet, so it keeps no state.
use vstd::prelude::*;
use crate::estimation::EstimationBus;
use crate::reference::ReferenceBus;

verus! {

/// Output of the control law for one tick.
#[derive(Clone, Copy, Debug, PartialEq, Eq, Structural)]
pub struct ControlBus {}

impl ControlBus {
    /// Computes the control command from this tick's estimate and reference.
    pub fn process(_curr_est: &EstimationBus, _curr_ref: &ReferenceBus) -> (r: Self)
        ensures
            r == (ControlBus {}),
    {
        ControlBus {}
    }
}

impl Default for ControlBus {
    fn default() -> (r: Self)
        ensures
            r == (ControlBus {}),
    {
        ControlBus {}
    }
}

} // verus!
