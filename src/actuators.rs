//! Actuator stage: the command mapping is not modelled yet, so it keeps no
//! state.
use vstd::prelude::*;
use crate::control::ControlBus;

verus! {

/// Actuator commands of one tick.
#[derive(Clone, Copy, Debug, PartialEq, Eq, Structural)]
pub struct ActuatorBus {}

impl ActuatorBus {
    /// Maps this tick's control command to actuator commands.
    pub fn process(_curr_ctrl: &ControlBus) -> (r: Self)
        ensures
            r == (ActuatorBus {}),
    {
        ActuatorBus {}
    }
}

impl Default for ActuatorBus {
    fn default() -> (r: Self)
        ensures
            r == (ActuatorBus {}),
    {
        ActuatorBus {}
    }
}

} // verus!
