//! The parameters of a mission and the state of one tick of the pipeline.
use vstd::prelude::*;
use crate::actuators::ActuatorBus;
use crate::control::ControlBus;
use crate::estimation::EstimationBus;
use crate::reference::ReferenceBus;
use crate::sensor_bus::{RawSensorBus, SensorBus};

verus! {

/// Marker for the parameter groups of the parameter bus.
pub trait Param {

}

/// Parameters of the actuator stage.
#[derive(Clone, Copy, Debug, PartialEq, Eq, Structural)]
pub struct ActuatorArchitecture {}

impl Param for ActuatorArchitecture {

}

/// Parameters of the control stage.
#[derive(Clone, Copy, Debug, PartialEq, Eq, Structural)]
pub struct ControlArchitecture {}

impl Param for ControlArchitecture {

}

/// Parameters of the estimation stage.
#[derive(Clone, Copy, Debug, PartialEq, Eq, Structural)]
pub struct EstimationArchitecture {}

impl Param for EstimationArchitecture {

}

/// Parameters of the reference stage.
#[derive(Clone, Copy, Debug, PartialEq, Eq, Structural)]
pub struct ReferenceArchitecture {}

impl Param for ReferenceArchitecture {

}

/// The sensor suite: how many redundant units of each type are fitted.
#[derive(Clone, Copy, Debug, PartialEq, Eq, Structural)]
pub struct SensorArchitecture {
    pub n_imu: usize,
    pub n_sta: usize,
    pub n_gpsr: usize,
}

impl Param for SensorArchitecture {

}

/// The parameters of a mission, fixed once assembled and read by every stage.
#[derive(Clone, Copy, Debug, PartialEq, Eq, Structural)]
pub struct ParamBus {
    pub acs_sensors: SensorArchitecture,
    pub acs_estimation: EstimationArchitecture,
    pub acs_reference: ReferenceArchitecture,
    pub acs_control: ControlArchitecture,
    pub acs_actuators: ActuatorArchitecture,
}

impl ParamBus {
    /// Assembles the parameter bus from its groups.
    pub fn initialize(
        acs_sensors: SensorArchitecture,
        acs_estimation: EstimationArchitecture,
        acs_reference: ReferenceArchitecture,
        acs_control: ControlArchitecture,
        acs_actuators: ActuatorArchitecture,
    ) -> (r: Self)
        ensures
            r == (ParamBus {
                acs_sensors,
                acs_estimation,
                acs_reference,
                acs_control,
                acs_actuators,
            }),
    {
        ParamBus { acs_sensors, acs_estimation, acs_reference, acs_control, acs_actuators }
    }
}

/// The outputs of every stage for one tick.
#[derive(Clone, Copy, Debug)]
pub struct GNCState {
    pub raw_sensor_bus: RawSensorBus,
    pub tlm_sensor_bus: SensorBus,
    pub estimation_bus: EstimationBus,
    pub reference_bus: ReferenceBus,
    pub control_bus: ControlBus,
    pub actuator_bus: ActuatorBus,
}

impl GNCState {
    pub open spec fn wf(&self) -> bool {
        self.tlm_sensor_bus.wf()
    }

    /// The state has seen no tick and watches the sensor suite of `params`.
    pub open spec fn is_initial(&self, params: ParamBus) -> bool {
        &&& self.raw_sensor_bus.is_empty()
        &&& self.tlm_sensor_bus == SensorBus::initial(
            params.acs_sensors.n_imu,
            params.acs_sensors.n_sta,
            params.acs_sensors.n_gpsr,
        )
    }

    /// What this buffer holds once a tick on `raw` has overwritten it stage by
    /// stage.
    pub open spec fn advance(self, raw: RawSensorBus) -> GNCState {
        GNCState {
            raw_sensor_bus: raw,
            tlm_sensor_bus: self.tlm_sensor_bus.next(raw),
            estimation_bus: EstimationBus {},
            reference_bus: ReferenceBus {},
            control_bus: ControlBus {},
            actuator_bus: ActuatorBus {},
        }
    }

    /// A state that has seen no tick, with the sensor suite of `params`.
    pub fn initialize(params: &ParamBus) -> (r: Self)
        ensures
            r.wf(),
            r.is_initial(*params),
    {
        GNCState {
            raw_sensor_bus: RawSensorBus::new(),
            tlm_sensor_bus: SensorBus::initialize(
                params.acs_sensors.n_imu,
                params.acs_sensors.n_sta,
                params.acs_sensors.n_gpsr,
            ),
            estimation_bus: EstimationBus {},
            reference_bus: ReferenceBus {},
            control_bus: ControlBus {},
            actuator_bus: ActuatorBus {},
        }
    }
}

} // verus!
