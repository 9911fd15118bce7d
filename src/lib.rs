//! Guidance, navigation and control cycle of a spacecraft attitude control
//! subsystem: redundant sensor health monitoring and a double-buffered
//! pipeline executor.
use vstd::prelude::*;

pub mod actuators;
pub mod control;
pub mod estimation;
pub mod fsw_types;
pub mod health;
pub mod monitor;
pub mod packet;
pub mod processors;
pub mod reference;
pub mod sensor_bus;

use crate::actuators::ActuatorBus;
use crate::control::ControlBus;
use crate::estimation::EstimationBus;
use crate::fsw_types::{GNCState, ParamBus};
use crate::reference::ReferenceBus;
use crate::sensor_bus::RawSensorBus;

verus! {

/// The pipeline executor: the mission parameters and two state buffers, the
/// one being computed this tick and the one of the tick before.
#[derive(Clone, Copy, Debug)]
pub struct FlightSoftware {
    pub param_bus: ParamBus,
    pub prev_state: GNCState,
    pub curr_state: GNCState,
}

impl FlightSoftware {
    pub open spec fn wf(&self) -> bool {
        self.prev_state.wf() && self.curr_state.wf()
    }

    /// The executor after one tick on `raw`: the buffers trade roles, and the
    /// recycled one is overwritten stage by stage.
    pub open spec fn after_tick(self, raw: RawSensorBus) -> FlightSoftware {
        FlightSoftware {
            param_bus: self.param_bus,
            prev_state: self.curr_state,
            curr_state: self.prev_state.advance(raw),
        }
    }

    /// The executor after one tick on each of `raws`, in order.
    pub open spec fn run(self, raws: Seq<RawSensorBus>) -> FlightSoftware
        decreases raws.len(),
    {
        if raws.len() == 0 {
            self
        } else {
            self.run(raws.drop_last()).after_tick(raws.last())
        }
    }

    /// An executor for the mission `fsw_params` that has run no tick.
    pub fn initialize(fsw_params: ParamBus) -> (r: Self)
        ensures
            r.wf(),
            r.param_bus == fsw_params,
            r.prev_state.is_initial(fsw_params),
            r.curr_state.is_initial(fsw_params),
    {
        let prev_state = GNCState::initialize(&fsw_params);
        let curr_state = GNCState::initialize(&fsw_params);
        FlightSoftware { param_bus: fsw_params, prev_state, curr_state }
    }

    /// One tick: exchanges the buffers, takes the raw packets from the
    /// caller, runs every stage in order, and returns the actuator commands.
    pub fn gnc_loop(&mut self, raw_sensor_bus: &mut RawSensorBus) -> (r: ActuatorBus)
        requires
            old(self).wf(),
        ensures
            final(self).wf(),
            *final(self) == old(self).after_tick(*old(raw_sensor_bus)),
            final(self).prev_state == old(self).curr_state,
            final(raw_sensor_bus).is_empty(),
            r == final(self).curr_state.actuator_bus,
    {
        // overwrite previous
        std::mem::swap(&mut self.curr_state, &mut self.prev_state);

        // read sensors, leaving the caller an empty bus to refill
        self.curr_state.raw_sensor_bus = *raw_sensor_bus;
        *raw_sensor_bus = RawSensorBus::new();

        self.curr_state.tlm_sensor_bus.process(
            &self.curr_state.raw_sensor_bus,
            &self.prev_state.estimation_bus,
        );

        // estimate state
        self.curr_state.estimation_bus = EstimationBus::process(
            &self.curr_state.tlm_sensor_bus,
            &self.prev_state.estimation_bus,
        );

        // compute reference
        self.curr_state.reference_bus = ReferenceBus::process(
            &self.curr_state.estimation_bus,
            &self.prev_state.reference_bus,
        );

        // compute control error and commands
        self.curr_state.control_bus = ControlBus::process(
            &self.curr_state.estimation_bus,
            &self.curr_state.reference_bus,
        );

        // compute actuator commands
        self.curr_state.actuator_bus = ActuatorBus::process(&self.curr_state.control_bus);

        self.curr_state.actuator_bus
    }
}

/// After every tick, the previous buffer holds exactly what the current one
/// held at the end of the tick before.
pub proof fn lemma_previous_is_last_current(fsw: FlightSoftware, raws: Seq<RawSensorBus>)
    requires
        raws.len() > 0,
    ensures
        fsw.run(raws).prev_state == fsw.run(raws.drop_last()).curr_state,
        fsw.run(raws).param_bus == fsw.param_bus,
{
    lemma_run_keeps_params(fsw, raws);
}

/// A sensor type that both buffers start without live units stays untouched in
/// both buffers, over any number of ticks of the pipeline.
pub proof fn lemma_pipeline_keeps_unavailable_sensors(fsw: FlightSoftware, raws: Seq<RawSensorBus>)
    requires
        fsw.prev_state.tlm_sensor_bus == fsw.curr_state.tlm_sensor_bus,
    ensures
        ({
            let start = fsw.curr_state.tlm_sensor_bus;
            let curr = fsw.run(raws).curr_state.tlm_sensor_bus;
            let prev = fsw.run(raws).prev_state.tlm_sensor_bus;
            &&& curr.imu_available == start.imu_available
            &&& prev.imu_available == start.imu_available
            &&& curr.sta_available == start.sta_available
            &&& prev.sta_available == start.sta_available
            &&& curr.gpsr_available == start.gpsr_available
            &&& prev.gpsr_available == start.gpsr_available
            &&& !start.imu_available ==> curr.imu_bus == start.imu_bus && prev.imu_bus
                == start.imu_bus
            &&& !start.sta_available ==> curr.sta_bus == start.sta_bus && prev.sta_bus
                == start.sta_bus
            &&& !start.gpsr_available ==> curr.gpsr_bus == start.gpsr_bus && prev.gpsr_bus
                == start.gpsr_bus
        }),
    decreases raws.len(),
{
    if raws.len() > 0 {
        lemma_pipeline_keeps_unavailable_sensors(fsw, raws.drop_last());
    }
}

proof fn lemma_run_keeps_params(fsw: FlightSoftware, raws: Seq<RawSensorBus>)
    ensures
        fsw.run(raws).param_bus == fsw.param_bus,
    decreases raws.len(),
{
    if raws.len() > 0 {
        lemma_run_keeps_params(fsw, raws.drop_last());
    }
}

} // verus!
