//! The three redundancy-voting sensor processors: inertial measurement units,
//! star trackers and GPS receivers.
use vstd::prelude::*;
use crate::estimation::EstimationBus;
use crate::monitor::SensorMonitor;
use crate::packet::RawPacket;

verus! {

/// Largest number of inertial measurement units.
pub const MAX_IMU: usize = 12;

/// Largest number of star trackers.
pub const MAX_STA: usize = 4;

/// Largest number of GPS receivers.
pub const MAX_GPSR: usize = 1;

/// What every redundancy-voting processor offers: one tick of subtests on the
/// packets of its units, and the resulting health mask.
pub trait Sensor: Sized {
    /// The processor can run a tick.
    spec fn ready(&self) -> bool;

    /// Number of live units, whose packets lead the array handed to `process`.
    spec fn live_units(&self) -> nat;

    /// The processor after one tick on `packets`.
    spec fn after(self, packets: Seq<RawPacket>) -> Self;

    /// The health mask of the last tick.
    spec fn health(&self) -> u16;

    /// Runs the subtests of one tick on the units' packets.
    fn process(&mut self, packets: &[RawPacket], prev_estimation_bus: &EstimationBus)
        requires
            old(self).ready(),
            old(self).live_units() <= packets@.len(),
        ensures
            *final(self) == old(self).after(packets@),
    ;

    /// The health mask of the last tick.
    fn hardware_subtest(&self) -> (r: u16)
        ensures
            r == self.health(),
    ;
}

/// Health state of the inertial measurement units. Mask bits: 0 enabled,
/// 1 message counters moving, 2 more than half valid, 3 timestamps cohesive.
#[derive(Clone, Copy, Debug, PartialEq, Eq, Structural)]
pub struct SensProcIMUBus {
    pub monitor: SensorMonitor,
}

/// Health state of the star trackers. Mask bits: 0 to 3 as for every sensor,
/// 4 the attitude jump against the previous reading.
#[derive(Clone, Copy, Debug, PartialEq, Eq, Structural)]
pub struct SensProcStarTrackerBus {
    pub monitor: SensorMonitor,
}

/// Health state of the GPS receivers. Mask bits: 0 to 3 as for every sensor,
/// 4 the position against the previous estimate.
#[derive(Clone, Copy, Debug, PartialEq, Eq, Structural)]
pub struct SensProcGPSRBus {
    pub monitor: SensorMonitor,
}

impl SensProcIMUBus {
    pub open spec fn wf(&self) -> bool {
        self.monitor.wf() && self.monitor.n_units <= MAX_IMU
    }

    /// The state after one tick on `packets`; these units have no cross-check.
    pub open spec fn next(self, packets: Seq<RawPacket>) -> Self {
        SensProcIMUBus { monitor: self.monitor.next(packets, true) }
    }

    /// A processor of `n_imu` units that has seen no tick.
    pub fn initialize(n_imu: usize) -> (r: Self)
        ensures
            r.monitor == SensorMonitor::initial(n_imu),
    {
        SensProcIMUBus { monitor: SensorMonitor::initialize(n_imu) }
    }
}

impl Sensor for SensProcIMUBus {
    open spec fn ready(&self) -> bool {
        self.wf()
    }

    open spec fn live_units(&self) -> nat {
        self.monitor.n_units as nat
    }

    open spec fn after(self, packets: Seq<RawPacket>) -> Self {
        self.next(packets)
    }

    open spec fn health(&self) -> u16 {
        self.monitor.error_code
    }

    fn process(&mut self, packets: &[RawPacket], _prev_estimation_bus: &EstimationBus) {
        self.monitor.process(packets, true);
    }

    fn hardware_subtest(&self) -> (r: u16) {
        self.monitor.hardware_subtest()
    }
}

impl SensProcStarTrackerBus {
    pub open spec fn wf(&self) -> bool {
        self.monitor.wf() && self.monitor.n_units <= MAX_STA
    }

    /// The state after one tick on `packets`; the attitude-jump check always
    /// passes until it is specified.
    pub open spec fn next(self, packets: Seq<RawPacket>) -> Self {
        SensProcStarTrackerBus { monitor: self.monitor.next(packets, true) }
    }

    /// A processor of `n_sta` units that has seen no tick.
    pub fn initialize(n_sta: usize) -> (r: Self)
        ensures
            r.monitor == SensorMonitor::initial(n_sta),
    {
        SensProcStarTrackerBus { monitor: SensorMonitor::initialize(n_sta) }
    }
}

impl Sensor for SensProcStarTrackerBus {
    open spec fn ready(&self) -> bool {
        self.wf()
    }

    open spec fn live_units(&self) -> nat {
        self.monitor.n_units as nat
    }

    open spec fn after(self, packets: Seq<RawPacket>) -> Self {
        self.next(packets)
    }

    open spec fn health(&self) -> u16 {
        self.monitor.error_code
    }

    fn process(&mut self, packets: &[RawPacket], _prev_estimation_bus: &EstimationBus) {
        // The attitude-jump check against the previous estimate is a
        // placeholder that always passes.
        let ang_check = true;
        self.monitor.process(packets, ang_check);
    }

    fn hardware_subtest(&self) -> (r: u16) {
        self.monitor.hardware_subtest()
    }
}

impl SensProcGPSRBus {
    pub open spec fn wf(&self) -> bool {
        self.monitor.wf() && self.monitor.n_units <= MAX_GPSR
    }

    /// The state after one tick on `packets`; the position check always
    /// passes until it is specified.
    pub open spec fn next(self, packets: Seq<RawPacket>) -> Self {
        SensProcGPSRBus { monitor: self.monitor.next(packets, true) }
    }

    /// A processor of `n_gpsr` units that has seen no tick.
    pub fn initialize(n_gpsr: usize) -> (r: Self)
        ensures
            r.monitor == SensorMonitor::initial(n_gpsr),
    {
        SensProcGPSRBus { monitor: SensorMonitor::initialize(n_gpsr) }
    }
}

impl Sensor for SensProcGPSRBus {
    open spec fn ready(&self) -> bool {
        self.wf()
    }

    open spec fn live_units(&self) -> nat {
        self.monitor.n_units as nat
    }

    open spec fn after(self, packets: Seq<RawPacket>) -> Self {
        self.next(packets)
    }

    open spec fn health(&self) -> u16 {
        self.monitor.error_code
    }

    fn process(&mut self, packets: &[RawPacket], _prev_estimation_bus: &EstimationBus) {
        // The position check against the previous estimate is a
        // placeholder that always passes.
        let rcheck = true;
        self.monitor.process(packets, rcheck);
    }

    fn hardware_subtest(&self) -> (r: u16) {
        self.monitor.hardware_subtest()
    }
}

impl Default for SensProcIMUBus {
    fn default() -> (r: Self)
        ensures
            r.monitor == SensorMonitor::initial(1),
    {
        Self::initialize(1)
    }
}

impl Default for SensProcStarTrackerBus {
    fn default() -> (r: Self)
        ensures
            r.monitor == SensorMonitor::initial(1),
    {
        Self::initialize(1)
    }
}

impl Default for SensProcGPSRBus {
    fn default() -> (r: Self)
        ensures
            r.monitor == SensorMonitor::initial(1),
    {
        Self::initialize(1)
    }
}

} // verus!
