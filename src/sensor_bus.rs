//! The sensor bus aggregator: one processor per sensor type, run only for the
//! types that have live units.
use vstd::prelude::*;
use crate::estimation::EstimationBus;
use crate::monitor::SensorMonitor;
use crate::packet::RawPacket;
use crate::processors::{
    MAX_GPSR, MAX_IMU, MAX_STA, SensProcGPSRBus, SensProcIMUBus, SensProcStarTrackerBus, Sensor,
};

verus! {

/// The raw packets of one tick, one slot per possible unit of each type.
#[derive(Clone, Copy, Debug)]
pub struct RawSensorBus {
    pub raw_imu_bus: [RawPacket; MAX_IMU],
    pub raw_sta_bus: [RawPacket; MAX_STA],
    pub raw_gpsr_bus: [RawPacket; MAX_GPSR],
}

/// Every slot of `packets` holds a unit that has reported nothing yet.
pub open spec fn all_empty(packets: Seq<RawPacket>) -> bool {
    forall|i: int|
        0 <= i < packets.len() ==> #[trigger] packets[i] == (RawPacket {
            raw_timestamp: 0,
            raw_valid: false,
            msg_counter: 0,
        })
}

impl RawSensorBus {
    /// No unit has reported anything.
    pub open spec fn is_empty(&self) -> bool {
        all_empty(self.raw_imu_bus@) && all_empty(self.raw_sta_bus@) && all_empty(
            self.raw_gpsr_bus@,
        )
    }

    /// A bus on which no unit has reported anything.
    pub fn new() -> (r: Self)
        ensures
            r.is_empty(),
    {
        let p = RawPacket::new();
        RawSensorBus {
            raw_imu_bus: [p, p, p, p, p, p, p, p, p, p, p, p],
            raw_sta_bus: [p, p, p, p],
            raw_gpsr_bus: [p],
        }
    }

    /// Records a report of inertial measurement unit `i`.
    pub fn plant_update_imu(&mut self, i: usize, timestamp: u32, raw_valid: bool, inc_msg: bool)
        requires
            i < MAX_IMU,
            old(self).raw_imu_bus[i as int].can_update(inc_msg),
        ensures
            final(self).raw_imu_bus@ == old(self).raw_imu_bus@.update(
                i as int,
                old(self).raw_imu_bus[i as int].updated(timestamp, raw_valid, inc_msg),
            ),
            final(self).raw_sta_bus == old(self).raw_sta_bus,
            final(self).raw_gpsr_bus == old(self).raw_gpsr_bus,
    {
        let mut p = self.raw_imu_bus[i];
        p.plant_update(timestamp, raw_valid, inc_msg);
        self.raw_imu_bus[i] = p;
    }

    /// Records a report of star tracker `i`.
    pub fn plant_update_sta(&mut self, i: usize, timestamp: u32, raw_valid: bool, inc_msg: bool)
        requires
            i < MAX_STA,
            old(self).raw_sta_bus[i as int].can_update(inc_msg),
        ensures
            final(self).raw_sta_bus@ == old(self).raw_sta_bus@.update(
                i as int,
                old(self).raw_sta_bus[i as int].updated(timestamp, raw_valid, inc_msg),
            ),
            final(self).raw_imu_bus == old(self).raw_imu_bus,
            final(self).raw_gpsr_bus == old(self).raw_gpsr_bus,
    {
        let mut p = self.raw_sta_bus[i];
        p.plant_update(timestamp, raw_valid, inc_msg);
        self.raw_sta_bus[i] = p;
    }

    /// Records a report of GPS receiver `i`.
    pub fn plant_update_gpsr(&mut self, i: usize, timestamp: u32, raw_valid: bool, inc_msg: bool)
        requires
            i < MAX_GPSR,
            old(self).raw_gpsr_bus[i as int].can_update(inc_msg),
        ensures
            final(self).raw_gpsr_bus@ == old(self).raw_gpsr_bus@.update(
                i as int,
                old(self).raw_gpsr_bus[i as int].updated(timestamp, raw_valid, inc_msg),
            ),
            final(self).raw_imu_bus == old(self).raw_imu_bus,
            final(self).raw_sta_bus == old(self).raw_sta_bus,
    {
        let mut p = self.raw_gpsr_bus[i];
        p.plant_update(timestamp, raw_valid, inc_msg);
        self.raw_gpsr_bus[i] = p;
    }
}

impl Default for RawSensorBus {
    fn default() -> (r: Self)
        ensures
            r.is_empty(),
    {
        RawSensorBus::new()
    }
}

/// The processed sensor data of one tick: one processor per sensor type, and
/// whether that type has live units.
#[derive(Clone, Copy, Debug, PartialEq, Eq, Structural)]
pub struct SensorBus {
    pub imu_bus: SensProcIMUBus,
    pub imu_available: bool,
    pub sta_bus: SensProcStarTrackerBus,
    pub sta_available: bool,
    pub gpsr_bus: SensProcGPSRBus,
    pub gpsr_available: bool,
}

/// `n_init` limited to `max`.
pub open spec fn clamp(n_init: usize, max: usize) -> usize {
    if n_init > max {
        max
    } else {
        n_init
    }
}

impl SensorBus {
    /// A type is available exactly when it has live units, and it never has
    /// more than its maximum.
    pub open spec fn wf(&self) -> bool {
        &&& self.imu_bus.monitor.n_units <= MAX_IMU
        &&& self.imu_available == (self.imu_bus.monitor.n_units > 0)
        &&& self.sta_bus.monitor.n_units <= MAX_STA
        &&& self.sta_available == (self.sta_bus.monitor.n_units > 0)
        &&& self.gpsr_bus.monitor.n_units <= MAX_GPSR
        &&& self.gpsr_available == (self.gpsr_bus.monitor.n_units > 0)
    }

    /// The bus after one tick on `raw`: each available type is processed, each
    /// other one is left as it was.
    pub open spec fn next(self, raw: RawSensorBus) -> SensorBus {
        SensorBus {
            imu_bus: if self.imu_available {
                self.imu_bus.next(raw.raw_imu_bus@)
            } else {
                self.imu_bus
            },
            sta_bus: if self.sta_available {
                self.sta_bus.next(raw.raw_sta_bus@)
            } else {
                self.sta_bus
            },
            gpsr_bus: if self.gpsr_available {
                self.gpsr_bus.next(raw.raw_gpsr_bus@)
            } else {
                self.gpsr_bus
            },
            ..self
        }
    }

    /// The bus after one tick on each of `raws`, in order.
    pub open spec fn run(self, raws: Seq<RawSensorBus>) -> SensorBus
        decreases raws.len(),
    {
        if raws.len() == 0 {
            self
        } else {
            self.run(raws.drop_last()).next(raws.last())
        }
    }

    /// A bus that has seen no tick, with the requested numbers of units, each
    /// limited to its type's maximum; a type with no unit left is unavailable.
    pub open spec fn initial(n_imu: usize, n_sta: usize, n_gpsr: usize) -> SensorBus {
        let n_imu = clamp(n_imu, MAX_IMU);
        let n_sta = clamp(n_sta, MAX_STA);
        let n_gpsr = clamp(n_gpsr, MAX_GPSR);
        SensorBus {
            imu_bus: SensProcIMUBus { monitor: SensorMonitor::initial(n_imu) },
            imu_available: n_imu > 0,
            sta_bus: SensProcStarTrackerBus { monitor: SensorMonitor::initial(n_sta) },
            sta_available: n_sta > 0,
            gpsr_bus: SensProcGPSRBus { monitor: SensorMonitor::initial(n_gpsr) },
            gpsr_available: n_gpsr > 0,
        }
    }

    /// A bus with the requested numbers of units, each limited to its type's
    /// maximum; a type with no unit left is unavailable.
    pub fn initialize(n_imu: usize, n_sta: usize, n_gpsr: usize) -> (r: Self)
        ensures
            r.wf(),
            r == SensorBus::initial(n_imu, n_sta, n_gpsr),
    {
        let n_imu = Self::check_max(n_imu, MAX_IMU);
        let n_sta = Self::check_max(n_sta, MAX_STA);
        let n_gpsr = Self::check_max(n_gpsr, MAX_GPSR);
        SensorBus {
            imu_bus: SensProcIMUBus::initialize(n_imu),
            imu_available: n_imu > 0,
            sta_bus: SensProcStarTrackerBus::initialize(n_sta),
            sta_available: n_sta > 0,
            gpsr_bus: SensProcGPSRBus::initialize(n_gpsr),
            gpsr_available: n_gpsr > 0,
        }
    }

    /// Runs the processor of each available type on its packets.
    pub fn process(&mut self, raw_sensor_data: &RawSensorBus, prev_est_bus: &EstimationBus)
        requires
            old(self).wf(),
        ensures
            final(self).wf(),
            *final(self) == old(self).next(*raw_sensor_data),
    {
        if self.imu_available {
            self.imu_bus.process(raw_sensor_data.raw_imu_bus.as_slice(), prev_est_bus);
        }
        if self.sta_available {
            self.sta_bus.process(raw_sensor_data.raw_sta_bus.as_slice(), prev_est_bus);
        }
        if self.gpsr_available {
            self.gpsr_bus.process(raw_sensor_data.raw_gpsr_bus.as_slice(), prev_est_bus);
        }
    }

    /// `n_init` limited to `max`.
    pub fn check_max(n_init: usize, max: usize) -> (r: usize)
        ensures
            r == clamp(n_init, max),
            r <= max,
    {
        if n_init > max {
            max
        } else {
            n_init
        }
    }
}

impl Default for SensorBus {
    /// A bus with no unit of any type.
    fn default() -> (r: Self)
        ensures
            r.wf(),
            r == SensorBus::initial(0, 0, 0),
    {
        SensorBus::initialize(0, 0, 0)
    }
}

/// A sensor type without live units keeps its processor untouched, over any
/// number of ticks and whatever the raw packets hold.
pub proof fn lemma_unavailable_sensor_stays_stale(bus: SensorBus, raws: Seq<RawSensorBus>)
    ensures
        bus.run(raws).imu_available == bus.imu_available,
        bus.run(raws).sta_available == bus.sta_available,
        bus.run(raws).gpsr_available == bus.gpsr_available,
        !bus.imu_available ==> bus.run(raws).imu_bus == bus.imu_bus,
        !bus.sta_available ==> bus.run(raws).sta_bus == bus.sta_bus,
        !bus.gpsr_available ==> bus.run(raws).gpsr_bus == bus.gpsr_bus,
    decreases raws.len(),
{
    if raws.len() > 0 {
        lemma_unavailable_sensor_stays_stale(bus, raws.drop_last());
    }
}

} // verus!
