use acs_gnc::actuators::ActuatorBus;
use acs_gnc::control::ControlBus;
use acs_gnc::estimation::EstimationBus;
use acs_gnc::fsw_types::{
    ActuatorArchitecture, ControlArchitecture, EstimationArchitecture, ParamBus,
    ReferenceArchitecture, SensorArchitecture,
};
use acs_gnc::health::{BIT_MAJORITY_VALID, BIT_MSG_COUNTER};
use acs_gnc::packet::RawPacket;
use acs_gnc::processors::{
    SensProcGPSRBus, SensProcIMUBus, SensProcStarTrackerBus, Sensor, MAX_IMU, MAX_STA,
};
use acs_gnc::reference::{
    attitude_error, reference_error, roll_source, Reference, ReferenceBus, RollSource,
};
use acs_gnc::sensor_bus::{RawSensorBus, SensorBus};
use acs_gnc::FlightSoftware;

fn params(n_imu: usize, n_sta: usize, n_gpsr: usize) -> ParamBus {
    ParamBus::initialize(
        SensorArchitecture { n_imu, n_sta, n_gpsr },
        EstimationArchitecture {},
        ReferenceArchitecture {},
        ControlArchitecture {},
        ActuatorArchitecture {},
    )
}

fn fill(raw: &mut RawSensorBus, tick: u32, n_imu: usize, n_sta: usize, n_gpsr: usize) {
    for i in 0..n_imu {
        raw.plant_update_imu(i, tick, true, true);
    }
    for i in 0..n_sta {
        raw.plant_update_sta(i, tick, true, true);
    }
    for i in 0..n_gpsr {
        raw.plant_update_gpsr(i, tick, true, true);
    }
}

#[test]
fn initialize_clamps_counts() {
    let bus = SensorBus::initialize(20, 5, 3);
    assert_eq!(bus.imu_bus.monitor.n_units, 12);
    assert_eq!(bus.sta_bus.monitor.n_units, 4);
    assert_eq!(bus.gpsr_bus.monitor.n_units, 1);
    assert!(bus.imu_available && bus.sta_available && bus.gpsr_available);
}

#[test]
fn initialize_keeps_counts_within_limits() {
    let bus = SensorBus::initialize(3, 0, 1);
    assert_eq!(bus.imu_bus.monitor.n_units, 3);
    assert!(bus.imu_available);
    assert!(!bus.sta_available);
    assert!(bus.gpsr_available);
}

#[test]
fn check_max_limits() {
    assert_eq!(SensorBus::check_max(13, MAX_IMU), 12);
    assert_eq!(SensorBus::check_max(12, MAX_IMU), 12);
    assert_eq!(SensorBus::check_max(2, MAX_STA), 2);
}

#[test]
fn fresh_packets_fail_counter_and_majority() {
    let mut imu = SensProcIMUBus::initialize(3);
    let raw = RawSensorBus::new();
    imu.process(&raw.raw_imu_bus, &EstimationBus {});
    assert_eq!(imu.hardware_subtest(), BIT_MSG_COUNTER | BIT_MAJORITY_VALID);
}

#[test]
fn star_tracker_and_gpsr_pass_on_live_data() {
    let mut raw = RawSensorBus::new();
    fill(&mut raw, 30, 0, 2, 1);
    let mut sta = SensProcStarTrackerBus::initialize(2);
    sta.process(&raw.raw_sta_bus, &EstimationBus {});
    assert_eq!(sta.hardware_subtest(), 0);
    let mut gpsr = SensProcGPSRBus::initialize(1);
    gpsr.process(&raw.raw_gpsr_bus, &EstimationBus {});
    assert_eq!(gpsr.hardware_subtest(), 0);
    assert_eq!(gpsr.monitor.timestamp, 30);
}

#[test]
fn processor_defaults_watch_one_unit() {
    assert_eq!(SensProcIMUBus::default().monitor.n_units, 1);
    assert_eq!(SensProcStarTrackerBus::default().monitor.n_units, 1);
    assert_eq!(SensProcGPSRBus::default().monitor.n_units, 1);
}

#[test]
fn unavailable_sensor_is_never_touched() {
    let mut bus = SensorBus::initialize(2, 0, 1);
    let before = bus.sta_bus;
    let mut raw = RawSensorBus::new();
    for tick in 1..6u32 {
        fill(&mut raw, tick, 2, MAX_STA, 1);
        bus.process(&raw, &EstimationBus {});
        assert_eq!(bus.sta_bus, before);
    }
    assert_eq!(bus.imu_bus.hardware_subtest(), 0);
    assert_eq!(bus.imu_bus.monitor.prev_msg_counter, 5);
}

#[test]
fn raw_bus_update_touches_one_slot() {
    let mut raw = RawSensorBus::new();
    raw.plant_update_imu(3, 8, true, true);
    assert_eq!(raw.raw_imu_bus[3], RawPacket { raw_timestamp: 8, raw_valid: true, msg_counter: 1 });
    assert_eq!(raw.raw_imu_bus[2], RawPacket::new());
    assert_eq!(raw.raw_sta_bus, RawSensorBus::default().raw_sta_bus);
}

#[test]
fn previous_state_is_last_current() {
    let mut fsw = FlightSoftware::initialize(params(3, 2, 1));
    let mut raw = RawSensorBus::new();
    for tick in 1..8u32 {
        fill(&mut raw, tick, 3, 2, 1);
        let last_raw = fsw.curr_state.raw_sensor_bus.raw_imu_bus;
        let last_tlm = fsw.curr_state.tlm_sensor_bus;
        let fed = raw.raw_imu_bus;
        let out = fsw.gnc_loop(&mut raw);
        assert_eq!(out, ActuatorBus {});
        assert_eq!(fsw.prev_state.raw_sensor_bus.raw_imu_bus, last_raw);
        assert_eq!(fsw.prev_state.tlm_sensor_bus, last_tlm);
        assert_eq!(fsw.curr_state.raw_sensor_bus.raw_imu_bus, fed);
        // the caller's buffer is handed back empty
        assert_eq!(raw.raw_imu_bus, RawSensorBus::new().raw_imu_bus);
    }
}

#[test]
fn gnc_loop_processes_available_sensors() {
    let mut fsw = FlightSoftware::initialize(params(3, 0, 1));
    let mut raw = RawSensorBus::new();
    fill(&mut raw, 40, 3, 0, 1);
    fsw.gnc_loop(&mut raw);
    assert_eq!(fsw.curr_state.tlm_sensor_bus.imu_bus.hardware_subtest(), 0);
    assert_eq!(fsw.curr_state.tlm_sensor_bus.imu_bus.monitor.timestamp, 40);
    assert!(!fsw.curr_state.tlm_sensor_bus.sta_available);
    assert_eq!(fsw.curr_state.tlm_sensor_bus.sta_bus.monitor.error_code, 0);
}

#[test]
fn roll_wins_over_sun() {
    assert_eq!(roll_source(true, true), RollSource::Roll);
    assert_eq!(roll_source(true, false), RollSource::Roll);
    assert_eq!(roll_source(false, true), RollSource::SunTriad);
    assert_eq!(roll_source(false, false), RollSource::Unresolved);
}

#[test]
fn attitude_error_flags() {
    assert!(attitude_error(RollSource::Unresolved, false));
    assert!(!attitude_error(RollSource::Roll, false));
    assert!(attitude_error(RollSource::SunTriad, true));
}

#[test]
fn any_reference_error_taints_all() {
    assert!(!reference_error(false, false, false));
    assert!(reference_error(true, false, false));
    assert!(reference_error(false, true, false));
    assert!(reference_error(false, false, true));
}

#[test]
fn stub_stages_are_stateless() {
    let est = EstimationBus::process(&SensorBus::default(), &EstimationBus::default());
    let refb = ReferenceBus::process(&est, &ReferenceBus::default());
    let ctrl = ControlBus::process(&est, &refb);
    assert_eq!(ActuatorBus::process(&ctrl), ActuatorBus::default());
    assert_eq!(ctrl, ControlBus::default());
    assert_ne!(Reference::IDLE, Reference::IPT);
}

#[test]
fn processors_share_sensor_interface() {
    fn run<S: Sensor>(s: &mut S, packets: &[RawPacket]) -> u16 {
        s.process(packets, &EstimationBus {});
        s.hardware_subtest()
    }
    let stalled = [RawPacket { raw_timestamp: 5, raw_valid: true, msg_counter: 0 }; 4];
    assert_eq!(run(&mut SensProcStarTrackerBus::initialize(4), &stalled), BIT_MSG_COUNTER);
    assert_eq!(run(&mut SensProcIMUBus::initialize(2), &stalled), BIT_MSG_COUNTER);
}
