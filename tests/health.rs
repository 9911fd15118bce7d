use acs_gnc::health::{
    build_mask, update_hw_test, BIT_CROSS_CHECK, BIT_ENABLED, BIT_MAJORITY_VALID,
    BIT_MSG_COUNTER, BIT_TIMESTAMP,
};
use acs_gnc::monitor::{
    average_timestamp_of, counters_all_changed, majority_reports_valid,
    timestamps_within_tolerance, SensorMonitor,
};
use acs_gnc::packet::RawPacket;

fn packet(timestamp: u32, valid: bool, counter: u32) -> RawPacket {
    RawPacket { raw_timestamp: timestamp, raw_valid: valid, msg_counter: counter }
}

#[test]
fn passed_subtest_leaves_mask() {
    assert_eq!(update_hw_test(0b1010, true, 2), 0b1010);
}

#[test]
fn failed_subtest_flips_its_bit() {
    assert_eq!(update_hw_test(0, false, 3), 0b1000);
    assert_eq!(update_hw_test(0b1000, false, 3), 0);
    assert_eq!(update_hw_test(0, false, 15), 0x8000);
}

#[test]
fn mask_of_all_passing_is_zero() {
    assert_eq!(build_mask(true, true, true, true, true), 0);
}

#[test]
fn mask_sets_one_bit_per_failure() {
    assert_eq!(build_mask(false, true, true, true, true), BIT_ENABLED);
    assert_eq!(build_mask(true, false, true, true, true), BIT_MSG_COUNTER);
    assert_eq!(build_mask(true, true, false, true, true), BIT_MAJORITY_VALID);
    assert_eq!(build_mask(true, true, true, false, true), BIT_TIMESTAMP);
    assert_eq!(build_mask(true, true, true, true, false), BIT_CROSS_CHECK);
    assert_eq!(build_mask(false, false, false, false, false), 0x1f);
}

#[test]
fn majority_needs_strictly_more_than_half() {
    let two_of_four = [packet(0, true, 1), packet(0, true, 1), packet(0, false, 1), packet(0, false, 1)];
    assert!(!majority_reports_valid(&two_of_four, 4));
    let three_of_four = [packet(0, true, 1), packet(0, true, 1), packet(0, true, 1), packet(0, false, 1)];
    assert!(majority_reports_valid(&three_of_four, 4));
    let two_of_three = [packet(0, true, 1), packet(0, false, 1), packet(0, true, 1)];
    assert!(majority_reports_valid(&two_of_three, 3));
    let one_of_three = [packet(0, true, 1), packet(0, false, 1), packet(0, false, 1)];
    assert!(!majority_reports_valid(&one_of_three, 3));
}

#[test]
fn majority_counts_only_live_units() {
    let packets = [packet(0, true, 1), packet(0, false, 1), packet(0, true, 1), packet(0, true, 1)];
    assert!(!majority_reports_valid(&packets, 2));
    assert!(majority_reports_valid(&packets, 1));
}

#[test]
fn average_timestamp_rounds_down() {
    let packets = [packet(100, true, 1), packet(103, true, 1), packet(7, true, 1)];
    assert_eq!(average_timestamp_of(&packets, 2), 101);
    assert_eq!(average_timestamp_of(&packets, 1), 100);
}

#[test]
fn average_timestamp_of_largest_values() {
    let packets = [packet(u32::MAX, true, 1); 12];
    assert_eq!(average_timestamp_of(&packets, 12), u32::MAX);
}

#[test]
fn timestamps_at_tolerance_pass() {
    let packets = [packet(100, true, 1), packet(120, true, 1)];
    assert_eq!(average_timestamp_of(&packets, 2), 110);
    assert!(timestamps_within_tolerance(&packets, 2, 110));
}

#[test]
fn timestamps_past_tolerance_fail() {
    let packets = [packet(100, true, 1), packet(122, true, 1)];
    assert_eq!(average_timestamp_of(&packets, 2), 111);
    assert!(!timestamps_within_tolerance(&packets, 2, 111));
}

#[test]
fn counters_must_all_move() {
    let packets = [packet(0, true, 5), packet(0, true, 6), packet(0, true, 7)];
    assert!(counters_all_changed(&packets, 3, 4));
    assert!(!counters_all_changed(&packets, 3, 6));
    assert!(counters_all_changed(&packets, 1, 6));
}

#[test]
fn monitor_reports_counter_stall() {
    let mut m = SensorMonitor::initialize(3);
    let moving = [packet(50, true, 1), packet(50, true, 1), packet(50, true, 1)];
    m.process(&moving, true);
    assert_eq!(m.hardware_subtest(), 0);
    assert_eq!(m.prev_msg_counter, 1);
    // every unit stalls
    m.process(&moving, true);
    assert_eq!(m.hardware_subtest(), BIT_MSG_COUNTER);
    // one unit moves, the others stall
    let one_moves = [packet(50, true, 1), packet(50, true, 2), packet(50, true, 1)];
    m.process(&one_moves, true);
    assert_eq!(m.hardware_subtest(), BIT_MSG_COUNTER);
}

#[test]
fn monitor_recomputes_mask_each_tick() {
    let mut m = SensorMonitor::initialize(2);
    let bad = [packet(0, false, 0), packet(40, false, 0)];
    m.process(&bad, false);
    assert_eq!(
        m.hardware_subtest(),
        BIT_MSG_COUNTER | BIT_MAJORITY_VALID | BIT_TIMESTAMP | BIT_CROSS_CHECK
    );
    assert_eq!(m.timestamp, 20);
    let good = [packet(41, true, 1), packet(41, true, 1)];
    m.process(&good, true);
    assert_eq!(m.hardware_subtest(), 0);
    assert_eq!(m.timestamp, 41);
}

#[test]
fn monitor_timestamp_boundary() {
    let mut m = SensorMonitor::initialize(2);
    m.process(&[packet(100, true, 1), packet(120, true, 1)], true);
    assert_eq!(m.hardware_subtest() & BIT_TIMESTAMP, 0);
    m.process(&[packet(100, true, 2), packet(122, true, 2)], true);
    assert_eq!(m.hardware_subtest() & BIT_TIMESTAMP, BIT_TIMESTAMP);
}

#[test]
fn monitor_majority_boundary() {
    let mut m = SensorMonitor::initialize(4);
    m.process(&[packet(9, true, 1), packet(9, true, 1), packet(9, false, 1), packet(9, false, 1)], true);
    assert_eq!(m.hardware_subtest(), BIT_MAJORITY_VALID);
    m.process(&[packet(9, true, 2), packet(9, true, 2), packet(9, true, 2), packet(9, false, 2)], true);
    assert_eq!(m.hardware_subtest(), 0);
}

#[test]
fn packet_update_moves_counter() {
    let mut p = RawPacket::new();
    p.plant_update(12, true, true);
    assert_eq!(p, packet(12, true, 1));
    p.plant_update(13, false, false);
    assert_eq!(p, packet(13, false, 1));
    assert_eq!(RawPacket::default(), packet(0, false, 0));
}
