//! Redundancy voting over the units of one sensor type: the subtests that every
//! processor runs on the headers of its raw packets.
use vstd::prelude::*;
use crate::health::{
    build_mask, health_mask, lemma_health_mask_bits, BIT_MAJORITY_VALID, BIT_MSG_COUNTER,
    BIT_TIMESTAMP,
};
use crate::packet::RawPacket;

verus! {

/// Largest number of redundant units of any sensor type.
pub const MAX_UNITS: usize = 12;

/// How far, in ticks, a unit's timestamp may stand from the average.
pub const TIMESTAMP_TOLERANCE: u32 = 10;

/// Every unit's message counter differs from the one remembered from the
/// previous tick.
pub open spec fn counters_live(units: Seq<RawPacket>, prev_msg_counter: u32) -> bool {
    forall|i: int| 0 <= i < units.len() ==> #[trigger] units[i].msg_counter != prev_msg_counter
}

/// Number of units that report themselves valid.
pub open spec fn count_valid(units: Seq<RawPacket>) -> nat
    decreases units.len(),
{
    if units.len() == 0 {
        0
    } else {
        count_valid(units.drop_last()) + if units.last().raw_valid {
            1nat
        } else {
            0nat
        }
    }
}

/// Strictly more than half of the units report themselves valid.
pub open spec fn majority_valid(units: Seq<RawPacket>) -> bool {
    2 * count_valid(units) > units.len()
}

/// Sum of the units' timestamps.
pub open spec fn timestamp_sum(units: Seq<RawPacket>) -> nat
    decreases units.len(),
{
    if units.len() == 0 {
        0
    } else {
        timestamp_sum(units.drop_last()) + units.last().raw_timestamp as nat
    }
}

/// Average timestamp of the units, rounded down.
pub open spec fn average_timestamp(units: Seq<RawPacket>) -> nat
    recommends
        units.len() > 0,
{
    timestamp_sum(units) / units.len()
}

/// A timestamp stands within the tolerance of `average`, on either side.
pub open spec fn within_tolerance(timestamp: u32, average: int) -> bool {
    -(TIMESTAMP_TOLERANCE as int) <= timestamp - average <= TIMESTAMP_TOLERANCE as int
}

/// Every unit's timestamp stands within the tolerance of the average.
pub open spec fn timestamps_cohesive(units: Seq<RawPacket>) -> bool {
    forall|i: int|
        0 <= i < units.len() ==> within_tolerance(
            #[trigger] units[i].raw_timestamp,
            average_timestamp(units) as int,
        )
}

proof fn lemma_count_valid_bound(units: Seq<RawPacket>)
    ensures
        count_valid(units) <= units.len(),
    decreases units.len(),
{
    if units.len() > 0 {
        lemma_count_valid_bound(units.drop_last());
    }
}

proof fn lemma_timestamp_sum_bound(units: Seq<RawPacket>)
    ensures
        timestamp_sum(units) <= units.len() * (u32::MAX as int),
    decreases units.len(),
{
    if units.len() > 0 {
        lemma_timestamp_sum_bound(units.drop_last());
        assert(timestamp_sum(units) <= units.len() * (u32::MAX as int)) by (nonlinear_arith)
            requires
                timestamp_sum(units) <= timestamp_sum(units.drop_last()) + u32::MAX,
                timestamp_sum(units.drop_last()) <= (units.len() - 1) * (u32::MAX as int),
        ;
    }
}

/// The health state of one sensor type: the last average timestamp, the mask
/// of the last tick, the number of live units, and the message counter of unit
/// 0 as it stood at the last tick.
#[derive(Clone, Copy, Debug, PartialEq, Eq, Structural)]
pub struct SensorMonitor {
    pub timestamp: u32,
    pub error_code: u16,
    pub n_units: usize,
    pub prev_msg_counter: u32,
}

impl SensorMonitor {
    /// The monitor can vote: it watches at least one unit and no more than any
    /// sensor type can have.
    pub open spec fn wf(&self) -> bool {
        1 <= self.n_units <= MAX_UNITS
    }

    /// The units that take part in the vote: the first `n_units` packets.
    pub open spec fn units(&self, packets: Seq<RawPacket>) -> Seq<RawPacket> {
        packets.take(self.n_units as int)
    }

    /// The state after one tick on `packets`; `cross_check` is the outcome of
    /// the sensor-specific check.
    pub open spec fn next(self, packets: Seq<RawPacket>, cross_check: bool) -> SensorMonitor {
        let units = self.units(packets);
        SensorMonitor {
            timestamp: average_timestamp(units) as u32,
            error_code: health_mask(
                true,
                counters_live(units, self.prev_msg_counter),
                majority_valid(units),
                timestamps_cohesive(units),
                cross_check,
            ),
            n_units: self.n_units,
            prev_msg_counter: packets[0].msg_counter,
        }
    }

    /// A monitor of `n_units` units that has seen no tick.
    pub open spec fn initial(n_units: usize) -> SensorMonitor {
        SensorMonitor { timestamp: 0, error_code: 0, n_units, prev_msg_counter: 0 }
    }

    /// A monitor of `n_units` units that has seen no tick.
    pub fn initialize(n_units: usize) -> (r: Self)
        ensures
            r == SensorMonitor::initial(n_units),
    {
        SensorMonitor { timestamp: 0, error_code: 0, n_units, prev_msg_counter: 0 }
    }

    /// One tick of voting: recomputes the mask from scratch and remembers unit
    /// 0's message counter.
    pub fn process(&mut self, packets: &[RawPacket], cross_check: bool)
        requires
            old(self).wf(),
            old(self).n_units <= packets@.len(),
        ensures
            *final(self) == old(self).next(packets@, cross_check),
    {
        let n = self.n_units;
        let ghost units = self.units(packets@);
        let enabled = true;

        let counter_live = counters_all_changed(packets, n, self.prev_msg_counter);
        self.prev_msg_counter = packets[0].msg_counter;

        let valid = majority_reports_valid(packets, n);

        let average = average_timestamp_of(packets, n);
        self.timestamp = average;
        let cohesive = timestamps_within_tolerance(packets, n, average);
        proof {
            if cohesive {
                assert forall|i: int| 0 <= i < units.len() implies within_tolerance(
                    #[trigger] units[i].raw_timestamp,
                    average as int,
                ) by {
                    assert(units[i] == packets@[i]);
                }
            }
            if timestamps_cohesive(units) {
                assert forall|i: int| 0 <= i < n implies within_tolerance(
                    #[trigger] packets@[i].raw_timestamp,
                    average as int,
                ) by {
                    assert(units[i] == packets@[i]);
                }
            }
        }

        self.error_code = build_mask(enabled, counter_live, valid, cohesive, cross_check);
    }

    /// The health mask of the last tick.
    pub fn hardware_subtest(&self) -> (r: u16)
        ensures
            r == self.error_code,
    {
        self.error_code
    }
}

/// The health mask of a tick depends on nothing but the packets, the number of
/// units, the remembered message counter and the cross-check's outcome: two
/// monitors that agree on those produce the same mask, whatever else they
/// hold.
pub proof fn lemma_health_purity(
    a: SensorMonitor,
    b: SensorMonitor,
    packets: Seq<RawPacket>,
    cross_check: bool,
)
    requires
        a.n_units == b.n_units,
        a.prev_msg_counter == b.prev_msg_counter,
    ensures
        a.next(packets, cross_check).error_code == b.next(packets, cross_check).error_code,
{
}

/// The majority bit of a tick is clear exactly when strictly more than half
/// of the units report themselves valid; with exactly half valid it is set.
pub proof fn lemma_majority_bit(m: SensorMonitor, packets: Seq<RawPacket>, cross_check: bool)
    requires
        m.wf(),
        m.n_units <= packets.len(),
    ensures
        (m.next(packets, cross_check).error_code & BIT_MAJORITY_VALID == 0) <==> 2 * count_valid(
            m.units(packets),
        ) > m.n_units,
        2 * count_valid(m.units(packets)) == m.n_units ==> m.next(packets, cross_check).error_code
            & BIT_MAJORITY_VALID != 0,
{
    let units = m.units(packets);
    lemma_health_mask_bits(
        true,
        counters_live(units, m.prev_msg_counter),
        majority_valid(units),
        timestamps_cohesive(units),
        cross_check,
    );
}

/// A timestamp exactly the tolerance away from the average, on either side,
/// passes; one tick further fails.
pub proof fn lemma_timestamp_tolerance_boundary(timestamp: u32, average: int)
    ensures
        timestamp - average == TIMESTAMP_TOLERANCE || average - timestamp == TIMESTAMP_TOLERANCE
            ==> within_tolerance(timestamp, average),
        timestamp - average == TIMESTAMP_TOLERANCE + 1 || average - timestamp
            == TIMESTAMP_TOLERANCE + 1 ==> !within_tolerance(timestamp, average),
{
}

/// The timestamp bit of a tick is clear exactly when every unit's timestamp
/// stands within the tolerance of the units' average.
pub proof fn lemma_timestamp_bit(m: SensorMonitor, packets: Seq<RawPacket>, cross_check: bool)
    requires
        m.wf(),
        m.n_units <= packets.len(),
    ensures
        (m.next(packets, cross_check).error_code & BIT_TIMESTAMP == 0) <==> forall|i: int|
            0 <= i < m.n_units ==> within_tolerance(
                #[trigger] packets[i].raw_timestamp,
                average_timestamp(m.units(packets)) as int,
            ),
{
    let units = m.units(packets);
    lemma_health_mask_bits(
        true,
        counters_live(units, m.prev_msg_counter),
        majority_valid(units),
        timestamps_cohesive(units),
        cross_check,
    );
    let avg = average_timestamp(units) as int;
    if timestamps_cohesive(units) {
        assert forall|i: int| 0 <= i < m.n_units implies within_tolerance(
            #[trigger] packets[i].raw_timestamp,
            avg,
        ) by {
            assert(units[i] == packets[i]);
        }
    }
    if forall|i: int|
        0 <= i < m.n_units ==> within_tolerance(#[trigger] packets[i].raw_timestamp, avg) {
        assert forall|i: int| 0 <= i < units.len() implies within_tolerance(
            #[trigger] units[i].raw_timestamp,
            avg,
        ) by {
            assert(units[i] == packets[i]);
        }
    }
}

/// The message-counter bit of a tick is set as soon as one unit's counter
/// still equals the remembered one, and clear when every unit's has moved.
pub proof fn lemma_counter_stall(m: SensorMonitor, packets: Seq<RawPacket>, cross_check: bool)
    requires
        m.wf(),
        m.n_units <= packets.len(),
    ensures
        (m.next(packets, cross_check).error_code & BIT_MSG_COUNTER == 0) <==> forall|i: int|
            0 <= i < m.n_units ==> #[trigger] packets[i].msg_counter != m.prev_msg_counter,
        (exists|i: int| 0 <= i < m.n_units && #[trigger] packets[i].msg_counter == m.prev_msg_counter)
            ==> m.next(packets, cross_check).error_code & BIT_MSG_COUNTER != 0,
{
    let units = m.units(packets);
    lemma_health_mask_bits(
        true,
        counters_live(units, m.prev_msg_counter),
        majority_valid(units),
        timestamps_cohesive(units),
        cross_check,
    );
    assert forall|i: int| 0 <= i < m.n_units implies #[trigger] units[i] == packets[i] by {}
    if counters_live(units, m.prev_msg_counter) {
        assert forall|i: int| 0 <= i < m.n_units implies #[trigger] packets[i].msg_counter
            != m.prev_msg_counter by {
            assert(units[i] == packets[i]);
        }
    }
    if forall|i: int| 0 <= i < m.n_units ==> #[trigger] packets[i].msg_counter != m.prev_msg_counter {
        assert forall|i: int| 0 <= i < units.len() implies #[trigger] units[i].msg_counter
            != m.prev_msg_counter by {
            assert(units[i] == packets[i]);
        }
    }
}

/// Whether every one of the first `n` units sent a message since the counter
/// `prev_msg_counter` was taken.
pub fn counters_all_changed(packets: &[RawPacket], n: usize, prev_msg_counter: u32) -> (r: bool)
    requires
        n <= packets@.len(),
    ensures
        r == counters_live(packets@.take(n as int), prev_msg_counter),
{
    let mut live = true;
    let mut i: usize = 0;
    while i < n
        invariant
            i <= n <= packets@.len(),
            live == counters_live(packets@.take(i as int), prev_msg_counter),
        decreases n - i,
    {
        live = live && packets[i].msg_counter != prev_msg_counter;
        i = i + 1;
        assert(packets@.take(i as int).drop_last() =~= packets@.take(i - 1));
        assert(packets@.take(i as int)[i - 1] == packets@[i - 1]);
    }
    live
}

/// Whether strictly more than half of the first `n` units report themselves
/// valid.
pub fn majority_reports_valid(packets: &[RawPacket], n: usize) -> (r: bool)
    requires
        n <= packets@.len(),
    ensures
        r == majority_valid(packets@.take(n as int)),
{
    let mut count: usize = 0;
    let mut i: usize = 0;
    while i < n
        invariant
            i <= n <= packets@.len(),
            count == count_valid(packets@.take(i as int)),
        decreases n - i,
    {
        proof {
            lemma_count_valid_bound(packets@.take(i as int));
        }
        if packets[i].raw_valid {
            count = count + 1;
        }
        i = i + 1;
        assert(packets@.take(i as int).drop_last() =~= packets@.take(i - 1));
    }
    count > n / 2
}

/// Average timestamp of the first `n` units, rounded down.
pub fn average_timestamp_of(packets: &[RawPacket], n: usize) -> (r: u32)
    requires
        1 <= n <= MAX_UNITS,
        n <= packets@.len(),
    ensures
        r == average_timestamp(packets@.take(n as int)),
{
    let mut sum: u64 = 0;
    let mut i: usize = 0;
    while i < n
        invariant
            i <= n <= MAX_UNITS,
            n <= packets@.len(),
            sum == timestamp_sum(packets@.take(i as int)),
        decreases n - i,
    {
        proof {
            lemma_timestamp_sum_bound(packets@.take(i as int));
        }
        sum = sum + packets[i].raw_timestamp as u64;
        i = i + 1;
        assert(packets@.take(i as int).drop_last() =~= packets@.take(i - 1));
    }
    proof {
        lemma_timestamp_sum_bound(packets@.take(n as int));
        assert((sum as int) / (n as int) <= u32::MAX) by (nonlinear_arith)
            requires
                sum <= n * (u32::MAX as int),
                n >= 1,
        ;
    }
    (sum / n as u64) as u32
}

/// Whether each of the first `n` units' timestamps stands within the tolerance
/// of `average`.
pub fn timestamps_within_tolerance(packets: &[RawPacket], n: usize, average: u32) -> (r: bool)
    requires
        n <= packets@.len(),
    ensures
        r == (forall|i: int|
            0 <= i < n ==> within_tolerance(#[trigger] packets@[i].raw_timestamp, average as int)),
{
    let mut ok = true;
    let mut i: usize = 0;
    while i < n
        invariant
            i <= n <= packets@.len(),
            ok == (forall|j: int|
                0 <= j < i ==> within_tolerance(#[trigger] packets@[j].raw_timestamp, average as int)),
        decreases n - i,
    {
        let t = packets[i].raw_timestamp;
        let close = if t >= average {
            t - average <= TIMESTAMP_TOLERANCE
        } else {
            average - t <= TIMESTAMP_TOLERANCE
        };
        ok = ok && close;
        i = i + 1;
    }
    ok
}

} // verus!
