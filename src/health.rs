//! The 16-bit hardware-health mask: one bit per subtest, 0 = pass, 1 = fail.
use vstd::prelude::*;

verus! {

/// Bit 0: the sensor type is enabled.
pub const BIT_ENABLED: u16 = 0x0001;

/// Bit 1: every unit's message counter moved since the previous tick.
pub const BIT_MSG_COUNTER: u16 = 0x0002;

/// Bit 2: strictly more than half of the units report themselves valid.
pub const BIT_MAJORITY_VALID: u16 = 0x0004;

/// Bit 3: every unit's timestamp lies within the tolerance of the average.
pub const BIT_TIMESTAMP: u16 = 0x0008;

/// Bit 4: the sensor-specific cross-check against the previous estimate.
pub const BIT_CROSS_CHECK: u16 = 0x0010;

/// Highest bit index of the mask.
pub const MAX_BIT_INDEX: u8 = 15;

/// The value a subtest contributes to the mask: nothing when it passed, its bit
/// when it failed.
pub open spec fn fail_bit(passed: bool, bit_id: u8) -> u16
    recommends
        bit_id <= MAX_BIT_INDEX,
{
    if passed {
        0
    } else {
        1u16 << bit_id
    }
}

/// The mask of the five subtests, from their outcomes.
pub open spec fn health_mask(
    enabled: bool,
    counter_live: bool,
    majority_valid: bool,
    timestamps_cohesive: bool,
    cross_check: bool,
) -> u16 {
    (if enabled { 0u16 } else { BIT_ENABLED }) | (if counter_live {
        0u16
    } else {
        BIT_MSG_COUNTER
    }) | (if majority_valid { 0u16 } else { BIT_MAJORITY_VALID }) | (if timestamps_cohesive {
        0u16
    } else {
        BIT_TIMESTAMP
    }) | (if cross_check { 0u16 } else { BIT_CROSS_CHECK })
}

/// Flips bit `bit_id` of `code` when the subtest failed; leaves `code` as it is
/// when it passed.
pub fn update_hw_test(code: u16, flag: bool, bit_id: u8) -> (r: u16)
    requires
        bit_id <= MAX_BIT_INDEX,
    ensures
        r == code ^ fail_bit(flag, bit_id),
{
    let failed: u16 = if flag {
        0
    } else {
        1
    };
    let r = code ^ (failed << bit_id);
    proof {
        if flag {
            assert(failed << bit_id == 0u16) by (bit_vector)
                requires
                    failed == 0u16,
            ;
        } else {
            assert(failed << bit_id == 1u16 << bit_id) by (bit_vector)
                requires
                    failed == 1u16,
            ;
        }
    }
    r
}

/// Builds the mask of a tick from scratch, one subtest after the other, in the
/// fixed order of the bits.
pub fn build_mask(
    enabled: bool,
    counter_live: bool,
    majority_valid: bool,
    timestamps_cohesive: bool,
    cross_check: bool,
) -> (r: u16)
    ensures
        r == health_mask(enabled, counter_live, majority_valid, timestamps_cohesive, cross_check),
{
    let mut code: u16 = 0;
    code = update_hw_test(code, enabled, 0);
    code = update_hw_test(code, counter_live, 1);
    code = update_hw_test(code, majority_valid, 2);
    code = update_hw_test(code, timestamps_cohesive, 3);
    code = update_hw_test(code, cross_check, 4);
    proof {
        let b0 = fail_bit(enabled, 0);
        let b1 = fail_bit(counter_live, 1);
        let b2 = fail_bit(majority_valid, 2);
        let b3 = fail_bit(timestamps_cohesive, 3);
        let b4 = fail_bit(cross_check, 4);
        assert(((((0u16 ^ b0) ^ b1) ^ b2) ^ b3) ^ b4 == b0 | b1 | b2 | b3 | b4) by (bit_vector)
            requires
                b0 == 0u16 || b0 == 1u16 << 0u8,
                b1 == 0u16 || b1 == 1u16 << 1u8,
                b2 == 0u16 || b2 == 1u16 << 2u8,
                b3 == 0u16 || b3 == 1u16 << 3u8,
                b4 == 0u16 || b4 == 1u16 << 4u8,
        ;
        assert(1u16 << 0u8 == BIT_ENABLED) by (bit_vector);
        assert(1u16 << 1u8 == BIT_MSG_COUNTER) by (bit_vector);
        assert(1u16 << 2u8 == BIT_MAJORITY_VALID) by (bit_vector);
        assert(1u16 << 3u8 == BIT_TIMESTAMP) by (bit_vector);
        assert(1u16 << 4u8 == BIT_CROSS_CHECK) by (bit_vector);
    }
    code
}

proof fn lemma_disjoint_bits(a: u16, b: u16, c: u16, d: u16, e: u16)
    by (bit_vector)
    requires
        a == 0 || a == 1,
        b == 0 || b == 2,
        c == 0 || c == 4,
        d == 0 || d == 8,
        e == 0 || e == 16,
    ensures
        ((a | b | c | d | e) & 1 == 0) == (a == 0),
        ((a | b | c | d | e) & 2 == 0) == (b == 0),
        ((a | b | c | d | e) & 4 == 0) == (c == 0),
        ((a | b | c | d | e) & 8 == 0) == (d == 0),
        ((a | b | c | d | e) & 16 == 0) == (e == 0),
        (a | b | c | d | e) & 0xffe0 == 0,
{
}

/// Each bit of the mask is clear exactly when its subtest passed, and no bit
/// above the cross-check is ever set.
pub proof fn lemma_health_mask_bits(
    enabled: bool,
    counter_live: bool,
    majority_valid: bool,
    timestamps_cohesive: bool,
    cross_check: bool,
)
    ensures
        ({
            let mask = health_mask(
                enabled,
                counter_live,
                majority_valid,
                timestamps_cohesive,
                cross_check,
            );
            &&& (mask & BIT_ENABLED == 0) == enabled
            &&& (mask & BIT_MSG_COUNTER == 0) == counter_live
            &&& (mask & BIT_MAJORITY_VALID == 0) == majority_valid
            &&& (mask & BIT_TIMESTAMP == 0) == timestamps_cohesive
            &&& (mask & BIT_CROSS_CHECK == 0) == cross_check
            &&& mask & 0xffe0 == 0
        }),
{
    lemma_disjoint_bits(
        if enabled { 0u16 } else { BIT_ENABLED },
        if counter_live { 0u16 } else { BIT_MSG_COUNTER },
        if majority_valid { 0u16 } else { BIT_MAJORITY_VALID },
        if timestamps_cohesive { 0u16 } else { BIT_TIMESTAMP },
        if cross_check { 0u16 } else { BIT_CROSS_CHECK },
    );
}

} // verus!
