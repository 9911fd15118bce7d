//! The telemetry header that every raw sensor packet carries.
use vstd::prelude::*;

verus! {

/// Marker for the raw packet types that the drivers fill.
pub trait RawSensorPacket {

}

/// What a redundant sensor unit reports each tick besides its payload: when,
/// whether it considers itself healthy, and how many messages it has sent.
#[derive(Clone, Copy, Debug, PartialEq, Eq, Structural)]
pub struct RawPacket {
    pub raw_timestamp: u32,
    pub raw_valid: bool,
    pub msg_counter: u32,
}

/// Header of an inertial measurement unit's packet.
pub type RawIMUPacket = RawPacket;

/// Header of a star tracker's packet.
pub type RawStarTrackerPacket = RawPacket;

/// Header of a GPS receiver's packet.
pub type RawGPSRPacket = RawPacket;

impl RawSensorPacket for RawPacket {

}

impl RawPacket {
    /// A unit that has reported nothing yet.
    pub fn new() -> (r: Self)
        ensures
            r == (RawPacket { raw_timestamp: 0, raw_valid: false, msg_counter: 0 }),
    {
        RawPacket { raw_timestamp: 0, raw_valid: false, msg_counter: 0 }
    }

    /// Whether `plant_update` may be called: a counter that moves must not run
    /// past the largest `u32`.
    pub open spec fn can_update(&self, inc_msg: bool) -> bool {
        inc_msg ==> self.msg_counter < u32::MAX
    }

    /// The packet after `plant_update`.
    pub open spec fn updated(self, timestamp: u32, raw_valid: bool, inc_msg: bool) -> RawPacket {
        RawPacket {
            raw_timestamp: timestamp,
            raw_valid,
            msg_counter: if inc_msg {
                (self.msg_counter + 1) as u32
            } else {
                self.msg_counter
            },
        }
    }

    /// Records a new report of the unit: its timestamp and validity, and one
    /// more message when `inc_msg` is set.
    pub fn plant_update(&mut self, timestamp: u32, raw_valid: bool, inc_msg: bool)
        requires
            old(self).can_update(inc_msg),
        ensures
            *final(self) == old(self).updated(timestamp, raw_valid, inc_msg),
            final(self).msg_counter == old(self).msg_counter + (if inc_msg {
                1int
            } else {
                0int
            }),
    {
        self.raw_timestamp = timestamp;
        self.raw_valid = raw_valid;
        if inc_msg {
            self.msg_counter = self.msg_counter + 1;
        }
    }
}

impl Default for RawPacket {
    fn default() -> (r: Self)
        ensures
            r == (RawPacket { raw_timestamp: 0, raw_valid: false, msg_counter: 0 }),
    {
        RawPacket::new()
    }
}

} // verus!
