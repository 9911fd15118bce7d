//! Reference stage, and the decisions of the reference geometry that do not
//! depend on its arithmetic.
use vstd::prelude::*;
use crate::estimation::EstimationBus;

verus! {

/// Output of the reference stage for one tick.
#[derive(Clone, Copy, Debug, PartialEq, Eq, Structural)]
pub struct ReferenceBus {}

impl ReferenceBus {
    /// Computes this tick's reference from the estimate and the previous
    /// reference.
    pub fn process(_curr_est: &EstimationBus, _prev_ref: &ReferenceBus) -> (r: Self)
        ensures
            r == (ReferenceBus {}),
    {
        ReferenceBus {}
    }
}

impl Default for ReferenceBus {
    fn default() -> (r: Self)
        ensures
            r == (ReferenceBus {}),
    {
        ReferenceBus {}
    }
}

/// The kind of reference the spacecraft follows.
#[allow(non_camel_case_types, clippy::upper_case_acronyms)]
#[derive(Clone, Copy, Debug, PartialEq, Eq, Structural)]
pub enum Reference {
    /// No reference.
    IDLE,
    /// In the middle of a slew.
    SLEW,
    /// Inertial point tracking.
    IPT,
}

/// What resolves the rotation about the pointing axis in inertial point
/// tracking.
#[derive(Clone, Copy, Debug, PartialEq, Eq, Structural)]
pub enum RollSource {
    /// An explicit roll angle about the inertial target direction.
    Roll,
    /// The triad that aligns the power axis with the sun direction.
    SunTriad,
    /// Neither is available: the reference cannot be resolved.
    Unresolved,
}

/// An explicit roll always wins over a sun direction; the triad is used only
/// when no roll is given.
pub open spec fn spec_roll_source(has_roll: bool, has_sun: bool) -> RollSource {
    if has_roll {
        RollSource::Roll
    } else if has_sun {
        RollSource::SunTriad
    } else {
        RollSource::Unresolved
    }
}

/// Chooses how the roll about the pointing axis is resolved.
pub fn roll_source(has_roll: bool, has_sun: bool) -> (r: RollSource)
    ensures
        r == spec_roll_source(has_roll, has_sun),
        has_roll ==> r == RollSource::Roll,
        r == RollSource::SunTriad ==> !has_roll && has_sun,
{
    if has_roll {
        RollSource::Roll
    } else if has_sun {
        RollSource::SunTriad
    } else {
        RollSource::Unresolved
    }
}

/// The error flag of the attitude reference: raised when the roll cannot be
/// resolved or when the geometry inputs are flagged invalid.
pub fn attitude_error(source: RollSource, inputs_invalid: bool) -> (r: bool)
    ensures
        r == (source == RollSource::Unresolved || inputs_invalid),
{
    match source {
        RollSource::Unresolved => true,
        _ => inputs_invalid,
    }
}

/// The error flag of the combined reference: any one failing part taints the
/// whole output.
pub fn reference_error(q_err: bool, omega_err: bool, alpha_err: bool) -> (r: bool)
    ensures
        r == (q_err || omega_err || alpha_err),
{
    q_err || omega_err || alpha_err
}

} // verus!
