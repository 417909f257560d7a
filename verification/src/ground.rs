//! Ground sensing.
//!
//! Classifies the character's contact state from the physics solver's
//! resolved contact list for the last tick. Each contact is reduced to its
//! normal's angle from vertical, in milliradians; the contact with the
//! smallest angle is the authoritative surface. A surface steeper than the
//! configured maximum slope is not ground at all: the character is treated
//! as airborne there so that it slides instead of sticking. Zero contacts
//! always classify as airborne (fail toward falling, never toward stuck).
//!
//! The sensor reads the contacts the solver resolved on the previous tick,
//! so a landing is seen one tick after contact begins. That one-tick lag is
//! a designed latency of running the sensor after the solver, not a bug.

use vstd::prelude::*;
use crate::config::ControllerConfig;

verus! {

/// A contact within this angle of vertical counts as flat ground rather
/// than a slope (about one degree, in milliradians).
pub const FLAT_TOLERANCE_MRAD: i64 = 17;

/// The character's relation to the ground, recomputed every tick from the
/// solver's contact list and never persisted across ticks.
#[derive(Clone, Copy, Debug, PartialEq, Eq, Structural)]
pub enum ContactState {
    /// No contact, or every contact is steeper than the walkable limit.
    Airborne,
    /// Standing on ground within `FLAT_TOLERANCE_MRAD` of horizontal.
    GroundedFlat {
        /// The authoritative surface's normal angle from vertical.
        angle_mrad: i64,
    },
    /// Standing on a walkable slope steeper than flat tolerance.
    GroundedSlope {
        /// The authoritative surface's normal angle from vertical.
        angle_mrad: i64,
    },
}

impl ContactState {
    /// Whether the character counts as standing on walkable ground.
    pub open spec fn is_grounded(self) -> bool {
        !(self is Airborne)
    }

    /// Exposes the airborne/grounded flag (for animation-state selection
    /// among other things).
    pub fn grounded(&self) -> (r: bool)
        ensures
            r == self.is_grounded(),
    {
        !matches!(self, ContactState::Airborne)
    }
}

/// The smallest angle in a non-empty contact list: the authoritative
/// surface is the one closest to vertical-normal (flattest).
pub open spec fn min_angle(angles: Seq<i64>) -> int
    recommends
        angles.len() > 0,
    decreases angles.len(),
{
    if angles.len() <= 1 {
        angles[0] as int
    } else {
        let rest = min_angle(angles.drop_first());
        if angles[0] <= rest {
            angles[0] as int
        } else {
            rest
        }
    }
}

/// What the ground sensor reports for a contact list under a walkable-slope
/// limit: airborne when there is no contact or even the flattest contact is
/// too steep, otherwise grounded on the flattest contact, flat within
/// tolerance and sloped beyond it.
pub open spec fn classify_spec(angles: Seq<i64>, max_slope_angle_mrad: int) -> ContactState {
    if angles.len() == 0 {
        ContactState::Airborne
    } else if min_angle(angles) > max_slope_angle_mrad {
        ContactState::Airborne
    } else if min_angle(angles) <= FLAT_TOLERANCE_MRAD {
        ContactState::GroundedFlat { angle_mrad: min_angle(angles) as i64 }
    } else {
        ContactState::GroundedSlope { angle_mrad: min_angle(angles) as i64 }
    }
}

/// Extending a contact list refines its minimum: the new minimum is the old
/// one unless the new contact is flatter.
pub proof fn lemma_min_angle_push(angles: Seq<i64>, a: i64)
    ensures
        angles.len() == 0 ==> min_angle(angles.push(a)) == a as int,
        angles.len() > 0 ==> min_angle(angles.push(a)) == if a < min_angle(angles) {
            a as int
        } else {
            min_angle(angles)
        },
    decreases angles.len(),
{
    if angles.len() == 0 {
        assert(angles.push(a)[0] == a);
    } else {
        assert(angles.push(a).drop_first() =~= angles.drop_first().push(a));
        lemma_min_angle_push(angles.drop_first(), a);
    }
}

/// The minimum of a non-empty contact list is one of its entries and is a
/// lower bound on all of them.
pub proof fn lemma_min_angle_is_min(angles: Seq<i64>)
    requires
        angles.len() > 0,
    ensures
        forall|i: int| 0 <= i < angles.len() ==> min_angle(angles) <= #[trigger] angles[i],
        exists|i: int| 0 <= i < angles.len() && angles[i] == min_angle(angles),
    decreases angles.len(),
{
    if angles.len() == 1 {
        assert(angles[0] == min_angle(angles));
    } else {
        lemma_min_angle_is_min(angles.drop_first());
        assert forall|i: int| 0 <= i < angles.len() implies min_angle(angles)
            <= #[trigger] angles[i] by {
            if i > 0 {
                assert(angles.drop_first()[i - 1] == angles[i]);
            }
        }
        if angles[0] <= min_angle(angles.drop_first()) {
            assert(angles[0] == min_angle(angles));
        } else {
            let j = choose|j: int|
                0 <= j < angles.drop_first().len() && angles.drop_first()[j] == min_angle(
                    angles.drop_first(),
                );
            assert(angles[j + 1] == min_angle(angles));
        }
    }
}

/// The slope-limit invariant: the sensor never reports a grounded state for
/// a surface steeper than the configured limit, and the angle it reports is
/// always the flattest contact's.
pub proof fn lemma_classification_respects_slope_limit(angles: Seq<i64>, max_slope: int)
    ensures
        classify_spec(angles, max_slope) matches ContactState::GroundedSlope { angle_mrad }
            ==> FLAT_TOLERANCE_MRAD < angle_mrad <= max_slope,
        classify_spec(angles, max_slope) matches ContactState::GroundedFlat { angle_mrad }
            ==> angle_mrad <= FLAT_TOLERANCE_MRAD && angle_mrad <= max_slope,
{
    if angles.len() > 0 {
        lemma_min_angle_is_min(angles);
    }
}

/// The walkability boundary is exact: a single surface tilted at precisely
/// the configured limit is walkable ground (a slope, once past flat
/// tolerance), while one tilted a single milliradian past the limit is
/// airborne.
pub proof fn lemma_slope_boundary(max_slope: i64)
    requires
        0 <= max_slope < i64::MAX,
    ensures
        FLAT_TOLERANCE_MRAD < max_slope ==> classify_spec(seq![max_slope], max_slope as int)
            == (ContactState::GroundedSlope { angle_mrad: max_slope }),
        max_slope <= FLAT_TOLERANCE_MRAD ==> classify_spec(seq![max_slope], max_slope as int)
            == (ContactState::GroundedFlat { angle_mrad: max_slope }),
        classify_spec(seq![(max_slope + 1) as i64], max_slope as int) == ContactState::Airborne,
{
    assert(min_angle(seq![max_slope]) == max_slope);
    assert(min_angle(seq![(max_slope + 1) as i64]) == max_slope + 1);
}

/// The ground sensor. Scans the tick's contact list (each entry a contact
/// normal's angle from vertical, in milliradians) and classifies the
/// character's contact state under the configuration's slope limit.
///
/// Grounded exactly when some contact is within the walkable limit; the
/// reported angle is the flattest contact's.
pub fn classify_contacts(contact_angles: &Vec<i64>, config: &ControllerConfig) -> (r: ContactState)
    requires
        config.wf(),
    ensures
        r == classify_spec(contact_angles@, config.max_slope_angle_mrad as int),
        r.is_grounded() <==> exists|i: int|
            0 <= i < contact_angles@.len() && contact_angles@[i] <= config.max_slope_angle_mrad,
{
    let n: usize = contact_angles.len();
    if n == 0 {
        return ContactState::Airborne;
    }
    let mut best: i64 = contact_angles[0];
    let mut i: usize = 1;
    while i < n
        invariant
            1 <= i <= n,
            n == contact_angles@.len(),
            best == min_angle(contact_angles@.take(i as int)),
        decreases n - i,
    {
        let a: i64 = contact_angles[i];
        proof {
            assert(contact_angles@.take(i as int + 1) =~= contact_angles@.take(i as int).push(
                contact_angles@[i as int],
            ));
            lemma_min_angle_push(contact_angles@.take(i as int), contact_angles@[i as int]);
        }
        if a < best {
            best = a;
        }
        i = i + 1;
    }
    proof {
        assert(contact_angles@.take(n as int) =~= contact_angles@);
        lemma_min_angle_is_min(contact_angles@);
    }
    if best > config.max_slope_angle_mrad {
        ContactState::Airborne
    } else if best <= FLAT_TOLERANCE_MRAD {
        ContactState::GroundedFlat { angle_mrad: best }
    } else {
        ContactState::GroundedSlope { angle_mrad: best }
    }
}

} // verus!
