//! The force between two orbs: which law governs the pair, and with which
//! sign the law's magnitude acts on either orb.
//!
//! A force acts along the line from the first orb of a pair to the second.
//! The law gives its magnitude, which is never negative; a factor of `1`, `0`
//! or `-1` for each orb then says whether that orb is accelerated towards the
//! far end of the line, not at all, or back from it. The magnitudes are
//!
//! * long range: `G * m1 * m2 / (d * scale)^2`,
//! * short range: `e^(5 - d * scale / 2)`,
//!
//! with `d` the distance of the two orbs, `m1` and `m2` their masses, and `G`
//! and `scale` taken from the settings. The acceleration of an orb grows by
//! the unit vector of the line, times the orb's factor, times the magnitude,
//! times the length of the tick.

use vstd::prelude::*;
use crate::orb::Orb;

verus! {

/// The distance, in world units, up to which the short-range law governs a
/// pair. It is not subject to the settings' scale.
pub const NEAR_FIELD: u16 = 10;

/// What has been measured of the distance between the two orbs of a pair.
#[derive(Clone, Copy, Debug, PartialEq, Eq, Structural)]
pub struct Separation {
    /// The distance is greater than the settings' influence distance.
    pub beyond_influence: bool,
    /// The distance is greater than [`NEAR_FIELD`].
    pub beyond_near_field: bool,
    /// The distance is zero, so that no line joins the two orbs.
    pub coincident: bool,
}

/// The law that governs a pair of orbs.
#[derive(Clone, Copy, Debug, PartialEq, Eq, Structural)]
pub enum Law {
    /// No force acts between the two.
    Inert,
    /// The affinities of the two kinds decide, and the force falls off with
    /// the square of the distance.
    LongRange,
    /// The two repel each other, whatever their kinds and masses.
    ShortRange,
}

/// The force between the two orbs of a pair.
#[derive(Clone, Copy, Debug, PartialEq, Eq, Structural)]
pub struct Interaction {
    /// The law that gives the magnitude.
    pub law: Law,
    /// The factor of the first orb: `1` accelerates it towards the second,
    /// `-1` away from it.
    pub on_first: i8,
    /// The factor of the second orb, along the same line from the first orb
    /// to the second: `1` accelerates it away from the first, `-1` towards it.
    pub on_second: i8,
}

/// The law for a pair. The influence distance prunes first and without
/// exception, also within the near field; a pair at distance zero is left
/// alone, since it has no direction to act along; of the rest, the near field
/// is under the short-range law and everything beyond it under the long-range
/// law.
pub open spec fn law_of(separation: Separation) -> Law {
    if separation.beyond_influence || separation.coincident {
        Law::Inert
    } else if separation.beyond_near_field {
        Law::LongRange
    } else {
        Law::ShortRange
    }
}

/// The force between a first orb and a second, of the given kinds.
///
/// Under the long-range law each orb follows its own affinity for the other.
/// Both factors refer to the one line from the first orb to the second, so
/// the second orb is drawn to the first by the factor `-1`.
pub open spec fn interaction_of(first: Orb, second: Orb, separation: Separation) -> Interaction {
    match law_of(separation) {
        Law::Inert => (Interaction { law: Law::Inert, on_first: 0, on_second: 0 }),
        Law::LongRange => (Interaction {
            law: Law::LongRange,
            on_first: first.attraction(second) as i8,
            on_second: (-second.attraction(first)) as i8,
        }),
        Law::ShortRange => (Interaction { law: Law::ShortRange, on_first: -1i8, on_second: 1i8 }),
    }
}

/// Decides the force between the two orbs of a pair from their kinds and from
/// what was measured of their distance.
pub fn pair_interaction(first: &Orb, second: &Orb, separation: &Separation) -> (plan: Interaction)
    ensures
        plan == interaction_of(*first, *second, *separation),
{
    if separation.beyond_influence || separation.coincident {
        Interaction { law: Law::Inert, on_first: 0, on_second: 0 }
    } else if separation.beyond_near_field {
        let towards_second: i8 = first.get_attraction(second);
        let towards_first: i8 = second.get_attraction(first);
        Interaction { law: Law::LongRange, on_first: towards_second, on_second: -towards_first }
    } else {
        Interaction { law: Law::ShortRange, on_first: -1, on_second: 1 }
    }
}

/// Two orbs farther apart than the influence distance exert no force on each
/// other: neither is accelerated, whatever their kinds and whatever else was
/// measured.
pub proof fn lemma_beyond_influence_is_inert(first: Orb, second: Orb, separation: Separation)
    requires
        separation.beyond_influence,
    ensures
        interaction_of(first, second, separation).law == Law::Inert,
        interaction_of(first, second, separation).on_first == 0,
        interaction_of(first, second, separation).on_second == 0,
{
}

/// Two orbs at the same point exert no force on each other.
pub proof fn lemma_coincident_is_inert(first: Orb, second: Orb, separation: Separation)
    requires
        separation.coincident,
    ensures
        interaction_of(first, second, separation).law == Law::Inert,
        interaction_of(first, second, separation).on_first == 0,
        interaction_of(first, second, separation).on_second == 0,
{
}

/// The factors are `0` for both orbs where no law governs the pair, and units
/// for both where one does.
pub proof fn lemma_factors_are_units(first: Orb, second: Orb, separation: Separation)
    ensures
        ({
            let plan = interaction_of(first, second, separation);
            if plan.law == Law::Inert {
                plan.on_first == 0 && plan.on_second == 0
            } else {
                (plan.on_first == 1 || plan.on_first == -1) && (plan.on_second == 1
                    || plan.on_second == -1)
            }
        }),
{
}

/// Action and reaction in the near field: the short-range law pushes the two
/// orbs apart with factors that are equal in size and opposite in sign,
/// whatever their kinds. Both take the one magnitude of the law, so the scale
/// of the settings does not enter.
pub proof fn lemma_short_range_action_reaction(first: Orb, second: Orb, separation: Separation)
    requires
        !separation.beyond_influence,
        !separation.beyond_near_field,
        !separation.coincident,
    ensures
        interaction_of(first, second, separation).law == Law::ShortRange,
        interaction_of(first, second, separation).on_first == -1,
        interaction_of(first, second, separation).on_first + interaction_of(
            first,
            second,
            separation,
        ).on_second == 0,
{
}

/// The long-range law, by the kinds of the pair. Two orbs of one kind are
/// drawn to each other. Of two orbs of different kinds the hunter is drawn to
/// the other, which is driven away from it: both are accelerated the same way
/// along their line.
pub proof fn lemma_long_range_by_kind(first: Orb, second: Orb, separation: Separation)
    requires
        !separation.beyond_influence,
        separation.beyond_near_field,
        !separation.coincident,
    ensures
        ({
            let plan = interaction_of(first, second, separation);
            &&& plan.law == Law::LongRange
            &&& plan.on_first == first.attraction(second)
            &&& plan.on_second == -second.attraction(first)
            &&& first == second ==> plan.on_first == 1 && plan.on_second == -1
            &&& first.hunts(second) ==> plan.on_first == 1 && plan.on_second == 1
            &&& second.hunts(first) ==> plan.on_first == -1 && plan.on_second == -1
        }),
{
}

/// Exchanging the two orbs of a pair turns the line between them round, and
/// the force stays what it was: each orb keeps its factor, with the sign
/// turned as the line is.
pub proof fn lemma_order_of_the_pair(first: Orb, second: Orb, separation: Separation)
    ensures
        interaction_of(second, first, separation).law == interaction_of(
            first,
            second,
            separation,
        ).law,
        interaction_of(second, first, separation).on_first == -interaction_of(
            first,
            second,
            separation,
        ).on_second,
        interaction_of(second, first, separation).on_second == -interaction_of(
            first,
            second,
            separation,
        ).on_first,
{
}

} // verus!
