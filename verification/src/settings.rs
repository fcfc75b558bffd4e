//! The parameters of the simulation that may be tuned while it runs.

use vstd::prelude::*;

verus! {

/// The number of steps in one unit of a setting: every quantity in
/// [`Settings`] is held in thousandths, the finest step that its range is
/// given in.
pub const STEPS_PER_UNIT: u32 = 1000;

/// The tunable parameters of the simulation. The quantities are held in
/// thousandths: a friction of `100` is a tenth.
#[allow(non_snake_case)]
#[derive(Clone, Copy, Debug, PartialEq, Eq, Structural)]
pub struct Settings {
    /// The boundary policy: wrap round the edges of the field, or bounce
    /// off them.
    pub wraparound: bool,
    /// The gravitational constant, which scales the long-range force.
    pub G: u32,
    /// The share of its velocity that an orb loses in one tick, from nothing
    /// to all of it.
    pub friction: u32,
    /// The distance beyond which two orbs exert no force on each other.
    pub influence_distance: u32,
    /// The factor that turns a distance in the field into the distance that
    /// the force laws work with. It is never zero.
    pub scale: u32,
}

impl Settings {
    /// Whether the settings are ones that the simulation can run on: the
    /// friction is at most one, and the scale is not zero.
    pub open spec fn valid(self) -> bool {
        &&& self.friction <= STEPS_PER_UNIT
        &&& self.scale > 0
    }

    /// The settings that a simulation starts with: bouncing edges, a
    /// gravitational constant of 100, a friction of a tenth, an influence
    /// distance of 100 and a scale of one.
    pub open spec fn initial() -> Settings {
        Settings {
            wraparound: false,
            G: 100_000,
            friction: 100,
            influence_distance: 100_000,
            scale: 1_000,
        }
    }

    /// The settings that a simulation starts with.
    pub fn default() -> (settings: Settings)
        ensures
            settings == Settings::initial(),
            settings.valid(),
    {
        Settings {
            G: 100 * STEPS_PER_UNIT,
            wraparound: false,
            friction: STEPS_PER_UNIT / 10,
            influence_distance: 100 * STEPS_PER_UNIT,
            scale: STEPS_PER_UNIT,
        }
    }
}

} // verus!
