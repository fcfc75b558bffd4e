//! The kinds of orbs, the colour of each, and the affinity of one kind for
//! another.

use vstd::prelude::*;

verus! {

/// The kind of an orb. It is fixed when the orb is made and decides how the orb
/// answers to every other orb.
#[derive(Clone, Copy, Debug, PartialEq, Eq, Structural)]
pub enum Orb {
    Red,
    Green,
    Blue,
}

/// A colour, as the intensities of its three channels from 0 to 255.
#[derive(Clone, Copy, Debug, PartialEq, Eq, Structural)]
pub struct Rgb {
    pub red: u8,
    pub green: u8,
    pub blue: u8,
}

impl Orb {
    /// The colour in which a kind is drawn: the channel it is named after at
    /// full intensity, the other two dark.
    pub open spec fn color_of(self) -> Rgb {
        match self {
            Orb::Red => (Rgb { red: 255, green: 0, blue: 0 }),
            Orb::Green => (Rgb { red: 0, green: 255, blue: 0 }),
            Orb::Blue => (Rgb { red: 0, green: 0, blue: 255 }),
        }
    }

    /// The affinity of `self` for `other`: `1` where `self` is drawn towards
    /// `other`, `-1` where it is driven away.
    ///
    /// | self \ other | Red | Green | Blue |
    /// |--------------|-----|-------|------|
    /// | Red          |  1  |   1   |  -1  |
    /// | Green        | -1  |   1   |   1  |
    /// | Blue         |  1  |  -1   |   1  |
    pub open spec fn attraction(self, other: Orb) -> int {
        match (self, other) {
            (Orb::Red, Orb::Red) => 1,
            (Orb::Red, Orb::Green) => 1,
            (Orb::Red, Orb::Blue) => -1,
            (Orb::Green, Orb::Red) => -1,
            (Orb::Green, Orb::Green) => 1,
            (Orb::Green, Orb::Blue) => 1,
            (Orb::Blue, Orb::Red) => 1,
            (Orb::Blue, Orb::Green) => -1,
            (Orb::Blue, Orb::Blue) => 1,
        }
    }

    /// Whether `self` is the hunter in the cycle of the kinds: red hunts
    /// green, green hunts blue, blue hunts red.
    pub open spec fn hunts(self, other: Orb) -> bool {
        ||| self == Orb::Red && other == Orb::Green
        ||| self == Orb::Green && other == Orb::Blue
        ||| self == Orb::Blue && other == Orb::Red
    }

    /// The colour in which an orb of this kind is drawn.
    pub fn color(&self) -> (c: Rgb)
        ensures
            c == self.color_of(),
    {
        match self {
            Orb::Red => Rgb { red: 255, green: 0, blue: 0 },
            Orb::Green => Rgb { red: 0, green: 255, blue: 0 },
            Orb::Blue => Rgb { red: 0, green: 0, blue: 255 },
        }
    }

    /// The affinity of `self` for `other`, `1` or `-1`, as the table of
    /// [`Orb::attraction`] gives it. The relation is not symmetric.
    pub fn get_attraction(&self, other: &Orb) -> (a: i8)
        ensures
            a == self.attraction(*other),
    {
        match (self, other) {
            (Orb::Red, Orb::Green) => 1,
            (Orb::Green, Orb::Blue) => 1,
            (Orb::Blue, Orb::Red) => 1,
            _ => {
                if *self == *other {
                    1
                } else {
                    -1
                }
            },
        }
    }
}

/// An affinity is a unit: `1` or `-1`, never `0`.
pub proof fn lemma_attraction_is_unit(a: Orb, b: Orb)
    ensures
        a.attraction(b) == 1 || a.attraction(b) == -1,
{
}

/// Every kind is drawn towards its own kind.
pub proof fn lemma_own_kind_attracts(a: Orb)
    ensures
        a.attraction(a) == 1,
{
}

/// A kind is drawn towards another exactly when the two are the same or it
/// hunts the other.
pub proof fn lemma_attraction_follows_the_hunt(a: Orb, b: Orb)
    ensures
        a.attraction(b) == 1 <==> (a == b || a.hunts(b)),
{
}

/// Between two different kinds the affinities are opposite: one of the two is
/// drawn towards the other, which is driven away from it.
pub proof fn lemma_different_kinds_oppose(a: Orb, b: Orb)
    requires
        a != b,
    ensures
        a.attraction(b) == -b.attraction(a),
        a.hunts(b) != b.hunts(a),
{
}

} // verus!
