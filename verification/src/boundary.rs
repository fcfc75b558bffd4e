//! The edge of the field: how an orb is brought back on one axis once it has
//! been moved.
//!
//! The field is centred on the origin and reaches from `-extent / 2` to
//! `extent / 2` on either axis. Each axis is resolved by itself. In
//! wraparound mode the coordinate is always remapped onto the torus, to
//! `(p + extent * 1.5) mod extent - extent / 2`, and the velocity is kept. In
//! bounce mode a coordinate `p` below the lower edge becomes
//! `-extent / 2 - (p + extent / 2)`, one above the upper edge becomes
//! `extent / 2 - (p - extent / 2)`, and in both cases the velocity on that
//! axis is reversed; a coordinate between the edges stays as it is.

use vstd::prelude::*;

verus! {

/// What has been measured of an orb's coordinate on one axis, after the orb
/// was moved.
#[derive(Clone, Copy, Debug, PartialEq, Eq, Structural)]
pub struct Excursion {
    /// The coordinate is less than `-extent / 2`.
    pub below_min: bool,
    /// The coordinate is greater than `extent / 2`.
    pub above_max: bool,
}

/// What becomes of a coordinate.
#[derive(Clone, Copy, Debug, PartialEq, Eq, Structural)]
pub enum Placement {
    /// It stays as it is.
    Keep,
    /// It is remapped onto the torus.
    Wrap,
    /// It is mirrored at the lower edge, back into the field.
    MirrorAtMin,
    /// It is mirrored at the upper edge, back into the field.
    MirrorAtMax,
}

/// How one axis of an orb is resolved.
#[derive(Clone, Copy, Debug, PartialEq, Eq, Structural)]
pub struct AxisResolution {
    /// What becomes of the coordinate.
    pub placement: Placement,
    /// Whether the velocity on this axis changes its sign.
    pub reverse_velocity: bool,
}

/// The resolution of one axis. In bounce mode at most one edge mirrors the
/// coordinate in a tick, and the lower edge is asked first.
pub open spec fn resolution_of(wraparound: bool, excursion: Excursion) -> AxisResolution {
    if wraparound {
        AxisResolution { placement: Placement::Wrap, reverse_velocity: false }
    } else if excursion.below_min {
        AxisResolution { placement: Placement::MirrorAtMin, reverse_velocity: true }
    } else if excursion.above_max {
        AxisResolution { placement: Placement::MirrorAtMax, reverse_velocity: true }
    } else {
        AxisResolution { placement: Placement::Keep, reverse_velocity: false }
    }
}

/// Decides how one axis of an orb is resolved, from the boundary policy and
/// from what was measured of the coordinate.
pub fn resolve_axis(wraparound: bool, excursion: &Excursion) -> (resolution: AxisResolution)
    ensures
        resolution == resolution_of(wraparound, *excursion),
{
    if wraparound {
        AxisResolution { placement: Placement::Wrap, reverse_velocity: false }
    } else {
        if excursion.below_min {
            AxisResolution { placement: Placement::MirrorAtMin, reverse_velocity: true }
        } else if excursion.above_max {
            AxisResolution { placement: Placement::MirrorAtMax, reverse_velocity: true }
        } else {
            AxisResolution { placement: Placement::Keep, reverse_velocity: false }
        }
    }
}

/// Wraparound never touches the velocity: wherever the orb is, its coordinate
/// is remapped and its velocity kept.
pub proof fn lemma_wrap_keeps_velocity(excursion: Excursion)
    ensures
        resolution_of(true, excursion).placement == Placement::Wrap,
        !resolution_of(true, excursion).reverse_velocity,
{
}

/// An orb that has crossed the upper edge in bounce mode is mirrored at that
/// edge, and its velocity on the axis is reversed.
pub proof fn lemma_bounce_at_upper_edge(excursion: Excursion)
    requires
        excursion.above_max,
        !excursion.below_min,
    ensures
        resolution_of(false, excursion).placement == Placement::MirrorAtMax,
        resolution_of(false, excursion).reverse_velocity,
{
}

/// An orb that has crossed the lower edge in bounce mode is mirrored at that
/// edge, and its velocity on the axis is reversed, whatever was measured at
/// the upper edge.
pub proof fn lemma_bounce_at_lower_edge(excursion: Excursion)
    requires
        excursion.below_min,
    ensures
        resolution_of(false, excursion).placement == Placement::MirrorAtMin,
        resolution_of(false, excursion).reverse_velocity,
{
}

/// An orb between the edges is left alone in bounce mode: neither its
/// coordinate nor its velocity changes.
pub proof fn lemma_inside_is_untouched(excursion: Excursion)
    requires
        !excursion.below_min,
        !excursion.above_max,
    ensures
        resolution_of(false, excursion).placement == Placement::Keep,
        !resolution_of(false, excursion).reverse_velocity,
{
}

/// The velocity is reversed exactly when the coordinate is mirrored at an
/// edge.
pub proof fn lemma_reversal_goes_with_mirroring(wraparound: bool, excursion: Excursion)
    ensures
        resolution_of(wraparound, excursion).reverse_velocity <==> (resolution_of(
            wraparound,
            excursion,
        ).placement == Placement::MirrorAtMin || resolution_of(wraparound, excursion).placement
            == Placement::MirrorAtMax),
{
}

} // verus!
