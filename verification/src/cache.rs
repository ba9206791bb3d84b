use vstd::prelude::*;

use crate::location::VarLocation;
use crate::location::all_zero;
use crate::location::location_from_coords;
use crate::numeric::scale_round;
use crate::numeric::scale_round_spec;

verus! {

/// What the host currently reports about a font handle: its change
/// token and the settings the derived state depends on.
pub struct HostFontSettings {
    pub serial: u32,
    pub x_scale: i32,
    pub y_scale: i32,
    pub coords: Vec<i16>,
}

/// The cached per-font derived state: the last change token observed
/// from the host, the scale ratio numerators, the font's units per em,
/// and the normalized variation location.
///
/// The fields are recomputed together, so a caller that sees the cached
/// token equal to the host's token sees scales and location derived from
/// that same host state, never a torn mixture. Callers that may run
/// concurrently serialize their calls to `ensure_fresh` around this
/// value; the derivation itself is a pure function of the host settings,
/// so every racer that recomputes produces the same state.
pub struct ScaledMetricsCache {
    pub serial: u32,
    pub x_scale: i32,
    pub y_scale: i32,
    pub upem: u32,
    pub location: VarLocation,
}

impl ScaledMetricsCache {
    /// The units-per-em divisor is usable.
    pub open spec fn wf(self) -> bool {
        self.upem > 0
    }

    /// The cached state is exactly what the given host settings derive
    /// to: token, scales, and the variation location with its all-zero
    /// collapse.
    pub open spec fn consistent_with(self, host: HostFontSettings) -> bool {
        self.serial == host.serial && self.x_scale == host.x_scale && self.y_scale == host.y_scale
            && (if all_zero(host.coords@) {
            self.location is Default
        } else {
            self.location matches VarLocation::Coords(c) && c@ == host.coords@
        })
    }

    /// Builds the state for a new font handle and derives it from the
    /// host's current settings at once.
    pub fn new(upem: u32, host: &HostFontSettings) -> (r: ScaledMetricsCache)
        requires
            upem > 0,
        ensures
            r.wf(),
            r.upem == upem,
            r.consistent_with(*host),
    {
        ScaledMetricsCache {
            serial: host.serial,
            x_scale: host.x_scale,
            y_scale: host.y_scale,
            upem,
            location: location_from_coords(&host.coords),
        }
    }

    /// Brings the derived state up to date with the host's settings.
    ///
    /// Fast path: when the host's change token equals the cached one the
    /// state is left untouched. Slow path: everything is rederived from
    /// the host settings in one step, and the new token is stored with
    /// the rest, so the state is consistent with the host as of this
    /// call.
    pub fn ensure_fresh(&mut self, host: &HostFontSettings)
        requires
            old(self).wf(),
        ensures
            final(self).wf(),
            final(self).upem == old(self).upem,
            host.serial == old(self).serial ==> *final(self) == *old(self),
            host.serial != old(self).serial ==> final(self).consistent_with(*host),
            old(self).consistent_with(*host) ==> final(self).consistent_with(*host),
    {
        if host.serial == self.serial {
            return;
        }
        self.serial = host.serial;
        self.x_scale = host.x_scale;
        self.y_scale = host.y_scale;
        self.location = location_from_coords(&host.coords);
    }

    /// Carries a horizontal font-unit value into host space with the
    /// cached ratio: `round(v * x_scale / upem)`.
    pub fn scale_x(&self, v: i64) -> (r: i64)
        requires
            self.wf(),
            -0x8000_0000 <= v < 0x8000_0000,
        ensures
            r == scale_round_spec(v as int, self.x_scale as int, self.upem as int),
    {
        scale_round(v, self.x_scale, self.upem)
    }

    /// Carries a vertical font-unit value into host space with the
    /// cached ratio: `round(v * y_scale / upem)`.
    pub fn scale_y(&self, v: i64) -> (r: i64)
        requires
            self.wf(),
            -0x8000_0000 <= v < 0x8000_0000,
        ensures
            r == scale_round_spec(v as int, self.y_scale as int, self.upem as int),
    {
        scale_round(v, self.y_scale, self.upem)
    }
}

/// Law: rederiving from equal host settings yields equal cached state,
/// so of two callers racing through a cache miss, whichever recomputation
/// lands, every later reader observes the same derived values.
pub proof fn lemma_refresh_deterministic(
    a: ScaledMetricsCache,
    b: ScaledMetricsCache,
    host: HostFontSettings,
)
    requires
        a.consistent_with(host),
        b.consistent_with(host),
    ensures
        a.serial == b.serial,
        a.x_scale == b.x_scale,
        a.y_scale == b.y_scale,
        a.location.coord_seq() == b.location.coord_seq(),
{
    if all_zero(host.coords@) {
    } else {
        assert(a.location.coord_seq() == host.coords@);
    }
}

} // verus!
