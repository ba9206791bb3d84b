use vstd::prelude::*;

verus! {

/// A normalized variation-axis location.
///
/// Each coordinate is a normalized axis value in 2.14 fixed point. An array
/// whose coordinates are all zero selects the same design-space point as the
/// font's default location, so it collapses to the canonical `Default`
/// representation: callers can never observe a difference between the two.
#[derive(Clone, Debug)]
pub enum VarLocation {
    Default,
    Coords(Vec<i16>),
}

/// Whether every coordinate in the array is zero.
pub open spec fn all_zero(coords: Seq<i16>) -> bool {
    forall|i: int| 0 <= i < coords.len() ==> coords[i] == 0
}

impl VarLocation {
    /// The effective coordinate array: the default location has no
    /// explicit coordinates.
    pub open spec fn coord_seq(self) -> Seq<i16> {
        match self {
            VarLocation::Default => Seq::empty(),
            VarLocation::Coords(c) => c@,
        }
    }

    /// The effective normalized value of axis `i`: zero wherever no
    /// explicit coordinate is stored.
    pub open spec fn axis_coord(self, i: int) -> i16 {
        if 0 <= i < self.coord_seq().len() {
            self.coord_seq()[i]
        } else {
            0
        }
    }

    /// Whether this is the canonical default-location representation.
    pub open spec fn is_canonical_default(self) -> bool {
        self is Default
    }

    /// Reports whether explicit coordinates are stored.
    pub fn has_coords(&self) -> (r: bool)
        ensures
            r == !self.is_canonical_default(),
    {
        match self {
            VarLocation::Default => false,
            VarLocation::Coords(_) => true,
        }
    }
}

/// Builds the cached variation location from the host's normalized
/// coordinate array.
///
/// An all-zero array collapses to the canonical default representation, so
/// no caller can distinguish it from a font left at its default location.
pub fn location_from_coords(coords: &Vec<i16>) -> (loc: VarLocation)
    ensures
        all_zero(coords@) ==> loc is Default,
        !all_zero(coords@) ==> (loc matches VarLocation::Coords(c) && c@ == coords@),
{
    let mut i: usize = 0;
    let mut zeros = true;
    while i < coords.len()
        invariant
            i <= coords@.len(),
            zeros == all_zero(coords@.take(i as int)),
        decreases coords@.len() - i,
    {
        if coords[i] != 0 {
            zeros = false;
        }
        proof {
            assert(coords@.take(i + 1).drop_last() =~= coords@.take(i as int));
            assert(coords@.take(i + 1).last() == coords@[i as int]);
        }
        i = i + 1;
    }
    proof {
        assert(coords@.take(coords@.len() as int) =~= coords@);
    }
    if zeros {
        VarLocation::Default
    } else {
        VarLocation::Coords(coords.clone())
    }
}

} // verus!
