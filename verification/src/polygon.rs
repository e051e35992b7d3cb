//! Polygons: an exterior ring and the interior rings that bound its holes.

use vstd::prelude::*;
use crate::coord::Coord;
use crate::line_string::{closed_form, rings_view, LineString};
use crate::winding::is_closed;

verus! {

/// An exterior ring and any number of interior rings. Every ring of a polygon
/// is closed: [`Polygon::new`] closes the rings it is given.
#[derive(Debug, PartialEq, Eq, Hash)]
pub struct Polygon {
    exterior: LineString,
    interiors: Vec<LineString>,
}

/// A polygon as a mathematical value: the coordinates of its rings.
pub struct PolygonView {
    pub exterior: Seq<Coord>,
    pub interiors: Seq<Seq<Coord>>,
}

impl PolygonView {
    /// Whether every ring is closed.
    pub open spec fn rings_closed(self) -> bool {
        &&& is_closed(self.exterior)
        &&& forall|i: int| 0 <= i < self.interiors.len() ==> is_closed(#[trigger] self.interiors[i])
    }
}

impl View for Polygon {
    type V = PolygonView;

    closed spec fn view(&self) -> PolygonView {
        PolygonView { exterior: self.exterior@, interiors: rings_view(self.interiors@) }
    }
}

impl Clone for Polygon {
    fn clone(&self) -> (out: Self)
        ensures
            out@ == self@,
    {
        proof {
            use_type_invariant(self);
        }
        let exterior = self.exterior.clone();
        let mut interiors: Vec<LineString> = Vec::with_capacity(self.interiors.len());
        let mut i: usize = 0;
        while i < self.interiors.len()
            invariant
                i <= self.interiors.len(),
                interiors@.len() == i,
                forall|j: int| 0 <= j < i ==> interiors@[j]@ == self.interiors@[j]@,
            decreases self.interiors.len() - i,
        {
            interiors.push(self.interiors[i].clone());
            i = i + 1;
        }
        assert(rings_view(interiors@) =~= rings_view(self.interiors@));
        Polygon { exterior, interiors }
    }
}

impl Polygon {
    #[verifier::type_invariant]
    spec fn closed_rings(&self) -> bool {
        self@.rings_closed()
    }

    /// A polygon of the given rings, each closed first where it is not closed
    /// already.
    pub fn new(exterior: LineString, interiors: Vec<LineString>) -> (out: Polygon)
        ensures
            out@.exterior == closed_form(exterior@),
            out@.interiors == rings_view(interiors@).map_values(|ring: Seq<Coord>| closed_form(ring)),
            out@.rings_closed(),
    {
        let mut exterior = exterior;
        let mut interiors = interiors;
        let ghost given = interiors@;
        exterior.close();
        let mut i: usize = 0;
        while i < interiors.len()
            invariant
                i <= interiors.len(),
                interiors.len() == given.len(),
                forall|j: int| 0 <= j < i ==> interiors@[j]@ == closed_form(given[j]@),
                forall|j: int| i <= j < given.len() ==> interiors@[j] == given[j],
            decreases interiors.len() - i,
        {
            interiors[i].close();
            i = i + 1;
        }
        let out = Polygon { exterior, interiors };
        assert(out@.interiors =~= rings_view(given).map_values(|ring: Seq<Coord>| closed_form(ring)));
        out
    }

    /// The exterior ring.
    pub fn exterior(&self) -> (ring: &LineString)
        ensures
            ring@ == self@.exterior,
            is_closed(ring@),
    {
        proof {
            use_type_invariant(self);
        }
        &self.exterior
    }

    /// The interior rings, in order.
    pub fn interiors(&self) -> (rings: &[LineString])
        ensures
            rings_view(rings@) == self@.interiors,
            forall|i: int| 0 <= i < rings@.len() ==> is_closed(#[trigger] rings@[i]@),
    {
        proof {
            use_type_invariant(self);
            assert forall|i: int| 0 <= i < self.interiors@.len() implies is_closed(
                #[trigger] self.interiors@[i]@,
            ) by {
                assert(self@.interiors[i] == self.interiors@[i]@);
            }
        }
        self.interiors.as_slice()
    }

    /// The exterior ring and the interior rings.
    pub fn into_inner(self) -> (rings: (LineString, Vec<LineString>))
        ensures
            rings.0@ == self@.exterior,
            rings_view(rings.1@) == self@.interiors,
    {
        (self.exterior, self.interiors)
    }
}

} // verus!
