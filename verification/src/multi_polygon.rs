//! Ordered lists of polygons.

use vstd::prelude::*;
use crate::polygon::{Polygon, PolygonView};

verus! {

/// An ordered list of polygons.
#[derive(Debug, PartialEq, Eq, Hash)]
pub struct MultiPolygon(pub Vec<Polygon>);

impl View for MultiPolygon {
    type V = Seq<PolygonView>;

    open spec fn view(&self) -> Seq<PolygonView> {
        self.0@.map_values(|polygon: Polygon| polygon@)
    }
}

impl Clone for MultiPolygon {
    fn clone(&self) -> (out: Self)
        ensures
            out@ == self@,
    {
        let mut polygons: Vec<Polygon> = Vec::with_capacity(self.0.len());
        let mut i: usize = 0;
        while i < self.0.len()
            invariant
                i <= self.0.len(),
                polygons@.len() == i,
                forall|j: int| 0 <= j < i ==> polygons@[j]@ == self.0@[j]@,
            decreases self.0.len() - i,
        {
            polygons.push(self.0[i].clone());
            i = i + 1;
        }
        let out = MultiPolygon(polygons);
        assert(out@ =~= self@);
        out
    }
}

impl MultiPolygon {
    /// The list of `polygons`, in order.
    pub fn new(polygons: Vec<Polygon>) -> (out: MultiPolygon)
        ensures
            out.0 == polygons,
    {
        MultiPolygon(polygons)
    }
}

} // verus!
