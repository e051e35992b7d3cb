//! Line strings: the sequences of coordinates that rings are made of.

use vstd::prelude::*;
use crate::coord::{lemma_cross_properties, Coord};
use crate::winding::{
    edge_sum, is_closed, lemma_area_of_reverse, lemma_reverse_keeps_closure, must_reverse,
    oriented, reversed, twice_signed_area, winding_of, WindingOrder,
};

verus! {

/// An ordered sequence of coordinates. As a ring it is walked from its first
/// coordinate to its last, which for a closed ring repeats the first.
#[derive(Debug, PartialEq, Eq, Hash)]
pub struct LineString(pub Vec<Coord>);

impl View for LineString {
    type V = Seq<Coord>;

    open spec fn view(&self) -> Seq<Coord> {
        self.0@
    }
}

/// The coordinates of each of `rings`, in order.
pub open spec fn rings_view(rings: Seq<LineString>) -> Seq<Seq<Coord>> {
    rings.map_values(|ring: LineString| ring@)
}

/// `ring` with its first coordinate repeated at the end, unless it is closed
/// already.
pub open spec fn closed_form(ring: Seq<Coord>) -> Seq<Coord> {
    if is_closed(ring) {
        ring
    } else {
        ring.push(ring.first())
    }
}

impl Clone for LineString {
    fn clone(&self) -> (out: Self)
        ensures
            out@ == self@,
    {
        let mut coords: Vec<Coord> = Vec::with_capacity(self.0.len());
        let mut i: usize = 0;
        while i < self.0.len()
            invariant
                i <= self.0.len(),
                coords@ == self.0@.take(i as int),
            decreases self.0.len() - i,
        {
            coords.push(self.0[i]);
            i = i + 1;
        }
        LineString(coords)
    }
}

impl From<Vec<(i32, i32)>> for LineString {
    /// The line string through the given `(x, y)` pairs, in order.
    fn from(pairs: Vec<(i32, i32)>) -> (out: LineString)
        ensures
            out@ == pairs@.map_values(|pair: (i32, i32)| Coord { x: pair.0, y: pair.1 }),
    {
        let mut coords: Vec<Coord> = Vec::with_capacity(pairs.len());
        let mut i: usize = 0;
        while i < pairs.len()
            invariant
                i <= pairs.len(),
                coords@.len() == i,
                forall|j: int|
                    0 <= j < i ==> coords@[j] == (Coord { x: pairs@[j].0, y: pairs@[j].1 }),
            decreases pairs.len() - i,
        {
            coords.push(Coord::from(pairs[i]));
            i = i + 1;
        }
        let out = LineString(coords);
        assert(out@ =~= pairs@.map_values(|pair: (i32, i32)| Coord { x: pair.0, y: pair.1 }));
        out
    }
}

/// The conversion from pairs builds a new vector, which no mathematical
/// value can name: what it returns is stated by the contract of `from`.
impl vstd::std_specs::convert::FromSpecImpl<Vec<(i32, i32)>> for LineString {
    open spec fn obeys_from_spec() -> bool {
        false
    }

    open spec fn from_spec(pairs: Vec<(i32, i32)>) -> LineString {
        arbitrary()
    }
}

impl LineString {
    /// The line string through `coords`, in order.
    pub fn new(coords: Vec<Coord>) -> (out: LineString)
        ensures
            out@ == coords@,
    {
        LineString(coords)
    }

    /// Whether the line string is empty or ends where it starts.
    pub fn is_closed(&self) -> (r: bool)
        ensures
            r == is_closed(self@),
    {
        let n = self.0.len();
        n == 0 || self.0[0] == self.0[n - 1]
    }

    /// Closes the line string: repeats its first coordinate at the end unless
    /// it is closed already.
    pub fn close(&mut self)
        ensures
            final(self)@ == closed_form(old(self)@),
    {
        if !self.is_closed() {
            let first = self.0[0];
            self.0.push(first);
        }
    }

    /// Twice the signed area that the shoelace formula gives, computed
    /// exactly: the sum of up to `usize::MAX` cross products of `i32`
    /// coordinates always fits an `i128`.
    pub fn twice_signed_area(&self) -> (area: i128)
        ensures
            area == twice_signed_area(self@),
    {
        let n = self.0.len();
        if n == 0 {
            return 0;
        }
        let mut area: i128 = 0;
        let mut i: usize = 1;
        while i < n
            invariant
                n == self.0@.len(),
                1 <= i <= n,
                area == edge_sum(self@, (i - 1) as nat),
                -(i - 1) * 0x8000_0000_0000_0000 <= area <= (i - 1) * 0x8000_0000_0000_0000,
            decreases n - i,
        {
            proof {
                lemma_cross_properties(self@[i - 1], self@[i as int]);
            }
            let edge: i64 = self.0[i - 1].cross_product(self.0[i]);
            area = area + edge as i128;
            i = i + 1;
        }
        area
    }

    /// The winding of the line string taken as a ring, from the sign of its
    /// signed area; `None` where that area is zero or the line string is not
    /// closed.
    pub fn winding_order(&self) -> (w: Option<WindingOrder>)
        ensures
            w == winding_of(self@),
    {
        if !self.is_closed() {
            return None;
        }
        let area = self.twice_signed_area();
        if area < 0 {
            Some(WindingOrder::Clockwise)
        } else if area > 0 {
            Some(WindingOrder::CounterClockwise)
        } else {
            None
        }
    }

    /// Whether the ring runs clockwise: it is closed and its signed area is
    /// negative.
    pub fn is_clockwise(&self) -> (r: bool)
        ensures
            r == (is_closed(self@) && twice_signed_area(self@) < 0),
            r == (winding_of(self@) == Some(WindingOrder::Clockwise)),
    {
        self.is_closed() && self.twice_signed_area() < 0
    }

    /// Whether the ring runs counter-clockwise: it is closed and its signed
    /// area is positive.
    pub fn is_counter_clockwise(&self) -> (r: bool)
        ensures
            r == (is_closed(self@) && twice_signed_area(self@) > 0),
            r == (winding_of(self@) == Some(WindingOrder::CounterClockwise)),
    {
        self.is_closed() && self.twice_signed_area() > 0
    }

    /// The same coordinates in the opposite order. A closed ring stays
    /// closed, and runs the other way.
    pub fn reversed(&self) -> (out: LineString)
        ensures
            out@ == self@.reverse(),
            out@.len() == self@.len(),
            out@.to_multiset() == self@.to_multiset(),
            is_closed(out@) == is_closed(self@),
            twice_signed_area(out@) == -twice_signed_area(self@),
    {
        proof {
            self@.lemma_reverse_to_multiset();
            lemma_reverse_keeps_closure(self@);
            lemma_area_of_reverse(self@);
        }
        LineString(reversed(self.0.as_slice()))
    }

    /// The ring made to run as `wanted`: reversed where it runs the other
    /// way, and copied as it is otherwise, also where it has no winding.
    pub fn oriented(&self, wanted: WindingOrder) -> (out: LineString)
        ensures
            out@ == oriented(self@, wanted),
    {
        if must_reverse(self.winding_order(), wanted) {
            self.reversed()
        } else {
            self.clone()
        }
    }
}

} // verus!
