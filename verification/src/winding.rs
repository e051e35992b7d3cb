//! The winding of a ring: its signed area by the shoelace formula, the
//! direction that the sign stands for, and what reversing a ring does to both.

use vstd::prelude::*;
use crate::coord::{lemma_cross_properties, Coord};

verus! {

/// The direction in which a ring lists its coordinates.
#[derive(Clone, Copy, Debug, PartialEq, Eq, Hash, Structural)]
pub enum WindingOrder {
    Clockwise,
    CounterClockwise,
}

impl WindingOrder {
    /// The other direction, as a mathematical value.
    pub open spec fn spec_opposite(self) -> WindingOrder {
        match self {
            WindingOrder::Clockwise => WindingOrder::CounterClockwise,
            WindingOrder::CounterClockwise => WindingOrder::Clockwise,
        }
    }

    /// The other direction.
    #[verifier::when_used_as_spec(spec_opposite)]
    pub fn opposite(self) -> (r: WindingOrder)
        ensures
            r == self.spec_opposite(),
    {
        match self {
            WindingOrder::Clockwise => WindingOrder::CounterClockwise,
            WindingOrder::CounterClockwise => WindingOrder::Clockwise,
        }
    }
}

/// The place of a ring in a polygon.
#[derive(Clone, Copy, Debug, PartialEq, Eq, Hash, Structural)]
pub enum RingRole {
    /// The outer boundary.
    Exterior,
    /// The boundary of a hole.
    Interior,
}

impl RingRole {
    /// The winding of a ring in this place in a polygon in normal form, as a
    /// mathematical value.
    pub open spec fn spec_winding(self) -> WindingOrder {
        match self {
            RingRole::Exterior => WindingOrder::Clockwise,
            RingRole::Interior => WindingOrder::CounterClockwise,
        }
    }

    /// The winding of a ring in this place in a polygon in normal form:
    /// clockwise for the exterior ring, counter-clockwise for an interior
    /// ring.
    #[verifier::when_used_as_spec(spec_winding)]
    pub fn winding(self) -> (r: WindingOrder)
        ensures
            r == self.spec_winding(),
    {
        match self {
            RingRole::Exterior => WindingOrder::Clockwise,
            RingRole::Interior => WindingOrder::CounterClockwise,
        }
    }
}

/// The sum of the cross products of the first `n` edges of `ring`, where edge
/// `i` leads from `ring[i]` to `ring[i + 1]`.
pub open spec fn edge_sum(ring: Seq<Coord>, n: nat) -> int
    decreases n,
{
    if n == 0 {
        0
    } else {
        edge_sum(ring, (n - 1) as nat) + ring[n - 1].cross(ring[n as int])
    }
}

/// Twice the signed area that the shoelace formula gives for `ring`: the sum
/// of the cross products of all its edges. For a closed ring it is negative
/// where the ring runs clockwise and positive where it runs
/// counter-clockwise.
pub open spec fn twice_signed_area(ring: Seq<Coord>) -> int {
    if ring.len() == 0 {
        0
    } else {
        edge_sum(ring, (ring.len() - 1) as nat)
    }
}

/// A ring is closed when it is empty or ends on the coordinate it starts on.
pub open spec fn is_closed(ring: Seq<Coord>) -> bool {
    ring.len() == 0 || ring.first() == ring.last()
}

/// The winding of a ring: the direction that the sign of its signed area
/// stands for. A ring whose signed area is zero has none, and neither has a
/// line string that is not closed.
pub open spec fn winding_of(ring: Seq<Coord>) -> Option<WindingOrder> {
    if is_closed(ring) && twice_signed_area(ring) < 0 {
        Some(WindingOrder::Clockwise)
    } else if is_closed(ring) && twice_signed_area(ring) > 0 {
        Some(WindingOrder::CounterClockwise)
    } else {
        None
    }
}

/// Whether `found` is the direction opposite to `wanted`.
pub open spec fn spec_must_reverse(found: Option<WindingOrder>, wanted: WindingOrder) -> bool {
    found == Some(wanted.spec_opposite())
}

/// Whether a ring whose winding is `found` has to be reversed to run as
/// `wanted`: only where it runs the other way. A ring without a winding is
/// left as it is.
#[verifier::when_used_as_spec(spec_must_reverse)]
pub fn must_reverse(found: Option<WindingOrder>, wanted: WindingOrder) -> (r: bool)
    ensures
        r == spec_must_reverse(found, wanted),
{
    match found {
        Some(WindingOrder::Clockwise) => matches!(wanted, WindingOrder::CounterClockwise),
        Some(WindingOrder::CounterClockwise) => matches!(wanted, WindingOrder::Clockwise),
        None => false,
    }
}

/// `ring` made to run as `wanted`: reversed where it runs the other way, and
/// itself otherwise.
pub open spec fn oriented(ring: Seq<Coord>, wanted: WindingOrder) -> Seq<Coord> {
    if must_reverse(winding_of(ring), wanted) {
        ring.reverse()
    } else {
        ring
    }
}

/// Whether `after` has the shape of `before`: it is `before` or its
/// reversal, holds the same coordinates, each as often, and is closed exactly
/// when `before` is.
pub open spec fn ring_kept(before: Seq<Coord>, after: Seq<Coord>) -> bool {
    &&& after == before || after == before.reverse()
    &&& after.len() == before.len()
    &&& after.to_multiset() == before.to_multiset()
    &&& is_closed(after) == is_closed(before)
}

/// Whether `after` runs as `wanted` where `before` has a winding, and is
/// `before` where it has none; and, where `before` is closed, whether the
/// signed area of `after` has the magnitude of that of `before` and the sign
/// that `wanted` stands for.
pub open spec fn ring_runs_as(before: Seq<Coord>, after: Seq<Coord>, wanted: WindingOrder) -> bool {
    &&& winding_of(before) is Some ==> winding_of(after) == Some(wanted)
    &&& winding_of(before) is None ==> after == before
    &&& is_closed(before) ==> twice_signed_area(after) == match wanted {
        WindingOrder::Clockwise => -vstd::math::abs(twice_signed_area(before)),
        WindingOrder::CounterClockwise => vstd::math::abs(twice_signed_area(before)) as int,
    }
}

/// A copy of `items` in the opposite order.
pub fn reversed<T: Copy>(items: &[T]) -> (out: Vec<T>)
    ensures
        out@ == items@.reverse(),
{
    let n = items.len();
    let mut out: Vec<T> = Vec::with_capacity(n);
    let mut i: usize = n;
    while i > 0
        invariant
            n == items@.len(),
            i <= n,
            out@.len() == n - i,
            forall|j: int| 0 <= j < out@.len() ==> out@[j] == items@[n - 1 - j],
        decreases i,
    {
        i = i - 1;
        out.push(items[i]);
    }
    assert(out@ =~= items@.reverse());
    out
}

/// Edge `i` of the reversed ring is edge `len - 2 - i` of the ring, walked
/// backwards: the first `k` edges of the reversed ring sum to the negated sum
/// of the last `k` edges of the ring.
pub proof fn lemma_edge_sum_reverse(ring: Seq<Coord>, k: nat)
    requires
        k < ring.len(),
    ensures
        edge_sum(ring.reverse(), k) == edge_sum(ring, (ring.len() - 1 - k) as nat) - edge_sum(
            ring,
            (ring.len() - 1) as nat,
        ),
    decreases k,
{
    if k > 0 {
        let m = ring.len() - 1;
        lemma_edge_sum_reverse(ring, (k - 1) as nat);
        assert(ring.reverse()[k - 1] == ring[m - k + 1]);
        assert(ring.reverse()[k as int] == ring[m - k]);
        lemma_cross_properties(ring[m - k], ring[m - k + 1]);
        assert(edge_sum(ring, (m - k + 1) as nat) == edge_sum(ring, (m - k) as nat) + ring[m
            - k].cross(ring[m - k + 1]));
    }
}

/// Reversing a ring negates its signed area.
pub proof fn lemma_area_of_reverse(ring: Seq<Coord>)
    ensures
        twice_signed_area(ring.reverse()) == -twice_signed_area(ring),
{
    if ring.len() > 0 {
        lemma_edge_sum_reverse(ring, (ring.len() - 1) as nat);
    }
}

/// A ring is closed exactly when its reversal is.
pub proof fn lemma_reverse_keeps_closure(ring: Seq<Coord>)
    ensures
        is_closed(ring.reverse()) == is_closed(ring),
        ring.reverse().len() == ring.len(),
{
}

/// Reversing a ring turns a clockwise ring into a counter-clockwise one and
/// back, and leaves a ring without a winding without one.
pub proof fn lemma_winding_of_reverse(ring: Seq<Coord>)
    ensures
        winding_of(ring.reverse()) == match winding_of(ring) {
            Some(found) => Some(found.spec_opposite()),
            None => None,
        },
{
    lemma_area_of_reverse(ring);
    lemma_reverse_keeps_closure(ring);
}

/// An oriented ring runs as wanted, unless the ring has no winding: then its
/// oriented form is the ring itself. The signed area of a closed ring made to
/// run clockwise is the negated magnitude of the ring's signed area, and that
/// of one made to run counter-clockwise is the magnitude itself.
pub proof fn lemma_oriented_runs_as_wanted(ring: Seq<Coord>, wanted: WindingOrder)
    ensures
        ring_runs_as(ring, oriented(ring, wanted), wanted),
        !must_reverse(winding_of(oriented(ring, wanted)), wanted),
{
    lemma_winding_of_reverse(ring);
    lemma_area_of_reverse(ring);
}

/// A ring that need not be reversed is its own oriented form, and only such
/// a ring is.
pub proof fn lemma_oriented_fixed_point(ring: Seq<Coord>, wanted: WindingOrder)
    ensures
        oriented(ring, wanted) == ring <==> !must_reverse(winding_of(ring), wanted),
{
    lemma_winding_of_reverse(ring);
}

/// Orienting a ring a second time changes nothing.
pub proof fn lemma_oriented_twice(ring: Seq<Coord>, wanted: WindingOrder)
    ensures
        oriented(oriented(ring, wanted), wanted) == oriented(ring, wanted),
{
    lemma_oriented_runs_as_wanted(ring, wanted);
}

/// An oriented ring has the shape of the ring: it is the ring itself or its
/// reversal, holds the same coordinates, each as often as the ring does, and
/// is closed exactly when the ring is.
pub proof fn lemma_oriented_keeps_shape(ring: Seq<Coord>, wanted: WindingOrder)
    ensures
        ring_kept(ring, oriented(ring, wanted)),
{
    ring.lemma_reverse_to_multiset();
    lemma_reverse_keeps_closure(ring);
}

} // verus!
