//! The slot arithmetic behind a level's storage: every `Point` has one slot
//! in a fixed arena, and slots are visited in the order of `Point`'s `Ord`
//! (by `x`, then by `y`).
use vstd::prelude::*;
use crate::cell::Point;

verus! {

/// The number of slots: one for each pair of `i8` coordinates.
pub const SLOTS: usize = 65536;

/// The slot that holds `p`.
pub open spec fn slot_of(p: Point) -> int {
    (p.x as int + 128) * 256 + (p.y as int + 128)
}

/// The point that slot `i` holds.
pub open spec fn point_at(i: int) -> Point {
    Point { x: (i / 256 - 128) as i8, y: (i % 256 - 128) as i8 }
}

/// Slots and points correspond one to one.
pub proof fn lemma_slot_of_point(p: Point)
    ensures
        0 <= slot_of(p) < SLOTS,
        point_at(slot_of(p)) == p,
{
    let i = slot_of(p);
    assert(i / 256 == p.x as int + 128);
    assert(i % 256 == p.y as int + 128);
}

/// Slots and points correspond one to one.
pub proof fn lemma_point_at_slot(i: int)
    requires
        0 <= i < SLOTS,
    ensures
        slot_of(point_at(i)) == i,
{
    assert(0 <= i / 256 < 256);
    assert(0 <= i % 256 < 256);
    assert(i == (i / 256) * 256 + i % 256);
}

/// Two points share a slot only if they are equal.
pub proof fn lemma_slot_injective(p: Point, q: Point)
    ensures
        slot_of(p) == slot_of(q) ==> p == q,
{
    lemma_slot_of_point(p);
    lemma_slot_of_point(q);
}

/// Computes `slot_of`.
pub fn slot(p: Point) -> (r: usize)
    ensures
        r == slot_of(p),
        r < SLOTS,
{
    let hi = (p.x as i16 + 128) as usize;
    let lo = (p.y as i16 + 128) as usize;
    hi * 256 + lo
}

/// Computes `point_at`.
pub fn point_of_slot(i: usize) -> (r: Point)
    requires
        i < SLOTS,
    ensures
        r == point_at(i as int),
        slot_of(r) == i,
{
    proof {
        lemma_point_at_slot(i as int);
    }
    let hi = (i / 256) as i16;
    let lo = (i % 256) as i16;
    Point { x: (hi - 128) as i8, y: (lo - 128) as i8 }
}

} // verus!
