//! Plane geometry for the canvas: integer-coordinate points and the open-disk
//! proximity test that the eraser uses.

use vstd::prelude::*;

verus! {

/// A canvas coordinate. Coordinates are whole canvas units; the interactive
/// shell rounds device positions to the nearest unit before they reach the
/// model.
#[derive(Copy, Clone, PartialEq, Eq, Structural, Debug)]
pub struct Point {
    pub x: i32,
    pub y: i32,
}

/// The squared Euclidean distance between two points.
pub open spec fn dist_sq(a: Point, b: Point) -> int {
    (a.x - b.x) * (a.x - b.x) + (a.y - b.y) * (a.y - b.y)
}

/// Whether `p` lies strictly inside the disk of radius `r` around `c`.
pub open spec fn in_disk(p: Point, c: Point, r: u32) -> bool {
    dist_sq(p, c) < r * r
}

/// Decides `in_disk(p, c, r)` without overflow by comparing squared
/// distances in 128-bit arithmetic.
pub fn point_in_disk(p: Point, c: Point, r: u32) -> (hit: bool)
    ensures
        hit == in_disk(p, c, r),
{
    let dx: i128 = p.x as i128 - c.x as i128;
    let dy: i128 = p.y as i128 - c.y as i128;
    let rr: i128 = r as i128;
    proof {
        assert(dx * dx == (p.x - c.x) * (p.x - c.x) && dy * dy == (p.y - c.y) * (p.y - c.y))
            by (nonlinear_arith)
            requires
                dx == p.x - c.x,
                dy == p.y - c.y,
        ;
        assert(0 <= dx * dx <= 0x1_0000_0000_0000_0000i128 && 0 <= dy * dy
            <= 0x1_0000_0000_0000_0000i128) by (nonlinear_arith)
            requires
                -0x1_0000_0000 <= dx <= 0x1_0000_0000,
                -0x1_0000_0000 <= dy <= 0x1_0000_0000,
        ;
        assert(0 <= rr * rr <= 0x1_0000_0000_0000_0000i128) by (nonlinear_arith)
            requires
                0 <= rr <= 0x1_0000_0000,
        ;
    }
    dx * dx + dy * dy < rr * rr
}

} // verus!
