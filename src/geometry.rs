//! Points and axis-aligned bounding-box overlap.
use vstd::prelude::*;

verus! {

/// A point or an extent in sub-units.
#[derive(Clone, Copy, Debug, PartialEq, Eq, Structural)]
pub struct Point {
    pub x: i64,
    pub y: i64,
}

/// Distance between two coordinates.
pub open spec fn gap(a: int, b: int) -> int {
    if a >= b { a - b } else { b - a }
}

/// Two boxes overlap iff, on each axis, their centres are closer than the sum of
/// their half extents.
pub open spec fn overlaps(pa: Point, ha: Point, pb: Point, hb: Point) -> bool {
    &&& gap(pa.x as int, pb.x as int) < ha.x + hb.x
    &&& gap(pa.y as int, pb.y as int) < ha.y + hb.y
}

/// Coordinates and extents small enough that the overlap test cannot overflow.
pub open spec fn in_range(p: Point) -> bool {
    -0x1000_0000_0000 <= p.x <= 0x1000_0000_0000 && -0x1000_0000_0000 <= p.y <= 0x1000_0000_0000
}

/// Overlap test of two boxes given by centre and half extents.
pub fn collide(pa: Point, ha: Point, pb: Point, hb: Point) -> (r: bool)
    requires
        in_range(pa),
        in_range(ha),
        in_range(pb),
        in_range(hb),
    ensures
        r == overlaps(pa, ha, pb, hb),
{
    let dx: i64 = if pa.x >= pb.x { pa.x - pb.x } else { pb.x - pa.x };
    let dy: i64 = if pa.y >= pb.y { pa.y - pb.y } else { pb.y - pa.y };
    dx < ha.x + hb.x && dy < ha.y + hb.y
}

} // verus!
