use vstd::prelude::*;

verus! {

/// An axis-aligned rectangle in whole pixels.
#[derive(Clone, Copy, Debug, PartialEq, Eq, Structural)]
pub struct Rect {
    pub x_min: i32,
    pub x_max: i32,
    pub y_min: i32,
    pub y_max: i32,
}

pub open spec fn abs(v: int) -> int {
    if v < 0 {
        -v
    } else {
        v
    }
}

/// Growing `r` by the offsets' magnitudes stays within `i32`.
pub open spec fn expansion_fits(r: Rect, dx: int, dy: int) -> bool {
    &&& i32::MIN <= r.x_min - abs(dx)
    &&& r.x_max + abs(dx) <= i32::MAX
    &&& i32::MIN <= r.y_min - abs(dy)
    &&& r.y_max + abs(dy) <= i32::MAX
}

/// Tells whether `r` can grow by `|dx|` and `|dy|` within `i32`.
pub fn can_expand(r: Rect, dx: i32, dy: i32) -> (b: bool)
    ensures
        b == expansion_fits(r, dx as int, dy as int),
{
    let ax: i64 = if dx < 0 { -(dx as i64) } else { dx as i64 };
    let ay: i64 = if dy < 0 { -(dy as i64) } else { dy as i64 };
    i32::MIN as i64 <= r.x_min as i64 - ax && r.x_max as i64 + ax <= i32::MAX as i64
        && i32::MIN as i64 <= r.y_min as i64 - ay && r.y_max as i64 + ay <= i32::MAX as i64
}

/// The rectangle that holds `r` with room for a band offset by `(dx, dy)` and
/// one offset by `(-dx, -dy)`: `r` grown by `|dx|` on each x side and by
/// `|dy|` on each y side.
pub open spec fn expanded(r: Rect, dx: int, dy: int) -> Rect {
    Rect {
        x_min: (r.x_min - abs(dx)) as i32,
        x_max: (r.x_max + abs(dx)) as i32,
        y_min: (r.y_min - abs(dy)) as i32,
        y_max: (r.y_max + abs(dy)) as i32,
    }
}

/// `outer` holds `inner`.
pub open spec fn contains(outer: Rect, inner: Rect) -> bool {
    &&& outer.x_min <= inner.x_min
    &&& inner.x_max <= outer.x_max
    &&& outer.y_min <= inner.y_min
    &&& inner.y_max <= outer.y_max
}

/// The expanded rectangle holds the one it grew from, with `|dx|` more on
/// each x side and `|dy|` more on each y side.
pub proof fn lemma_expansion_contains(r: Rect, dx: int, dy: int)
    requires
        expansion_fits(r, dx, dy),
    ensures
        contains(expanded(r, dx, dy), r),
        expanded(r, dx, dy).x_min == r.x_min - abs(dx),
        expanded(r, dx, dy).x_max == r.x_max + abs(dx),
        expanded(r, dx, dy).y_min == r.y_min - abs(dy),
        expanded(r, dx, dy).y_max == r.y_max + abs(dy),
{
}

} // verus!
