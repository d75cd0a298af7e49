//! Points, hit circles and axis-aligned boxes, and the test that tells
//! whether a circle touches a box.

use vstd::prelude::*;

verus! {

/// A point or a displacement on the playfield, in units.
#[derive(Clone, Copy, Debug, PartialEq, Eq, Structural)]
pub struct Vec2 {
    pub x: i64,
    pub y: i64,
}

/// A circular collision primitive.
#[derive(Clone, Copy, Debug, PartialEq, Eq, Structural)]
pub struct HitCircle {
    pub center: Vec2,
    pub radius: i64,
}

/// An axis-aligned box, given by its lower left and upper right corners.
#[derive(Clone, Copy, Debug, PartialEq, Eq, Structural)]
pub struct Aabb {
    pub min: Vec2,
    pub max: Vec2,
}

/// `v` moved into the interval from `low` to `high`.
pub open spec fn clamp_int(v: int, low: int, high: int) -> int {
    if v < low {
        low
    } else if v > high {
        high
    } else {
        v
    }
}

/// The square of the distance between two points.
pub open spec fn squared_distance(ax: int, ay: int, bx: int, by: int) -> int {
    (ax - bx) * (ax - bx) + (ay - by) * (ay - by)
}

impl HitCircle {
    /// A circle is well formed when its radius is not negative.
    pub open spec fn wf(self) -> bool {
        self.radius >= 0
    }

    /// Whether the point `(x, y)` lies in the closed disc.
    pub open spec fn covers(self, x: int, y: int) -> bool {
        squared_distance(x, y, self.center.x as int, self.center.y as int) <= self.radius
            * self.radius
    }

    /// The circle touches the box exactly when the point of the box that is
    /// nearest to the circle's center lies in the closed disc.
    pub open spec fn touches(self, target: Aabb) -> bool {
        self.covers(target.nearest_x(self.center.x as int), target.nearest_y(self.center.y as int))
    }

    /// Tests the circle against a box.
    pub fn intersects(&self, target: &Aabb) -> (hit: bool)
        requires
            self.wf(),
            target.wf(),
        ensures
            hit == self.touches(*target),
    {
        let near_x: i64 = clamp_coordinate(self.center.x, target.min.x, target.max.x);
        let near_y: i64 = clamp_coordinate(self.center.y, target.min.y, target.max.y);
        let dx: i128 = near_x as i128 - self.center.x as i128;
        let dy: i128 = near_y as i128 - self.center.y as i128;
        let r: i128 = self.radius as i128;
        if dx > r || dx < -r {
            proof {
                lemma_square_exceeds(dx as int, r as int);
                lemma_square_nonnegative(dy as int);
            }
            return false;
        }
        if dy > r || dy < -r {
            proof {
                lemma_square_exceeds(dy as int, r as int);
                lemma_square_nonnegative(dx as int);
            }
            return false;
        }
        proof {
            lemma_square_bounded(dx as int, r as int);
            lemma_square_bounded(dy as int, r as int);
            lemma_square_bounded(r as int, 0x7fff_ffff_ffff_ffff);
        }
        dx * dx + dy * dy <= r * r
    }
}

impl Aabb {
    /// A box is well formed when its corners are in order.
    pub open spec fn wf(self) -> bool {
        self.min.x <= self.max.x && self.min.y <= self.max.y
    }

    /// Whether the point `(x, y)` lies in the closed box.
    pub open spec fn contains(self, x: int, y: int) -> bool {
        self.min.x <= x <= self.max.x && self.min.y <= y <= self.max.y
    }

    /// The horizontal coordinate of the point of the box nearest to `x`.
    pub open spec fn nearest_x(self, x: int) -> int {
        clamp_int(x, self.min.x as int, self.max.x as int)
    }

    /// The vertical coordinate of the point of the box nearest to `y`.
    pub open spec fn nearest_y(self, y: int) -> int {
        clamp_int(y, self.min.y as int, self.max.y as int)
    }
}

/// `v` moved into the interval from `low` to `high`.
pub fn clamp_coordinate(v: i64, low: i64, high: i64) -> (clamped: i64)
    requires
        low <= high,
    ensures
        clamped == clamp_int(v as int, low as int, high as int),
{
    if v < low {
        low
    } else if v > high {
        high
    } else {
        v
    }
}

proof fn lemma_square_nonnegative(a: int)
    ensures
        a * a >= 0,
{
    assert(a * a >= 0) by (nonlinear_arith);
}

proof fn lemma_square_exceeds(a: int, r: int)
    requires
        r >= 0,
        a > r || a < -r,
    ensures
        a * a > r * r,
{
    assert(a * a > r * r) by (nonlinear_arith)
        requires
            r >= 0,
            a > r || a < -r,
    ;
}

proof fn lemma_square_bounded(a: int, r: int)
    requires
        r >= 0,
        -r <= a <= r,
    ensures
        0 <= a * a <= r * r,
{
    assert(0 <= a * a <= r * r) by (nonlinear_arith)
        requires
            r >= 0,
            -r <= a <= r,
    ;
}

/// A circle touches a box exactly when some point of the box lies in the
/// closed disc: no point of the box is nearer to the center than the
/// nearest one.
pub proof fn law_touch_is_shared_point(circle: HitCircle, target: Aabb)
    requires
        circle.wf(),
        target.wf(),
    ensures
        circle.touches(target) <==> exists|x: int, y: int|
            #[trigger] target.contains(x, y) && circle.covers(x, y),
{
    let cx = circle.center.x as int;
    let cy = circle.center.y as int;
    let nx = target.nearest_x(cx);
    let ny = target.nearest_y(cy);
    if circle.touches(target) {
        assert(target.contains(nx, ny) && circle.covers(nx, ny));
    }
    if exists|x: int, y: int| #[trigger] target.contains(x, y) && circle.covers(x, y) {
        let (x, y) = choose|x: int, y: int| #[trigger]
            target.contains(x, y) && circle.covers(x, y);
        lemma_nearer_square(nx - cx, x - cx);
        lemma_nearer_square(ny - cy, y - cy);
    }
}

/// Of two offsets on the same side of zero, the one nearer to zero has the
/// smaller square.
proof fn lemma_nearer_square(near: int, far: int)
    requires
        (0 <= near <= far) || (far <= near <= 0),
    ensures
        near * near <= far * far,
{
    assert(near * near <= far * far) by (nonlinear_arith)
        requires
            (0 <= near <= far) || (far <= near <= 0),
    ;
}

} // verus!
