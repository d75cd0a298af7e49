//! The body: its pose, its two hit circles, and how gravity and a flap
//! move it.

use vstd::prelude::*;
use crate::geometry::{HitCircle, Vec2};
use crate::tuning::{
    COORD_LIMIT, DIAMETER_IN_RADII, GRAVITY, HEAD_OFFSET_X, HEAD_OFFSET_Y, IMPULSE, RADIUS_LIMIT,
    SPEED_LIMIT, TORSO_OFFSET_X, TORSO_OFFSET_Y, VIEW_LIMIT,
};
use crate::viewport::Viewport;

verus! {

/// The entity that the player steers.
#[derive(Clone, Copy, Debug, PartialEq, Eq, Structural)]
pub struct Body {
    pub position: Vec2,
    pub velocity: Vec2,
    /// The radius of the hit circle around the torso.
    pub torso_radius: i64,
    /// The radius of the hit circle around the head.
    pub head_radius: i64,
}

/// The largest value that `Body::energy` takes during a game: that of a
/// body that flaps at the top of the largest visible area.
pub open spec fn energy_limit() -> int {
    -GRAVITY * VIEW_LIMIT + IMPULSE * (IMPULSE + GRAVITY)
}

impl Body {
    /// A body is well formed when its radii lie between zero and
    /// `RADIUS_LIMIT`, its position within `COORD_LIMIT` of the origin and
    /// its velocity within `SPEED_LIMIT`.
    pub open spec fn wf(self) -> bool {
        &&& 0 <= self.torso_radius <= RADIUS_LIMIT
        &&& 0 <= self.head_radius <= RADIUS_LIMIT
        &&& -COORD_LIMIT <= self.position.x <= COORD_LIMIT
        &&& -COORD_LIMIT <= self.position.y <= COORD_LIMIT
        &&& -SPEED_LIMIT <= self.velocity.x <= SPEED_LIMIT
        &&& -SPEED_LIMIT <= self.velocity.y <= SPEED_LIMIT
    }

    /// What gravity leaves unchanged from tick to tick: the height, scaled
    /// by twice the pull of gravity, and the part that the vertical speed
    /// stands for.
    pub open spec fn energy(self) -> int {
        -2 * GRAVITY * self.position.y + self.velocity.y * (self.velocity.y + GRAVITY)
    }

    /// What holds of the body throughout a game: it does not move
    /// sideways, it rises no faster than a flap lets it, it has not fallen
    /// below every possible visible area, and its energy is at most that of
    /// a flap at the top of the largest visible area.
    pub open spec fn in_flight(self) -> bool {
        &&& 0 <= self.torso_radius <= RADIUS_LIMIT
        &&& 0 <= self.head_radius <= RADIUS_LIMIT
        &&& -COORD_LIMIT <= self.position.x <= COORD_LIMIT
        &&& self.velocity.x == 0
        &&& self.velocity.y <= IMPULSE
        &&& -VIEW_LIMIT <= self.position.y
        &&& self.energy() <= energy_limit()
    }

    /// The body's diameter, which the width of a hole is measured in.
    pub open spec fn diameter(self) -> int {
        DIAMETER_IN_RADII * self.torso_radius
    }

    /// The horizontal position at which the body is held: two torso radii
    /// right of the left edge of the visible area.
    pub open spec fn anchor_x(viewport: Viewport, torso_radius: i64) -> int {
        viewport.left() + 2 * torso_radius
    }

    /// The pose in which a body of the given radii starts a game: at rest,
    /// at its horizontal anchor, at the height of the middle of the visible
    /// area.
    pub open spec fn spawn_pose(viewport: Viewport, torso_radius: i64, head_radius: i64) -> Body {
        Body {
            position: Vec2 { x: Body::anchor_x(viewport, torso_radius) as i64, y: 0 },
            velocity: Vec2 { x: 0, y: 0 },
            torso_radius,
            head_radius,
        }
    }

    /// The body at its horizontal anchor in `viewport`, otherwise
    /// unchanged.
    pub open spec fn anchored(self, viewport: Viewport) -> Body {
        Body {
            position: Vec2 {
                x: Body::anchor_x(viewport, self.torso_radius) as i64,
                y: self.position.y,
            },
            ..self
        }
    }

    /// The body after a flap: the vertical velocity becomes `IMPULSE`,
    /// whatever it was, provided that the body is below the top of the
    /// visible area; else the flap is not accepted.
    pub open spec fn flapped(self, viewport: Viewport) -> Body {
        if self.position.y < viewport.top() {
            Body { velocity: Vec2 { x: self.velocity.x, y: IMPULSE }, ..self }
        } else {
            self
        }
    }

    /// The body one tick later: gravity is added to the vertical velocity,
    /// then the velocity to the position.
    pub open spec fn fallen(self) -> Body {
        Body {
            position: Vec2 {
                x: (self.position.x + self.velocity.x) as i64,
                y: (self.position.y + self.velocity.y + GRAVITY) as i64,
            },
            velocity: Vec2 { x: self.velocity.x, y: (self.velocity.y + GRAVITY) as i64 },
            ..self
        }
    }

    /// The hit circle around the torso, at a fixed offset from the body's
    /// position.
    pub open spec fn torso_circle(self) -> HitCircle {
        HitCircle {
            center: Vec2 {
                x: (self.position.x + TORSO_OFFSET_X) as i64,
                y: (self.position.y + TORSO_OFFSET_Y) as i64,
            },
            radius: self.torso_radius,
        }
    }

    /// The hit circle around the head, at a fixed offset from the body's
    /// position.
    pub open spec fn head_circle(self) -> HitCircle {
        HitCircle {
            center: Vec2 {
                x: (self.position.x + HEAD_OFFSET_X) as i64,
                y: (self.position.y + HEAD_OFFSET_Y) as i64,
            },
            radius: self.head_radius,
        }
    }

    /// A body of the given radii in its spawn pose, or nothing if a radius
    /// is negative or above `RADIUS_LIMIT`.
    pub fn new(viewport: &Viewport, torso_radius: i64, head_radius: i64) -> (made: Option<Body>)
        requires
            viewport.wf(),
        ensures
            made.is_some() <==> 0 <= torso_radius <= RADIUS_LIMIT && 0 <= head_radius
                <= RADIUS_LIMIT,
            made.is_some() ==> made.unwrap() == Body::spawn_pose(
                *viewport,
                torso_radius,
                head_radius,
            ),
            made.is_some() ==> made.unwrap().wf() && made.unwrap().in_flight(),
    {
        if 0 <= torso_radius && torso_radius <= RADIUS_LIMIT && 0 <= head_radius && head_radius
            <= RADIUS_LIMIT {
            let body = Body {
                position: Vec2 { x: -(viewport.width / 2) + 2 * torso_radius, y: 0 },
                velocity: Vec2 { x: 0, y: 0 },
                torso_radius,
                head_radius,
            };
            proof {
                lemma_energy_at_rest(body);
            }
            Some(body)
        } else {
            None
        }
    }

    /// Puts the body back into its spawn pose.
    pub fn reset(&mut self, viewport: &Viewport)
        requires
            viewport.wf(),
            0 <= old(self).torso_radius <= RADIUS_LIMIT,
            0 <= old(self).head_radius <= RADIUS_LIMIT,
        ensures
            *final(self) == Body::spawn_pose(
                *viewport,
                old(self).torso_radius,
                old(self).head_radius,
            ),
            final(self).wf(),
            final(self).in_flight(),
    {
        self.position = Vec2 { x: -(viewport.width / 2) + 2 * self.torso_radius, y: 0 };
        self.velocity = Vec2 { x: 0, y: 0 };
        proof {
            lemma_energy_at_rest(*self);
        }
    }

    /// Holds the body at its horizontal anchor in a visible area that may
    /// have changed.
    pub fn anchor(&mut self, viewport: &Viewport)
        requires
            viewport.wf(),
            0 <= old(self).torso_radius <= RADIUS_LIMIT,
        ensures
            *final(self) == old(self).anchored(*viewport),
            old(self).wf() ==> final(self).wf(),
            old(self).in_flight() ==> final(self).in_flight(),
    {
        self.position.x = -(viewport.width / 2) + 2 * self.torso_radius;
    }

    /// Takes a flap.
    pub fn flap(&mut self, viewport: &Viewport)
        requires
            viewport.wf(),
        ensures
            *final(self) == old(self).flapped(*viewport),
            old(self).wf() ==> final(self).wf(),
            old(self).in_flight() ==> final(self).in_flight(),
    {
        if self.position.y < viewport.height / 2 {
            self.velocity.y = IMPULSE;
            proof {
                lemma_energy_of_flap(*old(self), *viewport);
            }
        }
    }

    /// Moves the body by one tick.
    pub fn fall(&mut self)
        requires
            old(self).in_flight(),
        ensures
            *final(self) == old(self).fallen(),
            final(self).energy() == old(self).energy(),
            final(self).velocity.y == old(self).velocity.y + GRAVITY,
            final(self).position.y == old(self).position.y + old(self).velocity.y + GRAVITY,
            final(self).position.x == old(self).position.x,
            final(self).wf(),
            final(self).position.y >= -VIEW_LIMIT ==> final(self).in_flight(),
    {
        proof {
            lemma_flight_bounds(*self);
            lemma_energy_conserved(*self);
        }
        self.velocity.y = self.velocity.y + GRAVITY;
        self.position.x = self.position.x + self.velocity.x;
        self.position.y = self.position.y + self.velocity.y;
    }

    /// The hit circle around the torso.
    pub fn torso(&self) -> (circle: HitCircle)
        requires
            self.wf(),
        ensures
            circle == self.torso_circle(),
            circle.wf(),
    {
        HitCircle {
            center: Vec2 { x: self.position.x + TORSO_OFFSET_X, y: self.position.y + TORSO_OFFSET_Y },
            radius: self.torso_radius,
        }
    }

    /// The hit circle around the head.
    pub fn head(&self) -> (circle: HitCircle)
        requires
            self.wf(),
        ensures
            circle == self.head_circle(),
            circle.wf(),
    {
        HitCircle {
            center: Vec2 { x: self.position.x + HEAD_OFFSET_X, y: self.position.y + HEAD_OFFSET_Y },
            radius: self.head_radius,
        }
    }

    /// The body's diameter.
    pub fn diameter_units(&self) -> (diameter: i64)
        requires
            0 <= self.torso_radius <= RADIUS_LIMIT,
        ensures
            diameter == self.diameter(),
            0 <= diameter <= crate::difficulty::diameter_limit(),
    {
        DIAMETER_IN_RADII * self.torso_radius
    }
}

/// A body at rest at the height of the origin has no energy.
proof fn lemma_energy_at_rest(body: Body)
    requires
        body.position.y == 0,
        body.velocity.y == 0,
    ensures
        body.energy() == 0,
        energy_limit() == 2_000_003_480,
{
    assert(body.velocity.y * (body.velocity.y + GRAVITY) == 0) by (nonlinear_arith)
        requires
            body.velocity.y == 0,
    ;
}

/// A flap below the top of a visible area leaves the body with no more
/// energy than the limit.
proof fn lemma_energy_of_flap(body: Body, viewport: Viewport)
    requires
        viewport.wf(),
        body.position.y < viewport.top(),
    ensures
        body.flapped(viewport).energy() <= energy_limit(),
{
    let after = body.flapped(viewport);
    assert(after.velocity.y * (after.velocity.y + GRAVITY) == 3480) by (nonlinear_arith)
        requires
            after.velocity.y == 60,
            GRAVITY == -2,
    ;
}

/// What the energy limit says of a body in flight: how fast it can be, and
/// how high.
proof fn lemma_flight_bounds(body: Body)
    requires
        body.in_flight(),
    ensures
        -80_000 <= body.velocity.y <= IMPULSE,
        -VIEW_LIMIT <= body.position.y <= VIEW_LIMIT,
        body.wf(),
{
    let v = body.velocity.y as int;
    let y = body.position.y as int;
    assert(v * (v - 2) <= 6_000_003_480);
    assert(v >= -80_000) by (nonlinear_arith)
        requires
            v * (v - 2) <= 6_000_003_480,
    ;
    assert(v * (v - 2) >= -1) by (nonlinear_arith);
}

/// Gravity leaves the energy unchanged.
proof fn lemma_energy_conserved(body: Body)
    requires
        body.in_flight(),
    ensures
        -COORD_LIMIT <= body.position.y + body.velocity.y + GRAVITY <= COORD_LIMIT,
        -SPEED_LIMIT <= body.velocity.y + GRAVITY <= SPEED_LIMIT,
        body.fallen().energy() == body.energy(),
{
    lemma_flight_bounds(body);
    let v = body.velocity.y as int;
    assert((v - 2) * (v - 2 - 2) + 4 * (v - 2) == v * (v - 2)) by (nonlinear_arith);
}

} // verus!
