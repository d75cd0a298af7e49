//! The collision test: whether the body has touched the ground or an
//! obstacle. The first contact ends the game, and several at once end it
//! no differently.

use vstd::prelude::*;
use crate::body::Body;
use crate::obstacle::{all_wf, Obstacle};
use crate::viewport::Viewport;

verus! {

/// The body is on the ground when its position is less than a torso
/// radius above the bottom of the visible area.
pub open spec fn grounded(body: Body, viewport: Viewport) -> bool {
    body.position.y < viewport.bottom() + body.torso_radius
}

/// The body is struck by an obstacle when the circle around its torso or
/// the circle around its head touches the obstacle's bounding box.
pub open spec fn struck_by(body: Body, obstacle: Obstacle) -> bool {
    body.torso_circle().touches(obstacle.bounds()) || body.head_circle().touches(
        obstacle.bounds(),
    )
}

/// The body is struck when some live obstacle strikes it.
pub open spec fn struck(body: Body, obstacles: Seq<Obstacle>) -> bool {
    exists|i: int| 0 <= i < obstacles.len() && struck_by(body, #[trigger] obstacles[i])
}

/// The contact that ends a game: the ground or an obstacle.
pub open spec fn fatal(body: Body, obstacles: Seq<Obstacle>, viewport: Viewport) -> bool {
    grounded(body, viewport) || struck(body, obstacles)
}

/// Tests the body against the ground.
pub fn hit_ground(body: &Body, viewport: &Viewport) -> (hit: bool)
    requires
        body.wf(),
        viewport.wf(),
    ensures
        hit == grounded(*body, *viewport),
{
    body.position.y < -(viewport.height / 2) + body.torso_radius
}

/// Tests the body against one obstacle.
pub fn hit_obstacle(body: &Body, obstacle: &Obstacle) -> (hit: bool)
    requires
        body.wf(),
        obstacle.wf(),
    ensures
        hit == struck_by(*body, *obstacle),
{
    let bounds = obstacle.bounding_box();
    body.torso().intersects(&bounds) || body.head().intersects(&bounds)
}

/// Tests the body against every live obstacle.
pub fn hit_wall(body: &Body, obstacles: &Vec<Obstacle>) -> (hit: bool)
    requires
        body.wf(),
        all_wf(obstacles@),
    ensures
        hit == struck(*body, obstacles@),
{
    let mut hit = false;
    let mut i: usize = 0;
    while i < obstacles.len()
        invariant
            0 <= i <= obstacles.len(),
            body.wf(),
            all_wf(obstacles@),
            hit == struck(*body, obstacles@.take(i as int)),
        decreases obstacles.len() - i,
    {
        let one = hit_obstacle(body, &obstacles[i]);
        proof {
            let before = obstacles@.take(i as int);
            let after = obstacles@.take(i + 1);
            assert(after[i as int] == obstacles@[i as int]);
            if struck(*body, before) {
                let k = choose|k: int| 0 <= k < before.len() && struck_by(*body, #[trigger] before[k]);
                assert(after[k] == before[k]);
            }
            if struck(*body, after) && !one {
                let k = choose|k: int| 0 <= k < after.len() && struck_by(*body, #[trigger] after[k]);
                assert(before[k] == after[k]);
            }
        }
        if one {
            hit = true;
        }
        i += 1;
    }
    assert(obstacles@.take(obstacles@.len() as int) =~= obstacles@);
    hit
}

} // verus!
