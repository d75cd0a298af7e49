//! Obstacles: what one is, how the live ones move, and when one leaves.

use vstd::prelude::*;
use crate::geometry::{Aabb, Vec2};
use crate::tuning::{COORD_LIMIT, OBSTACLE_SPEED, OBSTACLE_WIDTH, TILE_SIZE, VIEW_LIMIT};
use crate::viewport::Viewport;

verus! {

/// One wall segment: `OBSTACLE_WIDTH` wide around the horizontal position
/// `x`, and reaching from `bottom` up to `top`.
#[derive(Clone, Copy, Debug, PartialEq, Eq, Structural)]
pub struct Obstacle {
    pub x: i64,
    pub bottom: i64,
    pub top: i64,
}

impl Obstacle {
    /// An obstacle is well formed when its top is not below its bottom and
    /// it lies within `COORD_LIMIT` of the origin.
    pub open spec fn wf(self) -> bool {
        &&& self.bottom <= self.top
        &&& -COORD_LIMIT <= self.x <= COORD_LIMIT
        &&& -COORD_LIMIT <= self.bottom
        &&& self.top <= COORD_LIMIT
    }

    /// An obstacle is in play when it is well formed and no visible area
    /// could have had it removed yet.
    pub open spec fn in_play(self) -> bool {
        self.wf() && -VIEW_LIMIT <= self.x
    }

    /// The obstacle's height.
    pub open spec fn height(self) -> int {
        self.top - self.bottom
    }

    /// The obstacle's bounding box at its present position.
    pub open spec fn bounds(self) -> Aabb {
        Aabb {
            min: Vec2 { x: (self.x - OBSTACLE_WIDTH / 2) as i64, y: self.bottom },
            max: Vec2 { x: (self.x + OBSTACLE_WIDTH / 2) as i64, y: self.top },
        }
    }

    /// The obstacle one tick later.
    pub open spec fn moved(self) -> Obstacle {
        Obstacle { x: (self.x + OBSTACLE_SPEED) as i64, bottom: self.bottom, top: self.top }
    }

    /// Whether a visible area still keeps the obstacle: it leaves once its
    /// horizontal position is left of the visible width, counted from the
    /// origin.
    pub open spec fn stays(self, viewport: Viewport) -> bool {
        self.x >= -viewport.width
    }

    /// The number of tiles that the obstacle's picture takes beside the
    /// tile at the hole: one for every whole multiple of `TILE_SIZE` that
    /// is less than the obstacle's height.
    pub open spec fn tile_rows(self) -> int {
        if self.height() <= 0 {
            0
        } else {
            (self.height() - 1) / (TILE_SIZE as int)
        }
    }

    /// The number of tiles that the obstacle's picture takes beside the
    /// tile at the hole.
    pub fn count_tile_rows(&self) -> (rows: i64)
        requires
            self.wf(),
        ensures
            rows == self.tile_rows(),
            rows >= 0,
            self.height() > 0 ==> rows * TILE_SIZE < self.height() <= (rows + 1) * TILE_SIZE,
    {
        let height: i64 = self.top - self.bottom;
        if height <= 0 {
            0
        } else {
            (height - 1) / TILE_SIZE
        }
    }

    /// The obstacle's bounding box, computed from where it is now.
    pub fn bounding_box(&self) -> (bounds: Aabb)
        requires
            self.wf(),
        ensures
            bounds == self.bounds(),
            bounds.wf(),
            bounds.min.x == self.x - OBSTACLE_WIDTH / 2,
            bounds.max.x == self.x + OBSTACLE_WIDTH / 2,
    {
        Aabb {
            min: Vec2 { x: self.x - OBSTACLE_WIDTH / 2, y: self.bottom },
            max: Vec2 { x: self.x + OBSTACLE_WIDTH / 2, y: self.top },
        }
    }

    /// The obstacle one tick later.
    pub fn advanced(&self) -> (later: Obstacle)
        requires
            self.in_play(),
        ensures
            later == self.moved(),
            later.x == self.x + OBSTACLE_SPEED,
            later.wf(),
    {
        Obstacle { x: self.x + OBSTACLE_SPEED, bottom: self.bottom, top: self.top }
    }
}

/// Every obstacle of `obstacles` is well formed.
pub open spec fn all_wf(obstacles: Seq<Obstacle>) -> bool {
    forall|i: int| 0 <= i < obstacles.len() ==> (#[trigger] obstacles[i]).wf()
}

/// Every obstacle of `obstacles` is in play.
pub open spec fn all_in_play(obstacles: Seq<Obstacle>) -> bool {
    forall|i: int| 0 <= i < obstacles.len() ==> (#[trigger] obstacles[i]).in_play()
}

/// The obstacles one tick later, each in its place.
pub open spec fn all_moved(obstacles: Seq<Obstacle>) -> Seq<Obstacle> {
    Seq::new(obstacles.len(), |i: int| obstacles[i].moved())
}

/// The obstacles that a visible area still keeps, in their order.
pub open spec fn kept(obstacles: Seq<Obstacle>, viewport: Viewport) -> Seq<Obstacle>
    decreases obstacles.len(),
{
    if obstacles.len() == 0 {
        Seq::empty()
    } else if obstacles.last().stays(viewport) {
        kept(obstacles.drop_last(), viewport).push(obstacles.last())
    } else {
        kept(obstacles.drop_last(), viewport)
    }
}

/// Moves every obstacle by one tick.
pub fn move_obstacles(obstacles: &Vec<Obstacle>) -> (later: Vec<Obstacle>)
    requires
        all_in_play(obstacles@),
    ensures
        later@ == all_moved(obstacles@),
        all_wf(later@),
{
    let mut later: Vec<Obstacle> = Vec::new();
    let mut i: usize = 0;
    while i < obstacles.len()
        invariant
            0 <= i <= obstacles.len(),
            all_in_play(obstacles@),
            later@.len() == i,
            forall|j: int| 0 <= j < i ==> later@[j] == (#[trigger] obstacles@[j]).moved(),
            all_wf(later@),
        decreases obstacles.len() - i,
    {
        let next = obstacles[i].advanced();
        later.push(next);
        i += 1;
    }
    later
}

/// Removes the obstacles that have left: first all of them are told apart,
/// then the ones that stay are kept, in their order.
pub fn sweep_obstacles(obstacles: &Vec<Obstacle>, viewport: &Viewport) -> (live: Vec<Obstacle>)
    requires
        viewport.wf(),
    ensures
        live@ == kept(obstacles@, *viewport),
{
    let mut live: Vec<Obstacle> = Vec::new();
    let mut i: usize = 0;
    assert(obstacles@.take(0) =~= Seq::empty());
    while i < obstacles.len()
        invariant
            0 <= i <= obstacles.len(),
            viewport.wf(),
            live@ == kept(obstacles@.take(i as int), *viewport),
        decreases obstacles.len() - i,
    {
        let candidate = obstacles[i];
        proof {
            let longer = obstacles@.take(i + 1);
            assert(longer.drop_last() =~= obstacles@.take(i as int));
            assert(longer.last() == candidate);
        }
        if candidate.x >= -viewport.width {
            live.push(candidate);
        }
        i += 1;
    }
    assert(obstacles@.take(obstacles@.len() as int) =~= obstacles@);
    live
}

/// What `kept` keeps: every obstacle that it keeps stays in the visible
/// area and was there before, and nothing that stays is lost.
pub proof fn law_kept_is_what_stays(obstacles: Seq<Obstacle>, viewport: Viewport)
    ensures
        kept(obstacles, viewport).len() <= obstacles.len(),
        forall|j: int|
            0 <= j < kept(obstacles, viewport).len() ==> {
                &&& (#[trigger] kept(obstacles, viewport)[j]).stays(viewport)
                &&& obstacles.contains(kept(obstacles, viewport)[j])
            },
        forall|i: int|
            0 <= i < obstacles.len() && (#[trigger] obstacles[i]).stays(viewport) ==> kept(
                obstacles,
                viewport,
            ).contains(obstacles[i]),
    decreases obstacles.len(),
{
    if obstacles.len() > 0 {
        let shorter = obstacles.drop_last();
        let last = obstacles.last();
        law_kept_is_what_stays(shorter, viewport);
        let before = kept(shorter, viewport);
        let after = kept(obstacles, viewport);
        assert forall|j: int| 0 <= j < after.len() implies {
            &&& (#[trigger] after[j]).stays(viewport)
            &&& obstacles.contains(after[j])
        } by {
            if j < before.len() {
                assert(after[j] == before[j]);
                let k = choose|k: int| 0 <= k < shorter.len() && shorter[k] == before[j];
                assert(obstacles[k] == before[j]);
            } else {
                assert(after[j] == last);
                assert(obstacles[obstacles.len() - 1] == last);
            }
        }
        assert forall|i: int|
            0 <= i < obstacles.len() && (#[trigger] obstacles[i]).stays(viewport) implies after.contains(
            obstacles[i],
        ) by {
            if i < shorter.len() {
                assert(shorter[i] == obstacles[i]);
                assert(before.contains(shorter[i]));
                let k = choose|k: int| 0 <= k < before.len() && before[k] == shorter[i];
                assert(after[k] == obstacles[i]);
            } else {
                assert(after[after.len() - 1] == obstacles[i]);
            }
        }
    }
}

} // verus!
