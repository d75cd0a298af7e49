//! The obstacle generator: where the next pair of obstacles goes, given what
//! the random stream drew, and the drawing itself.

use vstd::prelude::*;
use crate::body::Body;
use crate::difficulty::{
    diameter_limit, drift_limit, drift_max, gap_bounds, gap_ceiling, law_first_gap_bounds,
    law_gap_bounds_ordered, law_gap_keeps_floor, law_gaps_never_widen, min_gap,
};
use crate::geometry::{clamp_coordinate, clamp_int};
use crate::obstacle::Obstacle;
use crate::random::RandomStream;
use crate::tuning::{COORD_LIMIT, MARGIN, OBSTACLE_WIDTH, VIEW_LIMIT};
use crate::viewport::Viewport;

verus! {

/// What the generator remembers from one pair to the next.
#[derive(Clone, Copy, Debug, PartialEq, Eq, Structural)]
pub struct HoleState {
    /// The height of the middle of the last hole, counted from the middle
    /// of the visible area.
    pub center: i64,
    /// The number of pairs made in this game.
    pub index: u64,
}

/// One pair of obstacles and the hole between them.
#[derive(Clone, Copy, Debug, PartialEq, Eq, Structural)]
pub struct Placement {
    /// The height of the middle of the hole.
    pub center: i64,
    /// The width of the hole, from its bottom to its top.
    pub gap: i64,
    /// The obstacle above the hole.
    pub upper: Obstacle,
    /// The obstacle below the hole.
    pub lower: Obstacle,
}

/// The widest hole that `place_pair` takes.
pub open spec fn gap_limit() -> int {
    COORD_LIMIT as int
}

/// The part of a hole that lies below its middle: half the width, rounded
/// down.
pub open spec fn lower_half(gap: int) -> int {
    gap / 2
}

/// The part of a hole that lies above its middle: half the width, rounded
/// up.
pub open spec fn upper_half(gap: int) -> int {
    gap - gap / 2
}

/// How far from the middle of the visible area the middle of a hole of
/// width `gap` may lie, so that the whole hole keeps `MARGIN` from the top
/// and the bottom; zero where the visible area has no room for that.
pub open spec fn center_limit(viewport: Viewport, gap: int) -> int {
    let room = viewport.top() - upper_half(gap) - MARGIN;
    if room > 0 {
        room
    } else {
        0
    }
}

/// Whether the visible area has room for a hole of width `gap` between its
/// margins.
pub open spec fn has_room(viewport: Viewport, gap: int) -> bool {
    viewport.top() - upper_half(gap) - MARGIN >= 0
}

/// The horizontal position at which a pair enters: its left edge is one
/// obstacle's width to the right of the visible area.
pub open spec fn entry_x(viewport: Viewport) -> int {
    viewport.right() + OBSTACLE_WIDTH + OBSTACLE_WIDTH / 2
}

impl HoleState {
    /// The memory is well formed when the last hole's middle lies within
    /// half of `VIEW_LIMIT` from the middle of the visible area.
    pub open spec fn wf(self) -> bool {
        -(VIEW_LIMIT / 2) <= self.center <= VIEW_LIMIT / 2
    }

    /// The memory at the start of a game.
    pub open spec fn initial() -> HoleState {
        HoleState { center: 0, index: 0 }
    }

    /// The middle of the next hole: the last one's, moved by `drift` and
    /// held within the limit for a hole of width `gap`.
    pub open spec fn next_center(self, viewport: Viewport, gap: int, drift: int) -> int {
        clamp_int(
            self.center + drift,
            -center_limit(viewport, gap),
            center_limit(viewport, gap),
        )
    }

    /// The index of the pair after this one. The count stops at the largest
    /// number that it can hold.
    pub open spec fn next_index(self) -> u64 {
        if self.index < u64::MAX {
            (self.index + 1) as u64
        } else {
            self.index
        }
    }

    /// The pair that a hole of width `gap`, drifting by `drift`, makes.
    pub open spec fn placement(self, viewport: Viewport, gap: int, drift: int) -> Placement {
        let center = self.next_center(viewport, gap, drift);
        let hole_bottom = center - lower_half(gap);
        let hole_top = hole_bottom + gap;
        Placement {
            center: center as i64,
            gap: gap as i64,
            upper: Obstacle {
                x: entry_x(viewport) as i64,
                bottom: (if hole_top < viewport.top() {
                    hole_top
                } else {
                    viewport.top()
                }) as i64,
                top: viewport.top() as i64,
            },
            lower: Obstacle {
                x: entry_x(viewport) as i64,
                bottom: viewport.bottom() as i64,
                top: (if hole_bottom > viewport.bottom() {
                    hole_bottom
                } else {
                    viewport.bottom()
                }) as i64,
            },
        }
    }

    /// The memory after that pair.
    pub open spec fn after(self, viewport: Viewport, gap: int, drift: int) -> HoleState {
        HoleState { center: self.next_center(viewport, gap, drift) as i64, index: self.next_index() }
    }

    /// The memory at the start of a game.
    pub fn new() -> (hole: HoleState)
        ensures
            hole == HoleState::initial(),
            hole.wf(),
    {
        HoleState { center: 0, index: 0 }
    }

    /// Places the next pair for a hole of width `gap` that drifts by
    /// `drift` from the last one, and remembers it.
    pub fn place_pair(&mut self, viewport: &Viewport, gap: i64, drift: i64) -> (placed: Placement)
        requires
            old(self).wf(),
            viewport.wf(),
            0 <= gap <= gap_limit(),
            -VIEW_LIMIT <= drift <= VIEW_LIMIT,
        ensures
            placed == old(self).placement(*viewport, gap as int, drift as int),
            *final(self) == old(self).after(*viewport, gap as int, drift as int),
            final(self).wf(),
            placed.gap == gap,
            placed.upper.in_play(),
            placed.lower.in_play(),
            has_room(*viewport, gap as int) ==> placed.hole_within_margins(*viewport),
    {
        let top: i64 = viewport.half_height();
        let below: i64 = gap / 2;
        let above: i64 = gap - below;
        let room: i64 = top - above - MARGIN;
        let limit: i64 = if room > 0 {
            room
        } else {
            0
        };
        let center: i64 = clamp_coordinate(self.center + drift, -limit, limit);
        let hole_bottom: i64 = center - below;
        let hole_top: i64 = hole_bottom + gap;
        let x: i64 = viewport.half_width() + OBSTACLE_WIDTH + OBSTACLE_WIDTH / 2;
        let upper = Obstacle {
            x,
            bottom: if hole_top < top {
                hole_top
            } else {
                top
            },
            top,
        };
        let lower = Obstacle {
            x,
            bottom: -top,
            top: if hole_bottom > -top {
                hole_bottom
            } else {
                -top
            },
        };
        self.center = center;
        if self.index < u64::MAX {
            self.index = self.index + 1;
        }
        Placement { center, gap, upper, lower }
    }

    /// Makes the next pair: draws the hole's width between the narrowest
    /// and the widest that the pair's index allows, draws its drift up to
    /// the largest that the index allows, and places the pair.
    pub fn spawn_pair(
        &mut self,
        random: &mut RandomStream,
        viewport: &Viewport,
        diameter: i64,
    ) -> (placed: Placement)
        requires
            old(self).wf(),
            viewport.wf(),
            0 <= diameter <= diameter_limit(),
        ensures
            placed == spawn_placement(*old(self), *old(random), *viewport, diameter),
            *final(self) == spawn_memory(*old(self), *old(random), *viewport, diameter),
            *final(random) == spawn_stream(*old(self), *old(random), *viewport, diameter),
            final(self).wf(),
            placed.upper.in_play(),
            placed.lower.in_play(),
            10 * placed.gap >= 11 * diameter,
            min_gap(diameter as int, old(self).index as int) <= placed.gap <= gap_ceiling(
                diameter as int,
                old(self).index as int,
            ),
            has_room(*viewport, placed.gap as int) ==> placed.hole_within_margins(*viewport),
    {
        let bounds = gap_bounds(diameter, self.index);
        let reach: i64 = drift_limit(viewport.height, self.index);
        proof {
            law_gap_keeps_floor(diameter as int, self.index as int);
            lemma_gap_ceiling_bounded(diameter as int, self.index as int);
        }
        let gap: i64 = random.draw(bounds.0, bounds.1);
        let drift: i64 = random.draw(-reach, reach);
        self.place_pair(viewport, gap, drift)
    }
}

impl Placement {
    /// The height of the bottom of the hole.
    pub open spec fn hole_bottom(self) -> int {
        self.center - lower_half(self.gap as int)
    }

    /// The height of the top of the hole.
    pub open spec fn hole_top(self) -> int {
        self.hole_bottom() + self.gap
    }

    /// What every pair that the generator makes is like: its hole is at
    /// least eleven tenths of the body's diameter wide, and where the
    /// visible area has room for the hole, the hole keeps to its margins.
    pub open spec fn well_placed(self, viewport: Viewport, body: Body) -> bool {
        &&& 10 * self.gap >= 11 * body.diameter()
        &&& has_room(viewport, self.gap as int) ==> self.hole_within_margins(viewport)
    }

    /// The hole keeps `MARGIN` from the top and from the bottom of the
    /// visible area, and the two obstacles end exactly at the hole.
    pub open spec fn hole_within_margins(self, viewport: Viewport) -> bool {
        &&& self.hole_top() <= viewport.top() - MARGIN
        &&& self.hole_bottom() >= viewport.bottom() + MARGIN
        &&& self.upper.bottom == self.hole_top()
        &&& self.lower.top == self.hole_bottom()
    }
}

/// The lower end of the interval that the width of the next hole is drawn
/// from.
pub open spec fn draw_low(hole: HoleState, diameter: i64) -> i64 {
    min_gap(diameter as int, hole.index as int) as i64
}

/// The upper end of that interval.
pub open spec fn draw_high(hole: HoleState, diameter: i64) -> i64 {
    gap_ceiling(diameter as int, hole.index as int) as i64
}

/// The largest drift of the next hole.
pub open spec fn draw_reach(hole: HoleState, viewport: Viewport) -> i64 {
    drift_max(viewport.height as int, hole.index as int) as i64
}

/// The width that `spawn_pair` draws.
pub open spec fn spawn_gap(hole: HoleState, random: RandomStream, diameter: i64) -> i64 {
    random.next_value(draw_low(hole, diameter), draw_high(hole, diameter))
}

/// The drift that `spawn_pair` draws, after the width.
pub open spec fn spawn_drift(
    hole: HoleState,
    random: RandomStream,
    viewport: Viewport,
    diameter: i64,
) -> i64 {
    random.after_draw(draw_low(hole, diameter), draw_high(hole, diameter)).next_value(
        (-draw_reach(hole, viewport)) as i64,
        draw_reach(hole, viewport),
    )
}

/// The pair that `spawn_pair` makes.
pub open spec fn spawn_placement(
    hole: HoleState,
    random: RandomStream,
    viewport: Viewport,
    diameter: i64,
) -> Placement {
    hole.placement(
        viewport,
        spawn_gap(hole, random, diameter) as int,
        spawn_drift(hole, random, viewport, diameter) as int,
    )
}

/// The memory that `spawn_pair` leaves.
pub open spec fn spawn_memory(
    hole: HoleState,
    random: RandomStream,
    viewport: Viewport,
    diameter: i64,
) -> HoleState {
    hole.after(
        viewport,
        spawn_gap(hole, random, diameter) as int,
        spawn_drift(hole, random, viewport, diameter) as int,
    )
}

/// The random stream that `spawn_pair` leaves: two draws further.
pub open spec fn spawn_stream(
    hole: HoleState,
    random: RandomStream,
    viewport: Viewport,
    diameter: i64,
) -> RandomStream {
    random.after_draw(draw_low(hole, diameter), draw_high(hole, diameter)).after_draw(
        (-draw_reach(hole, viewport)) as i64,
        draw_reach(hole, viewport),
    )
}

/// The widest hole of any pair is at most five diameters wide.
proof fn lemma_gap_ceiling_bounded(diameter: int, index: int)
    requires
        0 <= diameter <= diameter_limit(),
        0 <= index,
    ensures
        0 <= min_gap(diameter, index) <= gap_ceiling(diameter, index) <= 5 * diameter,
        5 * diameter <= gap_limit(),
{
    law_gap_bounds_ordered(diameter, index);
    law_first_gap_bounds(diameter);
    law_gap_keeps_floor(diameter, index);
    if index > 0 {
        law_gaps_never_widen(diameter, 0, index);
    }
}

/// Where the visible area has room for it, a hole keeps `MARGIN` from the
/// top and from the bottom of the visible area, whatever was drawn and
/// wherever the last hole was.
pub proof fn law_hole_within_margins(hole: HoleState, viewport: Viewport, gap: int, drift: int)
    requires
        viewport.wf(),
        0 <= gap,
        has_room(viewport, gap),
    ensures
        hole.placement(viewport, gap, drift).center == hole.next_center(viewport, gap, drift),
        hole.next_center(viewport, gap, drift) + upper_half(gap) <= viewport.top() - MARGIN,
        hole.next_center(viewport, gap, drift) - lower_half(gap) >= viewport.bottom() + MARGIN,
{
}

} // verus!
