//! The simulation: everything that a game consists of, held in one value,
//! and the two ways in which it changes, by a signal from the menus and by
//! a tick.

use vstd::prelude::*;
use crate::body::Body;
use crate::collision::{fatal, hit_ground, hit_wall};
use crate::generator::{spawn_memory, spawn_placement, spawn_stream, HoleState, Placement};
use crate::obstacle::{
    all_in_play, all_moved, all_wf, kept, law_kept_is_what_stays, move_obstacles, sweep_obstacles,
    Obstacle,
};
use crate::phase::{Phase, Signal};
use crate::random::RandomStream;
use crate::score::Score;
use crate::tuning::{RADIUS_LIMIT, SEED, SPAWN_INTERVAL, VIEW_LIMIT};
use crate::viewport::Viewport;

verus! {

/// What reaches the simulation from outside in one tick.
#[derive(Clone, Copy, Debug, PartialEq, Eq, Structural)]
pub struct TickInput {
    /// Whether the player has flapped since the last tick.
    pub flap: bool,
    /// The time since the last tick, in nanoseconds.
    pub elapsed: u64,
}

/// One tick's worth of what the simulation is fed: the visible area as it
/// is now, and the input.
#[derive(Clone, Copy, Debug, PartialEq, Eq, Structural)]
pub struct Frame {
    pub viewport: Viewport,
    pub input: TickInput,
}

/// What a tick tells the caller, who draws the picture and runs the clock.
#[derive(Clone, Copy, Debug, PartialEq, Eq, Structural)]
pub struct TickReport {
    /// The phase after the tick.
    pub phase: Phase,
    /// Whether this tick ended the game.
    pub game_ended: bool,
    /// The pair of obstacles that this tick added, if it added one.
    pub spawned: Option<Placement>,
    /// How many obstacles this tick removed.
    pub removed: usize,
}

/// The simulation as a mathematical value.
pub struct WorldState {
    pub phase: Phase,
    pub body: Body,
    pub obstacles: Seq<Obstacle>,
    pub hole: HoleState,
    pub random: RandomStream,
    pub score: Score,
    /// Whether the simulation's clock stands still.
    pub clock_paused: bool,
    /// The simulated time since the spawn timer last fired, in nanoseconds.
    pub spawn_timer: u64,
}

/// The simulation.
pub struct World {
    phase: Phase,
    body: Body,
    obstacles: Vec<Obstacle>,
    hole: HoleState,
    random: RandomStream,
    score: Score,
    clock_paused: bool,
    spawn_timer: u64,
}

impl WorldState {
    /// What holds of the simulation at all times.
    pub open spec fn wf(self) -> bool {
        &&& self.body.wf()
        &&& self.phase == Phase::InProgress ==> self.body.in_flight()
        &&& all_in_play(self.obstacles)
        &&& self.hole.wf()
        &&& self.score.wf()
        &&& self.clock_paused == (self.phase != Phase::InProgress)
        &&& self.spawn_timer < SPAWN_INTERVAL
    }

    /// The simulation before the first game: the menu is up, the clock
    /// stands still, the body waits in its spawn pose and no obstacle
    /// lives.
    pub open spec fn initial(
        viewport: Viewport,
        torso_radius: i64,
        head_radius: i64,
        high: u64,
    ) -> WorldState {
        WorldState {
            phase: Phase::PreGame,
            body: Body::spawn_pose(viewport, torso_radius, head_radius),
            obstacles: Seq::empty(),
            hole: HoleState::initial(),
            random: RandomStream::start(SEED),
            score: Score { current: 0, high, elapsed: 0 },
            clock_paused: true,
            spawn_timer: 0,
        }
    }

    /// The simulation at the start of a game: the score is cleared, the
    /// body is in its spawn pose, no obstacle lives, the generator has
    /// forgotten the last hole, the random stream is at the start of the
    /// stream of `SEED`, and the clock runs.
    pub open spec fn game_started(self, viewport: Viewport) -> WorldState {
        WorldState {
            phase: Phase::InProgress,
            body: Body::spawn_pose(viewport, self.body.torso_radius, self.body.head_radius),
            obstacles: Seq::empty(),
            hole: HoleState::initial(),
            random: RandomStream::start(SEED),
            score: self.score.cleared(),
            clock_paused: false,
            spawn_timer: self.spawn_timer,
        }
    }

    /// The simulation back at the menu: no obstacle lives, the score is
    /// cleared and the body is in its spawn pose.
    pub open spec fn back_at_menu(self, viewport: Viewport) -> WorldState {
        WorldState {
            phase: Phase::PreGame,
            body: Body::spawn_pose(viewport, self.body.torso_radius, self.body.head_radius),
            obstacles: Seq::empty(),
            score: self.score.cleared(),
            clock_paused: true,
            ..self
        }
    }

    /// The simulation after a signal from the menus. A signal that the
    /// phase does not listen to changes nothing.
    pub open spec fn signalled(self, signal: Signal, viewport: Viewport) -> WorldState {
        match self.phase.after_signal(signal) {
            Phase::InProgress => if self.phase == Phase::InProgress {
                self
            } else {
                self.game_started(viewport)
            },
            Phase::PreGame => if self.phase == Phase::PreGame {
                self
            } else {
                self.back_at_menu(viewport)
            },
            Phase::GameOver => self,
        }
    }

    /// Whether the spawn timer fires once `elapsed` more nanoseconds have
    /// passed.
    pub open spec fn spawn_due(self, elapsed: u64) -> bool {
        self.spawn_timer + elapsed >= SPAWN_INTERVAL
    }

    /// What the spawn timer shows after `elapsed` more nanoseconds: the
    /// time since the interval was last full.
    pub open spec fn timer_after(self, elapsed: u64) -> u64 {
        ((self.spawn_timer + elapsed) % (SPAWN_INTERVAL as int)) as u64
    }

    /// The pair that the tick adds, where the spawn timer fires.
    pub open spec fn spawned_pair(self, viewport: Viewport, elapsed: u64) -> Option<Placement> {
        if self.spawn_due(elapsed) {
            Some(
                spawn_placement(self.hole, self.random, viewport, self.body.diameter() as i64),
            )
        } else {
            None
        }
    }

    /// First step of a tick: the spawn timer runs on, and where it fires,
    /// the generator adds a pair, the upper obstacle before the lower.
    pub open spec fn after_spawn_check(self, viewport: Viewport, elapsed: u64) -> WorldState {
        let diameter = self.body.diameter() as i64;
        if self.spawn_due(elapsed) {
            let placed = spawn_placement(self.hole, self.random, viewport, diameter);
            WorldState {
                obstacles: self.obstacles.push(placed.upper).push(placed.lower),
                hole: spawn_memory(self.hole, self.random, viewport, diameter),
                random: spawn_stream(self.hole, self.random, viewport, diameter),
                spawn_timer: self.timer_after(elapsed),
                ..self
            }
        } else {
            WorldState { spawn_timer: self.timer_after(elapsed), ..self }
        }
    }

    /// Second step of a tick: the body is held at its anchor, takes the
    /// flap if there was one, and falls; every obstacle moves.
    pub open spec fn after_physics(self, viewport: Viewport, flap: bool) -> WorldState {
        let held = self.body.anchored(viewport);
        let steered = if flap {
            held.flapped(viewport)
        } else {
            held
        };
        WorldState { body: steered.fallen(), obstacles: all_moved(self.obstacles), ..self }
    }

    /// Third step of a tick: whether the body touches the ground or an
    /// obstacle, as they now are.
    pub open spec fn in_contact(self, viewport: Viewport) -> bool {
        fatal(self.body, self.obstacles, viewport)
    }

    /// Fourth step of a tick: the obstacles that have left are removed.
    pub open spec fn after_sweep(self, viewport: Viewport) -> WorldState {
        WorldState { obstacles: kept(self.obstacles, viewport), ..self }
    }

    /// Fifth step of a tick: the score counts the time.
    pub open spec fn after_scoring(self, elapsed: u64) -> WorldState {
        WorldState { score: self.score.counted(elapsed), ..self }
    }

    /// The simulation one tick later. Outside a running game a tick
    /// changes nothing. In a running game the five steps follow one
    /// another, and a contact ends the game and stops the clock.
    pub open spec fn ticked(self, viewport: Viewport, input: TickInput) -> WorldState {
        if self.phase != Phase::InProgress {
            self
        } else {
            let moved = self.after_spawn_check(viewport, input.elapsed).after_physics(
                viewport,
                input.flap,
            );
            let contact = moved.in_contact(viewport);
            let settled = moved.after_sweep(viewport).after_scoring(input.elapsed);
            WorldState {
                phase: self.phase.after_contact(contact),
                clock_paused: contact,
                ..settled
            }
        }
    }

    /// The simulation after the ticks of `frames`, one after the other.
    pub open spec fn replayed(self, frames: Seq<Frame>) -> WorldState
        decreases frames.len(),
    {
        if frames.len() == 0 {
            self
        } else {
            self.replayed(frames.drop_last()).ticked(frames.last().viewport, frames.last().input)
        }
    }
}

/// Every frame of `frames` has a well-formed visible area.
pub open spec fn frames_wf(frames: Seq<Frame>) -> bool {
    forall|i: int| 0 <= i < frames.len() ==> (#[trigger] frames[i]).viewport.wf()
}

impl View for World {
    type V = WorldState;

    closed spec fn view(&self) -> WorldState {
        WorldState {
            phase: self.phase,
            body: self.body,
            obstacles: self.obstacles@,
            hole: self.hole,
            random: self.random,
            score: self.score,
            clock_paused: self.clock_paused,
            spawn_timer: self.spawn_timer,
        }
    }
}

impl World {
    /// What holds of the simulation at all times.
    pub open spec fn wf(&self) -> bool {
        self@.wf()
    }

    /// The simulation before the first game, for a body of the given radii
    /// and the highest score that was stored, if one was; or nothing if a
    /// radius is negative or above `RADIUS_LIMIT`.
    pub fn new(
        viewport: &Viewport,
        torso_radius: i64,
        head_radius: i64,
        stored_high: Option<u64>,
    ) -> (made: Option<World>)
        requires
            viewport.wf(),
        ensures
            made.is_some() <==> 0 <= torso_radius <= RADIUS_LIMIT && 0 <= head_radius
                <= RADIUS_LIMIT,
            made.is_some() ==> made.unwrap()@ == WorldState::initial(
                *viewport,
                torso_radius,
                head_radius,
                match stored_high {
                    Some(high) => high,
                    None => 0,
                },
            ),
            made.is_some() ==> made.unwrap().wf(),
    {
        match Body::new(viewport, torso_radius, head_radius) {
            Some(body) => {
                let world = World {
                    phase: Phase::PreGame,
                    body,
                    obstacles: Vec::new(),
                    hole: HoleState::new(),
                    random: RandomStream::seeded(SEED),
                    score: Score::new(stored_high),
                    clock_paused: true,
                    spawn_timer: 0,
                };
                assert(world@.obstacles =~= Seq::empty());
                Some(world)
            },
            None => None,
        }
    }

    /// The phase that the game is in.
    pub fn phase(&self) -> (phase: Phase)
        ensures
            phase == self@.phase,
    {
        self.phase
    }

    /// The body.
    pub fn body(&self) -> (body: Body)
        ensures
            body == self@.body,
    {
        self.body
    }

    /// The live obstacles, in the order in which they were made.
    pub fn obstacles(&self) -> (obstacles: &Vec<Obstacle>)
        ensures
            obstacles@ == self@.obstacles,
    {
        &self.obstacles
    }

    /// What the generator remembers.
    pub fn hole(&self) -> (hole: HoleState)
        ensures
            hole == self@.hole,
    {
        self.hole
    }

    /// The random stream.
    pub fn random(&self) -> (random: RandomStream)
        ensures
            random == self@.random,
    {
        self.random
    }

    /// The score.
    pub fn score(&self) -> (score: Score)
        ensures
            score == self@.score,
    {
        self.score
    }

    /// Whether the simulation's clock stands still.
    pub fn clock_paused(&self) -> (paused: bool)
        ensures
            paused == self@.clock_paused,
    {
        self.clock_paused
    }

    /// The simulated time since the spawn timer last fired, in
    /// nanoseconds.
    pub fn spawn_timer(&self) -> (timer: u64)
        ensures
            timer == self@.spawn_timer,
    {
        self.spawn_timer
    }

    /// Takes a signal from the menus. Tells whether the phase listened to
    /// it.
    pub fn signal(&mut self, signal: Signal, viewport: &Viewport) -> (heard: bool)
        requires
            old(self).wf(),
            viewport.wf(),
        ensures
            final(self)@ == old(self)@.signalled(signal, *viewport),
            final(self).wf(),
            heard == old(self)@.phase.listens_to(signal),
            !heard ==> final(self)@ == old(self)@,
    {
        let next = self.phase.on_signal(signal);
        match next {
            Phase::InProgress => {
                if !self.phase.clock_runs() {
                    self.phase = Phase::InProgress;
                    self.clock_paused = false;
                    self.score.reset();
                    self.body.reset(viewport);
                    self.obstacles = Vec::new();
                    self.hole = HoleState::new();
                    self.random = RandomStream::seeded(SEED);
                    assert(self@.obstacles =~= Seq::empty());
                    true
                } else {
                    false
                }
            },
            Phase::PreGame => {
                match self.phase {
                    Phase::PreGame => false,
                    _ => {
                        self.phase = Phase::PreGame;
                        self.clock_paused = true;
                        self.score.reset();
                        self.body.reset(viewport);
                        self.obstacles = Vec::new();
                        assert(self@.obstacles =~= Seq::empty());
                        true
                    },
                }
            },
            Phase::GameOver => false,
        }
    }

    /// The spawn timer's step of a tick.
    fn spawn_check(&mut self, viewport: &Viewport, elapsed: u64) -> (spawned: Option<Placement>)
        requires
            old(self).wf(),
            old(self)@.phase == Phase::InProgress,
            viewport.wf(),
        ensures
            final(self)@ == old(self)@.after_spawn_check(*viewport, elapsed),
            final(self).wf(),
            spawned == old(self)@.spawned_pair(*viewport, elapsed),
            spawned matches Some(placed) ==> placed.well_placed(*viewport, old(self)@.body),
    {
        let total: u128 = self.spawn_timer as u128 + elapsed as u128;
        let due = total >= SPAWN_INTERVAL as u128;
        self.spawn_timer = (total % (SPAWN_INTERVAL as u128)) as u64;
        if due {
            let diameter = self.body.diameter_units();
            let placed = self.hole.spawn_pair(&mut self.random, viewport, diameter);
            self.obstacles.push(placed.upper);
            self.obstacles.push(placed.lower);
            Some(placed)
        } else {
            None
        }
    }

    /// The physics step of a tick.
    fn physics(&mut self, viewport: &Viewport, flap: bool)
        requires
            old(self).wf(),
            old(self)@.phase == Phase::InProgress,
            viewport.wf(),
        ensures
            final(self)@ == old(self)@.after_physics(*viewport, flap),
            final(self)@.body.wf(),
            final(self)@.body.position.y >= -VIEW_LIMIT ==> final(self)@.body.in_flight(),
            all_wf(final(self)@.obstacles),
    {
        self.body.anchor(viewport);
        if flap {
            self.body.flap(viewport);
        }
        self.body.fall();
        self.obstacles = move_obstacles(&self.obstacles);
    }

    /// Moves the simulation on by one tick.
    pub fn tick(&mut self, viewport: &Viewport, input: &TickInput) -> (report: TickReport)
        requires
            old(self).wf(),
            viewport.wf(),
        ensures
            final(self)@ == old(self)@.ticked(*viewport, *input),
            final(self).wf(),
            old(self)@.phase != Phase::InProgress ==> final(self)@ == old(self)@,
            forall|i: int|
                0 <= i < final(self)@.obstacles.len() && old(self)@.phase == Phase::InProgress
                    ==> (#[trigger] final(self)@.obstacles[i]).stays(*viewport),
            report.phase == final(self)@.phase,
            report.game_ended == (old(self)@.phase == Phase::InProgress && final(self)@.phase
                == Phase::GameOver),
            report.spawned == (if old(self)@.phase == Phase::InProgress {
                old(self)@.spawned_pair(*viewport, input.elapsed)
            } else {
                None
            }),
            report.spawned matches Some(placed) ==> placed.well_placed(*viewport, old(self)@.body),
            old(self)@.phase == Phase::InProgress ==> report.removed + final(self)@.obstacles.len()
                == old(self)@.after_spawn_check(*viewport, input.elapsed).obstacles.len(),
            old(self)@.phase != Phase::InProgress ==> report.removed == 0,
    {
        if !self.phase.clock_runs() {
            return TickReport { phase: self.phase, game_ended: false, spawned: None, removed: 0 };
        }
        let spawned = self.spawn_check(viewport, input.elapsed);
        self.physics(viewport, input.flap);
        let contact = hit_ground(&self.body, viewport) || hit_wall(&self.body, &self.obstacles);
        let before: usize = self.obstacles.len();
        proof {
            law_kept_is_what_stays(self@.obstacles, *viewport);
        }
        self.obstacles = sweep_obstacles(&self.obstacles, viewport);
        let removed: usize = before - self.obstacles.len();
        self.score.track(input.elapsed);
        self.phase = self.phase.on_contact(contact);
        self.clock_paused = contact;
        TickReport { phase: self.phase, game_ended: contact, spawned, removed }
    }

    /// Moves the simulation on by the ticks of `frames`, one after the
    /// other.
    pub fn run(&mut self, frames: &Vec<Frame>)
        requires
            old(self).wf(),
            frames_wf(frames@),
        ensures
            final(self)@ == old(self)@.replayed(frames@),
            final(self).wf(),
    {
        let mut i: usize = 0;
        assert(frames@.take(0) =~= Seq::empty());
        while i < frames.len()
            invariant
                0 <= i <= frames.len(),
                frames_wf(frames@),
                self.wf(),
                self@ == old(self)@.replayed(frames@.take(i as int)),
            decreases frames.len() - i,
        {
            proof {
                let longer = frames@.take(i + 1);
                assert(longer.drop_last() =~= frames@.take(i as int));
                assert(longer.last() == frames@[i as int]);
            }
            let frame = frames[i];
            self.tick(&frame.viewport, &frame.input);
            i += 1;
        }
        assert(frames@.take(frames@.len() as int) =~= frames@);
    }
}

/// Replaying is deterministic: two simulations that are equal, fed the same
/// frames, end equal, in the obstacles and their positions, in the phase
/// and so in every contact, and in the score.
pub proof fn law_replay_is_deterministic(first: WorldState, second: WorldState, frames: Seq<Frame>)
    requires
        first == second,
    ensures
        first.replayed(frames) == second.replayed(frames),
{
}

/// Every game replays alike: whatever two simulations have been through,
/// if both start a game in the same visible area, with bodies of the same
/// radii, the same highest score and the same spawn timer, the same frames
/// lead both to the same end.
pub proof fn law_every_game_replays_alike(
    first: WorldState,
    second: WorldState,
    viewport: Viewport,
    frames: Seq<Frame>,
)
    requires
        first.body.torso_radius == second.body.torso_radius,
        first.body.head_radius == second.body.head_radius,
        first.score.high == second.score.high,
        first.spawn_timer == second.spawn_timer,
    ensures
        first.game_started(viewport).replayed(frames) == second.game_started(viewport).replayed(
            frames,
        ),
{
    assert(first.game_started(viewport) == second.game_started(viewport));
}

/// Once a game is over, ticks change nothing: not the phase, not the body,
/// not an obstacle. The same holds at the menu.
pub proof fn law_game_over_is_final(state: WorldState, frames: Seq<Frame>)
    requires
        state.phase != Phase::InProgress,
    ensures
        state.replayed(frames) == state,
    decreases frames.len(),
{
    if frames.len() > 0 {
        law_game_over_is_final(state, frames.drop_last());
    }
}

/// A tick changes neither radius of the body.
pub proof fn law_tick_keeps_radii(state: WorldState, viewport: Viewport, input: TickInput)
    ensures
        state.ticked(viewport, input).body.torso_radius == state.body.torso_radius,
        state.ticked(viewport, input).body.head_radius == state.body.head_radius,
{
}

/// Ticks change neither radius of the body.
pub proof fn law_replay_keeps_radii(state: WorldState, frames: Seq<Frame>)
    ensures
        state.replayed(frames).body.torso_radius == state.body.torso_radius,
        state.replayed(frames).body.head_radius == state.body.head_radius,
    decreases frames.len(),
{
    if frames.len() > 0 {
        law_replay_keeps_radii(state, frames.drop_last());
        law_tick_keeps_radii(
            state.replayed(frames.drop_last()),
            frames.last().viewport,
            frames.last().input,
        );
    }
}

/// The round trip from the menu through a game to its end and into the
/// next game puts the body back into its spawn pose and the score back to
/// zero, and leaves the generator's memory and the random stream as they
/// were when the first game started.
pub proof fn law_restart_restores(
    menu: WorldState,
    first_view: Viewport,
    frames: Seq<Frame>,
    second_view: Viewport,
)
    requires
        menu.phase == Phase::PreGame,
        menu.signalled(Signal::Start, first_view).replayed(frames).phase == Phase::GameOver,
    ensures
        ({
            let started = menu.signalled(Signal::Start, first_view);
            let again = started.replayed(frames).signalled(Signal::Restart, second_view);
            &&& started.phase == Phase::InProgress
            &&& again.phase == Phase::InProgress
            &&& again.body == Body::spawn_pose(
                second_view,
                menu.body.torso_radius,
                menu.body.head_radius,
            )
            &&& again.score.current == 0
            &&& again.score.elapsed == 0
            &&& again.hole == started.hole
            &&& again.hole == HoleState::initial()
            &&& again.random == started.random
            &&& again.random == RandomStream::start(SEED)
            &&& again.obstacles == started.obstacles
            &&& again.obstacles == Seq::<Obstacle>::empty()
            &&& !again.clock_paused
        }),
{
    let started = menu.signalled(Signal::Start, first_view);
    law_replay_keeps_radii(started, frames);
}

/// After a tick of a running game no obstacle is left of the visible
/// width: one that was there before the tick has been removed, since
/// moving takes it further left.
pub proof fn law_tick_removes_what_left(state: WorldState, viewport: Viewport, input: TickInput)
    requires
        state.phase == Phase::InProgress,
    ensures
        forall|i: int|
            0 <= i < state.ticked(viewport, input).obstacles.len() ==> (#[trigger] state.ticked(
                viewport,
                input,
            ).obstacles[i]).stays(viewport),
{
    let moved = state.after_spawn_check(viewport, input.elapsed).after_physics(
        viewport,
        input.flap,
    );
    law_kept_is_what_stays(moved.obstacles, viewport);
}

} // verus!
