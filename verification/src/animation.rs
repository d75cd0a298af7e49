//! The body's flapping animation: which picture of the sprite sheet shows,
//! and when the next one is due.

use vstd::prelude::*;
use crate::tuning::NANOS_PER_SECOND;

verus! {

/// A timer that runs once: it counts time up to its duration and then
/// stays finished until it is armed again.
#[derive(Clone, Copy, Debug, PartialEq, Eq, Structural)]
pub struct FrameTimer {
    /// The time counted so far, in nanoseconds.
    pub elapsed: u64,
    /// The time after which the timer finishes, in nanoseconds.
    pub duration: u64,
    pub finished: bool,
}

/// The pictures of an animation, and which one shows.
pub struct AnimationConfig {
    /// The pictures, as indices into the sprite sheet, in the order in
    /// which they show.
    pub sprite_indices: Vec<usize>,
    /// Which of `sprite_indices` shows.
    pub current_sprite_index: usize,
    /// Pictures per second.
    pub fps: u8,
    pub frame_timer: FrameTimer,
}

/// How long one picture shows at `fps` pictures per second, in
/// nanoseconds.
pub open spec fn frame_duration(fps: u8) -> u64 {
    (NANOS_PER_SECOND as int / fps as int) as u64
}

impl FrameTimer {
    /// A timer at zero that finishes after `duration`.
    pub open spec fn armed(duration: u64) -> FrameTimer {
        FrameTimer { elapsed: 0, duration, finished: false }
    }

    /// Whether `delta` more nanoseconds finish the timer. A timer that has
    /// finished does not finish again.
    pub open spec fn finishes_in(self, delta: u64) -> bool {
        !self.finished && self.elapsed + delta >= self.duration
    }

    /// The timer after `delta` more nanoseconds: a finished timer stays as
    /// it is, a running one counts on, up to its duration.
    pub open spec fn after(self, delta: u64) -> FrameTimer {
        if self.finished {
            self
        } else if self.elapsed + delta >= self.duration {
            FrameTimer { elapsed: self.duration, duration: self.duration, finished: true }
        } else {
            FrameTimer {
                elapsed: (self.elapsed + delta) as u64,
                duration: self.duration,
                finished: false,
            }
        }
    }

    /// A timer for one picture at `fps` pictures per second.
    pub fn timer_from_fps(fps: u8) -> (timer: FrameTimer)
        requires
            fps > 0,
        ensures
            timer == FrameTimer::armed(frame_duration(fps)),
    {
        FrameTimer { elapsed: 0, duration: NANOS_PER_SECOND / (fps as u64), finished: false }
    }

    /// Counts `delta` more nanoseconds. Tells whether that finished the
    /// timer.
    pub fn tick(&mut self, delta: u64) -> (just_finished: bool)
        ensures
            *final(self) == old(self).after(delta),
            just_finished == old(self).finishes_in(delta),
    {
        if self.finished {
            return false;
        }
        if delta >= self.duration || self.elapsed >= self.duration - delta {
            self.elapsed = self.duration;
            self.finished = true;
            true
        } else {
            self.elapsed = self.elapsed + delta;
            false
        }
    }
}

impl AnimationConfig {
    /// An animation is well formed when it has a picture, the one that
    /// shows is one of them, and its speed is not zero.
    pub open spec fn wf(&self) -> bool {
        &&& self.sprite_indices@.len() > 0
        &&& self.current_sprite_index < self.sprite_indices@.len()
        &&& self.fps > 0
    }

    /// The picture that shows once the one that shows now is over: the
    /// next of `sprite_indices`, and after the last of them the first
    /// picture of the sprite sheet.
    pub open spec fn next_picture(&self) -> usize {
        if self.current_sprite_index == self.sprite_indices@.len() - 1 {
            0
        } else {
            self.sprite_indices@[self.current_sprite_index + 1]
        }
    }

    /// Which of `sprite_indices` shows next: the one after the present
    /// one, and after the last of them the first.
    pub open spec fn next_index(&self) -> usize {
        if self.current_sprite_index == self.sprite_indices@.len() - 1 {
            0
        } else {
            (self.current_sprite_index + 1) as usize
        }
    }

    /// The animation's timer once the present picture is over: armed for
    /// the next picture, but left finished after the last, so that the
    /// animation rests until it is started again.
    pub open spec fn next_timer(&self, delta: u64) -> FrameTimer {
        if self.current_sprite_index == self.sprite_indices@.len() - 1 {
            self.frame_timer.after(delta)
        } else {
            FrameTimer::armed(frame_duration(self.fps))
        }
    }

    /// An animation of the given pictures at the given speed, showing the
    /// first of them.
    pub fn new(sprite_indices: Vec<usize>, fps: u8) -> (made: AnimationConfig)
        requires
            sprite_indices@.len() > 0,
            fps > 0,
        ensures
            made.wf(),
            made.sprite_indices@ == sprite_indices@,
            made.current_sprite_index == 0,
            made.fps == fps,
            made.frame_timer == FrameTimer::armed(frame_duration(fps)),
    {
        AnimationConfig {
            sprite_indices,
            current_sprite_index: 0,
            fps,
            frame_timer: FrameTimer::timer_from_fps(fps),
        }
    }

    /// Starts the animation over, as a flap does: the first picture shows
    /// and the timer is armed.
    pub fn restart(&mut self)
        requires
            old(self).wf(),
        ensures
            final(self).wf(),
            final(self).sprite_indices@ == old(self).sprite_indices@,
            final(self).fps == old(self).fps,
            final(self).current_sprite_index == 0,
            final(self).frame_timer == FrameTimer::armed(frame_duration(old(self).fps)),
    {
        self.frame_timer = FrameTimer::timer_from_fps(self.fps);
        self.current_sprite_index = 0;
    }

    /// Counts `delta` more nanoseconds. Where that ends the present
    /// picture, moves on to the next and tells which picture of the sprite
    /// sheet is to show; else tells nothing and changes only the timer.
    pub fn execute_animations(&mut self, delta: u64) -> (picture: Option<usize>)
        requires
            old(self).wf(),
        ensures
            final(self).wf(),
            final(self).sprite_indices@ == old(self).sprite_indices@,
            final(self).fps == old(self).fps,
            old(self).frame_timer.finishes_in(delta) ==> {
                &&& picture == Some(old(self).next_picture())
                &&& final(self).current_sprite_index == old(self).next_index()
                &&& final(self).frame_timer == old(self).next_timer(delta)
            },
            !old(self).frame_timer.finishes_in(delta) ==> {
                &&& picture.is_none()
                &&& final(self).current_sprite_index == old(self).current_sprite_index
                &&& final(self).frame_timer == old(self).frame_timer.after(delta)
            },
    {
        if self.frame_timer.tick(delta) {
            if self.current_sprite_index == self.sprite_indices.len() - 1 {
                self.current_sprite_index = 0;
                Some(0)
            } else {
                self.current_sprite_index = self.current_sprite_index + 1;
                self.frame_timer = FrameTimer::timer_from_fps(self.fps);
                Some(self.sprite_indices[self.current_sprite_index])
            }
        } else {
            None
        }
    }
}

} // verus!
