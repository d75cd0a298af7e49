//! The phases of the game and the signals that lead from one to the next.

use vstd::prelude::*;

verus! {

/// The mode that the game is in.
#[derive(Clone, Copy, Debug, PartialEq, Eq, Structural)]
pub enum Phase {
    /// The menu before a game.
    PreGame,
    /// A game is running.
    InProgress,
    /// A game has ended and its last picture stands.
    GameOver,
}

/// What the menus tell the engine.
#[derive(Clone, Copy, Debug, PartialEq, Eq, Structural)]
pub enum Signal {
    /// Start a game from the menu.
    Start,
    /// Start another game after one has ended.
    Restart,
    /// Go back to the menu after a game has ended.
    ToMenu,
}

impl Phase {
    /// The phase that a signal leads to. A signal that the phase does not
    /// listen to leaves it as it is.
    pub open spec fn after_signal(self, signal: Signal) -> Phase {
        match (self, signal) {
            (Phase::PreGame, Signal::Start) => Phase::InProgress,
            (Phase::GameOver, Signal::Restart) => Phase::InProgress,
            (Phase::GameOver, Signal::ToMenu) => Phase::PreGame,
            _ => self,
        }
    }

    /// Whether the phase listens to the signal.
    pub open spec fn listens_to(self, signal: Signal) -> bool {
        match (self, signal) {
            (Phase::PreGame, Signal::Start) => true,
            (Phase::GameOver, Signal::Restart) => true,
            (Phase::GameOver, Signal::ToMenu) => true,
            _ => false,
        }
    }

    /// The phase after a tick in which the body did or did not meet the
    /// ground or an obstacle: a running game ends on contact, and nothing
    /// else changes.
    pub open spec fn after_contact(self, contact: bool) -> Phase {
        if self == Phase::InProgress && contact {
            Phase::GameOver
        } else {
            self
        }
    }

    /// The phase that a signal leads to.
    pub fn on_signal(self, signal: Signal) -> (next: Phase)
        ensures
            next == self.after_signal(signal),
            next != self <==> self.listens_to(signal),
    {
        match self {
            Phase::PreGame => match signal {
                Signal::Start => Phase::InProgress,
                _ => self,
            },
            Phase::InProgress => self,
            Phase::GameOver => match signal {
                Signal::Restart => Phase::InProgress,
                Signal::ToMenu => Phase::PreGame,
                Signal::Start => self,
            },
        }
    }

    /// The phase after a tick with or without contact.
    pub fn on_contact(self, contact: bool) -> (next: Phase)
        ensures
            next == self.after_contact(contact),
    {
        match self {
            Phase::InProgress => if contact {
                Phase::GameOver
            } else {
                Phase::InProgress
            },
            _ => self,
        }
    }

    /// Whether the simulation's clock runs in this phase.
    pub fn clock_runs(self) -> (runs: bool)
        ensures
            runs == (self == Phase::InProgress),
    {
        match self {
            Phase::InProgress => true,
            _ => false,
        }
    }
}

} // verus!
