//! The score: the whole seconds of simulated time that a game has lasted,
//! and the highest score so far.

use vstd::prelude::*;
use vstd::string::StringExecFns;
use crate::tuning::NANOS_PER_SECOND;

verus! {

/// The present score, the highest so far, and the simulated time that the
/// present score is taken from, in nanoseconds.
#[derive(Clone, Copy, Debug, PartialEq, Eq, Structural)]
pub struct Score {
    pub current: u64,
    pub high: u64,
    pub elapsed: u64,
}

/// The sum of two times, held at the largest time that can be told.
pub open spec fn time_sum(elapsed: u64, delta: u64) -> u64 {
    if elapsed + delta <= u64::MAX {
        (elapsed + delta) as u64
    } else {
        u64::MAX
    }
}

/// The larger of two scores.
pub open spec fn higher(a: u64, b: u64) -> u64 {
    if a >= b {
        a
    } else {
        b
    }
}

/// The character that stands for a digit.
pub open spec fn digit_char(digit: int) -> char {
    if digit == 0 {
        '0'
    } else if digit == 1 {
        '1'
    } else if digit == 2 {
        '2'
    } else if digit == 3 {
        '3'
    } else if digit == 4 {
        '4'
    } else if digit == 5 {
        '5'
    } else if digit == 6 {
        '6'
    } else if digit == 7 {
        '7'
    } else if digit == 8 {
        '8'
    } else {
        '9'
    }
}

/// A number written in decimal digits, without leading zeros.
pub open spec fn decimal(n: nat) -> Seq<char>
    decreases n,
{
    if n < 10 {
        seq![digit_char(n as int)]
    } else {
        decimal(n / 10).push(digit_char((n % 10) as int))
    }
}

/// The two lines that show the scores.
pub open spec fn score_text(high: u64, current: u64) -> Seq<char> {
    "High Score: "@ + decimal(high as nat) + "\nCurrent Score: "@ + decimal(current as nat)
}

/// The text of one digit.
fn digit_text(digit: u64) -> (text: &'static str)
    requires
        digit < 10,
    ensures
        text@ == seq![digit_char(digit as int)],
{
    proof {
        reveal_strlit("0");
        reveal_strlit("1");
        reveal_strlit("2");
        reveal_strlit("3");
        reveal_strlit("4");
        reveal_strlit("5");
        reveal_strlit("6");
        reveal_strlit("7");
        reveal_strlit("8");
        reveal_strlit("9");
    }
    let text = if digit == 0 {
        "0"
    } else if digit == 1 {
        "1"
    } else if digit == 2 {
        "2"
    } else if digit == 3 {
        "3"
    } else if digit == 4 {
        "4"
    } else if digit == 5 {
        "5"
    } else if digit == 6 {
        "6"
    } else if digit == 7 {
        "7"
    } else if digit == 8 {
        "8"
    } else {
        "9"
    };
    assert(text@ =~= seq![digit_char(digit as int)]);
    text
}

/// Writes a number in decimal digits.
pub fn decimal_text(n: u64) -> (text: String)
    ensures
        text@ == decimal(n as nat),
    decreases n,
{
    if n < 10 {
        String::from_str(digit_text(n))
    } else {
        let mut text = decimal_text(n / 10);
        text.append(digit_text(n % 10));
        assert(text@ =~= decimal(n as nat));
        text
    }
}

impl Score {
    /// The score is well formed when the present score is the whole
    /// seconds of the elapsed time and the highest score is not below it.
    pub open spec fn wf(self) -> bool {
        self.current == self.elapsed / NANOS_PER_SECOND && self.high >= self.current
    }

    /// The score at the start of a game, with the highest score kept.
    pub open spec fn cleared(self) -> Score {
        Score { current: 0, high: self.high, elapsed: 0 }
    }

    /// The score after `delta` more nanoseconds of simulated time.
    pub open spec fn counted(self, delta: u64) -> Score {
        let elapsed = time_sum(self.elapsed, delta);
        let current = elapsed / NANOS_PER_SECOND;
        Score { current, high: higher(self.high, current), elapsed }
    }

    /// A score of zero beside the highest score that was stored, or beside
    /// zero if none was.
    pub fn new(stored_high: Option<u64>) -> (score: Score)
        ensures
            score == (Score {
                current: 0,
                high: match stored_high {
                    Some(high) => high,
                    None => 0,
                },
                elapsed: 0,
            }),
            score.wf(),
    {
        let high: u64 = match stored_high {
            Some(high) => high,
            None => 0,
        };
        Score { current: 0, high, elapsed: 0 }
    }

    /// The two lines that show the scores.
    pub fn text(&self) -> (text: String)
        ensures
            text@ == score_text(self.high, self.current),
    {
        let mut text = String::from_str("High Score: ");
        let high = decimal_text(self.high);
        text.append(high.as_str());
        text.append("\nCurrent Score: ");
        let current = decimal_text(self.current);
        text.append(current.as_str());
        text
    }

    /// Starts the score of a new game; the highest score stays.
    pub fn reset(&mut self)
        ensures
            *final(self) == old(self).cleared(),
            final(self).wf(),
    {
        self.current = 0;
        self.elapsed = 0;
    }

    /// Counts `delta` more nanoseconds of simulated time.
    pub fn track(&mut self, delta: u64)
        ensures
            *final(self) == old(self).counted(delta),
            final(self).high >= old(self).high,
            old(self).wf() ==> final(self).wf() && final(self).current >= old(self).current,
    {
        self.elapsed = self.elapsed.saturating_add(delta);
        self.current = self.elapsed / NANOS_PER_SECOND;
        if self.current > self.high {
            self.high = self.current;
        }
    }
}

} // verus!
