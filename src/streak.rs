//! Longest runs of consecutive wins and losses over an ordered list of outcomes.
use vstd::prelude::*;
use crate::model::Standing;

verus! {

/// The abstract state of a [`StreakTracker`].
pub struct StreakView {
    pub streak: int,
    pub last: Standing,
    pub longest_win: int,
    pub longest_loss: int,
}

pub open spec fn streak_start() -> StreakView {
    StreakView { streak: 0, last: Standing::Unknown, longest_win: 0, longest_loss: 0 }
}

/// One outcome: a win extends a run of wins or starts one at 1, a loss extends a run of
/// losses or starts one at -1, and an unknown outcome leaves the run as it is but is
/// still remembered as the previous outcome.
pub open spec fn streak_step(v: StreakView, s: Standing) -> StreakView {
    let streak = match s {
        Standing::Victory => if v.last == Standing::Victory { v.streak + 1 } else { 1 },
        Standing::Defeat => if v.last == Standing::Defeat { v.streak - 1 } else { -1 },
        Standing::Unknown => v.streak,
    };
    StreakView {
        streak,
        last: s,
        longest_win: if streak > 0 && streak > v.longest_win { streak } else { v.longest_win },
        longest_loss: if streak < 0 && -streak > v.longest_loss { -streak } else { v.longest_loss },
    }
}

/// The state after the outcomes of `s`, in order.
pub open spec fn streak_of(s: Seq<Standing>) -> StreakView
    decreases s.len(),
{
    if s.len() == 0 {
        streak_start()
    } else {
        streak_step(streak_of(s.drop_last()), s.last())
    }
}

/// No run is longer than the list it was found in.
pub proof fn lemma_streak_bounded(s: Seq<Standing>)
    ensures
        -s.len() <= streak_of(s).streak <= s.len(),
        0 <= streak_of(s).longest_win <= s.len(),
        0 <= streak_of(s).longest_loss <= s.len(),
    decreases s.len(),
{
    if s.len() > 0 {
        lemma_streak_bounded(s.drop_last());
    }
}

/// Tracks the current run and the longest runs seen.
pub struct StreakTracker {
    pub streak: i64,
    pub last: Standing,
    pub longest_win: u32,
    pub longest_loss: u32,
}

impl StreakTracker {
    pub open spec fn view(&self) -> StreakView {
        StreakView {
            streak: self.streak as int,
            last: self.last,
            longest_win: self.longest_win as int,
            longest_loss: self.longest_loss as int,
        }
    }

    pub fn new() -> (r: StreakTracker)
        ensures
            r@ == streak_start(),
    {
        StreakTracker { streak: 0, last: Standing::Unknown, longest_win: 0, longest_loss: 0 }
    }

    /// Takes the next outcome into account.
    pub fn record(&mut self, s: Standing)
        requires
            -(u32::MAX as int) < old(self).streak < u32::MAX,
            old(self).longest_win < u32::MAX,
            old(self).longest_loss < u32::MAX,
        ensures
            final(self)@ == streak_step(old(self)@, s),
    {
        match s {
            Standing::Victory => {
                if self.last == Standing::Victory {
                    self.streak = self.streak + 1;
                } else {
                    self.streak = 1;
                }
            },
            Standing::Defeat => {
                if self.last == Standing::Defeat {
                    self.streak = self.streak - 1;
                } else {
                    self.streak = -1;
                }
            },
            Standing::Unknown => {},
        }
        if self.streak > 0 {
            if self.streak > self.longest_win as i64 {
                self.longest_win = self.streak as u32;
            }
        } else if self.streak < 0 {
            if -self.streak > self.longest_loss as i64 {
                self.longest_loss = (-self.streak) as u32;
            }
        }
        self.last = s;
    }
}

} // verus!
