use vstd::prelude::*;

verus! {

/// Tracks the current kill combo and its decay timer. `F` is the scalar type
/// in which the game measures time.
#[derive(Debug, Clone, Copy)]
pub struct ComboState<F> {
    pub current: u32,
    pub timer: F,
    pub max_combo: u32,
    /// Seconds before the combo resets after the last kill.
    pub decay_time: F,
}

impl<F: Copy> ComboState<F> {
    /// The best combo seen so far is at least the running one.
    pub open spec fn consistent(self) -> bool {
        self.current <= self.max_combo
    }

    /// The state after one more kill.
    pub open spec fn after_kill(self) -> ComboState<F> {
        let next = (self.current + 1) as u32;
        ComboState {
            current: next,
            timer: self.decay_time,
            max_combo: if next > self.max_combo { next } else { self.max_combo },
            decay_time: self.decay_time,
        }
    }

    /// Counts one more kill: the combo grows by one, its decay timer restarts,
    /// and the best combo follows it upward.
    pub fn register_kill(&mut self)
        requires
            old(self).current < u32::MAX,
        ensures
            *final(self) == old(self).after_kill(),
    {
        self.current = self.current + 1;
        self.timer = self.decay_time;
        if self.current > self.max_combo {
            self.max_combo = self.current;
        }
    }
}

/// A kill always leaves the best combo at least as high as the running one
/// (whatever state it came from), never lowers the best combo, grows the
/// running combo by exactly one, and restarts the decay timer.
pub proof fn law_combo_best_tracks_current<F: Copy>(c: ComboState<F>)
    requires
        c.current < u32::MAX,
    ensures
        c.after_kill().consistent(),
        c.after_kill().max_combo >= c.max_combo,
        c.after_kill().max_combo >= c.current + 1,
        c.after_kill().current == c.current + 1,
        c.after_kill().timer == c.decay_time,
{
}

} // verus!
