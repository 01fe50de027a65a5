//! Simulation time, counted in whole nanoseconds.
use vstd::prelude::*;

verus! {

/// The fixed simulation step: one sixtieth of a second, in nanoseconds.
pub const DELTA_TIME: u64 = 16_666_667;

/// Elapsed simulation time since the loop started.
pub struct Time {
    /// Nanoseconds of simulation time.
    pub current_time: u64,
}

/// `after` is `before` moved on by exactly one step.
pub open spec fn ticked(before: Time, after: Time) -> bool {
    after.current_time == before.current_time + DELTA_TIME
}

impl Time {
    /// Advances the clock by one fixed step.
    pub fn tick(&mut self)
        requires
            old(self).current_time + DELTA_TIME <= u64::MAX,
        ensures
            ticked(*old(self), *final(self)),
    {
        self.current_time = self.current_time + self.delta_time();
    }

    /// The fixed step, in nanoseconds.
    pub fn delta_time(&self) -> (r: u64)
        ensures
            r == DELTA_TIME,
    {
        DELTA_TIME
    }
}

/// A clock started at zero and ticked `n` times reads `n` steps: for a run of
/// clock states where each one is the previous one ticked once, state `i` reads
/// `i` times the fixed step.
pub proof fn lemma_time_after_ticks(run: Seq<Time>)
    requires
        run.len() > 0,
        run[0].current_time == 0,
        forall|i: int| 0 <= i < run.len() - 1 ==> ticked(#[trigger] run[i], run[i + 1]),
    ensures
        forall|i: int| 0 <= i < run.len() ==> (#[trigger] run[i]).current_time == i * DELTA_TIME,
    decreases run.len(),
{
    if run.len() > 1 {
        let shorter = run.drop_last();
        assert forall|i: int| 0 <= i < shorter.len() - 1 implies ticked(
            #[trigger] shorter[i],
            shorter[i + 1],
        ) by {
            assert(ticked(run[i], run[i + 1]));
        }
        lemma_time_after_ticks(shorter);
        let last = run.len() - 1;
        assert(ticked(run[last - 1], run[last]));
        assert(shorter[last - 1] == run[last - 1]);
        assert(run[last].current_time == (last - 1) * DELTA_TIME + DELTA_TIME);
        assert forall|i: int| 0 <= i < run.len() implies (#[trigger] run[i]).current_time == i
            * DELTA_TIME by {
            if i < last {
                assert(shorter[i] == run[i]);
            }
        }
    }
}

} // verus!
