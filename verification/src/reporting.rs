use vstd::prelude::*;

verus! {

/// Number of processed chunks between two reports of the synth state.
pub const STATE_COUNT: u16 = 50;

/// Counts processed chunks down to the next report of the synth state.
pub struct StateCountdown {
    state_count: u16,
}

/// Chunks left before the report, after `n` chunks have been processed from a
/// countdown at `remaining`.
pub open spec fn remaining_after(remaining: int, n: nat) -> int
    decreases n,
{
    if n == 0 {
        remaining
    } else {
        let before = remaining_after(remaining, (n - 1) as nat);
        if before == 1 {
            STATE_COUNT as int
        } else {
            before - 1
        }
    }
}

impl StateCountdown {
    #[verifier::type_invariant]
    spec fn in_range(self) -> bool {
        1 <= self.state_count <= STATE_COUNT
    }

    /// Chunks left to process until the next report.
    pub closed spec fn remaining(&self) -> int {
        self.state_count as int
    }

    /// A countdown that reports after `STATE_COUNT` chunks.
    pub fn new() -> (c: StateCountdown)
        ensures
            c.remaining() == STATE_COUNT,
    {
        StateCountdown { state_count: STATE_COUNT }
    }

    /// Counts one processed chunk; returns whether the state is due to be reported
    /// now, in which case the countdown starts again from `STATE_COUNT`.
    pub fn tick(&mut self) -> (due: bool)
        ensures
            due == (old(self).remaining() == 1),
            final(self).remaining() == remaining_after(old(self).remaining(), 1),
            final(self).remaining() == if due {
                STATE_COUNT as int
            } else {
                old(self).remaining() - 1
            },
            1 <= final(self).remaining() <= STATE_COUNT,
    {
        proof {
            use_type_invariant(&*self);
            reveal_with_fuel(remaining_after, 2);
        }
        if self.state_count == 1 {
            self.state_count = STATE_COUNT;
            true
        } else {
            self.state_count = self.state_count - 1;
            false
        }
    }
}

/// Where a countdown at `remaining` stands after `n` more chunks.
pub proof fn lemma_remaining_after_closed_form(remaining: int, n: nat)
    requires
        1 <= remaining <= STATE_COUNT,
    ensures
        remaining_after(remaining, n) == ((remaining - 1 - n) % (STATE_COUNT as int)) + 1,
    decreases n,
{
    if n > 0 {
        lemma_remaining_after_closed_form(remaining, (n - 1) as nat);
    }
}

/// Starting from a fresh countdown, the state is reported on exactly every
/// `STATE_COUNT`-th processed chunk: chunk `k` (counting from 1) reports iff `k` is
/// a multiple of `STATE_COUNT`.
pub proof fn lemma_reports_every_period(k: nat)
    requires
        k >= 1,
    ensures
        (remaining_after(STATE_COUNT as int, (k - 1) as nat) == 1) <==> (k % (STATE_COUNT as nat) == 0),
{
    lemma_remaining_after_closed_form(STATE_COUNT as int, (k - 1) as nat);
}

} // verus!
