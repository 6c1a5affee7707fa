use vstd::prelude::*;

verus! {

/// Number of grain slots a granulator owns.
pub const MAX_GRAINS: usize = 32;

/// Phase of a grain's amplitude envelope.
#[derive(Clone, Copy, Debug, PartialEq, Eq, Structural)]
pub enum GrainState {
    Attack,
    Sustain,
    Release,
    Stopped,
}

impl GrainState {
    /// Position of the phase in the envelope: attack, sustain, release, stopped.
    pub open spec fn rank(self) -> int {
        match self {
            GrainState::Attack => 0,
            GrainState::Sustain => 1,
            GrainState::Release => 2,
            GrainState::Stopped => 3,
        }
    }

    /// Phase after one sample, given whether the current phase reached its limit
    /// during that sample (attack: level at or above full scale; sustain: hold time
    /// used up; release: level below zero).
    pub open spec fn spec_after(self, limit_reached: bool) -> GrainState {
        match self {
            GrainState::Attack => if limit_reached { GrainState::Sustain } else { GrainState::Attack },
            GrainState::Sustain => if limit_reached { GrainState::Release } else { GrainState::Sustain },
            GrainState::Release => if limit_reached { GrainState::Stopped } else { GrainState::Release },
            GrainState::Stopped => GrainState::Stopped,
        }
    }

    /// The phase that follows `self` after one sample.
    pub fn after(self, limit_reached: bool) -> (next: GrainState)
        ensures
            next == self.spec_after(limit_reached),
    {
        match self {
            GrainState::Attack => if limit_reached { GrainState::Sustain } else { GrainState::Attack },
            GrainState::Sustain => if limit_reached { GrainState::Release } else { GrainState::Sustain },
            GrainState::Release => if limit_reached { GrainState::Stopped } else { GrainState::Release },
            GrainState::Stopped => GrainState::Stopped,
        }
    }

    /// Whether a grain in this phase produces a sample.
    pub fn is_sounding(&self) -> (r: bool)
        ensures
            r == (*self != GrainState::Stopped),
    {
        match self {
            GrainState::Stopped => false,
            _ => true,
        }
    }
}

/// A stopped grain stays stopped, whatever happens during a sample.
pub proof fn lemma_stopped_stays_stopped(limit_reached: bool)
    ensures
        GrainState::Stopped.spec_after(limit_reached) == GrainState::Stopped,
{
}

/// The envelope only moves forward, by one phase, and only when the current phase
/// reaches its limit: attack, then sustain, then release, then stopped.
pub proof fn lemma_envelope_moves_forward(s: GrainState, limit_reached: bool)
    ensures
        s.spec_after(limit_reached).rank() == if limit_reached && s != GrainState::Stopped {
            s.rank() + 1
        } else {
            s.rank()
        },
{
}

/// A grain started in attack stops after exactly three limits have been reached,
/// and sounds in between.
pub proof fn lemma_envelope_ends_after_three_limits()
    ensures
        GrainState::Attack.spec_after(true).spec_after(true) != GrainState::Stopped,
        GrainState::Attack.spec_after(true).spec_after(true).spec_after(true)
            == GrainState::Stopped,
{
}

/// A grain just started in a slot sounds on its next sample, and the slots that
/// were sounding before keep sounding.
pub proof fn lemma_claimed_grain_sounds(states: Seq<GrainState>, i: int)
    requires
        GrainPool::is_first_stopped(states, i),
    ensures
        states.update(i, GrainState::Attack)[i] != GrainState::Stopped,
        forall|j: int|
            0 <= j < states.len() && states[j] != GrainState::Stopped ==> states.update(
                i,
                GrainState::Attack,
            )[j] != GrainState::Stopped,
{
}

/// The slots of a granulator: the envelope phase of each of its grains.
pub struct GrainPool {
    states: Vec<GrainState>,
}

impl View for GrainPool {
    type V = Seq<GrainState>;

    closed spec fn view(&self) -> Seq<GrainState> {
        self.states@
    }
}

impl GrainPool {
    /// Whether slot `i` is the lowest stopped slot of `states`.
    pub open spec fn is_first_stopped(states: Seq<GrainState>, i: int) -> bool {
        &&& 0 <= i < states.len()
        &&& states[i] == GrainState::Stopped
        &&& forall|j: int| 0 <= j < i ==> states[j] != GrainState::Stopped
    }

    /// A pool of `MAX_GRAINS` slots, all stopped.
    pub fn new() -> (pool: GrainPool)
        ensures
            pool@.len() == MAX_GRAINS,
            forall|i: int| 0 <= i < MAX_GRAINS ==> pool@[i] == GrainState::Stopped,
    {
        let mut states: Vec<GrainState> = Vec::with_capacity(MAX_GRAINS);
        let mut k: usize = 0;
        while k < MAX_GRAINS
            invariant
                k <= MAX_GRAINS,
                states@.len() == k,
                forall|i: int| 0 <= i < k ==> states@[i] == GrainState::Stopped,
            decreases MAX_GRAINS - k,
        {
            states.push(GrainState::Stopped);
            k = k + 1;
        }
        GrainPool { states }
    }

    /// Number of slots.
    pub fn len(&self) -> (n: usize)
        ensures
            n == self@.len(),
    {
        self.states.len()
    }

    /// Phase of the grain in slot `i`.
    pub fn state(&self, i: usize) -> (s: GrainState)
        requires
            i < self@.len(),
        ensures
            s == self@[i as int],
    {
        self.states[i]
    }

    /// Starts a grain in the lowest stopped slot and returns that slot; `None`,
    /// with nothing changed, when every grain is sounding.
    pub fn claim(&mut self) -> (slot: Option<usize>)
        ensures
            final(self)@.len() == old(self)@.len(),
            match slot {
                Some(i) => {
                    &&& GrainPool::is_first_stopped(old(self)@, i as int)
                    &&& final(self)@ == old(self)@.update(i as int, GrainState::Attack)
                },
                None => {
                    &&& forall|j: int| 0 <= j < old(self)@.len() ==> old(self)@[j] != GrainState::Stopped
                    &&& final(self)@ == old(self)@
                },
            },
    {
        let n = self.states.len();
        let mut i: usize = 0;
        while i < n
            invariant
                n == self.states@.len(),
                self@ == old(self)@,
                i <= n,
                forall|j: int| 0 <= j < i ==> self.states@[j] != GrainState::Stopped,
            decreases n - i,
        {
            if !self.states[i].is_sounding() {
                self.states.set(i, GrainState::Attack);
                return Some(i);
            }
            i = i + 1;
        }
        None
    }

    /// Moves the grain in slot `i` on by one sample; returns whether it sounded
    /// during that sample, that is, whether it was not stopped before.
    pub fn advance(&mut self, i: usize, limit_reached: bool) -> (sounded: bool)
        requires
            i < old(self)@.len(),
        ensures
            final(self)@.len() == old(self)@.len(),
            sounded == (old(self)@[i as int] != GrainState::Stopped),
            final(self)@ == old(self)@.update(i as int, old(self)@[i as int].spec_after(limit_reached)),
    {
        let current = self.states[i];
        self.states.set(i, current.after(limit_reached));
        current.is_sounding()
    }
}

} // verus!
