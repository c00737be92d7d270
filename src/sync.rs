use vstd::prelude::*;

verus! {

/// The number of queries made per round before the round is given up.
pub const QUERY_ATTEMPTS: u8 = 3;

/// The state in which a `WeakRand` starts.
pub const RAND_SEED: u64 = 0x4564a54753fa4c49;

/// The multiplier of the linear congruential step.
pub const LCG_MULTIPLIER: u128 = 0x5deece66d;

/// The increment of the linear congruential step.
pub const LCG_INCREMENT: u128 = 11;

/// The modulus of the linear congruential step, 2 to the power 48.
pub const LCG_MODULUS: u128 = 0x1_0000_0000_0000;

/// The factor applied to the clock reading before it is mixed in.
pub const CLOCK_MULTIPLIER: u128 = 0x56cae88f;

/// The prime that draws are reduced by.
pub const DRAW_MODULUS: u128 = 4294967291;

/// The state that follows `state` in the linear congruential sequence.
pub open spec fn lcg_step(state: int) -> int {
    (state * LCG_MULTIPLIER + LCG_INCREMENT) % (LCG_MODULUS as int)
}

/// The number drawn from state `state` and clock reading `nanos`.
pub open spec fn mix(nanos: u64, state: u64) -> int {
    ((((nanos as int) * CLOCK_MULTIPLIER) as u128 ^ (state as u128)) % DRAW_MODULUS) as int
}

/// A weak pseudo-random source: a linear congruential sequence mixed with
/// readings of the clock. Good enough to spread load, not for secrets.
pub struct WeakRand {
    state: u64,
}

impl View for WeakRand {
    type V = u64;

    /// The position in the congruential sequence.
    closed spec fn view(&self) -> u64 {
        self.state
    }
}

impl WeakRand {
    /// A source at the start of its sequence.
    pub fn new() -> (r: WeakRand)
        ensures
            r@ == RAND_SEED,
    {
        WeakRand { state: RAND_SEED }
    }

    /// Draw a number, given the clock reading `nanos` (nanoseconds since the
    /// epoch): the sequence takes one step, and the new state is mixed with
    /// the reading.
    pub fn next(&mut self, nanos: u64) -> (r: u32)
        ensures
            final(self)@ == lcg_step(old(self)@ as int),
            r == mix(nanos, final(self)@),
    {
        let stepped: u128 = self.state as u128 * LCG_MULTIPLIER + LCG_INCREMENT;
        let masked: u128 = stepped & 0xffff_ffff_ffff;
        proof {
            assert(stepped & 0xffff_ffff_ffffu128 == stepped % 0x1_0000_0000_0000u128)
                by (bit_vector);
        }
        self.state = masked as u64;
        let scaled: u128 = nanos as u128 * CLOCK_MULTIPLIER;
        ((scaled ^ masked) % DRAW_MODULUS) as u32
    }
}

/// The index of the host to query among `n_hosts`, for the random draw `draw`.
pub fn choose_host(draw: u32, n_hosts: usize) -> (r: usize)
    requires
        n_hosts > 0,
    ensures
        r == draw as int % n_hosts as int,
        r < n_hosts,
{
    draw as usize % n_hosts
}

/// Where the offset estimator stands in its cycle.
#[derive(Clone, Copy, Debug, PartialEq, Eq, Structural)]
pub enum SyncPhase {
    /// Waiting for the next wake-up.
    Idle,
    /// A query of a reference host is in flight; `attempt` counts the queries
    /// of this round, from one.
    Querying { attempt: u8 },
    /// A response has come and is being folded into the estimate.
    Updating,
}

/// What happened since the last step.
#[derive(Clone, Copy, Debug, PartialEq, Eq, Structural)]
pub enum SyncEvent {
    /// The wake-up interval passed; `precise` tells whether the uncertainty of
    /// the estimate, at this instant, is below the target.
    Woke { precise: bool },
    /// The query in flight failed.
    QueryFailed,
    /// The query in flight returned an offset.
    QuerySucceeded,
    /// The response was folded into the estimate.
    Observed,
}

/// What the estimator is to do next.
#[derive(Clone, Copy, Debug, PartialEq, Eq, Structural)]
pub enum SyncAction {
    /// Publish the current estimate, then sleep for the wake-up interval.
    Publish,
    /// Query a reference host.
    Query,
    /// Fold the response into the estimate.
    Observe,
    /// Nothing: the event does not belong to the current phase.
    Ignore,
}

/// The next phase and the action for `event` in phase `phase`, with `attempts`
/// queries allowed per round.
pub open spec fn transition(phase: SyncPhase, attempts: u8, event: SyncEvent) -> (SyncPhase, SyncAction) {
    match phase {
        SyncPhase::Idle => match event {
            SyncEvent::Woke { precise } => if precise {
                (SyncPhase::Idle, SyncAction::Publish)
            } else {
                (SyncPhase::Querying { attempt: 1 }, SyncAction::Query)
            },
            _ => (phase, SyncAction::Ignore),
        },
        SyncPhase::Querying { attempt } => match event {
            SyncEvent::QueryFailed => if attempt < attempts {
                (SyncPhase::Querying { attempt: (attempt + 1) as u8 }, SyncAction::Query)
            } else {
                (SyncPhase::Idle, SyncAction::Publish)
            },
            SyncEvent::QuerySucceeded => (SyncPhase::Updating, SyncAction::Observe),
            _ => (phase, SyncAction::Ignore),
        },
        SyncPhase::Updating => match event {
            SyncEvent::Observed => (SyncPhase::Idle, SyncAction::Publish),
            _ => (phase, SyncAction::Ignore),
        },
    }
}

/// The phase and action after a wake-up that finds the estimate imprecise,
/// followed by `k` failed queries, with `attempts` queries allowed per round.
pub open spec fn after_failed_queries(attempts: u8, k: nat) -> (SyncPhase, SyncAction)
    decreases k,
{
    if k == 0 {
        transition(SyncPhase::Idle, attempts, SyncEvent::Woke { precise: false })
    } else {
        transition(after_failed_queries(attempts, (k - 1) as nat).0, attempts, SyncEvent::QueryFailed)
    }
}

/// A round whose queries all fail asks for exactly `attempts` queries, then
/// gives up and publishes the estimate it had: after each of the first
/// `attempts - 1` failures the next query is asked for, and the failure of the
/// last one ends the round.
pub proof fn lemma_failed_round(attempts: u8, k: nat)
    requires
        attempts > 0,
        k <= attempts,
    ensures
        k < attempts ==> after_failed_queries(attempts, k) == (
            SyncPhase::Querying { attempt: (k + 1) as u8 },
            SyncAction::Query,
        ),
        k == attempts ==> after_failed_queries(attempts, k) == (SyncPhase::Idle, SyncAction::Publish),
    decreases k,
{
    if k > 0 {
        lemma_failed_round(attempts, (k - 1) as nat);
    }
}

/// The decisions of the offset-acquisition loop: when to query a reference
/// host, how often to retry, and when to publish. Each round makes at most a
/// fixed number of queries and ends at the first success; a round whose
/// queries all fail leaves the estimate as it was.
pub struct Acquisition {
    phase: SyncPhase,
    attempts: u8,
}

impl View for Acquisition {
    type V = (SyncPhase, u8);

    /// The phase, and the number of queries allowed per round.
    closed spec fn view(&self) -> (SyncPhase, u8) {
        (self.phase, self.attempts)
    }
}

impl Acquisition {
    /// At least one query is allowed per round, and a round never goes past
    /// its last allowed query.
    #[verifier::type_invariant]
    spec fn well_formed(self) -> bool {
        &&& self.attempts > 0
        &&& match self.phase {
            SyncPhase::Querying { attempt } => 1 <= attempt <= self.attempts,
            _ => true,
        }
    }

    /// An idle loop that allows `attempts` queries per round.
    pub fn new(attempts: u8) -> (r: Acquisition)
        requires
            attempts > 0,
        ensures
            r@ == (SyncPhase::Idle, attempts),
    {
        Acquisition { phase: SyncPhase::Idle, attempts }
    }

    /// The current phase.
    pub fn phase(&self) -> (r: SyncPhase)
        ensures
            r == self@.0,
            self@.1 > 0,
            r matches SyncPhase::Querying { attempt } ==> 1 <= attempt <= self@.1,
    {
        proof {
            use_type_invariant(self);
        }
        self.phase
    }

    /// Move on by `event`, and say what to do next.
    pub fn step(&mut self, event: SyncEvent) -> (r: SyncAction)
        ensures
            (final(self)@.0, r) == transition(old(self)@.0, old(self)@.1, event),
            final(self)@.1 == old(self)@.1,
    {
        proof {
            use_type_invariant(&*self);
        }
        let (phase, action) = match self.phase {
            SyncPhase::Idle => match event {
                SyncEvent::Woke { precise } => if precise {
                    (SyncPhase::Idle, SyncAction::Publish)
                } else {
                    (SyncPhase::Querying { attempt: 1 }, SyncAction::Query)
                },
                _ => (self.phase, SyncAction::Ignore),
            },
            SyncPhase::Querying { attempt } => match event {
                SyncEvent::QueryFailed => if attempt < self.attempts {
                    (SyncPhase::Querying { attempt: attempt + 1 }, SyncAction::Query)
                } else {
                    (SyncPhase::Idle, SyncAction::Publish)
                },
                SyncEvent::QuerySucceeded => (SyncPhase::Updating, SyncAction::Observe),
                _ => (self.phase, SyncAction::Ignore),
            },
            SyncPhase::Updating => match event {
                SyncEvent::Observed => (SyncPhase::Idle, SyncAction::Publish),
                _ => (self.phase, SyncAction::Ignore),
            },
        };
        self.phase = phase;
        action
    }
}

} // verus!
