use vstd::prelude::*;

verus! {

#[derive(Clone, Copy, Debug, PartialEq, Eq, Structural)]
pub enum PollPhase {
    Idle,
    Syncing,
    Checking,
    Waiting,
    Satisfied,
    Exhausted,
}

/// What the backend reported since the last action.
#[derive(Clone, Copy, Debug, PartialEq, Eq, Structural)]
pub enum PollEvent {
    Started,
    SyncCompleted,
    SyncFailed,
    /// The predicate's observed value, e.g. the number of consumable notes.
    Observed { value: u64 },
    Slept,
}

/// What the caller does next.
#[derive(Clone, Copy, Debug, PartialEq, Eq, Structural)]
pub enum PollAction {
    Sync,
    EvaluatePredicate,
    Sleep,
    Proceed,
    GiveUp,
    Ignore,
}

/// A wait for an observed value to reach `target`: each cycle synchronizes,
/// then evaluates the predicate, then sleeps. With `max_attempts` set, the wait
/// gives up once that many cycles have run.
#[derive(Clone, Copy, Debug, PartialEq, Eq, Structural)]
pub struct Poller {
    pub phase: PollPhase,
    pub attempts: u64,
    pub max_attempts: Option<u64>,
    pub target: u64,
}

pub open spec fn out_of_attempts(p: Poller) -> bool {
    p.max_attempts matches Some(m) && p.attempts >= m
}

pub open spec fn with_phase(p: Poller, phase: PollPhase) -> Poller {
    Poller { phase, ..p }
}

/// The transition taken on an event; events that do not fit the phase leave
/// the state as it is.
pub open spec fn poll_next(p: Poller, e: PollEvent) -> (Poller, PollAction) {
    match (p.phase, e) {
        (PollPhase::Idle, PollEvent::Started) => if out_of_attempts(p) || p.attempts == u64::MAX {
            (with_phase(p, PollPhase::Exhausted), PollAction::GiveUp)
        } else {
            (Poller { phase: PollPhase::Syncing, attempts: (p.attempts + 1) as u64, ..p }, PollAction::Sync)
        },
        (PollPhase::Syncing, PollEvent::SyncCompleted) => (
            with_phase(p, PollPhase::Checking),
            PollAction::EvaluatePredicate,
        ),
        (PollPhase::Syncing, PollEvent::SyncFailed) => (
            with_phase(p, PollPhase::Waiting),
            PollAction::Sleep,
        ),
        (PollPhase::Checking, PollEvent::Observed { value }) => if value == p.target {
            (with_phase(p, PollPhase::Satisfied), PollAction::Proceed)
        } else {
            (with_phase(p, PollPhase::Waiting), PollAction::Sleep)
        },
        (PollPhase::Waiting, PollEvent::Slept) => if out_of_attempts(p) || p.attempts == u64::MAX {
            (with_phase(p, PollPhase::Exhausted), PollAction::GiveUp)
        } else {
            (Poller { phase: PollPhase::Syncing, attempts: (p.attempts + 1) as u64, ..p }, PollAction::Sync)
        },
        _ => (p, PollAction::Ignore),
    }
}

impl Poller {
    pub fn new(target: u64, max_attempts: Option<u64>) -> (r: Poller)
        ensures
            r == (Poller { phase: PollPhase::Idle, attempts: 0, max_attempts, target }),
    {
        Poller { phase: PollPhase::Idle, attempts: 0, max_attempts, target }
    }

    fn exhausted(&self) -> (r: bool)
        ensures
            r == out_of_attempts(*self),
    {
        match self.max_attempts {
            Some(m) => self.attempts >= m,
            None => false,
        }
    }

    /// Takes one transition and returns what the caller does next.
    pub fn step(&mut self, e: PollEvent) -> (a: PollAction)
        ensures
            (*final(self), a) == poll_next(*old(self), e),
    {
        match (self.phase, e) {
            (PollPhase::Idle, PollEvent::Started) => {
                if self.exhausted() || self.attempts == u64::MAX {
                    self.phase = PollPhase::Exhausted;
                    PollAction::GiveUp
                } else {
                    self.phase = PollPhase::Syncing;
                    self.attempts = self.attempts + 1;
                    PollAction::Sync
                }
            },
            (PollPhase::Syncing, PollEvent::SyncCompleted) => {
                self.phase = PollPhase::Checking;
                PollAction::EvaluatePredicate
            },
            (PollPhase::Syncing, PollEvent::SyncFailed) => {
                self.phase = PollPhase::Waiting;
                PollAction::Sleep
            },
            (PollPhase::Checking, PollEvent::Observed { value }) => {
                if value == self.target {
                    self.phase = PollPhase::Satisfied;
                    PollAction::Proceed
                } else {
                    self.phase = PollPhase::Waiting;
                    PollAction::Sleep
                }
            },
            (PollPhase::Waiting, PollEvent::Slept) => {
                if self.exhausted() || self.attempts == u64::MAX {
                    self.phase = PollPhase::Exhausted;
                    PollAction::GiveUp
                } else {
                    self.phase = PollPhase::Syncing;
                    self.attempts = self.attempts + 1;
                    PollAction::Sync
                }
            },
            _ => PollAction::Ignore,
        }
    }
}

/// The predicate is evaluated only right after a completed synchronization,
/// and an observation counts only when it answers that evaluation: no cycle
/// checks a value read before its own synchronization finished.
pub proof fn lemma_check_follows_sync(p: Poller, e: PollEvent)
    ensures
        poll_next(p, e).1 == PollAction::EvaluatePredicate ==> p.phase == PollPhase::Syncing && e
            == PollEvent::SyncCompleted,
        poll_next(p, e).0.phase == PollPhase::Checking && p.phase != PollPhase::Checking ==> e
            == PollEvent::SyncCompleted,
        poll_next(p, e).0.phase == PollPhase::Satisfied && p.phase != PollPhase::Satisfied ==> p.phase
            == PollPhase::Checking && e == (PollEvent::Observed { value: p.target }),
        p.phase != PollPhase::Checking && e is Observed ==> poll_next(p, e).0 == p,
{
}

/// With a bound set, the wait never runs more cycles than the bound allows.
pub proof fn lemma_attempts_bounded(p: Poller, e: PollEvent)
    requires
        p.max_attempts matches Some(m) && p.attempts <= m,
    ensures
        poll_next(p, e).0.max_attempts == p.max_attempts,
        poll_next(p, e).0.attempts <= p.max_attempts->Some_0,
{
}

} // verus!
