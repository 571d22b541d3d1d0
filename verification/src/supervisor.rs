use vstd::prelude::*;

verus! {

/// What became of one execution unit when its completion handle was joined:
/// it ran to completion, or it ended in an unrecoverable fault.
#[derive(Clone, Copy, Debug, PartialEq, Eq, Structural)]
pub enum JoinOutcome {
    Completed,
    Faulted,
}

/// The next thing the supervisor has decided to do.
#[derive(Clone, Copy, Debug, PartialEq, Eq, Structural)]
pub enum SupervisorAction {
    /// Join the completion handle of the producer with this index, counted
    /// in spawn order.
    JoinProducer(usize),
    /// Drop the supervisor's own registry reference — the step that lets
    /// the aggregator's channel close once the producers are gone.
    ReleaseRegistry,
    /// Join the aggregator's completion handle.
    JoinAggregator,
    /// The run is over.
    Finish,
    /// A join reported a fault: surface it and orchestrate nothing further.
    Abort,
}

/// The supervisor's decision state: pure bookkeeping over how far the
/// orchestration has come. The loop around it performs each decided action
/// — spawning, joining, dropping — and reports the outcome back; the
/// decisions themselves are a function of this state alone.
#[derive(Clone, Copy, Debug, PartialEq, Eq, Structural)]
pub struct Supervisor {
    /// How many producers the run has.
    pub n_producers: usize,
    /// How many producer completion handles were joined so far; handles are
    /// joined in spawn order, so this is also the next index to join.
    pub joined: usize,
    /// Whether the supervisor has dropped its registry reference.
    pub registry_released: bool,
    /// Whether the aggregator's completion handle was joined.
    pub aggregator_joined: bool,
    /// Whether some join reported a fault.
    pub failed: bool,
}

impl Supervisor {
    /// The orchestration never runs ahead of itself: no more handles joined
    /// than exist, the registry is released only once every producer's
    /// handle was joined, and the aggregator is joined only after that.
    pub open spec fn wf(self) -> bool {
        &&& self.joined <= self.n_producers
        &&& (self.registry_released ==> self.joined == self.n_producers)
        &&& (self.aggregator_joined ==> self.registry_released)
    }

    /// A fresh supervisor for a run with `n_producers` producers: nothing
    /// joined, nothing released.
    pub fn new(n_producers: usize) -> (s: Supervisor)
        ensures
            s.wf(),
            s.n_producers == n_producers,
            s.joined == 0,
            !s.registry_released,
            !s.aggregator_joined,
            !s.failed,
    {
        Supervisor {
            n_producers,
            joined: 0,
            registry_released: false,
            aggregator_joined: false,
            failed: false,
        }
    }

    /// The decision, as a function of the state alone: surface a fault at
    /// once; else join the producers in spawn order; else release the
    /// registry; else join the aggregator; else the run is over.
    pub open spec fn spec_next_action(self) -> SupervisorAction {
        if self.failed {
            SupervisorAction::Abort
        } else if self.joined < self.n_producers {
            SupervisorAction::JoinProducer(self.joined)
        } else if !self.registry_released {
            SupervisorAction::ReleaseRegistry
        } else if !self.aggregator_joined {
            SupervisorAction::JoinAggregator
        } else {
            SupervisorAction::Finish
        }
    }

    /// What the machine decides next.
    pub fn next_action(&self) -> (a: SupervisorAction)
        ensures
            a == self.spec_next_action(),
    {
        if self.failed {
            SupervisorAction::Abort
        } else if self.joined < self.n_producers {
            SupervisorAction::JoinProducer(self.joined)
        } else if !self.registry_released {
            SupervisorAction::ReleaseRegistry
        } else if !self.aggregator_joined {
            SupervisorAction::JoinAggregator
        } else {
            SupervisorAction::Finish
        }
    }

    /// The state after the decided action was performed and its outcome
    /// reported. Joins record the unit's end and whether it faulted; the
    /// two terminal decisions change nothing.
    pub open spec fn spec_step(s: Supervisor, outcome: JoinOutcome) -> Supervisor {
        match s.spec_next_action() {
            SupervisorAction::JoinProducer(_) => Supervisor {
                joined: (s.joined + 1) as usize,
                failed: outcome is Faulted,
                ..s
            },
            SupervisorAction::ReleaseRegistry => Supervisor { registry_released: true, ..s },
            SupervisorAction::JoinAggregator => Supervisor {
                aggregator_joined: true,
                failed: outcome is Faulted,
                ..s
            },
            SupervisorAction::Finish => s,
            SupervisorAction::Abort => s,
        }
    }

    /// Advance by one performed action: the loop around the machine
    /// performs what `next_action` decided and reports the outcome (joins
    /// report how the unit ended; every other action reports `Completed`).
    pub fn apply(&mut self, outcome: JoinOutcome)
        ensures
            *final(self) == Self::spec_step(*old(self), outcome),
            old(self).wf() ==> final(self).wf(),
    {
        match self.next_action() {
            SupervisorAction::JoinProducer(_) => {
                self.joined = self.joined + 1;
                self.failed = match outcome {
                    JoinOutcome::Faulted => true,
                    JoinOutcome::Completed => false,
                };
            },
            SupervisorAction::ReleaseRegistry => {
                self.registry_released = true;
            },
            SupervisorAction::JoinAggregator => {
                self.aggregator_joined = true;
                self.failed = match outcome {
                    JoinOutcome::Faulted => true,
                    JoinOutcome::Completed => false,
                };
            },
            SupervisorAction::Finish => {
            },
            SupervisorAction::Abort => {
            },
        }
    }

    /// The machine run over a whole sequence of reported outcomes.
    pub open spec fn spec_run(s: Supervisor, outcomes: Seq<JoinOutcome>) -> Supervisor
        decreases outcomes.len(),
    {
        if outcomes.len() == 0 {
            s
        } else {
            Self::spec_run(Self::spec_step(s, outcomes[0]), outcomes.drop_first())
        }
    }
}

/// Every state a run reaches from a well-formed state is well-formed: in
/// particular, the registry is never found released while some producer's
/// handle is still unjoined.
pub proof fn lemma_run_preserves_wf(s: Supervisor, outcomes: Seq<JoinOutcome>)
    requires
        s.wf(),
    ensures
        Supervisor::spec_run(s, outcomes).wf(),
    decreases outcomes.len(),
{
    if outcomes.len() > 0 {
        lemma_run_preserves_wf(Supervisor::spec_step(s, outcomes[0]), outcomes.drop_first());
    }
}

/// The supervisor decides to release its registry reference only in a state
/// where every producer's completion handle has been joined — so the
/// closure signal can only come after every producer has terminated.
pub proof fn lemma_release_only_after_all_joined(s: Supervisor)
    requires
        s.wf(),
    ensures
        s.spec_next_action() is ReleaseRegistry ==> s.joined == s.n_producers && !s.failed,
{
}

/// The count of joined handles never decreases along a run.
pub proof fn lemma_joined_monotone(s: Supervisor, outcomes: Seq<JoinOutcome>)
    ensures
        Supervisor::spec_run(s, outcomes).joined >= s.joined,
    decreases outcomes.len(),
{
    if outcomes.len() > 0 {
        lemma_joined_monotone(Supervisor::spec_step(s, outcomes[0]), outcomes.drop_first());
    }
}

/// No completion handle is joined twice: the machine decides
/// `JoinProducer(i)` only in the one state where `i` handles are joined,
/// and once that decision is carried out the count has passed `i` for good.
pub proof fn lemma_no_double_join(
    s: Supervisor,
    outcome: JoinOutcome,
    outcomes: Seq<JoinOutcome>,
    i: usize,
)
    requires
        s.spec_next_action() == SupervisorAction::JoinProducer(i),
    ensures
        i == s.joined,
        Supervisor::spec_run(Supervisor::spec_step(s, outcome), outcomes).spec_next_action()
            != SupervisorAction::JoinProducer(i),
{
    lemma_joined_monotone(Supervisor::spec_step(s, outcome), outcomes);
}

} // verus!
