use vstd::prelude::*;

verus! {

/// What one query of a remote job's status reports.
#[derive(Debug, Clone, Copy, PartialEq, Eq, Structural)]
pub enum PollOutcome {
    Pending,
    Succeeded,
    Failed,
    /// A status that the mapping table does not recognise.
    Unknown,
}

/// Where a poller stands. All but `Pending` are terminal; `Unknown` is an
/// unrecognised remote status and is reported as a failure.
#[derive(Debug, Clone, Copy, PartialEq, Eq, Structural)]
pub enum PollState {
    Pending,
    Succeeded,
    Failed,
    Unknown,
    Exhausted,
}

/// How long to wait between two queries, and how many queries to make at
/// most.
#[derive(Debug, Clone, Copy, PartialEq, Eq, Structural)]
pub struct PollPolicy {
    pub interval_secs: u64,
    pub budget: u32,
}

/// What the driver of a poller does next.
#[derive(Debug, Clone, Copy, PartialEq, Eq, Structural)]
pub enum PollAction {
    /// Sleep this many seconds, then query the status again.
    Sleep(u64),
    /// Stop: the poller has reached this terminal state.
    Stop(PollState),
}

/// A long-running operation poller: the queries made so far and the state
/// they led to.
#[derive(Debug, Clone, Copy, PartialEq, Eq, Structural)]
pub struct Poller {
    pub policy: PollPolicy,
    pub attempts: u32,
    pub state: PollState,
}

impl Poller {
    /// The attempts never exceed the budget, and a poller that may still
    /// query has budget left.
    pub open spec fn wf(self) -> bool {
        &&& self.attempts <= self.policy.budget
        &&& self.state is Pending ==> self.attempts < self.policy.budget
    }

    /// A poller before its first query. With a budget of zero it is
    /// exhausted at once.
    pub open spec fn initial(policy: PollPolicy) -> Poller {
        Poller {
            policy,
            attempts: 0,
            state: if policy.budget == 0 {
                PollState::Exhausted
            } else {
                PollState::Pending
            },
        }
    }

    /// The poller after one more query reported `o`.
    pub open spec fn after(self, o: PollOutcome) -> Poller {
        let attempts = (self.attempts + 1) as u32;
        Poller {
            policy: self.policy,
            attempts,
            state: match o {
                PollOutcome::Succeeded => PollState::Succeeded,
                PollOutcome::Failed => PollState::Failed,
                PollOutcome::Unknown => PollState::Unknown,
                PollOutcome::Pending => if attempts >= self.policy.budget {
                    PollState::Exhausted
                } else {
                    PollState::Pending
                },
            },
        }
    }

    /// What the driver does once the poller has taken in a query's outcome.
    pub open spec fn action(self) -> PollAction {
        if self.state is Pending {
            PollAction::Sleep(self.policy.interval_secs)
        } else {
            PollAction::Stop(self.state)
        }
    }

    /// Creates a poller that has made no query yet.
    pub fn new(policy: PollPolicy) -> (p: Poller)
        ensures
            p == Poller::initial(policy),
            p.wf(),
    {
        Poller {
            policy,
            attempts: 0,
            state: if policy.budget == 0 {
                PollState::Exhausted
            } else {
                PollState::Pending
            },
        }
    }

    /// Whether the poller still queries.
    pub fn is_pending(&self) -> (r: bool)
        ensures
            r == (self.state is Pending),
    {
        matches!(self.state, PollState::Pending)
    }

    /// Takes in the outcome of one query: success, failure and an unknown
    /// status stop at once; a pending status sleeps for the interval, or
    /// stops as exhausted when the budget is spent.
    pub fn observe(&mut self, outcome: PollOutcome) -> (a: PollAction)
        requires
            old(self).wf(),
            old(self).state is Pending,
        ensures
            *final(self) == old(self).after(outcome),
            final(self).wf(),
            a == final(self).action(),
    {
        self.attempts = self.attempts + 1;
        self.state = match outcome {
            PollOutcome::Succeeded => PollState::Succeeded,
            PollOutcome::Failed => PollState::Failed,
            PollOutcome::Unknown => PollState::Unknown,
            PollOutcome::Pending => if self.attempts >= self.policy.budget {
                PollState::Exhausted
            } else {
                PollState::Pending
            },
        };
        if matches!(self.state, PollState::Pending) {
            PollAction::Sleep(self.policy.interval_secs)
        } else {
            PollAction::Stop(self.state)
        }
    }
}

/// The poller after it has been fed `outcomes` in order, for as long as it
/// still queries.
pub open spec fn run(p: Poller, outcomes: Seq<PollOutcome>) -> Poller
    decreases outcomes.len(),
{
    if !(p.state is Pending) || outcomes.len() == 0 {
        p
    } else {
        run(p.after(outcomes[0]), outcomes.drop_first())
    }
}

/// The sleeps of the interval that such a run asks for.
pub open spec fn sleeps(p: Poller, outcomes: Seq<PollOutcome>) -> nat
    decreases outcomes.len(),
{
    if !(p.state is Pending) || outcomes.len() == 0 {
        0
    } else {
        let q = p.after(outcomes[0]);
        (if q.state is Pending {
            1nat
        } else {
            0nat
        }) + sleeps(q, outcomes.drop_first())
    }
}

/// Two pending reports and then a success, with a budget of at least three:
/// the poller stops at the third query, reporting success, after two sleeps
/// of the interval.
pub proof fn lemma_success_after_pending(policy: PollPolicy)
    requires
        policy.budget >= 3,
    ensures
        ({
            let outcomes = seq![PollOutcome::Pending, PollOutcome::Pending, PollOutcome::Succeeded];
            let end = run(Poller::initial(policy), outcomes);
            &&& end.state == PollState::Succeeded
            &&& end.attempts == 3
            &&& sleeps(Poller::initial(policy), outcomes) == 2
        }),
{
    let outcomes = seq![PollOutcome::Pending, PollOutcome::Pending, PollOutcome::Succeeded];
    let q0 = Poller::initial(policy);
    let q1 = q0.after(PollOutcome::Pending);
    let q2 = q1.after(PollOutcome::Pending);
    let q3 = q2.after(PollOutcome::Succeeded);
    assert(outcomes.drop_first() =~= seq![PollOutcome::Pending, PollOutcome::Succeeded]);
    assert(outcomes.drop_first().drop_first() =~= seq![PollOutcome::Succeeded]);
    assert(outcomes.drop_first().drop_first().drop_first() =~= Seq::<PollOutcome>::empty());
    let s1 = outcomes.drop_first();
    let s2 = s1.drop_first();
    let s3 = s2.drop_first();
    assert(run(q3, s3) == q3);
    assert(run(q2, s2) == run(q3, s3));
    assert(run(q1, s1) == run(q2, s2));
    assert(run(q0, outcomes) == run(q1, s1));
    assert(sleeps(q3, s3) == 0);
    assert(sleeps(q2, s2) == 0);
    assert(sleeps(q1, s1) == 1);
    assert(sleeps(q0, outcomes) == 2);
}

/// A failure stops the poller at once: after one pending report and a
/// failure it has made two queries and reports failure, whatever further
/// outcomes would have come and however much budget is left.
pub proof fn lemma_failure_short_circuits(policy: PollPolicy, rest: Seq<PollOutcome>)
    requires
        policy.budget >= 2,
    ensures
        ({
            let end = run(
                Poller::initial(policy),
                seq![PollOutcome::Pending, PollOutcome::Failed] + rest,
            );
            &&& end.state == PollState::Failed
            &&& end.attempts == 2
        }),
{
    let outcomes = seq![PollOutcome::Pending, PollOutcome::Failed] + rest;
    let q0 = Poller::initial(policy);
    let q1 = q0.after(PollOutcome::Pending);
    let q2 = q1.after(PollOutcome::Failed);
    assert(outcomes[0] == PollOutcome::Pending);
    assert(outcomes.drop_first()[0] == PollOutcome::Failed);
    let s1 = outcomes.drop_first();
    assert(run(q2, s1.drop_first()) == q2);
    assert(run(q1, s1) == run(q2, s1.drop_first()));
    assert(run(q0, outcomes) == run(q1, s1));
}

/// Fed nothing but pending reports, a poller that has made `p.attempts`
/// queries goes on until its budget is spent and then reports exhaustion.
proof fn lemma_pending_run_exhausts(p: Poller, outcomes: Seq<PollOutcome>)
    requires
        p.wf(),
        p.state is Pending,
        outcomes.len() >= p.policy.budget - p.attempts,
        forall|i: int| 0 <= i < outcomes.len() ==> outcomes[i] == PollOutcome::Pending,
    ensures
        run(p, outcomes).state == PollState::Exhausted,
        run(p, outcomes).attempts == p.policy.budget,
    decreases outcomes.len(),
{
    assert(outcomes[0] == PollOutcome::Pending);
    let q = p.after(outcomes[0]);
    let rest = outcomes.drop_first();
    assert(run(p, outcomes) == run(q, rest));
    if q.state is Pending {
        assert forall|i: int| 0 <= i < rest.len() implies rest[i] == PollOutcome::Pending by {
            assert(rest[i] == outcomes[i + 1]);
        }
        lemma_pending_run_exhausts(q, rest);
    }
}

/// With nothing but pending reports and a budget of `N`, the poller makes
/// exactly `N` queries and then reports exhaustion.
pub proof fn lemma_all_pending_exhausts(policy: PollPolicy, outcomes: Seq<PollOutcome>)
    requires
        outcomes.len() >= policy.budget,
        forall|i: int| 0 <= i < outcomes.len() ==> outcomes[i] == PollOutcome::Pending,
    ensures
        run(Poller::initial(policy), outcomes).state == PollState::Exhausted,
        run(Poller::initial(policy), outcomes).attempts == policy.budget,
{
    if policy.budget > 0 {
        lemma_pending_run_exhausts(Poller::initial(policy), outcomes);
    }
}

} // verus!
