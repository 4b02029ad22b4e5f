use semi_xmlrpc_tester::poller::{PollAction, PollOutcome, PollPolicy, PollState, Poller};

fn drive(policy: PollPolicy, outcomes: &[PollOutcome]) -> (Poller, Vec<PollAction>) {
    let mut p = Poller::new(policy);
    let mut actions = Vec::new();
    for o in outcomes {
        if !p.is_pending() {
            break;
        }
        actions.push(p.observe(*o));
    }
    (p, actions)
}

#[test]
fn success_after_two_pending() {
    let policy = PollPolicy { interval_secs: 15, budget: 80 };
    let (p, actions) = drive(
        policy,
        &[PollOutcome::Pending, PollOutcome::Pending, PollOutcome::Succeeded, PollOutcome::Failed],
    );
    assert_eq!(p.state, PollState::Succeeded);
    assert_eq!(p.attempts, 3);
    assert_eq!(
        actions,
        vec![PollAction::Sleep(15), PollAction::Sleep(15), PollAction::Stop(PollState::Succeeded)]
    );
}

#[test]
fn success_with_budget_of_exactly_three() {
    let policy = PollPolicy { interval_secs: 1, budget: 3 };
    let (p, _) = drive(policy, &[PollOutcome::Pending, PollOutcome::Pending, PollOutcome::Succeeded]);
    assert_eq!(p.state, PollState::Succeeded);
    assert_eq!(p.attempts, 3);
}

#[test]
fn failure_short_circuits() {
    let policy = PollPolicy { interval_secs: 30, budget: 20 };
    let (p, actions) = drive(
        policy,
        &[PollOutcome::Pending, PollOutcome::Failed, PollOutcome::Pending, PollOutcome::Succeeded],
    );
    assert_eq!(p.state, PollState::Failed);
    assert_eq!(p.attempts, 2);
    assert_eq!(actions, vec![PollAction::Sleep(30), PollAction::Stop(PollState::Failed)]);
}

#[test]
fn all_pending_exhausts_after_budget() {
    let policy = PollPolicy { interval_secs: 60, budget: 4 };
    let (p, actions) = drive(policy, &[PollOutcome::Pending; 10]);
    assert_eq!(p.state, PollState::Exhausted);
    assert_eq!(p.attempts, 4);
    assert_eq!(actions.len(), 4);
    assert_eq!(actions[3], PollAction::Stop(PollState::Exhausted));
}

#[test]
fn zero_budget_is_exhausted_at_once() {
    let p = Poller::new(PollPolicy { interval_secs: 5, budget: 0 });
    assert!(!p.is_pending());
    assert_eq!(p.state, PollState::Exhausted);
    assert_eq!(p.attempts, 0);
}

#[test]
fn unknown_status_is_fatal_not_pending() {
    let policy = PollPolicy { interval_secs: 5, budget: 10 };
    let (p, actions) = drive(policy, &[PollOutcome::Unknown, PollOutcome::Succeeded]);
    assert_eq!(p.state, PollState::Unknown);
    assert_eq!(p.attempts, 1);
    assert_eq!(actions, vec![PollAction::Stop(PollState::Unknown)]);
}
