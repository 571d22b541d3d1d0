use agent_world::supervisor::{JoinOutcome, Supervisor, SupervisorAction};

#[test]
fn supervisor_orders_a_full_run() {
    let mut sup = Supervisor::new(2);
    assert_eq!(sup.next_action(), SupervisorAction::JoinProducer(0));
    sup.apply(JoinOutcome::Completed);
    assert_eq!(sup.next_action(), SupervisorAction::JoinProducer(1));
    sup.apply(JoinOutcome::Completed);
    assert_eq!(sup.next_action(), SupervisorAction::ReleaseRegistry);
    sup.apply(JoinOutcome::Completed);
    assert_eq!(sup.next_action(), SupervisorAction::JoinAggregator);
    sup.apply(JoinOutcome::Completed);
    assert_eq!(sup.next_action(), SupervisorAction::Finish);
}

#[test]
fn supervisor_with_no_producers_releases_at_once() {
    let mut sup = Supervisor::new(0);
    assert_eq!(sup.next_action(), SupervisorAction::ReleaseRegistry);
    sup.apply(JoinOutcome::Completed);
    assert_eq!(sup.next_action(), SupervisorAction::JoinAggregator);
    sup.apply(JoinOutcome::Completed);
    assert_eq!(sup.next_action(), SupervisorAction::Finish);
}

#[test]
fn supervisor_aborts_on_a_join_fault() {
    let mut sup = Supervisor::new(2);
    sup.apply(JoinOutcome::Faulted);
    assert_eq!(sup.next_action(), SupervisorAction::Abort);
    // A fault is fatal: the machine orchestrates nothing further.
    sup.apply(JoinOutcome::Completed);
    assert_eq!(sup.next_action(), SupervisorAction::Abort);
}

#[test]
fn supervisor_releases_only_after_every_join() {
    let mut sup = Supervisor::new(3);
    for i in 0..3 {
        assert_eq!(sup.next_action(), SupervisorAction::JoinProducer(i));
        sup.apply(JoinOutcome::Completed);
    }
    assert_eq!(sup.next_action(), SupervisorAction::ReleaseRegistry);
}
