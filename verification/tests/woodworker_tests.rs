use agent_world::stock::{Stock, Transaction};
use agent_world::woodworker::run_woodworker;
use agent_world::world::World;
use crossbeam::channel::unbounded;

#[test]
fn woodworker_sends_its_whole_sequence_in_order() {
    let (sender, receiver) = unbounded::<Transaction>();
    let mut world = World::new();
    world.register(sender);
    let sent = run_woodworker(1, &world, 5).unwrap();
    assert_eq!(sent.len(), 5);
    drop(world);
    let received: Vec<Transaction> = receiver.iter().collect();
    assert_eq!(received, sent);
    for (j, t) in received.iter().enumerate() {
        let i = j as i32 + 1;
        assert_eq!(*t, Transaction { agent_id: 1, diff: Stock { forest: -i, wood: i } });
    }
}

#[test]
fn woodworker_with_zero_iterations_sends_nothing() {
    let (sender, receiver) = unbounded::<Transaction>();
    let mut world = World::new();
    world.register(sender);
    let sent = run_woodworker(2, &world, 0).unwrap();
    assert_eq!(sent.len(), 0);
    drop(world);
    assert_eq!(receiver.iter().count(), 0);
}

#[test]
fn woodworker_reports_send_failure_when_receiver_is_gone() {
    let (sender, receiver) = unbounded::<Transaction>();
    drop(receiver);
    let mut world = World::new();
    world.register(sender);
    let r = run_woodworker(7, &world, 3);
    match r {
        Err(e) => {
            assert_eq!(e.message.agent_id, 7);
            assert_eq!(e.message.diff, Stock { forest: -1, wood: 1 });
        },
        Ok(_) => panic!("send into a closed channel must fail"),
    }
}
