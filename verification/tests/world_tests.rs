use agent_world::stock::{Stock, Transaction};
use agent_world::world::World;
use crossbeam::channel::unbounded;

#[test]
fn register_assigns_sequential_identities() {
    let mut world = World::new();
    assert_eq!(world.len(), 0);
    let (s0, _r0) = unbounded::<Transaction>();
    let (s1, _r1) = unbounded::<Transaction>();
    let (s2, _r2) = unbounded::<Transaction>();
    assert_eq!(world.register(s0), 0);
    assert_eq!(world.register(s1), 1);
    assert_eq!(world.register(s2), 2);
    assert_eq!(world.len(), 3);
}

#[test]
fn snapshot_copies_the_current_endpoints() {
    let mut world = World::new();
    let (s0, r0) = unbounded::<Transaction>();
    world.register(s0);
    let snap = world.snapshot();
    assert_eq!(snap.len(), 1);
    // The copied handle addresses the same channel as the original.
    let msg = Transaction { agent_id: 0, diff: Stock { forest: -2, wood: 2 } };
    snap.senders[0].send(msg).unwrap();
    assert_eq!(r0.recv().unwrap(), msg);
}

#[test]
fn late_registrations_are_invisible_to_a_snapshot() {
    let mut world = World::new();
    let (s0, _r0) = unbounded::<Transaction>();
    world.register(s0);
    let snap = world.snapshot();
    let (s1, _r1) = unbounded::<Transaction>();
    world.register(s1);
    assert_eq!(world.len(), 2);
    assert_eq!(snap.len(), 1);
}
