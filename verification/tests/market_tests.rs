use agent_world::market::run_market;
use agent_world::stock::{Stock, Transaction};
use crossbeam::channel::unbounded;

#[test]
fn market_folds_all_messages_then_observes_closure() {
    let (sender, receiver) = unbounded::<Transaction>();
    // Two producers' worth of messages, interleaved, for i = 1..=5 each.
    for i in 1..6 {
        for id in 1..3 {
            sender.send(Transaction { agent_id: id, diff: Stock { forest: -i, wood: i } }).unwrap();
        }
    }
    drop(sender);
    let (msgs, finished) = run_market(&receiver, Stock { forest: 100, wood: 0 });
    assert_eq!(msgs.len(), 10);
    assert_eq!(finished, Some(Stock { forest: 70, wood: 30 }));
}

#[test]
fn market_with_no_producer_reports_the_initial_state() {
    let (sender, receiver) = unbounded::<Transaction>();
    drop(sender);
    let (msgs, finished) = run_market(&receiver, Stock { forest: 100, wood: 0 });
    assert_eq!(msgs.len(), 0);
    assert_eq!(finished, Some(Stock { forest: 100, wood: 0 }));
}

#[test]
fn market_keeps_per_sender_order() {
    let (sender, receiver) = unbounded::<Transaction>();
    for i in 1..4 {
        sender.send(Transaction { agent_id: 5, diff: Stock { forest: -i, wood: i } }).unwrap();
    }
    drop(sender);
    let (msgs, _) = run_market(&receiver, Stock { forest: 0, wood: 0 });
    let woods: Vec<i32> = msgs.iter().map(|t| t.diff.wood).collect();
    assert_eq!(woods, vec![1, 2, 3]);
}

#[test]
fn market_reports_overflow_as_no_final_state() {
    let (sender, receiver) = unbounded::<Transaction>();
    sender.send(Transaction { agent_id: 1, diff: Stock { forest: i32::MAX, wood: 0 } }).unwrap();
    sender.send(Transaction { agent_id: 1, diff: Stock { forest: 1, wood: 0 } }).unwrap();
    drop(sender);
    let (msgs, finished) = run_market(&receiver, Stock { forest: 1, wood: 0 });
    assert_eq!(msgs.len(), 2);
    assert_eq!(finished, None);
}
