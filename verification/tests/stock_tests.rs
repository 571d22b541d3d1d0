use agent_world::stock::{Stock, Transaction, checked_apply, fold_transactions};
use agent_world::woodworker::make_transaction;

fn delta(forest: i32, wood: i32) -> Transaction {
    Transaction { agent_id: 9, diff: Stock { forest, wood } }
}

#[test]
fn checked_apply_moves_both_pools() {
    let r = checked_apply(Stock { forest: 3, wood: 4 }, Stock { forest: -1, wood: 2 });
    assert_eq!(r, Some(Stock { forest: 2, wood: 6 }));
}

#[test]
fn checked_apply_detects_overflow() {
    let r = checked_apply(Stock { forest: i32::MAX, wood: 0 }, Stock { forest: 1, wood: 0 });
    assert_eq!(r, None);
    let r = checked_apply(Stock { forest: 0, wood: i32::MIN }, Stock { forest: 0, wood: -1 });
    assert_eq!(r, None);
}

#[test]
fn fold_of_nothing_is_initial_state() {
    let r = fold_transactions(Stock { forest: 100, wood: 0 }, &Vec::new());
    assert_eq!(r, Some(Stock { forest: 100, wood: 0 }));
}

#[test]
fn fold_two_producers_five_iterations() {
    // Two producers, each sending deltas for i = 1..=5, interleaved.
    let mut msgs = Vec::new();
    for i in 1..6 {
        msgs.push(Transaction { agent_id: 1, diff: Stock { forest: -i, wood: i } });
        msgs.push(Transaction { agent_id: 2, diff: Stock { forest: -i, wood: i } });
    }
    let r = fold_transactions(Stock { forest: 100, wood: 0 }, &msgs);
    assert_eq!(r, Some(Stock { forest: 70, wood: 30 }));
}

#[test]
fn fold_is_order_independent() {
    let forward = vec![delta(-1, 1), delta(-2, 2), delta(-3, 3), delta(5, -4)];
    let mut backward = forward.clone();
    backward.reverse();
    let init = Stock { forest: 10, wood: 20 };
    let a = fold_transactions(init, &forward);
    let b = fold_transactions(init, &backward);
    assert_eq!(a, b);
    assert_eq!(a, Some(Stock { forest: 9, wood: 22 }));
}

#[test]
fn fold_detects_intermediate_overflow() {
    // The final value would fit, but an intermediate state does not.
    let msgs = vec![delta(i32::MAX, 0), delta(1, 0), delta(-10, 0)];
    let r = fold_transactions(Stock { forest: 1, wood: 0 }, &msgs);
    assert_eq!(r, None);
}

#[test]
fn make_transaction_builds_the_iteration_delta() {
    let t = make_transaction(3, 4);
    assert_eq!(t, Transaction { agent_id: 3, diff: Stock { forest: -4, wood: 4 } });
}
