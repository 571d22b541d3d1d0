use vstd::prelude::*;
use crate::channel::send_transaction;
use crate::stock::{Stock, StockView, Transaction, diffs_of, views_of};
use crate::world::World;

verus! {

/// The delta a producer emits on iteration `i` (counting from 1): it takes
/// `i` from the source pool and adds the same `i` to the derived pool.
pub open spec fn producer_delta(i: int) -> StockView {
    StockView { forest: -i, wood: i }
}

/// The whole sequence of deltas one producer emits over `k` iterations.
pub open spec fn producer_deltas(k: nat) -> Seq<StockView> {
    Seq::new(k, |i: int| producer_delta(i + 1))
}

/// The series 1 + 2 + ... + k.
pub open spec fn series_total(k: nat) -> int
    decreases k,
{
    if k == 0 {
        0
    } else {
        k + series_total((k - 1) as nat)
    }
}

/// A producer's report that a message could not be delivered because every
/// receiving side of the addressed channel was gone; holds the undelivered
/// message.
#[derive(Clone, Copy, Debug)]
pub struct SendFailure {
    pub message: Transaction,
}

/// Build the message for iteration `i` of the producer with the given
/// identity.
pub fn make_transaction(agent_id: i32, i: i32) -> (t: Transaction)
    requires
        0 < i,
    ensures
        t@.agent_id == agent_id as int,
        t@.diff == producer_delta(i as int),
{
    Transaction { agent_id, diff: Stock { forest: -i, wood: i } }
}

/// The producer: for each of `count` iterations, build the iteration's delta
/// and send it to the statically known aggregator slot — index 0 of its
/// registry snapshot.
///
/// On success the returned messages are exactly the producer's sequence, in
/// send order and all tagged with its identity; a run with nothing to send
/// always succeeds. The error is the recoverable send-failure signal; it
/// carries the undelivered message, which is one the producer itself built
/// for some iteration of the run.
pub fn run_woodworker(agent_id: i32, world: &World, count: i32) -> (r: Result<
    Vec<Transaction>,
    SendFailure,
>)
    requires
        world@.len() > 0,
        0 <= count < i32::MAX,
    ensures
        r matches Ok(sent) ==> {
            &&& sent@.len() == count as int
            &&& diffs_of(views_of(sent@)) == producer_deltas(count as nat)
            &&& forall|j: int| 0 <= j < sent@.len() ==> sent@[j]@.agent_id == agent_id as int
        },
        count == 0 ==> r is Ok,
        r matches Err(e) ==> e.message@.agent_id == agent_id as int,
        r matches Err(e) ==> exists|i: int|
            1 <= i <= count && e.message@.diff == producer_delta(i),
{
    let mut sent: Vec<Transaction> = Vec::new();
    let mut i: i32 = 1;
    while i <= count
        invariant
            1 <= i <= count + 1,
            count < i32::MAX,
            world@.len() > 0,
            sent@.len() == i - 1,
            forall|j: int| 0 <= j < sent@.len() ==> sent@[j]@.agent_id == agent_id as int,
            forall|j: int| 0 <= j < sent@.len() ==> sent@[j]@.diff == producer_delta(j + 1),
        decreases count + 1 - i,
    {
        let t = make_transaction(agent_id, i);
        match send_transaction(&world.senders[0], t) {
            Ok(_) => {
                sent.push(t);
                i = i + 1;
            },
            Err(m) => {
                proof {
                    assert(1 <= i as int <= count && m@.diff == producer_delta(i as int));
                }
                return Err(SendFailure { message: m });
            },
        }
    }
    proof {
        assert(diffs_of(views_of(sent@)) =~= producer_deltas(count as nat));
    }
    Ok(sent)
}

} // verus!
