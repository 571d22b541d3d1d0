use vstd::prelude::*;
use crate::channel::recv_all;
use crate::stock::{
    Stock, StockView, Transaction, apply_delta, diffs_of, fold_deltas, fold_in_range,
    fold_transactions, views_of,
};
use crossbeam::channel::Receiver;

verus! {

/// The two phases of the aggregator's life: folding messages, or done.
#[derive(Clone, Copy, Debug, PartialEq, Eq, Structural)]
pub enum MarketPhase {
    Running,
    Stopped,
}

/// An event the aggregator can observe on its inbound endpoint: a delivered
/// delta, or the closure of the channel.
pub ghost enum MarketEvent {
    Delivered(StockView),
    Closed,
}

/// One step of the aggregator's state machine: while running, a delivered
/// delta is folded into the pools and the machine keeps running, and closure
/// stops it; once stopped, nothing changes the state any more.
pub open spec fn market_step(phase: MarketPhase, econ: StockView, ev: MarketEvent) -> (
    MarketPhase,
    StockView,
) {
    if phase is Stopped {
        (MarketPhase::Stopped, econ)
    } else {
        match ev {
            MarketEvent::Delivered(d) => (MarketPhase::Running, apply_delta(econ, d)),
            MarketEvent::Closed => (MarketPhase::Stopped, econ),
        }
    }
}

/// The state machine run over a whole sequence of events.
pub open spec fn market_run(phase: MarketPhase, econ: StockView, evs: Seq<MarketEvent>) -> (
    MarketPhase,
    StockView,
)
    decreases evs.len(),
{
    if evs.len() == 0 {
        (phase, econ)
    } else {
        let stepped = market_step(phase, econ, evs[0]);
        market_run(stepped.0, stepped.1, evs.drop_first())
    }
}

/// The trace of one complete aggregator run that received the deltas `ds`:
/// each delivery in order, then a single closure event.
pub open spec fn market_trace(ds: Seq<StockView>) -> Seq<MarketEvent> {
    ds.map_values(|d: StockView| MarketEvent::Delivered(d)).push(MarketEvent::Closed)
}

/// How many closure events a sequence of events holds.
pub open spec fn count_closed(evs: Seq<MarketEvent>) -> nat
    decreases evs.len(),
{
    if evs.len() == 0 {
        0
    } else {
        (if evs[0] is Closed {
            1nat
        } else {
            0nat
        }) + count_closed(evs.drop_first())
    }
}

/// The trace of a complete run holds exactly one closure event, and it is
/// the last event: the aggregator never observes a message after closure.
pub proof fn lemma_trace_single_closure(ds: Seq<StockView>)
    ensures
        count_closed(market_trace(ds)) == 1,
        market_trace(ds).last() is Closed,
        forall|i: int|
            0 <= i < market_trace(ds).len() && market_trace(ds)[i] is Closed ==> i == market_trace(
                ds,
            ).len() - 1,
    decreases ds.len(),
{
    let t = market_trace(ds);
    if ds.len() == 0 {
        assert(t =~= seq![MarketEvent::Closed]);
        assert(t.drop_first() =~= Seq::<MarketEvent>::empty());
        assert(count_closed(Seq::<MarketEvent>::empty()) == 0);
        assert(count_closed(t) == 1);
    } else {
        lemma_trace_single_closure(ds.drop_first());
        assert(t.drop_first() =~= market_trace(ds.drop_first()));
        assert(t[0] == MarketEvent::Delivered(ds[0]));
        assert(forall|i: int|
            1 <= i < t.len() && t[i] is Closed ==> (t.drop_first()[i - 1] is Closed && i - 1
                == t.drop_first().len() - 1));
    }
}

/// Running the machine over a complete trace stops it, with the pools at the
/// fold of the delivered deltas.
pub proof fn lemma_run_of_trace(init: StockView, ds: Seq<StockView>)
    ensures
        market_run(MarketPhase::Running, init, market_trace(ds)) == (
            MarketPhase::Stopped,
            fold_deltas(init, ds),
        ),
    decreases ds.len(),
{
    let t = market_trace(ds);
    if ds.len() == 0 {
        assert(t =~= seq![MarketEvent::Closed]);
        assert(t.drop_first() =~= Seq::<MarketEvent>::empty());
        assert(market_run(MarketPhase::Stopped, init, Seq::<MarketEvent>::empty()) == (
            MarketPhase::Stopped,
            init,
        ));
        assert(fold_deltas(init, ds) == init);
    } else {
        assert(t[0] == MarketEvent::Delivered(ds[0]));
        assert(t.drop_first() =~= market_trace(ds.drop_first()));
        lemma_run_of_trace(apply_delta(init, ds[0]), ds.drop_first());
        crate::stock::lemma_sum_drop_first(ds);
    }
}

/// Closure is the only termination signal: over a sequence of events with no
/// closure in it, the machine keeps running.
pub proof fn lemma_stops_only_on_closure(init: StockView, evs: Seq<MarketEvent>)
    requires
        count_closed(evs) == 0,
    ensures
        market_run(MarketPhase::Running, init, evs).0 is Running,
    decreases evs.len(),
{
    if evs.len() > 0 {
        assert(!(evs[0] is Closed));
        let d = evs[0]->Delivered_0;
        lemma_stops_only_on_closure(apply_delta(init, d), evs.drop_first());
    }
}

/// The aggregator: block on the inbound endpoint, folding each delivered
/// delta into the pools, until the channel closes; then report the final
/// pools.
///
/// Returns the messages observed, in arrival order, and the final pools:
/// `Some` exactly when every intermediate state stayed representable. The
/// final pools are the fold of exactly the observed messages over the
/// initial allocation, and the whole run is one complete trace of the
/// aggregator's state machine.
pub fn run_market(receiver: &Receiver<Transaction>, init: Stock) -> (r: (
    Vec<Transaction>,
    Option<Stock>,
))
    ensures
        r.1 matches Some(s) ==> s@ == fold_deltas(init@, diffs_of(views_of(r.0@))),
        r.1 is Some <==> fold_in_range(init@, diffs_of(views_of(r.0@))),
        market_run(MarketPhase::Running, init@, market_trace(diffs_of(views_of(r.0@)))).0
            is Stopped,
        r.1 matches Some(s) ==> market_run(
            MarketPhase::Running,
            init@,
            market_trace(diffs_of(views_of(r.0@))),
        ) == (MarketPhase::Stopped, s@),
{
    let msgs = recv_all(receiver);
    let folded = fold_transactions(init, &msgs);
    proof {
        lemma_run_of_trace(init@, diffs_of(views_of(msgs@)));
    }
    (msgs, folded)
}

} // verus!
