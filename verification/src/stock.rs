use vstd::prelude::*;

verus! {

/// The two resource pools of the simulated economy, or a signed change to
/// them: an amount of standing forest and an amount of cut wood.
///
/// The same shape serves both as the aggregator's accumulated state and as
/// the delta carried by a message; no invariant constrains the signs.
#[derive(Clone, Copy, Debug, PartialEq, Eq, Structural)]
pub struct Stock {
    pub forest: i32,
    pub wood: i32,
}

/// Mathematical model of a `Stock`: the two pools as unbounded integers.
pub ghost struct StockView {
    pub forest: int,
    pub wood: int,
}

impl View for Stock {
    type V = StockView;

    open spec fn view(&self) -> StockView {
        StockView { forest: self.forest as int, wood: self.wood as int }
    }
}

/// A message: a delta tagged with the identity of the agent that sent it.
#[derive(Clone, Copy, Debug, PartialEq, Eq, Structural)]
pub struct Transaction {
    pub agent_id: i32,
    pub diff: Stock,
}

/// Mathematical model of a `Transaction`.
pub ghost struct TransactionView {
    pub agent_id: int,
    pub diff: StockView,
}

impl View for Transaction {
    type V = TransactionView;

    open spec fn view(&self) -> TransactionView {
        TransactionView { agent_id: self.agent_id as int, diff: self.diff@ }
    }
}

/// The deltas carried by a sequence of messages, in order.
pub open spec fn diffs_of(msgs: Seq<TransactionView>) -> Seq<StockView> {
    msgs.map_values(|t: TransactionView| t.diff)
}

/// The models of a sequence of concrete messages.
pub open spec fn views_of(msgs: Seq<Transaction>) -> Seq<TransactionView> {
    msgs.map_values(|t: Transaction| t@)
}

/// One fold step: both pools move by the delta.
pub open spec fn apply_delta(e: StockView, d: StockView) -> StockView {
    StockView { forest: e.forest + d.forest, wood: e.wood + d.wood }
}

/// The total change to the forest pool over a sequence of deltas.
pub open spec fn sum_forest(ds: Seq<StockView>) -> int
    decreases ds.len(),
{
    if ds.len() == 0 {
        0
    } else {
        ds[0].forest + sum_forest(ds.drop_first())
    }
}

/// The total change to the wood pool over a sequence of deltas.
pub open spec fn sum_wood(ds: Seq<StockView>) -> int
    decreases ds.len(),
{
    if ds.len() == 0 {
        0
    } else {
        ds[0].wood + sum_wood(ds.drop_first())
    }
}

/// Folding a sequence of deltas into a starting state: each pool ends at its
/// start plus the total of the deltas to it.
pub open spec fn fold_deltas(init: StockView, ds: Seq<StockView>) -> StockView {
    StockView { forest: init.forest + sum_forest(ds), wood: init.wood + sum_wood(ds) }
}

/// Both pools of `s` fit in the machine representation.
pub open spec fn stock_in_range(s: StockView) -> bool {
    &&& i32::MIN <= s.forest <= i32::MAX
    &&& i32::MIN <= s.wood <= i32::MAX
}

/// Every intermediate state of the left-to-right fold fits in the machine
/// representation.
pub open spec fn fold_in_range(init: StockView, ds: Seq<StockView>) -> bool
    decreases ds.len(),
{
    if ds.len() == 0 {
        true
    } else {
        &&& stock_in_range(apply_delta(init, ds[0]))
        &&& fold_in_range(apply_delta(init, ds[0]), ds.drop_first())
    }
}

/// One checked fold step; `None` exactly when a pool would leave the
/// representable range.
pub fn checked_apply(e: Stock, d: Stock) -> (r: Option<Stock>)
    ensures
        r matches Some(s) ==> s@ == apply_delta(e@, d@),
        r is Some <==> stock_in_range(apply_delta(e@, d@)),
{
    let forest: i64 = e.forest as i64 + d.forest as i64;
    let wood: i64 = e.wood as i64 + d.wood as i64;
    if forest < i32::MIN as i64 || forest > i32::MAX as i64 || wood < i32::MIN as i64 || wood
        > i32::MAX as i64 {
        None
    } else {
        Some(Stock { forest: forest as i32, wood: wood as i32 })
    }
}

/// Splitting off the first delta splits the sums.
pub proof fn lemma_sum_drop_first(ds: Seq<StockView>)
    requires
        ds.len() > 0,
    ensures
        sum_forest(ds) == ds[0].forest + sum_forest(ds.drop_first()),
        sum_wood(ds) == ds[0].wood + sum_wood(ds.drop_first()),
{
}

/// Fold a sequence of received messages into a starting state.
///
/// Returns the final state exactly when every intermediate state stays
/// representable; `None` otherwise.
pub fn fold_transactions(init: Stock, msgs: &Vec<Transaction>) -> (r: Option<Stock>)
    ensures
        r matches Some(s) ==> s@ == fold_deltas(init@, diffs_of(views_of(msgs@))),
        r is Some <==> fold_in_range(init@, diffs_of(views_of(msgs@))),
{
    let ghost ds = diffs_of(views_of(msgs@));
    proof {
        assert(ds.skip(0) =~= ds);
    }
    let mut acc: Stock = init;
    let mut j: usize = 0;
    while j < msgs.len()
        invariant
            0 <= j <= msgs.len(),
            ds == diffs_of(views_of(msgs@)),
            ds.len() == msgs.len(),
            forall|i: int| 0 <= i < ds.len() ==> ds[i] == msgs@[i]@.diff,
            fold_in_range(init@, ds) <==> fold_in_range(acc@, ds.skip(j as int)),
            fold_deltas(init@, ds) == fold_deltas(acc@, ds.skip(j as int)),
        decreases msgs.len() - j,
    {
        let ghost rest = ds.skip(j as int);
        proof {
            assert(rest[0] == ds[j as int]);
            assert(rest.drop_first() =~= ds.skip(j as int + 1));
            lemma_sum_drop_first(rest);
        }
        match checked_apply(acc, msgs[j].diff) {
            Some(next) => {
                acc = next;
                j = j + 1;
            },
            None => {
                return None;
            },
        }
    }
    proof {
        assert(ds.skip(msgs.len() as int) =~= Seq::<StockView>::empty());
    }
    Some(acc)
}

} // verus!
