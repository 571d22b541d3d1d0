use vstd::prelude::*;
use crate::stock::{StockView, fold_deltas, sum_forest, sum_wood};
use crate::woodworker::{producer_delta, producer_deltas, series_total};

verus! {

broadcast use vstd::seq_lib::group_to_multiset_ensures;

/// Appending one delta on the right adds it to the sums.
proof fn lemma_sum_push(ds: Seq<StockView>, d: StockView)
    ensures
        sum_forest(ds.push(d)) == sum_forest(ds) + d.forest,
        sum_wood(ds.push(d)) == sum_wood(ds) + d.wood,
    decreases ds.len(),
{
    if ds.len() == 0 {
        assert(ds.push(d) =~= seq![d]);
        assert(seq![d].drop_first() =~= Seq::<StockView>::empty());
        assert(sum_forest(Seq::<StockView>::empty()) == 0);
        assert(sum_wood(Seq::<StockView>::empty()) == 0);
        assert(sum_forest(ds.push(d)) == d.forest + sum_forest(Seq::<StockView>::empty()));
        assert(sum_wood(ds.push(d)) == d.wood + sum_wood(Seq::<StockView>::empty()));
    } else {
        assert(ds.push(d).drop_first() =~= ds.drop_first().push(d));
        lemma_sum_push(ds.drop_first(), d);
    }
}

/// Removing one delta takes it out of the sums.
proof fn lemma_sum_remove(ds: Seq<StockView>, i: int)
    requires
        0 <= i < ds.len(),
    ensures
        sum_forest(ds) == ds[i].forest + sum_forest(ds.remove(i)),
        sum_wood(ds) == ds[i].wood + sum_wood(ds.remove(i)),
    decreases i,
{
    if i == 0 {
        assert(ds.remove(0) =~= ds.drop_first());
    } else {
        assert(ds.remove(i).drop_first() =~= ds.drop_first().remove(i - 1));
        lemma_sum_remove(ds.drop_first(), i - 1);
    }
}

/// Concatenation adds the sums.
proof fn lemma_sum_concat(a: Seq<StockView>, b: Seq<StockView>)
    ensures
        sum_forest(a + b) == sum_forest(a) + sum_forest(b),
        sum_wood(a + b) == sum_wood(a) + sum_wood(b),
    decreases a.len(),
{
    if a.len() == 0 {
        assert(a + b =~= b);
    } else {
        assert((a + b).drop_first() =~= a.drop_first() + b);
        lemma_sum_concat(a.drop_first(), b);
    }
}

/// The totals of a sequence of deltas depend only on which deltas it holds,
/// not on their order: integer addition is commutative, so any two
/// sequences with the same multiset of deltas sum to the same change.
pub proof fn lemma_sum_permutation(a: Seq<StockView>, b: Seq<StockView>)
    requires
        a.to_multiset() == b.to_multiset(),
    ensures
        sum_forest(a) == sum_forest(b),
        sum_wood(a) == sum_wood(b),
    decreases a.len(),
{
    if a.len() == 0 {
        assert(b.to_multiset().len() == 0);
        assert(b.len() == 0);
    } else {
        let d = a[0];
        assert(a.contains(d));
        assert(b.to_multiset().count(d) > 0);
        assert(b.contains(d));
        let i = choose|i: int| 0 <= i < b.len() && b[i] == d;
        lemma_sum_remove(b, i);
        assert(a.remove(0) =~= a.drop_first());
        assert(a.drop_first().to_multiset() == a.to_multiset().remove(d));
        assert(b.remove(i).to_multiset() == b.to_multiset().remove(d));
        lemma_sum_permutation(a.drop_first(), b.remove(i));
        lemma_sum_remove(a, 0);
    }
}

/// The deltas of `n` producers laid end to end, each running `k` iterations.
pub open spec fn producers_concat(n: nat, k: nat) -> Seq<StockView>
    decreases n,
{
    if n == 0 {
        Seq::empty()
    } else {
        producer_deltas(k) + producers_concat((n - 1) as nat, k)
    }
}

/// One producer's run moves `series_total(k)` from the source pool to the
/// derived pool in total.
pub proof fn lemma_producer_deltas_sum(k: nat)
    ensures
        sum_forest(producer_deltas(k)) == -series_total(k),
        sum_wood(producer_deltas(k)) == series_total(k),
    decreases k,
{
    if k == 0 {
        assert(producer_deltas(0) =~= Seq::<StockView>::empty());
    } else {
        assert(producer_deltas(k) =~= producer_deltas((k - 1) as nat).push(
            producer_delta(k as int),
        ));
        lemma_sum_push(producer_deltas((k - 1) as nat), producer_delta(k as int));
        lemma_producer_deltas_sum((k - 1) as nat);
    }
}

/// `n` producers' runs together move `n * series_total(k)` in total.
pub proof fn lemma_producers_concat_sum(n: nat, k: nat)
    ensures
        sum_forest(producers_concat(n, k)) == -(n * series_total(k)),
        sum_wood(producers_concat(n, k)) == n * series_total(k),
    decreases n,
{
    let t = series_total(k);
    if n == 0 {
        assert(sum_forest(Seq::<StockView>::empty()) == 0);
    } else {
        lemma_sum_concat(producer_deltas(k), producers_concat((n - 1) as nat, k));
        lemma_producer_deltas_sum(k);
        lemma_producers_concat_sum((n - 1) as nat, k);
        assert(t + (n - 1) * t == n * t) by (nonlinear_arith);
    }
}

/// For every run of `n` producers each emitting the deltas of `k`
/// iterations, in whatever interleaving the aggregator happens to receive
/// them: the final source pool is the initial one minus `n` times the series
/// total, and the final derived pool is the initial one plus the same
/// amount. The fold is order-independent because integer addition commutes.
pub proof fn lemma_aggregate_totals(init: StockView, ds: Seq<StockView>, n: nat, k: nat)
    requires
        ds.to_multiset() == producers_concat(n, k).to_multiset(),
    ensures
        fold_deltas(init, ds) == (StockView {
            forest: init.forest - n * series_total(k),
            wood: init.wood + n * series_total(k),
        }),
{
    lemma_sum_permutation(ds, producers_concat(n, k));
    lemma_producers_concat_sum(n, k);
}

/// The two-producer shape of the aggregate law: whenever the aggregator
/// receives, in any order, exactly what two producers each running `k`
/// iterations sent, the final pools are the initial ones shifted by twice
/// the series total.
pub proof fn lemma_two_producer_totals(init: StockView, ds: Seq<StockView>, k: nat)
    requires
        ds.to_multiset() == producer_deltas(k).to_multiset().add(
            producer_deltas(k).to_multiset(),
        ),
    ensures
        fold_deltas(init, ds) == (StockView {
            forest: init.forest - 2 * series_total(k),
            wood: init.wood + 2 * series_total(k),
        }),
{
    let pd = producer_deltas(k);
    assert(pd + producers_concat(0, k) =~= pd);
    vstd::seq_lib::lemma_multiset_commutative(pd, producers_concat(1, k));
    assert(producers_concat(2, k).to_multiset() == pd.to_multiset().add(pd.to_multiset()));
    lemma_aggregate_totals(init, ds, 2, k);
}

} // verus!
