//! A relational model of the two query shapes the harness measures: the
//! filtered single-relation count and the filtered inner equi-join count.
//! The executable functions here are reference evaluators over plain rows;
//! their contracts define what count the engine is expected to report, and
//! the lemmas establish that those counts depend only on the multiset of
//! rows — not on row order, and therefore not on whether the rows came
//! from a streaming or a materialized relation with the same contents.

use vstd::prelude::*;
use vstd::seq_lib::group_to_multiset_ensures;

verus! {

/// One row of the stop-time relation.
pub struct StopTimeRow {
    pub trip_id: String,
    pub stop_id: String,
    pub stop_sequence: u64,
}

/// One row of the trip relation.
pub struct TripRow {
    pub trip_id: String,
    pub direction_id: u64,
    pub route_id: String,
}

/// Sum of `f` over the elements of `s`.
pub open spec fn sum_by<A>(s: Seq<A>, f: spec_fn(A) -> nat) -> nat
    decreases s.len(),
{
    if s.len() == 0 {
        0
    } else {
        sum_by(s.drop_last(), f) + f(s.last())
    }
}

/// Removing one element removes exactly its contribution from the sum.
proof fn lemma_sum_by_remove<A>(s: Seq<A>, i: int, f: spec_fn(A) -> nat)
    requires
        0 <= i < s.len(),
    ensures
        sum_by(s, f) == sum_by(s.remove(i), f) + f(s[i]),
    decreases s.len(),
{
    if i == s.len() - 1 {
        assert(s.remove(i) =~= s.drop_last());
    } else {
        lemma_sum_by_remove(s.drop_last(), i, f);
        assert(s.remove(i).drop_last() =~= s.drop_last().remove(i));
        assert(s.remove(i).last() == s.last());
    }
}

/// The sum of `f` over a sequence depends only on the multiset of its
/// elements: any reordering (or any other sequence with the same
/// contents) has the same sum.
pub proof fn lemma_sum_by_permutation<A>(a: Seq<A>, b: Seq<A>, f: spec_fn(A) -> nat)
    requires
        a.to_multiset() == b.to_multiset(),
    ensures
        sum_by(a, f) == sum_by(b, f),
    decreases a.len(),
{
    broadcast use group_to_multiset_ensures;

    if a.len() == 0 {
        assert(a.to_multiset().len() == a.len());
        assert(b.to_multiset().len() == b.len());
        assert(b.len() == 0);
    } else {
        let x = a.last();
        let i: int = a.len() - 1;
        assert(a.contains(x));
        assert(a.to_multiset().count(x) > 0);
        assert(b.contains(x));
        let j: int = choose|j: int| 0 <= j < b.len() && b[j] == x;
        assert(a.remove(i) =~= a.drop_last());
        assert(a.remove(i).to_multiset() == a.to_multiset().remove(x));
        assert(b.remove(j).to_multiset() == b.to_multiset().remove(x));
        lemma_sum_by_permutation(a.drop_last(), b.remove(j), f);
        lemma_sum_by_remove(b, j, f);
    }
}

/// If `f` and `g` agree on every element of `s`, their sums agree.
proof fn lemma_sum_by_congruence<A>(s: Seq<A>, f: spec_fn(A) -> nat, g: spec_fn(A) -> nat)
    requires
        forall|i: int| 0 <= i < s.len() ==> f(#[trigger] s[i]) == g(s[i]),
    ensures
        sum_by(s, f) == sum_by(s, g),
    decreases s.len(),
{
    if s.len() != 0 {
        lemma_sum_by_congruence(s.drop_last(), f, g);
    }
}

/// An upper bound: if `f` never exceeds `k`, the sum never exceeds
/// `k * len`.
proof fn lemma_sum_by_bound<A>(s: Seq<A>, f: spec_fn(A) -> nat, k: nat)
    requires
        forall|i: int| 0 <= i < s.len() ==> f(#[trigger] s[i]) <= k,
    ensures
        sum_by(s, f) <= k * s.len(),
    decreases s.len(),
{
    if s.len() != 0 {
        lemma_sum_by_bound(s.drop_last(), f, k);
        assert(k * (s.len() - 1) + k == k * s.len()) by (nonlinear_arith);
    }
}

/// The contribution of one stop-time row to the filtered count: one if
/// its `stop_id` equals `stop`, else nothing.
pub open spec fn stop_filter(stop: Seq<char>) -> spec_fn(StopTimeRow) -> nat {
    |r: StopTimeRow| if r.stop_id@ == stop {
        1nat
    } else {
        0nat
    }
}

/// The contribution of one trip row: one if its `trip_id` equals `trip`.
pub open spec fn trip_filter(trip: Seq<char>) -> spec_fn(TripRow) -> nat {
    |t: TripRow| if t.trip_id@ == trip {
        1nat
    } else {
        0nat
    }
}

/// The contribution of one stop-time row to the filtered join count:
/// the number of trips sharing its `trip_id` if its `stop_id` equals
/// `stop`, else nothing (inner-join semantics: no match, no row).
pub open spec fn join_filter(trips: Seq<TripRow>, stop: Seq<char>) -> spec_fn(StopTimeRow) -> nat {
    |r: StopTimeRow| if r.stop_id@ == stop {
        trip_matches(trips, r.trip_id@)
    } else {
        0nat
    }
}

/// The number of stop-time rows whose `stop_id` equals `stop`.
pub open spec fn count_matching(rows: Seq<StopTimeRow>, stop: Seq<char>) -> nat {
    sum_by(rows, stop_filter(stop))
}

/// The number of trip rows whose `trip_id` equals `trip`.
pub open spec fn trip_matches(trips: Seq<TripRow>, trip: Seq<char>) -> nat {
    sum_by(trips, trip_filter(trip))
}

/// The row count of the join view, filtered on `stop`: the number of
/// (stop-time, trip) pairs that share a `trip_id` and whose stop-time row
/// carries the probed `stop_id`. A stop-time row with no matching trip
/// contributes nothing; one with several matching trips contributes one
/// row per match.
pub open spec fn join_count(rows: Seq<StopTimeRow>, trips: Seq<TripRow>, stop: Seq<char>) -> nat {
    sum_by(rows, join_filter(trips, stop))
}

/// Counts the rows of `rows` whose `stop_id` equals `stop`: the reference
/// evaluation of the single-relation count query.
pub fn count_stop_rows(rows: &Vec<StopTimeRow>, stop: &String) -> (n: usize)
    ensures
        n == count_matching(rows@, stop@),
{
    let ghost f = stop_filter(stop@);
    let mut n: usize = 0;
    let mut i: usize = 0;
    while i < rows.len()
        invariant
            i <= rows@.len(),
            n <= i,
            n == sum_by(rows@.take(i as int), f),
            f == stop_filter(stop@),
        decreases rows@.len() - i,
    {
        proof {
            let t = rows@.take(i + 1);
            assert(t.drop_last() =~= rows@.take(i as int));
            assert(t.last() == rows@[i as int]);
            assert(sum_by(t, f) == sum_by(rows@.take(i as int), f) + f(rows@[i as int]));
        }
        if rows[i].stop_id.eq(stop) {
            n = n + 1;
        }
        i = i + 1;
    }
    proof {
        assert(rows@.take(rows@.len() as int) =~= rows@);
    }
    n
}

/// Counts the trips of `trips` whose `trip_id` equals `trip`.
pub fn count_trip_rows(trips: &Vec<TripRow>, trip: &String) -> (n: usize)
    ensures
        n == trip_matches(trips@, trip@),
{
    let ghost f = trip_filter(trip@);
    let mut n: usize = 0;
    let mut i: usize = 0;
    while i < trips.len()
        invariant
            i <= trips@.len(),
            n <= i,
            n == sum_by(trips@.take(i as int), f),
            f == trip_filter(trip@),
        decreases trips@.len() - i,
    {
        proof {
            let t = trips@.take(i + 1);
            assert(t.drop_last() =~= trips@.take(i as int));
            assert(t.last() == trips@[i as int]);
            assert(sum_by(t, f) == sum_by(trips@.take(i as int), f) + f(trips@[i as int]));
        }
        if trips[i].trip_id.eq(trip) {
            n = n + 1;
        }
        i = i + 1;
    }
    proof {
        assert(trips@.take(trips@.len() as int) =~= trips@);
    }
    n
}

/// Evaluates the join-view count for the probed `stop`: the reference
/// evaluation of the join query, under inner-join semantics.
pub fn count_join_rows(rows: &Vec<StopTimeRow>, trips: &Vec<TripRow>, stop: &String) -> (n: usize)
    requires
        rows@.len() * trips@.len() <= usize::MAX,
    ensures
        n == join_count(rows@, trips@, stop@),
{
    let ghost f = join_filter(trips@, stop@);
    let mut n: usize = 0;
    let mut i: usize = 0;
    while i < rows.len()
        invariant
            i <= rows@.len(),
            rows@.len() * trips@.len() <= usize::MAX,
            n <= i * trips@.len(),
            n == sum_by(rows@.take(i as int), f),
            f == join_filter(trips@, stop@),
        decreases rows@.len() - i,
    {
        proof {
            let t = rows@.take(i + 1);
            assert(t.drop_last() =~= rows@.take(i as int));
            assert(t.last() == rows@[i as int]);
            assert(sum_by(t, f) == sum_by(rows@.take(i as int), f) + f(rows@[i as int]));
            assert((i + 1) * trips@.len() == i * trips@.len() + trips@.len()) by (nonlinear_arith);
            assert((i + 1) * trips@.len() <= rows@.len() * trips@.len()) by (nonlinear_arith)
                requires
                    i + 1 <= rows@.len(),
            ;
            lemma_sum_by_bound(trips@, trip_filter(rows@[i as int].trip_id@), 1);
            assert(1 * trips@.len() == trips@.len()) by (nonlinear_arith);
        }
        if rows[i].stop_id.eq(stop) {
            let m = count_trip_rows(trips, &rows[i].trip_id);
            n = n + m;
        }
        i = i + 1;
    }
    proof {
        assert(rows@.take(rows@.len() as int) =~= rows@);
    }
    n
}

/// The contribution of the pair of one fixed stop-time row `r` and one
/// trip row: one exactly when the two share a `trip_id` and `r` carries
/// the probed `stop_id`.
pub open spec fn pair_contrib(stop: Seq<char>, r: StopTimeRow) -> spec_fn(TripRow) -> nat {
    |t: TripRow| if r.stop_id@ == stop && t.trip_id@ == r.trip_id@ {
        1nat
    } else {
        0nat
    }
}

/// A sum of zero contributions is zero.
proof fn lemma_sum_by_zero<A>(s: Seq<A>, f: spec_fn(A) -> nat)
    requires
        forall|i: int| 0 <= i < s.len() ==> f(#[trigger] s[i]) == 0,
    ensures
        sum_by(s, f) == 0,
    decreases s.len(),
{
    if s.len() != 0 {
        lemma_sum_by_zero(s.drop_last(), f);
    }
}

/// Join correctness, in the pair reading: the filtered join count equals
/// the number of (stop-time, trip) pairs — summed row by row over the
/// stop-time relation, then trip by trip — whose `trip_id`s agree and
/// whose stop-time row carries the probed `stop_id`.
pub proof fn lemma_join_count_counts_pairs(
    rows: Seq<StopTimeRow>,
    trips: Seq<TripRow>,
    stop: Seq<char>,
)
    ensures
        join_count(rows, trips, stop) == sum_by(
            rows,
            |r: StopTimeRow| sum_by(trips, pair_contrib(stop, r)),
        ),
{
    let outer = |r: StopTimeRow| sum_by(trips, pair_contrib(stop, r));
    assert forall|i: int| 0 <= i < rows.len() implies join_filter(trips, stop)(
        #[trigger] rows[i],
    ) == outer(rows[i]) by {
        let r = rows[i];
        if r.stop_id@ == stop {
            assert forall|j: int| 0 <= j < trips.len() implies trip_filter(r.trip_id@)(
                #[trigger] trips[j],
            ) == pair_contrib(stop, r)(trips[j]) by {}
            lemma_sum_by_congruence(trips, trip_filter(r.trip_id@), pair_contrib(stop, r));
        } else {
            lemma_sum_by_zero(trips, pair_contrib(stop, r));
        }
    }
    lemma_sum_by_congruence(rows, join_filter(trips, stop), outer);
}

/// Row-count equivalence for the single-relation count: two relations
/// with the same rows (as a multiset, so in any order) yield the same
/// filtered count — in particular a streaming relation and its
/// materialized snapshot, whose equal contents are exactly what the
/// engine's copy step guarantees.
pub proof fn lemma_count_depends_on_contents(
    a: Seq<StopTimeRow>,
    b: Seq<StopTimeRow>,
    stop: Seq<char>,
)
    requires
        a.to_multiset() == b.to_multiset(),
    ensures
        count_matching(a, stop) == count_matching(b, stop),
{
    lemma_sum_by_permutation(a, b, stop_filter(stop));
}

/// Row-count equivalence for the join view: the join count is determined
/// solely by the contents of its two source relations, so switching the
/// sources from streaming to equal-content materialized copies — equal
/// contents being what the engine's copy step guarantees — cannot
/// change the result.
pub proof fn lemma_join_count_depends_on_contents(
    a: Seq<StopTimeRow>,
    b: Seq<StopTimeRow>,
    ta: Seq<TripRow>,
    tb: Seq<TripRow>,
    stop: Seq<char>,
)
    requires
        a.to_multiset() == b.to_multiset(),
        ta.to_multiset() == tb.to_multiset(),
    ensures
        join_count(a, ta, stop) == join_count(b, tb, stop),
{
    let fa = join_filter(ta, stop);
    let fb = join_filter(tb, stop);
    assert forall|i: int| 0 <= i < b.len() implies fa(#[trigger] b[i]) == fb(b[i]) by {
        lemma_sum_by_permutation(ta, tb, trip_filter(b[i].trip_id@));
    }
    lemma_sum_by_permutation(a, b, fa);
    lemma_sum_by_congruence(b, fa, fb);
}

/// Materialization idempotence of content: a snapshot with the same
/// multiset of rows holds exactly as many rows in total as its source —
/// none gained, none lost.
pub proof fn lemma_total_count_depends_on_contents(a: Seq<StopTimeRow>, b: Seq<StopTimeRow>)
    requires
        a.to_multiset() == b.to_multiset(),
    ensures
        a.len() == b.len(),
{
    broadcast use group_to_multiset_ensures;

    assert(a.to_multiset().len() == a.len());
    assert(b.to_multiset().len() == b.len());
}

} // verus!
