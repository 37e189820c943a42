//! Inductive facts about the recursive spec functions of the model: sums
//! over contribution tables, and first-match lookups under update, push and
//! insert. The command proofs in `contract` rest on these.

use vstd::prelude::*;
use crate::lex::lex_lt;
use crate::state::{
    aggs_sorted, find_aggregate, find_record, records_total, sum_amounts, Contribution,
    ContributionRecord, TopContributor,
};

verus! {

/// Appending one contribution adds its amount to the sum.
pub proof fn lemma_sum_push(s: Seq<Contribution>, c: Contribution)
    ensures
        sum_amounts(s.push(c)) == sum_amounts(s) + c.amount,
    decreases s.len(),
{
    if s.len() == 0 {
        assert(s.push(c)[0] == c);
        assert(s.push(c).skip(1) =~= Seq::<Contribution>::empty());
        assert(sum_amounts(s.push(c)) == c.amount + sum_amounts(Seq::<Contribution>::empty()));
        assert(sum_amounts(Seq::<Contribution>::empty()) == 0);
        assert(sum_amounts(s) == 0);
    } else {
        assert(s.push(c)[0] == s[0]);
        assert(s.push(c).skip(1) =~= s.skip(1).push(c));
        lemma_sum_push(s.skip(1), c);
        assert(sum_amounts(s.push(c)) == s[0].amount + sum_amounts(s.skip(1).push(c)));
        assert(sum_amounts(s) == s[0].amount + sum_amounts(s.skip(1)));
    }
}

/// Appending one contribution to the record at `k` adds its amount to the
/// table's total.
pub proof fn lemma_records_total_update(
    recs: Seq<ContributionRecord>,
    k: int,
    r2: ContributionRecord,
    c: Contribution,
)
    requires
        0 <= k < recs.len(),
        r2.contributions@ == recs[k].contributions@.push(c),
    ensures
        records_total(recs.update(k, r2)) == records_total(recs) + c.amount,
    decreases k,
{
    let u = recs.update(k, r2);
    if k == 0 {
        assert(u[0] == r2);
        assert(u.skip(1) =~= recs.skip(1));
        lemma_sum_push(recs[0].contributions@, c);
    } else {
        assert(u[0] == recs[0]);
        assert(u.skip(1) =~= recs.skip(1).update(k - 1, r2));
        assert(recs.skip(1)[k - 1] == recs[k]);
        lemma_records_total_update(recs.skip(1), k - 1, r2, c);
    }
}

/// Appending a whole record adds its sum to the table's total.
pub proof fn lemma_records_total_push(recs: Seq<ContributionRecord>, rec: ContributionRecord)
    ensures
        records_total(recs.push(rec)) == records_total(recs) + sum_amounts(rec.contributions@),
    decreases recs.len(),
{
    if recs.len() == 0 {
        assert(recs.push(rec)[0] == rec);
        assert(recs.push(rec).skip(1) =~= Seq::<ContributionRecord>::empty());
        assert(records_total(recs.push(rec)) == sum_amounts(rec.contributions@) + records_total(
            Seq::<ContributionRecord>::empty(),
        ));
        assert(records_total(Seq::<ContributionRecord>::empty()) == 0);
        assert(records_total(recs) == 0);
    } else {
        assert(recs.push(rec)[0] == recs[0]);
        assert(recs.push(rec).skip(1) =~= recs.skip(1).push(rec));
        lemma_records_total_push(recs.skip(1), rec);
        assert(records_total(recs.push(rec)) == sum_amounts(recs[0].contributions@)
            + records_total(recs.skip(1).push(rec)));
        assert(records_total(recs) == sum_amounts(recs[0].contributions@) + records_total(
            recs.skip(1),
        ));
    }
}

/// A match at `k` with no earlier match is what the lookup returns.
pub proof fn lemma_find_record_first(recs: Seq<ContributionRecord>, k: int, addr: Seq<char>)
    requires
        0 <= k < recs.len(),
        forall|j: int| 0 <= j < k ==> (#[trigger] recs[j]).address@ != addr,
        recs[k].address@ == addr,
    ensures
        find_record(recs, addr) == Some(recs[k]),
    decreases k,
{
    if k > 0 {
        assert(recs.skip(1)[k - 1] == recs[k]);
        assert forall|j: int| 0 <= j < k - 1 implies (#[trigger] recs.skip(1)[j]).address@
            != addr by {
            assert(recs.skip(1)[j] == recs[j + 1]);
        }
        lemma_find_record_first(recs.skip(1), k - 1, addr);
    }
}

/// No match anywhere means the lookup fails.
pub proof fn lemma_find_record_none(recs: Seq<ContributionRecord>, addr: Seq<char>)
    requires
        forall|j: int| 0 <= j < recs.len() ==> (#[trigger] recs[j]).address@ != addr,
    ensures
        find_record(recs, addr) is None,
    decreases recs.len(),
{
    if recs.len() > 0 {
        assert forall|j: int| 0 <= j < recs.skip(1).len() implies (#[trigger] recs.skip(
            1,
        )[j]).address@ != addr by {
            assert(recs.skip(1)[j] == recs[j + 1]);
        }
        lemma_find_record_none(recs.skip(1), addr);
    }
}

/// Replacing the first matching record redirects its own lookup and leaves
/// every other lookup alone.
pub proof fn lemma_find_record_update(
    recs: Seq<ContributionRecord>,
    k: int,
    r2: ContributionRecord,
    a: Seq<char>,
)
    requires
        0 <= k < recs.len(),
        recs[k].address@ == r2.address@,
        forall|j: int| 0 <= j < k ==> (#[trigger] recs[j]).address@ != r2.address@,
    ensures
        find_record(recs.update(k, r2), r2.address@) == Some(r2),
        a != r2.address@ ==> find_record(recs.update(k, r2), a) == find_record(recs, a),
    decreases k,
{
    let u = recs.update(k, r2);
    if k == 0 {
        assert(u[0] == r2);
        assert(u.skip(1) =~= recs.skip(1));
    } else {
        assert(u[0] == recs[0]);
        assert(u.skip(1) =~= recs.skip(1).update(k - 1, r2));
        assert(recs.skip(1)[k - 1] == recs[k]);
        assert forall|j: int| 0 <= j < k - 1 implies (#[trigger] recs.skip(1)[j]).address@
            != r2.address@ by {
            assert(recs.skip(1)[j] == recs[j + 1]);
        }
        lemma_find_record_update(recs.skip(1), k - 1, r2, a);
    }
}

/// Appending a record for a fresh address makes its lookup find it and
/// leaves every other lookup alone.
pub proof fn lemma_find_record_push(
    recs: Seq<ContributionRecord>,
    rec: ContributionRecord,
    a: Seq<char>,
)
    requires
        forall|j: int| 0 <= j < recs.len() ==> (#[trigger] recs[j]).address@ != rec.address@,
    ensures
        find_record(recs.push(rec), rec.address@) == Some(rec),
        a != rec.address@ ==> find_record(recs.push(rec), a) == find_record(recs, a),
    decreases recs.len(),
{
    if recs.len() == 0 {
        assert(recs.push(rec)[0] == rec);
        assert(recs.push(rec).skip(1) =~= Seq::<ContributionRecord>::empty());
        assert(recs =~= Seq::<ContributionRecord>::empty());
        assert(find_record(Seq::<ContributionRecord>::empty(), a) is None);
        if a != rec.address@ {
            assert(find_record(recs.push(rec), a) == find_record(
                Seq::<ContributionRecord>::empty(),
                a,
            ));
        }
    } else {
        assert(recs.push(rec)[0] == recs[0]);
        assert(recs.push(rec).skip(1) =~= recs.skip(1).push(rec));
        assert forall|j: int| 0 <= j < recs.skip(1).len() implies (#[trigger] recs.skip(
            1,
        )[j]).address@ != rec.address@ by {
            assert(recs.skip(1)[j] == recs[j + 1]);
        }
        lemma_find_record_push(recs.skip(1), rec, a);
    }
}

/// A match at `k` with no earlier match is what the aggregate lookup
/// returns.
pub proof fn lemma_find_aggregate_first(aggs: Seq<TopContributor>, k: int, addr: Seq<char>)
    requires
        0 <= k < aggs.len(),
        forall|j: int| 0 <= j < k ==> (#[trigger] aggs[j]).address@ != addr,
        aggs[k].address@ == addr,
    ensures
        find_aggregate(aggs, addr) == Some(aggs[k]),
    decreases k,
{
    if k > 0 {
        assert(aggs.skip(1)[k - 1] == aggs[k]);
        assert forall|j: int| 0 <= j < k - 1 implies (#[trigger] aggs.skip(1)[j]).address@
            != addr by {
            assert(aggs.skip(1)[j] == aggs[j + 1]);
        }
        lemma_find_aggregate_first(aggs.skip(1), k - 1, addr);
    }
}

/// No match anywhere means the aggregate lookup fails.
pub proof fn lemma_find_aggregate_none(aggs: Seq<TopContributor>, addr: Seq<char>)
    requires
        forall|j: int| 0 <= j < aggs.len() ==> (#[trigger] aggs[j]).address@ != addr,
    ensures
        find_aggregate(aggs, addr) is None,
    decreases aggs.len(),
{
    if aggs.len() > 0 {
        assert forall|j: int| 0 <= j < aggs.skip(1).len() implies (#[trigger] aggs.skip(
            1,
        )[j]).address@ != addr by {
            assert(aggs.skip(1)[j] == aggs[j + 1]);
        }
        lemma_find_aggregate_none(aggs.skip(1), addr);
    }
}

/// Replacing the first matching aggregate redirects its own lookup and
/// leaves every other lookup alone.
pub proof fn lemma_find_aggregate_update(
    aggs: Seq<TopContributor>,
    k: int,
    a2: TopContributor,
    a: Seq<char>,
)
    requires
        0 <= k < aggs.len(),
        aggs[k].address@ == a2.address@,
        forall|j: int| 0 <= j < k ==> (#[trigger] aggs[j]).address@ != a2.address@,
    ensures
        find_aggregate(aggs.update(k, a2), a2.address@) == Some(a2),
        a != a2.address@ ==> find_aggregate(aggs.update(k, a2), a) == find_aggregate(aggs, a),
    decreases k,
{
    let u = aggs.update(k, a2);
    if k == 0 {
        assert(u[0] == a2);
        assert(u.skip(1) =~= aggs.skip(1));
    } else {
        assert(u[0] == aggs[0]);
        assert(u.skip(1) =~= aggs.skip(1).update(k - 1, a2));
        assert(aggs.skip(1)[k - 1] == aggs[k]);
        assert forall|j: int| 0 <= j < k - 1 implies (#[trigger] aggs.skip(1)[j]).address@
            != a2.address@ by {
            assert(aggs.skip(1)[j] == aggs[j + 1]);
        }
        lemma_find_aggregate_update(aggs.skip(1), k - 1, a2, a);
    }
}

/// Inserting an aggregate for a fresh address makes its lookup find it and
/// leaves every other lookup alone.
pub proof fn lemma_find_aggregate_insert(
    aggs: Seq<TopContributor>,
    pos: int,
    agg: TopContributor,
    a: Seq<char>,
)
    requires
        0 <= pos <= aggs.len(),
        forall|j: int| 0 <= j < aggs.len() ==> (#[trigger] aggs[j]).address@ != agg.address@,
    ensures
        find_aggregate(aggs.insert(pos, agg), agg.address@) == Some(agg),
        a != agg.address@ ==> find_aggregate(aggs.insert(pos, agg), a) == find_aggregate(aggs, a),
    decreases pos,
{
    let u = aggs.insert(pos, agg);
    aggs.insert_ensures(pos, agg);
    if pos == 0 {
        assert(u[0] == agg);
        assert(u.skip(1) =~= aggs);
    } else {
        let t = aggs.skip(1);
        t.insert_ensures(pos - 1, agg);
        assert(u[0] == aggs[0]);
        assert forall|x: int| 0 <= x < u.len() - 1 implies u.skip(1)[x] == t.insert(
            pos - 1,
            agg,
        )[x] by {
            assert(u.skip(1)[x] == u[x + 1]);
            if x + 1 < pos {
                assert(u[x + 1] == aggs[x + 1]);
                assert(t.insert(pos - 1, agg)[x] == t[x]);
                assert(t[x] == aggs[x + 1]);
            } else if x + 1 == pos {
                assert(u[pos] == agg);
                assert(t.insert(pos - 1, agg)[pos - 1] == agg);
            } else {
                assert(u[x + 1] == aggs[x]);
                assert(t.insert(pos - 1, agg)[x] == t[x - 1]);
                assert(t[x - 1] == aggs[x]);
            }
        }
        assert(u.skip(1) =~= t.insert(pos - 1, agg));
        assert forall|j: int| 0 <= j < t.len() implies (#[trigger] t[j]).address@
            != agg.address@ by {
            assert(t[j] == aggs[j + 1]);
        }
        lemma_find_aggregate_insert(t, pos - 1, agg, a);
    }
}

/// Inserting between the smaller and the larger keys keeps the aggregates
/// strictly sorted.
pub proof fn lemma_sorted_insert(aggs: Seq<TopContributor>, pos: int, agg: TopContributor)
    requires
        aggs_sorted(aggs),
        0 <= pos <= aggs.len(),
        forall|i: int| 0 <= i < pos ==> lex_lt((#[trigger] aggs[i]).address@, agg.address@),
        forall|i: int| pos <= i < aggs.len() ==> lex_lt(agg.address@, (#[trigger] aggs[i]).address@),
    ensures
        aggs_sorted(aggs.insert(pos, agg)),
{
    let u = aggs.insert(pos, agg);
    aggs.insert_ensures(pos, agg);
    assert forall|i: int, j: int|
        #![trigger u[i], u[j]]
        0 <= i < j < u.len() implies lex_lt(u[i].address@, u[j].address@) by {
        if i < pos {
            assert(u[i] == aggs[i]);
        } else if i == pos {
            assert(u[i] == agg);
        } else {
            assert(u[i] == aggs[i - 1]);
        }
        if j < pos {
            assert(u[j] == aggs[j]);
        } else if j == pos {
            assert(u[j] == agg);
        } else {
            assert(u[j] == aggs[j - 1]);
        }
    }
}

/// Replacing an aggregate with one under the same address keeps the
/// aggregates strictly sorted.
pub proof fn lemma_sorted_update(aggs: Seq<TopContributor>, k: int, a2: TopContributor)
    requires
        aggs_sorted(aggs),
        0 <= k < aggs.len(),
        aggs[k].address@ == a2.address@,
    ensures
        aggs_sorted(aggs.update(k, a2)),
{
    let u = aggs.update(k, a2);
    assert forall|i: int, j: int|
        #![trigger u[i], u[j]]
        0 <= i < j < u.len() implies lex_lt(u[i].address@, u[j].address@) by {
        assert(aggs[i].address@ == u[i].address@);
        assert(aggs[j].address@ == u[j].address@);
    }
}

} // verus!
