use vstd::prelude::*;
use crate::engine::{after_claim, claim_succeeds, claim_yield, unlocked_spec};
use crate::schedule::{VestingEntry, entries_wf};

verus! {

/// The entries after a sequence of claims, each a pair of user id and time,
/// applied in order.
pub open spec fn after_claims(s: Seq<VestingEntry>, ops: Seq<(int, int)>) -> Seq<VestingEntry>
    decreases ops.len(),
{
    if ops.len() == 0 {
        s
    } else {
        after_claim(after_claims(s, ops.drop_last()), ops.last().0, ops.last().1)
    }
}

/// The entries after claims for one user at the given times, in order.
pub open spec fn history(s: Seq<VestingEntry>, id: int, times: Seq<int>) -> Seq<VestingEntry>
    decreases times.len(),
{
    if times.len() == 0 {
        s
    } else {
        after_claim(history(s, id, times.drop_last()), id, times.last())
    }
}

/// The total paid out to one user by claims at the given times, in order.
pub open spec fn history_paid(s: Seq<VestingEntry>, id: int, times: Seq<int>) -> int
    decreases times.len(),
{
    if times.len() == 0 {
        0
    } else {
        history_paid(s, id, times.drop_last()) + claim_yield(history(s, id, times.drop_last()), id, times.last())
    }
}

/// The times never go backwards.
pub open spec fn non_decreasing(times: Seq<int>) -> bool {
    forall|i: int, j: int| 0 <= i <= j < times.len() ==> times[i] <= times[j]
}

/// The release curve never decreases: what is unlocked at a time is at most
/// what is unlocked at any later time, and never more than the allocation.
pub proof fn lemma_release_monotonic(e: VestingEntry, t1: int, t2: int)
    requires
        t1 <= t2,
    ensures
        0 <= unlocked_spec(e, t1) <= unlocked_spec(e, t2) <= e.total_allocation,
{
    let t = e.total_allocation as int;
    let d = e.end_timestamp - e.start_timestamp;
    if e.start_timestamp < t1 < e.end_timestamp {
        let a1 = t1 - e.start_timestamp;
        assert(0 <= t * a1 <= t * d) by (nonlinear_arith)
            requires t >= 0, 0 < a1 < d;
        vstd::arithmetic::div_mod::lemma_div_pos_is_pos(t * a1, d);
        vstd::arithmetic::div_mod::lemma_div_is_ordered(t * a1, t * d, d);
        vstd::arithmetic::div_mod::lemma_div_by_multiple(t, d);
        if t2 < e.end_timestamp {
            let a2 = t2 - e.start_timestamp;
            assert(t * a1 <= t * a2 <= t * d) by (nonlinear_arith)
                requires t >= 0, 0 < a1 <= a2 < d;
            vstd::arithmetic::div_mod::lemma_div_is_ordered(t * a1, t * a2, d);
            vstd::arithmetic::div_mod::lemma_div_is_ordered(t * a2, t * d, d);
        }
    }
    if e.start_timestamp < t2 < e.end_timestamp {
        let a2 = t2 - e.start_timestamp;
        assert(0 <= t * a2 <= t * d) by (nonlinear_arith)
            requires t >= 0, 0 < a2 < d;
        vstd::arithmetic::div_mod::lemma_div_pos_is_pos(t * a2, d);
        vstd::arithmetic::div_mod::lemma_div_is_ordered(t * a2, t * d, d);
        vstd::arithmetic::div_mod::lemma_div_by_multiple(t, d);
    }
}

/// One claim keeps every entry well formed, changes no entry but its own,
/// keeps the entry's terms, and never lowers its claimed amount.
pub proof fn lemma_claim_step(s: Seq<VestingEntry>, id: int, now: int)
    requires
        entries_wf(s),
    ensures
        ({
            let s2 = after_claim(s, id, now);
            &&& s2.len() == s.len()
            &&& entries_wf(s2)
            &&& forall|i: int| 0 <= i < s.len() && i != id ==> #[trigger] s2[i] == s[i]
            &&& forall|i: int| 0 <= i < s.len() ==> s[i].claimed_amount <= #[trigger] s2[i].claimed_amount
            &&& forall|i: int| 0 <= i < s.len() ==> (#[trigger] s2[i]).user == s[i].user
                && s2[i].total_allocation == s[i].total_allocation
                && s2[i].start_timestamp == s[i].start_timestamp
                && s2[i].end_timestamp == s[i].end_timestamp
        }),
{
    if claim_succeeds(s, id, now) {
        lemma_release_monotonic(s[id], now, now);
    }
}

/// A second claim at the same time as a claim that went through pays
/// nothing and changes nothing.
pub proof fn lemma_repeat_claim_pays_nothing(s: Seq<VestingEntry>, id: int, now: int)
    requires
        entries_wf(s),
        claim_succeeds(s, id, now),
    ensures
        claim_succeeds(after_claim(s, id, now), id, now),
        claim_yield(after_claim(s, id, now), id, now) == 0,
        after_claim(after_claim(s, id, now), id, now) == after_claim(s, id, now),
{
    lemma_release_monotonic(s[id], now, now);
    let s2 = after_claim(s, id, now);
    assert(after_claim(s2, id, now) =~= s2);
}

/// Over any sequence of claims, for any users, no entry's claimed amount
/// ever decreases, and every entry stays well formed.
pub proof fn lemma_claimed_never_decreases(s: Seq<VestingEntry>, ops: Seq<(int, int)>)
    requires
        entries_wf(s),
    ensures
        after_claims(s, ops).len() == s.len(),
        entries_wf(after_claims(s, ops)),
        forall|i: int| 0 <= i < s.len() ==> s[i].claimed_amount <= #[trigger] after_claims(s, ops)[i].claimed_amount,
    decreases ops.len(),
{
    if ops.len() > 0 {
        let prev = after_claims(s, ops.drop_last());
        lemma_claimed_never_decreases(s, ops.drop_last());
        lemma_claim_step(prev, ops.last().0, ops.last().1);
        assert forall|i: int| 0 <= i < s.len() implies s[i].claimed_amount <= #[trigger] after_claims(s, ops)[i].claimed_amount by {
            assert(s[i].claimed_amount <= prev[i].claimed_amount);
        }
    }
}

/// A claim at or before the start of the vesting period pays nothing.
pub proof fn lemma_nothing_before_start(s: Seq<VestingEntry>, id: int, now: int)
    requires
        entries_wf(s),
        0 <= id < s.len(),
        now <= s[id].start_timestamp,
    ensures
        claim_yield(s, id, now) == 0,
{
}

/// What one user's claims pay out in total is exactly the rise of that
/// user's claimed amount; the other entries are untouched and the entry's
/// terms are kept.
pub proof fn lemma_paid_is_claimed(s: Seq<VestingEntry>, id: int, times: Seq<int>)
    requires
        entries_wf(s),
        0 <= id < s.len(),
    ensures
        history(s, id, times).len() == s.len(),
        entries_wf(history(s, id, times)),
        history_paid(s, id, times) == history(s, id, times)[id].claimed_amount - s[id].claimed_amount,
        history(s, id, times)[id].total_allocation == s[id].total_allocation,
        history(s, id, times)[id].start_timestamp == s[id].start_timestamp,
        history(s, id, times)[id].end_timestamp == s[id].end_timestamp,
    decreases times.len(),
{
    if times.len() > 0 {
        let prev = history(s, id, times.drop_last());
        lemma_paid_is_claimed(s, id, times.drop_last());
        lemma_claim_step(prev, id, times.last());
        lemma_release_monotonic(prev[id], times.last(), times.last());
    }
}

/// Where the times never go backwards and the entry starts at or below the
/// curve, every claim goes through and the claimed amount follows the
/// curve: after the last claim it is the amount unlocked at the last time.
pub proof fn lemma_claims_follow_curve(s: Seq<VestingEntry>, id: int, times: Seq<int>)
    requires
        entries_wf(s),
        0 <= id < s.len(),
        times.len() > 0,
        non_decreasing(times),
        s[id].claimed_amount <= unlocked_spec(s[id], times[0]),
    ensures
        claim_succeeds(history(s, id, times.drop_last()), id, times.last()),
        history(s, id, times)[id].claimed_amount == unlocked_spec(s[id], times.last()),
    decreases times.len(),
{
    let init = times.drop_last();
    lemma_paid_is_claimed(s, id, init);
    let prev = history(s, id, init);
    assert(unlocked_spec(prev[id], times.last()) == unlocked_spec(s[id], times.last()));
    if init.len() == 0 {
        assert(times.last() == times[0]);
    } else {
        assert(non_decreasing(init)) by {
            assert forall|i: int, j: int| 0 <= i <= j < init.len() implies init[i] <= init[j] by {
                assert(init[i] == times[i] && init[j] == times[j]);
            }
        }
        assert(init[0] == times[0]);
        lemma_claims_follow_curve(s, id, init);
        assert(init.last() == times[times.len() - 2]);
        lemma_release_monotonic(s[id], init.last(), times.last());
    }
    lemma_release_monotonic(s[id], times.last(), times.last());
}

/// Starting from an entry with nothing claimed, claims that never go back
/// in time pay out in total exactly the amount unlocked at the last one.
pub proof fn lemma_paid_follows_curve(s: Seq<VestingEntry>, id: int, times: Seq<int>)
    requires
        entries_wf(s),
        0 <= id < s.len(),
        s[id].claimed_amount == 0,
        times.len() > 0,
        non_decreasing(times),
    ensures
        history_paid(s, id, times) == unlocked_spec(s[id], times.last()),
{
    lemma_release_monotonic(s[id], times[0], times[0]);
    lemma_paid_is_claimed(s, id, times);
    lemma_claims_follow_curve(s, id, times);
}

/// Release is monotonic: starting from an entry with nothing claimed, the
/// claims of a history that ends at `t2` pay out in total at least as much
/// as those of a history that ends at an earlier `t1`.
pub proof fn lemma_cumulative_claims_monotonic(
    s: Seq<VestingEntry>,
    id: int,
    times1: Seq<int>,
    times2: Seq<int>,
)
    requires
        entries_wf(s),
        0 <= id < s.len(),
        s[id].claimed_amount == 0,
        times1.len() > 0,
        times2.len() > 0,
        non_decreasing(times1),
        non_decreasing(times2),
        times1.last() < times2.last(),
    ensures
        history_paid(s, id, times1) <= history_paid(s, id, times2),
{
    lemma_paid_follows_curve(s, id, times1);
    lemma_paid_follows_curve(s, id, times2);
    lemma_release_monotonic(s[id], times1.last(), times2.last());
}

/// Starting from an entry with nothing claimed, claims that never go back
/// in time and end at or after the end of the vesting period pay out
/// exactly the whole allocation: the last claim sweeps any remainder.
/// (An entry whose start is not before its end unlocks nothing up to its
/// start, so the last claim must come after the start.)
pub proof fn lemma_full_release_at_end(s: Seq<VestingEntry>, id: int, times: Seq<int>)
    requires
        entries_wf(s),
        0 <= id < s.len(),
        s[id].claimed_amount == 0,
        times.len() > 0,
        non_decreasing(times),
        times.last() >= s[id].end_timestamp,
        times.last() > s[id].start_timestamp,
    ensures
        history_paid(s, id, times) == s[id].total_allocation,
{
    lemma_paid_follows_curve(s, id, times);
}

} // verus!
