use vstd::prelude::*;
use crate::schedule::{VestingEntry, VestingError, VestingSchedule, entries_wf};

verus! {

/// What one claim hands back: the amount newly owed to the user.
#[derive(Clone, Copy, Debug, PartialEq, Eq, Structural)]
pub struct ClaimEffects {
    pub claimable_amount: u64,
}

/// The release curve: how much of the allocation is unlocked at `now`.
/// Nothing before the start, everything from the end on, and in between the
/// linear share, rounded down.
pub open spec fn unlocked_spec(e: VestingEntry, now: int) -> int {
    if now <= e.start_timestamp {
        0
    } else if now >= e.end_timestamp {
        e.total_allocation as int
    } else {
        (e.total_allocation as int * (now - e.start_timestamp)) / (e.end_timestamp - e.start_timestamp)
    }
}

/// A claim at `now` on entry `id` goes through: the entry exists and the
/// curve is not below what was already claimed.
pub open spec fn claim_succeeds(s: Seq<VestingEntry>, id: int, now: int) -> bool {
    0 <= id < s.len() && s[id].claimed_amount <= unlocked_spec(s[id], now)
}

/// The amount a claim pays out: the unlocked amount not yet claimed, or
/// nothing where the claim fails.
pub open spec fn claim_yield(s: Seq<VestingEntry>, id: int, now: int) -> int {
    if claim_succeeds(s, id, now) {
        unlocked_spec(s[id], now) - s[id].claimed_amount
    } else {
        0
    }
}

/// The entries after a claim: where it goes through, the entry's claimed
/// amount becomes the unlocked amount; otherwise nothing changes.
pub open spec fn after_claim(s: Seq<VestingEntry>, id: int, now: int) -> Seq<VestingEntry> {
    if claim_succeeds(s, id, now) {
        s.update(id, VestingEntry { claimed_amount: unlocked_spec(s[id], now) as u64, ..s[id] })
    } else {
        s
    }
}

proof fn lemma_unlocked_bounds(e: VestingEntry, now: int)
    ensures
        0 <= unlocked_spec(e, now) <= e.total_allocation,
{
    if e.start_timestamp < now < e.end_timestamp {
        let t = e.total_allocation as int;
        let a = now - e.start_timestamp;
        let d = e.end_timestamp - e.start_timestamp;
        assert(0 <= t * a <= t * d) by (nonlinear_arith)
            requires t >= 0, 0 < a < d;
        vstd::arithmetic::div_mod::lemma_div_is_ordered(t * a, t * d, d);
        vstd::arithmetic::div_mod::lemma_div_by_multiple(t, d);
        vstd::arithmetic::div_mod::lemma_div_pos_is_pos(t * a, d);
    }
}

impl VestingEntry {
    /// The amount unlocked at `now` by the release curve.
    pub fn unlocked_at(&self, now: i64) -> (r: u64)
        ensures
            r == unlocked_spec(*self, now as int),
            r <= self.total_allocation,
    {
        proof { lemma_unlocked_bounds(*self, now as int); }
        if now <= self.start_timestamp {
            0
        } else if now >= self.end_timestamp {
            self.total_allocation
        } else {
            let elapsed: u128 = (now as i128 - self.start_timestamp as i128) as u128;
            let duration: u128 = (self.end_timestamp as i128 - self.start_timestamp as i128) as u128;
            let total: u128 = self.total_allocation as u128;
            assert(total * elapsed <= 0xffff_ffff_ffff_ffffu128 * 0xffff_ffff_ffff_ffffu128) by (nonlinear_arith)
                requires total <= 0xffff_ffff_ffff_ffffu128, elapsed <= 0xffff_ffff_ffff_ffffu128;
            let share: u128 = total * elapsed / duration;
            share as u64
        }
    }
}

/// Claims for entry `user_id` at time `now`: the entry's claimed amount is
/// raised to the amount unlocked at `now`, and the difference is returned as
/// the amount owed. Fails with `OutOfRange` for an unknown entry and with
/// `InvariantViolation` where the curve is below the claimed amount; a
/// failed claim changes nothing.
pub fn claim(schedule: &mut VestingSchedule, user_id: u64, now: i64) -> (r: Result<ClaimEffects, VestingError>)
    requires
        old(schedule).wf(),
    ensures
        final(schedule).wf(),
        final(schedule)@ == after_claim(old(schedule)@, user_id as int, now as int),
        user_id >= old(schedule)@.len() ==> r == Err::<ClaimEffects, VestingError>(VestingError::OutOfRange)
            && final(schedule)@ == old(schedule)@,
        user_id < old(schedule)@.len() && !claim_succeeds(old(schedule)@, user_id as int, now as int)
            ==> r == Err::<ClaimEffects, VestingError>(VestingError::InvariantViolation),
        claim_succeeds(old(schedule)@, user_id as int, now as int) ==> r is Ok
            && r->Ok_0.claimable_amount == claim_yield(old(schedule)@, user_id as int, now as int),
{
    let ghost s0 = schedule@;
    let entry = schedule.entry_at(user_id)?;
    let unlocked = entry.unlocked_at(now);
    if unlocked < entry.claimed_amount {
        return Err(VestingError::InvariantViolation);
    }
    let claimable_amount = unlocked - entry.claimed_amount;
    if claimable_amount > 0 {
        entry.claimed_amount = entry.claimed_amount + claimable_amount;
    }
    proof {
        lemma_unlocked_bounds(s0[user_id as int], now as int);
    }
    Ok(ClaimEffects { claimable_amount })
}

} // verus!
