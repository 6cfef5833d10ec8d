use vstd::prelude::*;
use crate::engine::{claim, claim_succeeds, claim_yield, after_claim};
use crate::schedule::{AccountKey, VestingError, VestingSchedule};

verus! {

/// The caller may act for entry `user_id`: the entry exists, its beneficiary
/// is `claiming_user`, and the destination token account is the one bound to
/// that user and the vested mint.
pub open spec fn permitted(
    s: Seq<crate::schedule::VestingEntry>,
    user_id: int,
    claiming_user: Seq<u8>,
    destination: Seq<u8>,
    expected_destination: Seq<u8>,
) -> bool {
    0 <= user_id < s.len() && s[user_id].user@ == claiming_user && destination == expected_destination
}

/// Checks that the caller may claim for entry `user_id`. The destination
/// account is compared with `expected_destination`, the associated token
/// address that the caller derived for the claiming user and the mint.
pub fn assert_permissions(
    schedule: &VestingSchedule,
    user_id: u64,
    claiming_user: &AccountKey,
    destination: &AccountKey,
    expected_destination: &AccountKey,
) -> (r: Result<(), VestingError>)
    ensures
        r is Ok <==> permitted(schedule@, user_id as int, claiming_user@, destination@, expected_destination@),
        user_id >= schedule@.len() ==> r == Err::<(), VestingError>(VestingError::OutOfRange),
        user_id < schedule@.len() && schedule@[user_id as int].user@ != claiming_user@
            ==> r == Err::<(), VestingError>(VestingError::KeyMismatch),
        user_id < schedule@.len() && schedule@[user_id as int].user@ == claiming_user@
            && destination@ != expected_destination@
            ==> r == Err::<(), VestingError>(VestingError::AtaMismatch),
{
    let entry = schedule.get(user_id)?;
    if !entry.user.same_as(claiming_user) {
        return Err(VestingError::KeyMismatch);
    }
    if !destination.same_as(expected_destination) {
        return Err(VestingError::AtaMismatch);
    }
    Ok(())
}

/// Handles one claim request: checks permissions, claims at `now`, and
/// returns the amount to transfer to the destination account, or `None`
/// where nothing is owed and no transfer must be made. Any failure leaves
/// the schedule unchanged.
pub fn process(
    schedule: &mut VestingSchedule,
    user_id: u64,
    claiming_user: &AccountKey,
    destination: &AccountKey,
    expected_destination: &AccountKey,
    now: i64,
) -> (r: Result<Option<u64>, VestingError>)
    requires
        old(schedule).wf(),
    ensures
        final(schedule).wf(),
        !permitted(old(schedule)@, user_id as int, claiming_user@, destination@, expected_destination@) ==> {
            &&& *final(schedule) == *old(schedule)
            &&& r is Err
            &&& user_id >= old(schedule)@.len() ==> r->Err_0 == VestingError::OutOfRange
            &&& user_id < old(schedule)@.len() && old(schedule)@[user_id as int].user@ != claiming_user@
                ==> r->Err_0 == VestingError::KeyMismatch
            &&& user_id < old(schedule)@.len() && old(schedule)@[user_id as int].user@ == claiming_user@
                ==> r->Err_0 == VestingError::AtaMismatch
        },
        permitted(old(schedule)@, user_id as int, claiming_user@, destination@, expected_destination@) ==> {
            &&& final(schedule)@ == after_claim(old(schedule)@, user_id as int, now as int)
            &&& !claim_succeeds(old(schedule)@, user_id as int, now as int)
                ==> r == Err::<Option<u64>, VestingError>(VestingError::InvariantViolation)
            &&& claim_succeeds(old(schedule)@, user_id as int, now as int)
                && claim_yield(old(schedule)@, user_id as int, now as int) > 0
                ==> r == Ok::<Option<u64>, VestingError>(
                    Some(claim_yield(old(schedule)@, user_id as int, now as int) as u64))
            &&& claim_succeeds(old(schedule)@, user_id as int, now as int)
                && claim_yield(old(schedule)@, user_id as int, now as int) == 0
                ==> r == Ok::<Option<u64>, VestingError>(None)
        },
{
    assert_permissions(schedule, user_id, claiming_user, destination, expected_destination)?;
    let effects = claim(schedule, user_id, now)?;
    if effects.claimable_amount > 0 {
        Ok(Some(effects.claimable_amount))
    } else {
        Ok(None)
    }
}

} // verus!
