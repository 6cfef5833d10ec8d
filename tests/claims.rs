use vesting_schedule::engine::{claim, ClaimEffects};
use vesting_schedule::handler::{assert_permissions, process};
use vesting_schedule::schedule::{AccountKey, VestingEntry, VestingError, VestingSchedule};

fn key(b: u8) -> AccountKey {
    AccountKey { bytes: [b; 32] }
}

fn entry(total: u64, start: i64, end: i64) -> VestingEntry {
    VestingEntry::new(key(1), total, start, end)
}

fn one(total: u64, start: i64, end: i64) -> VestingSchedule {
    VestingSchedule::new(vec![entry(total, start, end)])
}

fn amount(r: Result<ClaimEffects, VestingError>) -> u64 {
    r.unwrap().claimable_amount
}

fn claimed(s: &VestingSchedule, id: u64) -> u64 {
    s.get(id).unwrap().claimed_amount
}

#[test]
fn example_schedule_walkthrough() {
    let mut s = one(1000, 0, 100);
    assert_eq!(amount(claim(&mut s, 0, 25)), 250);
    assert_eq!(claimed(&s, 0), 250);
    assert_eq!(amount(claim(&mut s, 0, 25)), 0);
    assert_eq!(claimed(&s, 0), 250);
    assert_eq!(amount(claim(&mut s, 0, 100)), 750);
    assert_eq!(claimed(&s, 0), 1000);
    assert_eq!(amount(claim(&mut s, 0, 200)), 0);
    assert_eq!(claimed(&s, 0), 1000);
}

#[test]
fn repeated_claim_at_same_time_pays_nothing() {
    let mut s = one(777, 10, 1010);
    for t in [5i64, 10, 11, 333, 1009, 1010, 5000] {
        let first = amount(claim(&mut s, 0, t));
        let after = claimed(&s, 0);
        assert!(first <= after);
        assert_eq!(amount(claim(&mut s, 0, t)), 0);
        assert_eq!(claimed(&s, 0), after);
    }
}

#[test]
fn claimed_amount_never_decreases() {
    let mut s = VestingSchedule::new(vec![entry(500, 0, 50), entry(90, 20, 30), entry(12345, -100, 100)]);
    let ops: [(u64, i64); 9] = [(0, 10), (2, -50), (1, 25), (0, 5), (2, 0), (1, 40), (3, 10), (0, 50), (2, 99)];
    let mut prev: Vec<u64> = (0..3).map(|i| claimed(&s, i)).collect();
    for (id, t) in ops {
        let _ = claim(&mut s, id, t);
        for i in 0..3u64 {
            let now = claimed(&s, i);
            assert!(now >= prev[i as usize]);
            assert!(now <= s.get(i).unwrap().total_allocation);
            prev[i as usize] = now;
        }
    }
}

#[test]
fn cumulative_claims_are_monotonic_in_time() {
    let total_up_to = |times: &[i64]| -> u64 {
        let mut s = one(1001, 0, 7);
        times.iter().map(|t| amount(claim(&mut s, 0, *t))).sum()
    };
    assert!(total_up_to(&[1, 3]) <= total_up_to(&[2, 4]));
    assert_eq!(total_up_to(&[1, 3]), 429);
    assert_eq!(total_up_to(&[1, 2, 3]), 429);
    assert_eq!(total_up_to(&[4]), 572);
    assert!(total_up_to(&[1, 2, 3, 6]) <= total_up_to(&[7]));
}

#[test]
fn nothing_before_start() {
    let mut s = one(1000, 100, 200);
    assert_eq!(amount(claim(&mut s, 0, -5)), 0);
    assert_eq!(amount(claim(&mut s, 0, 100)), 0);
    assert_eq!(claimed(&s, 0), 0);
    assert_eq!(amount(claim(&mut s, 0, 101)), 10);
}

#[test]
fn claims_sweep_whole_allocation_at_end() {
    let mut s = one(1000, 0, 3);
    let mut sum = 0u64;
    for t in [1i64, 2, 3] {
        sum += amount(claim(&mut s, 0, t));
    }
    assert_eq!(sum, 1000);
    assert_eq!(amount(claim(&mut s, 0, 4)), 0);
}

#[test]
fn rounding_remainder_is_paid_later() {
    let mut s = one(10, 0, 3);
    assert_eq!(amount(claim(&mut s, 0, 1)), 3);
    assert_eq!(amount(claim(&mut s, 0, 2)), 3);
    assert_eq!(amount(claim(&mut s, 0, 3)), 4);
}

#[test]
fn invalid_user_id_is_out_of_range() {
    let mut s = VestingSchedule::new(vec![entry(100, 0, 10), entry(200, 0, 10)]);
    let _ = claim(&mut s, 0, 5);
    assert_eq!(claim(&mut s, 2, 5), Err(VestingError::OutOfRange));
    assert_eq!(claim(&mut s, u64::MAX, 5), Err(VestingError::OutOfRange));
    assert_eq!(claimed(&s, 0), 50);
    assert_eq!(claimed(&s, 1), 0);
    assert_eq!(s.len(), 2);
    assert!(s.entry_at(2).is_err());
    assert!(s.get(7).is_err());
}

#[test]
fn clock_regression_is_invariant_violation() {
    let mut s = one(1000, 0, 100);
    assert_eq!(amount(claim(&mut s, 0, 60)), 600);
    assert_eq!(claim(&mut s, 0, 30), Err(VestingError::InvariantViolation));
    assert_eq!(claimed(&s, 0), 600);
    assert_eq!(amount(claim(&mut s, 0, 70)), 100);
}

#[test]
fn extreme_values_do_not_overflow() {
    let mut s = one(u64::MAX, i64::MIN, i64::MAX);
    assert_eq!(amount(claim(&mut s, 0, 0)), 1u64 << 63);
    assert_eq!(amount(claim(&mut s, 0, i64::MAX)), u64::MAX - (1u64 << 63));
    let e = entry(u64::MAX, i64::MIN, i64::MAX);
    assert_eq!(e.unlocked_at(i64::MAX - 1), u64::MAX - 1);
    assert_eq!(e.unlocked_at(i64::MIN), 0);
}

#[test]
fn unlocked_at_follows_curve() {
    let e = entry(1000, 0, 100);
    assert_eq!(e.unlocked_at(-1), 0);
    assert_eq!(e.unlocked_at(0), 0);
    assert_eq!(e.unlocked_at(1), 10);
    assert_eq!(e.unlocked_at(33), 330);
    assert_eq!(e.unlocked_at(100), 1000);
    assert_eq!(e.unlocked_at(1000), 1000);
    let flat = entry(50, 10, 10);
    assert_eq!(flat.unlocked_at(10), 0);
    assert_eq!(flat.unlocked_at(11), 50);
}

#[test]
fn entry_at_gives_mutable_access() {
    let mut s = one(100, 0, 10);
    s.entry_at(0).unwrap().claimed_amount = 40;
    assert_eq!(claimed(&s, 0), 40);
    assert_eq!(amount(claim(&mut s, 0, 5)), 10);
}

#[test]
fn permissions_are_checked() {
    let s = VestingSchedule::new(vec![entry(100, 0, 10)]);
    assert_eq!(assert_permissions(&s, 0, &key(1), &key(9), &key(9)), Ok(()));
    assert_eq!(assert_permissions(&s, 1, &key(1), &key(9), &key(9)), Err(VestingError::OutOfRange));
    assert_eq!(assert_permissions(&s, 0, &key(2), &key(9), &key(9)), Err(VestingError::KeyMismatch));
    assert_eq!(assert_permissions(&s, 0, &key(1), &key(8), &key(9)), Err(VestingError::AtaMismatch));
    let mut almost = key(1);
    almost.bytes[31] = 0;
    assert!(!almost.same_as(&key(1)));
    assert!(key(3).same_as(&key(3)));
}

#[test]
fn process_requests_transfer_only_when_owed() {
    let mut s = one(1000, 0, 100);
    assert_eq!(process(&mut s, 0, &key(1), &key(9), &key(9), 0), Ok(None));
    assert_eq!(process(&mut s, 0, &key(1), &key(9), &key(9), 25), Ok(Some(250)));
    assert_eq!(process(&mut s, 0, &key(1), &key(9), &key(9), 25), Ok(None));
    assert_eq!(process(&mut s, 0, &key(2), &key(9), &key(9), 50), Err(VestingError::KeyMismatch));
    assert_eq!(process(&mut s, 0, &key(1), &key(8), &key(9), 50), Err(VestingError::AtaMismatch));
    assert_eq!(process(&mut s, 3, &key(1), &key(9), &key(9), 50), Err(VestingError::OutOfRange));
    assert_eq!(claimed(&s, 0), 250);
    assert_eq!(process(&mut s, 0, &key(1), &key(9), &key(9), 10), Err(VestingError::InvariantViolation));
    assert_eq!(process(&mut s, 0, &key(1), &key(9), &key(9), 100), Ok(Some(750)));
    assert_eq!(claimed(&s, 0), 1000);
}
