use vstd::prelude::*;

verus! {

/// Identity of a beneficiary or of a token account: 32 opaque bytes.
#[derive(Clone, Copy, Debug)]
pub struct AccountKey {
    pub bytes: [u8; 32],
}

impl AccountKey {
    pub open spec fn view(&self) -> Seq<u8> {
        self.bytes@
    }

    /// Byte-wise equality of two keys.
    pub fn same_as(&self, other: &AccountKey) -> (r: bool)
        ensures
            r == (self@ == other@),
    {
        let mut i: usize = 0;
        while i < 32
            invariant
                0 <= i <= 32,
                self@.len() == 32,
                other@.len() == 32,
                forall|j: int| 0 <= j < i ==> self@[j] == other@[j],
            decreases 32 - i,
        {
            if self.bytes[i] != other.bytes[i] {
                return false;
            }
            i = i + 1;
        }
        assert(self@ =~= other@);
        true
    }
}

/// Errors of the vesting operations.
#[derive(Clone, Copy, Debug, PartialEq, Eq, Structural)]
pub enum VestingError {
    /// The user index does not name an entry of the schedule.
    OutOfRange,
    /// The release curve is below what was already claimed (a corrupted
    /// entry or a clock that went backwards).
    InvariantViolation,
    /// The claiming user is not the beneficiary of the entry.
    KeyMismatch,
    /// The destination token account is not the one bound to the user.
    AtaMismatch,
}

/// One beneficiary's vesting terms and the amount claimed so far.
#[derive(Clone, Copy, Debug)]
pub struct VestingEntry {
    pub user: AccountKey,
    pub total_allocation: u64,
    pub start_timestamp: i64,
    pub end_timestamp: i64,
    pub claimed_amount: u64,
}

impl VestingEntry {
    /// Nothing beyond the allocation has been claimed.
    pub open spec fn wf(&self) -> bool {
        self.claimed_amount <= self.total_allocation
    }

    /// A fresh entry, with nothing claimed yet.
    pub fn new(user: AccountKey, total_allocation: u64, start_timestamp: i64, end_timestamp: i64) -> (r: VestingEntry)
        ensures
            r.user == user,
            r.total_allocation == total_allocation,
            r.start_timestamp == start_timestamp,
            r.end_timestamp == end_timestamp,
            r.claimed_amount == 0,
            r.wf(),
    {
        VestingEntry { user, total_allocation, start_timestamp, end_timestamp, claimed_amount: 0 }
    }
}

/// The table of entries, indexed by user id.
pub struct VestingSchedule {
    pub data: Vec<VestingEntry>,
}

/// Every entry of the sequence is well formed.
pub open spec fn entries_wf(s: Seq<VestingEntry>) -> bool {
    forall|i: int| 0 <= i < s.len() ==> #[trigger] s[i].wf()
}

impl View for VestingSchedule {
    type V = Seq<VestingEntry>;

    open spec fn view(&self) -> Seq<VestingEntry> {
        self.data@
    }
}

impl VestingSchedule {
    pub open spec fn wf(&self) -> bool {
        entries_wf(self@)
    }

    /// A schedule over the given entries.
    pub fn new(data: Vec<VestingEntry>) -> (r: VestingSchedule)
        ensures
            r@ == data@,
    {
        VestingSchedule { data }
    }

    /// Number of entries.
    pub fn len(&self) -> (r: usize)
        ensures
            r == self@.len(),
    {
        self.data.len()
    }

    /// A copy of the entry at `user_id`, or `OutOfRange`.
    pub fn get(&self, user_id: u64) -> (r: Result<VestingEntry, VestingError>)
        ensures
            user_id < self@.len() ==> r == Ok::<VestingEntry, VestingError>(self@[user_id as int]),
            user_id >= self@.len() ==> r == Err::<VestingEntry, VestingError>(VestingError::OutOfRange),
    {
        if (user_id as u128) < (self.data.len() as u128) {
            Ok(self.data[user_id as usize])
        } else {
            Err(VestingError::OutOfRange)
        }
    }

    /// Exclusive access to the entry at `user_id`, or `OutOfRange`.
    /// Entries are never moved or reordered.
    pub fn entry_at(&mut self, user_id: u64) -> (r: Result<&mut VestingEntry, VestingError>)
        ensures
            user_id >= old(self)@.len() ==> r is Err && r->Err_0 == VestingError::OutOfRange
                && *final(self) == *old(self),
            user_id < old(self)@.len() ==> r is Ok && *r->Ok_0 == old(self)@[user_id as int]
                && final(self)@ == old(self)@.update(user_id as int, *final(r->Ok_0)),
    {
        if (user_id as u128) < (self.data.len() as u128) {
            Ok(&mut self.data[user_id as usize])
        } else {
            Err(VestingError::OutOfRange)
        }
    }
}

} // verus!
