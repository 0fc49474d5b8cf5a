use crate::character::Character;
use crate::clock::Timestamp;
use crate::encounter::Encounter;
use crate::error::Error;
use crate::operation::Operation;
use vstd::prelude::*;

verus! {

/// What guards a write to a record: the record's identifier and the time it
/// was last modified when it was read. A guarded write goes through only
/// where the store still holds the record as it was read.
#[derive(Copy, Clone, Debug, PartialEq, Eq, Structural)]
pub struct Version {
    pub id: u128,
    pub modified_at: Timestamp,
}

impl Character {
    /// What guards a write to the character.
    pub open spec fn spec_version(&self) -> Version {
        Version { id: self.id.as_int() as u128, modified_at: self.modified_at }
    }

    /// What guards a write to the character.
    pub fn version(&self) -> (version: Version)
        ensures
            version == self.spec_version(),
    {
        Version { id: self.id.as_u128(), modified_at: self.modified_at }
    }
}

impl Encounter {
    /// What guards a write to the encounter.
    pub open spec fn spec_version(&self) -> Version {
        Version { id: self.id.as_int() as u128, modified_at: self.modified_at }
    }

    /// What guards a write to the encounter.
    pub fn version(&self) -> (version: Version)
        ensures
            version == self.spec_version(),
    {
        Version { id: self.id.as_u128(), modified_at: self.modified_at }
    }
}

impl Operation {
    /// What guards a write to the operation.
    pub open spec fn spec_version(&self) -> Version {
        Version { id: self.id.as_int() as u128, modified_at: self.modified_at }
    }

    /// What guards a write to the operation.
    pub fn version(&self) -> (version: Version)
        ensures
            version == self.spec_version(),
    {
        Version { id: self.id.as_u128(), modified_at: self.modified_at }
    }
}

/// The number of records that a guarded write matches in a store that holds
/// records of the versions `stored`: one where the store holds the guard's
/// version, and none otherwise.
pub open spec fn spec_matched_count(stored: Seq<Version>, guard: Version) -> nat {
    if stored.contains(guard) {
        1
    } else {
        0
    }
}

/// The number of records that a guarded write matches in a store that holds
/// records of the versions `stored`.
pub fn matched_count(stored: &Vec<Version>, guard: Version) -> (count: u64)
    ensures
        count == spec_matched_count(stored@, guard),
{
    let mut i: usize = 0;
    while i < stored.len()
        invariant
            i <= stored@.len(),
            forall|j: int| 0 <= j < i ==> stored@[j] != guard,
        decreases stored@.len() - i,
    {
        if stored[i] == guard {
            return 1;
        }
        i += 1;
    }
    0
}

/// What a guarded write gives that matched `matched_count` records and would
/// leave the record as `updated`: the record, where the write matched one, and
/// otherwise the report of a concurrent modification and nothing of the record.
pub open spec fn guarded<T>(matched_count: nat, updated: T) -> Result<T, Error> {
    if matched_count == 0 {
        Err(Error::ConcurrentModificationDetected)
    } else {
        Ok(updated)
    }
}

/// Whether no two of the versions bear the same identifier.
pub open spec fn has_distinct_ids(stored: Seq<Version>) -> bool {
    forall|i: int, j: int|
        0 <= i < stored.len() && 0 <= j < stored.len() && stored[i].id == stored[j].id ==> i == j
}

/// The versions after a guarded write that matched the record at `k` and set
/// its time of modification to `now`.
pub open spec fn written(stored: Seq<Version>, k: int, now: Timestamp) -> Seq<Version> {
    stored.update(k, Version { id: stored[k].id, modified_at: now })
}

/// Of two writes that are guarded by the same reading of a record, exactly
/// one goes through: the first matches the record and leaves it as `first`;
/// the second then matches nothing, reports a concurrent modification and
/// leaves nothing of `second`. This holds of a store whose records bear
/// distinct identifiers, and of a first write at a time other than the one at
/// which the record was last modified before it.
pub proof fn law_one_of_two_stale_writes_succeeds<T>(
    stored: Seq<Version>,
    k: int,
    now: Timestamp,
    first: T,
    second: T,
)
    requires
        has_distinct_ids(stored),
        0 <= k < stored.len(),
        now != stored[k].modified_at,
    ensures
        guarded(spec_matched_count(stored, stored[k]), first) == Ok::<T, Error>(first),
        guarded(spec_matched_count(written(stored, k, now), stored[k]), second) == Err::<T, Error>(
            Error::ConcurrentModificationDetected,
        ),
        has_distinct_ids(written(stored, k, now)),
{
    let after = written(stored, k, now);
    assert(stored.contains(stored[k]));
    if after.contains(stored[k]) {
        let j = choose|j: int| 0 <= j < after.len() && after[j] == stored[k];
        if j != k {
            assert(after[j] == stored[j]);
        }
    }
}

/// A write that is guarded by a reading that the store no longer holds
/// changes nothing: it matches no record, and what it gives is the report of
/// a concurrent modification, whatever it would have written.
pub proof fn law_stale_write_changes_nothing<T>(stored: Seq<Version>, guard: Version, updated: T)
    requires
        !stored.contains(guard),
    ensures
        spec_matched_count(stored, guard) == 0,
        guarded(spec_matched_count(stored, guard), updated) == Err::<T, Error>(
            Error::ConcurrentModificationDetected,
        ),
{
}

} // verus!
