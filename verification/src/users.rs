use vstd::prelude::*;

use crate::ids::AccountId;

verus! {

/// One record per participant: lifetime entry weight and lifetime
/// contribution, accumulated across all rounds and never reset by a draw.
#[derive(Clone, Copy, PartialEq, Eq, Structural, Debug)]
pub struct UserState {
    /// The participant this record belongs to.
    pub user: AccountId,
    /// Lifetime sum of entry-tier weights contributed by this participant.
    pub entries: u64,
    /// Lifetime deposit value from this participant.
    pub total_contributed: u64,
}

/// The record storage for participants, keyed by identity. A record is
/// created once, on the participant's first lottery entry, and creation
/// fails if a record already exists for that identity.
#[derive(Debug)]
pub struct UserDirectory {
    pub records: Vec<UserState>,
}

impl UserDirectory {
    /// Well-formedness: no two records share an owner.
    pub open spec fn wf(self) -> bool {
        forall|i: int, j: int|
            0 <= i < j < self.records.len() ==> #[trigger] self.records[i].user != #[trigger] self.records[j].user
    }

    /// Whether some record belongs to the given identity.
    pub open spec fn has_record(self, id: AccountId) -> bool {
        exists|i: int| 0 <= i < self.records.len() && #[trigger] self.records[i].user == id
    }

    /// An empty directory, as the ledger starts with.
    pub fn new() -> (d: UserDirectory)
        ensures
            d.wf(),
            d.records@ =~= Seq::<UserState>::empty(),
    {
        UserDirectory { records: Vec::new() }
    }

    /// Looks up the record index of an identity, if one exists.
    pub fn find_user(&self, id: AccountId) -> (r: Option<usize>)
        ensures
            match r {
                Some(i) => i < self.records.len() && self.records[i as int].user == id,
                None => !self.has_record(id),
            },
    {
        let mut i: usize = 0;
        while i < self.records.len()
            invariant
                i <= self.records.len(),
                forall|k: int| 0 <= k < i ==> #[trigger] self.records[k].user != id,
            decreases self.records.len() - i,
        {
            if self.records[i].user == id {
                return Some(i);
            }
            i = i + 1;
        }
        None
    }
}

} // verus!
