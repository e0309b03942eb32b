//! The claim ledger: one record per identity, made when the identity is
//! first looked up and never removed.

use vstd::prelude::*;
use crate::identity::Identity;
use crate::state::UserClaim;

verus! {

/// One stored record with the identity it belongs to.
#[derive(Clone, Copy, Debug)]
struct ClaimEntry {
    identity: Identity,
    record: UserClaim,
}

/// The records of all identities that were ever looked up. It is viewed as a
/// map from identity to record.
#[derive(Debug)]
pub struct ClaimLedger {
    entries: Vec<ClaimEntry>,
}

/// The map that a sequence of entries stands for: a later entry for an
/// identity replaces an earlier one.
spec fn entries_map(entries: Seq<ClaimEntry>) -> Map<Identity, UserClaim>
    decreases entries.len(),
{
    if entries.len() == 0 {
        Map::empty()
    } else {
        entries_map(entries.drop_last()).insert(entries.last().identity, entries.last().record)
    }
}

/// No identity has two entries.
spec fn distinct_identities(entries: Seq<ClaimEntry>) -> bool {
    forall|i: int, j: int|
        0 <= i < j < entries.len() ==> entries[i].identity != entries[j].identity
}

/// The record that `records` holds for `identity`: an identity without a
/// record counts as unclaimed.
pub open spec fn record_of(records: Map<Identity, UserClaim>, identity: Identity) -> UserClaim {
    if records.dom().contains(identity) {
        records[identity]
    } else {
        UserClaim::unclaimed()
    }
}

/// `records` with a fresh, unclaimed record for `identity` unless it has one.
pub open spec fn with_record(records: Map<Identity, UserClaim>, identity: Identity) -> Map<
    Identity,
    UserClaim,
> {
    records.insert(identity, record_of(records, identity))
}

/// The domain of the map is the set of identities among the entries.
proof fn lemma_entries_dom(entries: Seq<ClaimEntry>, identity: Identity)
    ensures
        entries_map(entries).dom().contains(identity) <==> exists|i: int|
            0 <= i < entries.len() && #[trigger] entries[i].identity == identity,
    decreases entries.len(),
{
    if entries.len() > 0 {
        let front = entries.drop_last();
        lemma_entries_dom(front, identity);
        if entries_map(entries).dom().contains(identity) {
            if entries.last().identity == identity {
                assert(entries[entries.len() - 1].identity == identity);
            } else {
                let i = choose|i: int| 0 <= i < front.len() && #[trigger] front[i].identity == identity;
                assert(entries[i].identity == identity);
            }
        }
        if exists|i: int| 0 <= i < entries.len() && #[trigger] entries[i].identity == identity {
            let i = choose|i: int| 0 <= i < entries.len() && #[trigger] entries[i].identity == identity;
            if i < entries.len() - 1 {
                assert(front[i].identity == identity);
            }
        }
    }
}

/// With distinct identities, each entry's record is the one the map holds.
proof fn lemma_entries_lookup(entries: Seq<ClaimEntry>, i: int)
    requires
        distinct_identities(entries),
        0 <= i < entries.len(),
    ensures
        entries_map(entries).dom().contains(entries[i].identity),
        entries_map(entries)[entries[i].identity] == entries[i].record,
    decreases entries.len(),
{
    let front = entries.drop_last();
    if i < entries.len() - 1 {
        assert(distinct_identities(front)) by {
            assert forall|a: int, b: int| 0 <= a < b < front.len() implies front[a].identity
                != front[b].identity by {
                assert(entries[a].identity != entries[b].identity);
            }
        }
        lemma_entries_lookup(front, i);
        assert(front[i] == entries[i]);
        assert(entries[i].identity != entries[entries.len() - 1].identity);
    }
}

/// With distinct identities, replacing the record of one entry replaces it
/// in the map.
proof fn lemma_entries_update(entries: Seq<ClaimEntry>, i: int, record: UserClaim)
    requires
        distinct_identities(entries),
        0 <= i < entries.len(),
    ensures
        distinct_identities(
            entries.update(i, ClaimEntry { identity: entries[i].identity, record }),
        ),
        entries_map(entries.update(i, ClaimEntry { identity: entries[i].identity, record }))
            == entries_map(entries).insert(entries[i].identity, record),
    decreases entries.len(),
{
    let entry = ClaimEntry { identity: entries[i].identity, record };
    let updated = entries.update(i, entry);
    let front = entries.drop_last();
    assert(distinct_identities(updated)) by {
        assert forall|a: int, b: int| 0 <= a < b < updated.len() implies updated[a].identity
            != updated[b].identity by {
            assert(entries[a].identity != entries[b].identity);
        }
    }
    if i == entries.len() - 1 {
        assert(updated.drop_last() =~= front);
        assert(entries_map(updated) =~= entries_map(entries).insert(entries[i].identity, record));
    } else {
        assert(distinct_identities(front)) by {
            assert forall|a: int, b: int| 0 <= a < b < front.len() implies front[a].identity
                != front[b].identity by {
                assert(entries[a].identity != entries[b].identity);
            }
        }
        lemma_entries_update(front, i, record);
        assert(updated.drop_last() =~= front.update(i, entry));
        assert(front[i] == entries[i]);
        assert(entries[i].identity != entries[entries.len() - 1].identity);
        assert(updated.last() == entries.last());
        assert(entries_map(updated) =~= entries_map(entries).insert(entries[i].identity, record));
    }
}

/// With distinct identities, the map has as many records as there are
/// entries.
proof fn lemma_entries_len(entries: Seq<ClaimEntry>)
    requires
        distinct_identities(entries),
    ensures
        entries_map(entries).dom().finite(),
        entries_map(entries).dom().len() == entries.len(),
    decreases entries.len(),
{
    if entries.len() > 0 {
        let front = entries.drop_last();
        assert(distinct_identities(front)) by {
            assert forall|a: int, b: int| 0 <= a < b < front.len() implies front[a].identity
                != front[b].identity by {
                assert(entries[a].identity != entries[b].identity);
            }
        }
        lemma_entries_len(front);
        lemma_entries_dom(front, entries.last().identity);
        if entries_map(front).dom().contains(entries.last().identity) {
            let i = choose|i: int|
                0 <= i < front.len() && #[trigger] front[i].identity == entries.last().identity;
            assert(entries[i].identity != entries[entries.len() - 1].identity);
        }
    }
}

impl View for ClaimLedger {
    type V = Map<Identity, UserClaim>;

    closed spec fn view(&self) -> Map<Identity, UserClaim> {
        entries_map(self.entries@)
    }
}

impl ClaimLedger {
    /// The ledger's invariant: at most one record per identity.
    #[verifier::type_invariant]
    spec fn wf(&self) -> bool {
        distinct_identities(self.entries@)
    }

    /// The record of `identity`; unclaimed where the ledger holds none.
    pub open spec fn record(&self, identity: Identity) -> UserClaim {
        record_of(self@, identity)
    }

    /// A ledger without records.
    pub fn new() -> (ledger: ClaimLedger)
        ensures
            ledger@ == Map::<Identity, UserClaim>::empty(),
    {
        ClaimLedger { entries: Vec::new() }
    }

    /// The number of records.
    pub fn len(&self) -> (count: usize)
        ensures
            self@.dom().finite(),
            count == self@.dom().len(),
    {
        proof {
            use_type_invariant(self);
            lemma_entries_len(self.entries@);
        }
        self.entries.len()
    }

    /// Where the entry of `identity` stands, if there is one.
    fn position(&self, identity: &Identity) -> (found: Option<usize>)
        ensures
            match found {
                Some(i) => i < self.entries@.len() && self.entries@[i as int].identity
                    == *identity,
                None => forall|i: int|
                    0 <= i < self.entries@.len() ==> self.entries@[i].identity != *identity,
            },
    {
        let mut i: usize = 0;
        while i < self.entries.len()
            invariant
                i <= self.entries@.len(),
                forall|j: int| 0 <= j < i ==> self.entries@[j].identity != *identity,
            decreases self.entries@.len() - i,
        {
            if self.entries[i].identity == *identity {
                return Some(i);
            }
            i += 1;
        }
        None
    }

    /// Whether `identity` has been paid, without making a record.
    pub fn has_claimed(&self, identity: &Identity) -> (claimed: bool)
        ensures
            claimed == self.record(*identity).has_claimed,
    {
        proof {
            use_type_invariant(self);
        }
        match self.position(identity) {
            Some(i) => {
                proof {
                    lemma_entries_lookup(self.entries@, i as int);
                }
                self.entries[i].record.has_claimed
            },
            None => {
                proof {
                    lemma_entries_dom(self.entries@, *identity);
                }
                false
            },
        }
    }

    /// The record of `identity`. Where the ledger holds none, it makes an
    /// unclaimed one and keeps it; no other record changes.
    pub fn get(&mut self, identity: Identity) -> (record: UserClaim)
        ensures
            record == old(self).record(identity),
            final(self)@ == with_record(old(self)@, identity),
    {
        proof {
            use_type_invariant(&*self);
        }
        match self.position(&identity) {
            Some(i) => {
                proof {
                    lemma_entries_lookup(self.entries@, i as int);
                    assert(self@ =~= with_record(self@, identity));
                }
                self.entries[i].record
            },
            None => {
                proof {
                    lemma_entries_dom(self.entries@, identity);
                }
                let record = UserClaim::default();
                self.append(ClaimEntry { identity, record });
                record
            },
        }
    }

    /// Marks `identity` as paid, making its record where the ledger holds
    /// none. No other record changes.
    pub fn mark_claimed(&mut self, identity: Identity)
        ensures
            final(self)@ == old(self)@.insert(identity, UserClaim::claimed()),
    {
        proof {
            use_type_invariant(&*self);
        }
        let entry = ClaimEntry { identity, record: UserClaim { has_claimed: true } };
        match self.position(&identity) {
            Some(i) => {
                proof {
                    lemma_entries_update(self.entries@, i as int, entry.record);
                }
                // The entries are taken out while one of them is replaced.
                let mut entries = Vec::new();
                std::mem::swap(&mut entries, &mut self.entries);
                entries.set(i, entry);
                self.entries = entries;
            },
            None => {
                self.append(entry);
            },
        }
    }

    /// Adds an entry for an identity that has none.
    fn append(&mut self, entry: ClaimEntry)
        requires
            forall|i: int|
                0 <= i < old(self).entries@.len() ==> old(self).entries@[i].identity
                    != entry.identity,
        ensures
            final(self)@ == old(self)@.insert(entry.identity, entry.record),
    {
        proof {
            use_type_invariant(&*self);
        }
        let ghost before = self.entries@;
        // The entries are taken out while they grow.
        let mut entries = Vec::new();
        std::mem::swap(&mut entries, &mut self.entries);
        entries.push(entry);
        proof {
            assert(entries@.drop_last() =~= before);
        }
        self.entries = entries;
    }
}

} // verus!
