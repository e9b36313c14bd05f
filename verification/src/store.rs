//! The permission store: a keyed lookup from a record locator to a typed
//! permission record. Pure storage with read, upsert and remove; its
//! specification is a `Map` from locators to records.

use vstd::prelude::*;
use vstd::pervasive::VecAdditionalExecFns;

use crate::state::{
    AccountId, BridgeCardsState, MerchantDebitorState, MerchantDestinationState,
    MerchantManagerState, UserDelegateState,
};

verus! {

/// The deterministic locator of one permission record: the record type
/// together with the scope tuple that narrows it to one authorization
/// context. Locator derivation is injective by construction, so distinct
/// scopes can never collide on a record.
#[derive(Clone, Copy, Debug, PartialEq, Eq, Structural)]
pub enum RecordKey {
    /// The singleton platform authority record.
    PlatformAuthority,
    /// The manager record of one merchant.
    MerchantManager { merchant_id: u64 },
    /// The allowlist record of one debitor for one merchant and asset.
    MerchantDebitor { merchant_id: u64, mint: AccountId, debitor: AccountId },
    /// The allowlist record of one destination account for one merchant and asset.
    MerchantDestination { merchant_id: u64, mint: AccountId, destination: AccountId },
    /// The quota record of one user source account for one merchant and asset.
    UserDelegate { merchant_id: u64, mint: AccountId, user_token_account: AccountId },
}

/// A typed permission record, as stored under its locator.
#[derive(Clone, Copy, Debug, PartialEq, Eq, Structural)]
pub enum Record {
    State(BridgeCardsState),
    Manager(MerchantManagerState),
    Debitor(MerchantDebitorState),
    Destination(MerchantDestinationState),
    Delegate(UserDelegateState),
}

/// True when a record is of the type its locator names.
pub open spec fn record_matches_key(key: RecordKey, record: Record) -> bool {
    match key {
        RecordKey::PlatformAuthority => record is State,
        RecordKey::MerchantManager { .. } => record is Manager,
        RecordKey::MerchantDebitor { .. } => record is Debitor,
        RecordKey::MerchantDestination { .. } => record is Destination,
        RecordKey::UserDelegate { .. } => record is Delegate,
    }
}

/// True when every record in the store is of the type its locator names and
/// every delegate record satisfies the quota invariant. Every operation of
/// the library preserves it, so it holds of all reachable stores.
pub open spec fn records_wf(m: Map<RecordKey, Record>) -> bool {
    forall|k: RecordKey| #[trigger]
        m.dom().contains(k) ==> record_matches_key(k, m[k]) && (m[k] matches Record::Delegate(d)
            ==> d.wf())
}

/// The map a sequence of locator/record entries denotes; a later entry for a
/// key shadows an earlier one, though the store never holds two entries for
/// one key.
spec fn entries_map(s: Seq<(RecordKey, Record)>) -> Map<RecordKey, Record>
    decreases s.len(),
{
    if s.len() == 0 {
        Map::empty()
    } else {
        entries_map(s.drop_last()).insert(s.last().0, s.last().1)
    }
}

/// True when no two entries carry the same locator.
spec fn distinct_keys(s: Seq<(RecordKey, Record)>) -> bool {
    forall|i: int, j: int|
        0 <= i < j < s.len() ==> (#[trigger] s[i]).0 != (#[trigger] s[j]).0
}

proof fn lemma_entries_map_contains(s: Seq<(RecordKey, Record)>, key: RecordKey)
    ensures
        entries_map(s).dom().contains(key) <==> exists|i: int|
            0 <= i < s.len() && (#[trigger] s[i]).0 == key,
    decreases s.len(),
{
    if s.len() > 0 {
        lemma_entries_map_contains(s.drop_last(), key);
        if s.last().0 == key {
            assert(s[s.len() - 1].0 == key);
        } else if entries_map(s).dom().contains(key) {
            let i = choose|i: int| 0 <= i < s.drop_last().len() && (#[trigger] s.drop_last()[i]).0
                == key;
            assert(s[i].0 == key);
        } else if exists|i: int| 0 <= i < s.len() && (#[trigger] s[i]).0 == key {
            let i = choose|i: int| 0 <= i < s.len() && (#[trigger] s[i]).0 == key;
            assert(i < s.len() - 1);
            assert(s.drop_last()[i].0 == key);
        }
    }
}

proof fn lemma_entries_map_index(s: Seq<(RecordKey, Record)>, i: int)
    requires
        distinct_keys(s),
        0 <= i < s.len(),
    ensures
        entries_map(s).dom().contains(s[i].0),
        entries_map(s)[s[i].0] == s[i].1,
    decreases s.len(),
{
    if i < s.len() - 1 {
        assert(distinct_keys(s.drop_last())) by {
            assert forall|p: int, q: int|
                0 <= p < q < s.drop_last().len() implies (#[trigger] s.drop_last()[p]).0 != (
            #[trigger] s.drop_last()[q]).0 by {
                assert(s[p].0 != s[q].0);
            }
        }
        assert(s.drop_last()[i] == s[i]);
        lemma_entries_map_index(s.drop_last(), i);
        assert(s[i].0 != s.last().0);
    }
}

proof fn lemma_entries_map_push(s: Seq<(RecordKey, Record)>, e: (RecordKey, Record))
    ensures
        entries_map(s.push(e)) == entries_map(s).insert(e.0, e.1),
{
    assert(s.push(e).drop_last() =~= s);
    assert(s.push(e).last() == e);
}

proof fn lemma_entries_map_update(s: Seq<(RecordKey, Record)>, i: int, v: Record)
    requires
        distinct_keys(s),
        0 <= i < s.len(),
    ensures
        entries_map(s.update(i, (s[i].0, v))) == entries_map(s).insert(s[i].0, v),
    decreases s.len(),
{
    let key = s[i].0;
    let s2 = s.update(i, (key, v));
    if i == s.len() - 1 {
        assert(s2.drop_last() =~= s.drop_last());
        assert(entries_map(s2) =~= entries_map(s).insert(key, v));
    } else {
        assert(distinct_keys(s.drop_last())) by {
            assert forall|p: int, q: int|
                0 <= p < q < s.drop_last().len() implies (#[trigger] s.drop_last()[p]).0 != (
            #[trigger] s.drop_last()[q]).0 by {
                assert(s[p].0 != s[q].0);
            }
        }
        assert(s.drop_last()[i] == s[i]);
        lemma_entries_map_update(s.drop_last(), i, v);
        assert(s2.drop_last() =~= s.drop_last().update(i, (key, v)));
        assert(s2.last() == s.last());
        // The updated key differs from the last entry's key, so the final
        // inserts commute.
        assert(key != s.last().0);
        assert(entries_map(s2) =~= entries_map(s).insert(key, v));
    }
}

proof fn lemma_entries_map_remove(s: Seq<(RecordKey, Record)>, i: int)
    requires
        distinct_keys(s),
        0 <= i < s.len(),
    ensures
        entries_map(s.remove(i)) == entries_map(s).remove(s[i].0),
    decreases s.len(),
{
    let key = s[i].0;
    if i == s.len() - 1 {
        assert(s.remove(i) =~= s.drop_last());
        lemma_entries_map_contains(s.drop_last(), key);
        assert forall|j: int| 0 <= j < s.drop_last().len() implies (#[trigger] s.drop_last()[j]).0
            != key by {
            assert(s[j].0 != s[s.len() - 1].0);
        }
        assert(!entries_map(s.drop_last()).dom().contains(key));
        assert(entries_map(s.drop_last()) =~= entries_map(s).remove(key));
    } else {
        assert(distinct_keys(s.drop_last())) by {
            assert forall|p: int, q: int|
                0 <= p < q < s.drop_last().len() implies (#[trigger] s.drop_last()[p]).0 != (
            #[trigger] s.drop_last()[q]).0 by {
                assert(s[p].0 != s[q].0);
            }
        }
        assert(s.drop_last()[i] == s[i]);
        lemma_entries_map_remove(s.drop_last(), i);
        assert(s.remove(i).drop_last() =~= s.drop_last().remove(i));
        assert(s.remove(i).last() == s.last());
        assert(key != s.last().0);
        assert(entries_map(s.remove(i)) =~= entries_map(s).remove(key));
    }
}

/// The permission store. Each record sits under its deterministic locator;
/// no locator occurs twice.
pub struct PermissionStore {
    entries: Vec<(RecordKey, Record)>,
}

impl View for PermissionStore {
    type V = Map<RecordKey, Record>;

    closed spec fn view(&self) -> Map<RecordKey, Record> {
        entries_map(self.entries@)
    }
}

impl PermissionStore {
    /// Well-formedness of the representation: one entry per locator. `new`
    /// establishes it and every operation preserves it.
    pub closed spec fn wf(&self) -> bool {
        distinct_keys(self.entries@)
    }

    /// Create an empty store.
    pub fn new() -> (store: PermissionStore)
        ensures
            store.wf(),
            store@ == Map::<RecordKey, Record>::empty(),
    {
        PermissionStore { entries: Vec::new() }
    }

    /// The index of the entry holding `key`, if any.
    fn find_index(&self, key: RecordKey) -> (r: Option<usize>)
        ensures
            match r {
                Some(i) => i < self.entries@.len() && self.entries@[i as int].0 == key,
                None => forall|j: int|
                    0 <= j < self.entries@.len() ==> (#[trigger] self.entries@[j]).0 != key,
            },
    {
        let n: usize = self.entries.len();
        let mut i: usize = 0;
        while i < n
            invariant
                i <= n,
                n == self.entries@.len(),
                forall|j: int| 0 <= j < i ==> (#[trigger] self.entries@[j]).0 != key,
            decreases n - i,
        {
            if self.entries[i].0 == key {
                return Some(i);
            }
            i = i + 1;
        }
        None
    }

    /// Read the record stored under `key`, if any.
    pub fn get(&self, key: RecordKey) -> (r: Option<Record>)
        requires
            self.wf(),
        ensures
            r == if self@.dom().contains(key) {
                Some(self@[key])
            } else {
                None::<Record>
            },
    {
        proof {
            lemma_entries_map_contains(self.entries@, key);
        }
        match self.find_index(key) {
            Some(i) => {
                proof {
                    lemma_entries_map_index(self.entries@, i as int);
                }
                Some(self.entries[i].1)
            },
            None => None,
        }
    }

    /// Store `value` under `key`, creating the record or replacing the
    /// previous one, which is returned for audit.
    pub fn upsert(&mut self, key: RecordKey, value: Record) -> (prev: Option<Record>)
        requires
            old(self).wf(),
        ensures
            final(self).wf(),
            final(self)@ == old(self)@.insert(key, value),
            prev == if old(self)@.dom().contains(key) {
                Some(old(self)@[key])
            } else {
                None::<Record>
            },
    {
        proof {
            lemma_entries_map_contains(self.entries@, key);
        }
        match self.find_index(key) {
            Some(i) => {
                let prev = self.entries[i].1;
                proof {
                    lemma_entries_map_index(self.entries@, i as int);
                    lemma_entries_map_update(self.entries@, i as int, value);
                }
                let ghost s0 = self.entries@;
                self.entries.set(i, (key, value));
                proof {
                    assert forall|p: int, q: int|
                        0 <= p < q < self.entries@.len() implies (#[trigger] self.entries@[p]).0
                        != (#[trigger] self.entries@[q]).0 by {
                        assert(s0[p].0 != s0[q].0);
                        assert(p == i || self.entries@[p] == s0[p]);
                        assert(q == i || self.entries@[q] == s0[q]);
                    }
                }
                Some(prev)
            },
            None => {
                proof {
                    lemma_entries_map_push(self.entries@, (key, value));
                }
                let ghost s0 = self.entries@;
                self.entries.push((key, value));
                proof {
                    assert forall|p: int, q: int|
                        0 <= p < q < self.entries@.len() implies (#[trigger] self.entries@[p]).0
                        != (#[trigger] self.entries@[q]).0 by {
                        if q < s0.len() {
                            assert(s0[p].0 != s0[q].0);
                        } else {
                            assert(self.entries@[p] == s0[p]);
                            assert(s0[p].0 != key);
                        }
                    }
                }
                None
            },
        }
    }

    /// Delete the record stored under `key`, returning it if it existed.
    pub fn remove(&mut self, key: RecordKey) -> (prev: Option<Record>)
        requires
            old(self).wf(),
        ensures
            final(self).wf(),
            final(self)@ == old(self)@.remove(key),
            prev == if old(self)@.dom().contains(key) {
                Some(old(self)@[key])
            } else {
                None::<Record>
            },
            prev is None ==> *final(self) == *old(self),
    {
        proof {
            lemma_entries_map_contains(self.entries@, key);
        }
        match self.find_index(key) {
            Some(i) => {
                proof {
                    lemma_entries_map_index(self.entries@, i as int);
                    lemma_entries_map_remove(self.entries@, i as int);
                }
                let ghost s0 = self.entries@;
                let (_, prev) = self.entries.remove(i);
                proof {
                    assert forall|p: int, q: int|
                        0 <= p < q < self.entries@.len() implies (#[trigger] self.entries@[p]).0
                        != (#[trigger] self.entries@[q]).0 by {
                        let p0: int = if p < i { p } else { p + 1 };
                        let q0: int = if q < i { q } else { q + 1 };
                        assert(self.entries@[p] == s0[p0]);
                        assert(self.entries@[q] == s0[q0]);
                        assert(s0[p0].0 != s0[q0].0);
                    }
                }
                Some(prev)
            },
            None => {
                proof {
                    assert(self@.remove(key) =~= self@);
                }
                None
            },
        }
    }
}

} // verus!
