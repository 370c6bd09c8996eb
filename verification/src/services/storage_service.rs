//! The content store: encrypted payloads by storage key, and the chain index
//! from a record identifier to its storage key and proof.

use vstd::prelude::*;
use vstd::string::*;
use crate::utils::bytes::copy_bytes;
use crate::utils::keyed::VecMap;
use crate::utils::text::{decimal_text, join, text_views, u64_to_decimal};

verus! {

/// The storage key given to a payload stored at time `now`.
pub open spec fn storage_key(now: u64) -> Seq<char> {
    "storage-"@ + decimal_text(now as nat)
}

/// The line that reports one chain-index entry.
pub open spec fn record_line(record_id: Seq<char>, storage_id: Seq<char>) -> Seq<char> {
    "Record: "@ + record_id + ", Storage: "@ + storage_id
}

/// The chain index, its order and the stored payloads together.
pub struct StoreState {
    pub chain: Map<Seq<char>, (Seq<char>, Seq<u8>)>,
    pub chain_order: Seq<Seq<char>>,
    pub stored: Map<Seq<char>, Seq<u8>>,
}

/// The store after the record `id` has been removed: its chain-index entry
/// and the payload that the entry led to are gone. Nothing changes for a
/// record that is not indexed.
pub open spec fn without_record(state: StoreState, id: Seq<char>) -> StoreState {
    if state.chain.contains_key(id) {
        StoreState {
            chain: state.chain.remove(id),
            chain_order: state.chain_order.remove(state.chain_order.index_of(id)),
            stored: state.stored.remove(state.chain[id].0),
        }
    } else {
        state
    }
}

/// The store after the first `n` of `ids` have been removed in order.
pub open spec fn without_records(state: StoreState, ids: Seq<Seq<char>>, n: int) -> StoreState
    decreases n,
{
    if n <= 0 {
        state
    } else {
        without_record(without_records(state, ids, n - 1), ids[n - 1])
    }
}

/// How many of the first `n` of `ids` are indexed when their turn comes.
pub open spec fn removed_count(state: StoreState, ids: Seq<Seq<char>>, n: int) -> nat
    decreases n,
{
    if n <= 0 {
        0
    } else {
        removed_count(state, ids, n - 1) + if without_records(state, ids, n - 1).chain.contains_key(
            ids[n - 1],
        ) {
            1nat
        } else {
            0nat
        }
    }
}

/// One entry of the chain index: where a record's payload is stored, and the
/// proof that was made for it.
pub struct ChainIndexEntry {
    pub storage_id: String,
    pub proof: Vec<u8>,
}

impl View for ChainIndexEntry {
    type V = (Seq<char>, Seq<u8>);

    open spec fn view(&self) -> (Seq<char>, Seq<u8>) {
        (self.storage_id@, self.proof@)
    }
}

/// Payloads and chain index of one service instance.
pub struct StorageService {
    stored_data: VecMap<String, Vec<u8>>,
    chain_data: VecMap<String, ChainIndexEntry>,
}

impl StorageService {
    /// The stored payloads, by storage key.
    pub closed spec fn stored(&self) -> Map<Seq<char>, Seq<u8>> {
        self.stored_data@.map_values(|data: Vec<u8>| data@)
    }

    /// The chain index: storage key and proof, by record identifier.
    pub closed spec fn chain(&self) -> Map<Seq<char>, (Seq<char>, Seq<u8>)> {
        self.chain_data@.map_values(|entry: ChainIndexEntry| entry@)
    }

    /// The record identifiers of the chain index, in the order in which they
    /// were first indexed.
    pub closed spec fn chain_order(&self) -> Seq<Seq<char>> {
        self.chain_data.keys()
    }

    /// The chain index, its order and the stored payloads together.
    pub open spec fn state(&self) -> StoreState {
        StoreState { chain: self.chain(), chain_order: self.chain_order(), stored: self.stored() }
    }

    /// Both maps are well formed.
    pub closed spec fn wf(&self) -> bool {
        &&& self.stored_data.wf()
        &&& self.chain_data.wf()
    }

    /// The chain order lists exactly the indexed record identifiers, each
    /// once.
    pub proof fn law_chain_order_lists_the_indexed(&self)
        requires
            self.wf(),
        ensures
            self.chain_order().no_duplicates(),
            forall|id: Seq<char>| self.chain_order().contains(id) <==> self.chain().contains_key(id),
    {
        self.chain_data.lemma_wf();
    }

    /// An empty store.
    pub fn new() -> (service: Self)
        ensures
            service.wf(),
            service.stored() == Map::<Seq<char>, Seq<u8>>::empty(),
            service.chain() == Map::<Seq<char>, (Seq<char>, Seq<u8>)>::empty(),
            service.chain_order() == Seq::<Seq<char>>::empty(),
    {
        let service = StorageService { stored_data: VecMap::new(), chain_data: VecMap::new() };
        assert(service.stored() =~= Map::<Seq<char>, Seq<u8>>::empty());
        assert(service.chain() =~= Map::<Seq<char>, (Seq<char>, Seq<u8>)>::empty());
        service
    }

    /// Stores a payload under the key for time `now` and returns that key. A
    /// payload stored earlier under the same key is replaced. Never fails.
    pub fn store_data(&mut self, data: Vec<u8>, now: u64) -> (out: Result<String, String>)
        requires
            old(self).wf(),
        ensures
            final(self).wf(),
            out is Ok,
            out->Ok_0@ == storage_key(now),
            final(self).stored() == old(self).stored().insert(storage_key(now), data@),
            final(self).chain() == old(self).chain(),
            final(self).chain_order() == old(self).chain_order(),
    {
        let digits = u64_to_decimal(now);
        let id = join("storage-", digits.as_str());
        self.stored_data.insert(id.clone(), data);
        assert(self.stored() =~= old(self).stored().insert(storage_key(now), data@));
        Ok(id)
    }

    /// Enters a record into the chain index, replacing an earlier entry for
    /// the same record. Never fails.
    pub fn store_on_chain(&mut self, record_id: String, storage_id: String, proof: Vec<u8>) -> (out:
        Result<(), String>)
        requires
            old(self).wf(),
        ensures
            final(self).wf(),
            out is Ok,
            final(self).chain() == old(self).chain().insert(record_id@, (storage_id@, proof@)),
            final(self).stored() == old(self).stored(),
            final(self).chain_order() == if old(self).chain().contains_key(record_id@) {
                old(self).chain_order()
            } else {
                old(self).chain_order().push(record_id@)
            },
    {
        let ghost entry_view = (storage_id@, proof@);
        self.chain_data.insert(record_id, ChainIndexEntry { storage_id, proof });
        assert(self.chain() =~= old(self).chain().insert(record_id@, entry_view));
        Ok(())
    }

    /// The chain-index entry of a record: its storage key and proof.
    pub fn get_chain_data(&self, record_id: &str) -> (found: Option<(String, Vec<u8>)>)
        requires
            self.wf(),
        ensures
            match found {
                Some(entry) => self.chain().contains_key(record_id@) && (entry.0@, entry.1@)
                    == self.chain()[record_id@],
                None => !self.chain().contains_key(record_id@),
            },
    {
        let key = String::from_str(record_id);
        match self.chain_data.get(&key) {
            Some(entry) => Some((entry.storage_id.clone(), copy_bytes(entry.proof.as_slice()))),
            None => None,
        }
    }

    /// The payload stored under a storage key.
    pub fn get_data(&self, storage_id: &str) -> (found: Option<&Vec<u8>>)
        requires
            self.wf(),
        ensures
            match found {
                Some(data) => self.stored().contains_key(storage_id@) && data@ == self.stored()[storage_id@],
                None => !self.stored().contains_key(storage_id@),
            },
    {
        let key = String::from_str(storage_id);
        self.stored_data.get(&key)
    }

    /// Drops every payload and every chain-index entry.
    pub fn clear_all_data(&mut self)
        requires
            old(self).wf(),
        ensures
            final(self).wf(),
            final(self).stored() == Map::<Seq<char>, Seq<u8>>::empty(),
            final(self).chain() == Map::<Seq<char>, (Seq<char>, Seq<u8>)>::empty(),
            final(self).chain_order() == Seq::<Seq<char>>::empty(),
    {
        self.stored_data.clear();
        self.chain_data.clear();
        assert(self.stored() =~= Map::<Seq<char>, Seq<u8>>::empty());
        assert(self.chain() =~= Map::<Seq<char>, (Seq<char>, Seq<u8>)>::empty());
    }

    /// The chain index as lines of text, for a log: a heading, one line per
    /// indexed record in the order of indexing, and a closing line.
    pub fn debug_print_records(&self) -> (lines: Vec<String>)
        requires
            self.wf(),
        ensures
            lines@.len() == self.chain_order().len() + 2,
            lines@[0]@ == "=== Current Records ==="@,
            lines@[lines@.len() - 1]@ == "=== End Records ==="@,
            forall|k: int|
                0 <= k < self.chain_order().len() ==> (#[trigger] lines@[k + 1])@ == record_line(
                    self.chain_order()[k],
                    self.chain()[self.chain_order()[k]].0,
                ),
    {
        proof {
            self.chain_data.lemma_wf();
        }
        let n = self.chain_data.len();
        let mut lines: Vec<String> = Vec::new();
        lines.push(String::from_str("=== Current Records ==="));
        let mut i: usize = 0;
        while i < n
            invariant
                self.wf(),
                self.chain_data.wf(),
                n == self.chain_data.keys().len(),
                n == self.chain_data.values().len(),
                0 <= i <= n,
                lines@.len() == i + 1,
                lines@[0]@ == "=== Current Records ==="@,
                forall|j: int|
                    0 <= j < n ==> #[trigger] self.chain_data.position(self.chain_data.keys()[j])
                        == Some(j),
                forall|k: int|
                    0 <= k < i ==> (#[trigger] lines@[k + 1])@ == record_line(
                        self.chain_order()[k],
                        self.chain()[self.chain_order()[k]].0,
                    ),
            decreases n - i,
        {
            let record_id = self.chain_data.key_at(i);
            let entry = self.chain_data.value_at(i);
            proof {
                let key = self.chain_data.keys()[i as int];
                assert(self.chain_data.position(key) == Some(i as int));
                assert(self.chain_data@.contains_key(key));
                assert(self.chain()[key] == entry@);
            }
            let mut line = join("Record: ", record_id.as_str());
            line.append(", Storage: ");
            line.append(entry.storage_id.as_str());
            let ghost before = lines@;
            lines.push(line);
            assert forall|k: int| 0 <= k < i + 1 implies (#[trigger] lines@[k + 1])@
                == record_line(self.chain_order()[k], self.chain()[self.chain_order()[k]].0) by {
                if k < i {
                    assert(lines@[k + 1] == before[k + 1]);
                }
            }
            i += 1;
        }
        lines.push(String::from_str("=== End Records ==="));
        lines
    }

    /// Removes the records that have expired, each with the payload that its
    /// chain-index entry leads to, and tells how many were removed. Records
    /// that are not indexed are passed over.
    pub fn cleanup_old_data(&mut self, expired: &Vec<String>) -> (removed: usize)
        requires
            old(self).wf(),
        ensures
            final(self).wf(),
            final(self).state() == without_records(
                old(self).state(),
                text_views(expired@),
                expired@.len() as int,
            ),
            removed == removed_count(old(self).state(), text_views(expired@), expired@.len() as int),
    {
        let ghost ids = text_views(expired@);
        let ghost state0 = self.state();
        let mut removed: usize = 0;
        let mut i: usize = 0;
        while i < expired.len()
            invariant
                self.wf(),
                ids == text_views(expired@),
                state0 == old(self).state(),
                0 <= i <= expired@.len(),
                removed <= i,
                removed == removed_count(state0, ids, i as int),
                self.state() == without_records(state0, ids, i as int),
            decreases expired@.len() - i,
        {
            let ghost before = self.state();
            proof {
                self.chain_data.lemma_wf();
                assert(ids[i as int] == expired@[i as int]@);
            }
            match self.chain_data.remove(&expired[i]) {
                Some(entry) => {
                    let _ = self.stored_data.remove(&entry.storage_id);
                    proof {
                        assert(self.chain() =~= before.chain.remove(ids[i as int]));
                        assert(self.stored() =~= before.stored.remove(entry@.0));
                    }
                    removed = removed + 1;
                },
                None => {
                    proof {
                        assert(self.chain() =~= before.chain);
                    }
                },
            }
            i += 1;
        }
        removed
    }
}

} // verus!
