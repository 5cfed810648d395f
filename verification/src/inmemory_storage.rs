//! The reference event store adapter: streams kept in process memory.

use vstd::prelude::*;

use crate::errors::StoreError;
use crate::event_storage::{
    appended_stream, lemma_valid_stream_append, stream_of, valid_stream, valid_streams,
    EventStorage,
};
use crate::events::{clone_event, InventoryEvents};

verus! {

/// One stream: its key and its events in append order.
struct StreamEntry {
    key: String,
    events: Vec<InventoryEvents>,
}

/// The reference event store adapter. Streams are held as a list of
/// entries with pairwise distinct keys.
pub struct InMemory {
    events: Vec<StreamEntry>,
}

/// The association the entries spell out. Keys are unique under the
/// invariant, so no entry shadows another.
spec fn entries_map(s: Seq<StreamEntry>) -> Map<Seq<char>, Seq<InventoryEvents>>
    decreases s.len(),
{
    if s.len() == 0 {
        Map::empty()
    } else {
        entries_map(s.drop_last()).insert(s.last().key@, s.last().events@)
    }
}

spec fn keys_unique(s: Seq<StreamEntry>) -> bool {
    forall|i: int, j: int|
        0 <= i < j < s.len() ==> (#[trigger] s[i]).key@ != (#[trigger] s[j]).key@
}

proof fn lemma_entries_dom(s: Seq<StreamEntry>, k: Seq<char>)
    ensures
        entries_map(s).contains_key(k) <==> (exists|i: int|
            0 <= i < s.len() && (#[trigger] s[i]).key@ == k),
    decreases s.len(),
{
    if s.len() == 0 {
    } else {
        let t = s.drop_last();
        lemma_entries_dom(t, k);
        if s.last().key@ == k {
            assert(s[s.len() - 1].key@ == k);
        } else {
            if exists|i: int| 0 <= i < s.len() && (#[trigger] s[i]).key@ == k {
                let i = choose|i: int| 0 <= i < s.len() && (#[trigger] s[i]).key@ == k;
                assert(t[i].key@ == k);
            }
            if exists|i: int| 0 <= i < t.len() && (#[trigger] t[i]).key@ == k {
                let i = choose|i: int| 0 <= i < t.len() && (#[trigger] t[i]).key@ == k;
                assert(s[i].key@ == k);
            }
        }
    }
}

proof fn lemma_entries_get(s: Seq<StreamEntry>, i: int)
    requires
        keys_unique(s),
        0 <= i < s.len(),
    ensures
        entries_map(s).contains_key(s[i].key@),
        entries_map(s)[s[i].key@] == s[i].events@,
    decreases s.len(),
{
    if i == s.len() - 1 {
    } else {
        let t = s.drop_last();
        assert forall|a: int, b: int| 0 <= a < b < t.len() implies (#[trigger] t[a]).key@ != (
        #[trigger] t[b]).key@ by {
            assert(t[a] == s[a]);
            assert(t[b] == s[b]);
        }
        assert(t[i] == s[i]);
        lemma_entries_get(t, i);
        assert(s.last().key@ != s[i].key@);
    }
}

proof fn lemma_entries_update(s: Seq<StreamEntry>, i: int, e: StreamEntry)
    requires
        keys_unique(s),
        0 <= i < s.len(),
        e.key@ == s[i].key@,
    ensures
        entries_map(s.update(i, e)) == entries_map(s).insert(e.key@, e.events@),
    decreases s.len(),
{
    let s2 = s.update(i, e);
    if i == s.len() - 1 {
        assert(s2.drop_last() =~= s.drop_last());
        assert(s2.last() == e);
        assert(entries_map(s.drop_last()).insert(s[i].key@, s[i].events@).insert(
            e.key@,
            e.events@,
        ) =~= entries_map(s.drop_last()).insert(e.key@, e.events@));
    } else {
        let t = s.drop_last();
        assert forall|a: int, b: int| 0 <= a < b < t.len() implies (#[trigger] t[a]).key@ != (
        #[trigger] t[b]).key@ by {
            assert(t[a] == s[a]);
            assert(t[b] == s[b]);
        }
        assert(t[i] == s[i]);
        lemma_entries_update(t, i, e);
        assert(s2.drop_last() =~= t.update(i, e));
        assert(s2.last() == s.last());
        assert(s.last().key@ != e.key@);
        assert(entries_map(t).insert(e.key@, e.events@).insert(
            s.last().key@,
            s.last().events@,
        ) =~= entries_map(t).insert(s.last().key@, s.last().events@).insert(e.key@, e.events@));
    }
}

fn with_sequence_exec(event: InventoryEvents, n: i32) -> (r: InventoryEvents)
    ensures
        r == event.with_sequence(n),
{
    match event {
        InventoryEvents::ProductSold { sku, qty, .. } => (InventoryEvents::ProductSold {
            sku,
            qty,
            id: Some(n),
        }),
        InventoryEvents::ProductAdded { sku, qty, .. } => (InventoryEvents::ProductAdded {
            sku,
            qty,
            id: Some(n),
        }),
    }
}

impl InMemory {
    pub fn new() -> (r: Self)
        ensures
            r.inv(),
            r.streams() == Map::<Seq<char>, Seq<InventoryEvents>>::empty(),
            valid_streams(r.streams()),
    {
        Self { events: Vec::new() }
    }

    fn find_index(&self, key: &String) -> (r: Option<usize>)
        ensures
            r matches Some(i) ==> i < self.events@.len() && self.events@[i as int].key@ == key@,
            r is None ==> forall|i: int|
                0 <= i < self.events@.len() ==> (#[trigger] self.events@[i]).key@ != key@,
    {
        let n = self.events.len();
        let mut i: usize = 0;
        while i < n
            invariant
                i <= n,
                n == self.events@.len(),
                forall|j: int| 0 <= j < i ==> (#[trigger] self.events@[j]).key@ != key@,
            decreases n - i,
        {
            if self.events[i].key == *key {
                return Some(i);
            }
            i = i + 1;
        }
        None
    }
}

impl Default for InMemory {
    fn default() -> (r: Self)
        ensures
            r.inv(),
            r.streams() == Map::<Seq<char>, Seq<InventoryEvents>>::empty(),
            valid_streams(r.streams()),
    {
        Self::new()
    }
}

impl EventStorage for InMemory {
    closed spec fn streams(&self) -> Map<Seq<char>, Seq<InventoryEvents>> {
        entries_map(self.events@)
    }

    closed spec fn inv(&self) -> bool {
        keys_unique(self.events@)
    }

    fn add_event(&mut self, key: &str, event: InventoryEvents) -> (r: Result<(), StoreError>)
        ensures
            !old(self).streams().contains_key(key@) ==> r is Ok,
            old(self).streams().contains_key(key@) && old(self).streams()[key@].len()
                < i32::MAX as int ==> r is Ok,
    {
        let ghost old_entries = self.events@;
        let ghost old_map = entries_map(old_entries);
        let owned: String = key.to_owned();
        match self.find_index(&owned) {
            None => {
                proof {
                    lemma_entries_dom(old_entries, key@);
                    assert(!old_map.contains_key(key@));
                    assert(stream_of(old_map, key@) =~= Seq::empty());
                }
                let stored = with_sequence_exec(event, 1);
                let mut evs: Vec<InventoryEvents> = Vec::new();
                evs.push(stored);
                let entry = StreamEntry { key: owned, events: evs };
                self.events.push(entry);
                proof {
                    assert(self.events@.drop_last() =~= old_entries);
                    assert(self.events@.last().key@ == key@);
                    assert(self.events@.last().events@ =~= Seq::empty().push(
                        event.with_sequence(1),
                    ));
                    assert(entries_map(self.events@) =~= old_map.insert(
                        key@,
                        appended_stream(old_map, key@, event),
                    ));
                    assert forall|a: int, b: int|
                        0 <= a < b < self.events@.len() implies (#[trigger] self.events@[a]).key@
                        != (#[trigger] self.events@[b]).key@ by {
                        if b < self.events@.len() - 1 {
                            assert(self.events@[a] == old_entries[a]);
                            assert(self.events@[b] == old_entries[b]);
                        } else {
                            assert(self.events@[a] == old_entries[a]);
                        }
                    }
                    assert(valid_stream(key@, Seq::empty()));
                    lemma_valid_stream_append(key@, Seq::empty(), event);
                    assert forall|k: Seq<char>| #[trigger]
                        entries_map(self.events@).contains_key(k) implies valid_stream(
                        k,
                        entries_map(self.events@)[k],
                    ) && entries_map(self.events@)[k].len() >= 1 by {
                        if k != key@ {
                            assert(old_map.contains_key(k));
                        }
                    }
                }
                Ok(())
            },
            Some(i) => {
                proof {
                    lemma_entries_get(old_entries, i as int);
                    assert(old_map.contains_key(key@));
                    assert(stream_of(old_map, key@) == old_entries[i as int].events@);
                }
                if self.events[i].events.len() >= (i32::MAX as usize) {
                    return Err(StoreError::CapacityExceeded);
                }
                let n: i32 = self.events[i].events.len() as i32;
                let stored = with_sequence_exec(event, n + 1);
                let mut entry = self.events.remove(i);
                entry.events.push(stored);
                self.events.insert(i, entry);
                proof {
                    assert(self.events@ =~= old_entries.update(
                        i as int,
                        self.events@[i as int],
                    ));
                    assert(self.events@[i as int].key@ == key@);
                    assert(self.events@[i as int].events@ =~= appended_stream(
                        old_map,
                        key@,
                        event,
                    ));
                    lemma_entries_update(old_entries, i as int, self.events@[i as int]);
                    assert(entries_map(self.events@) == old_map.insert(
                        key@,
                        appended_stream(old_map, key@, event),
                    ));
                    assert forall|a: int, b: int|
                        0 <= a < b < self.events@.len() implies (#[trigger] self.events@[a]).key@
                        != (#[trigger] self.events@[b]).key@ by {
                        assert(old_entries[a].key@ != old_entries[b].key@);
                    }
                    assert(valid_stream(key@, old_entries[i as int].events@));
                    lemma_valid_stream_append(key@, old_entries[i as int].events@, event);
                    assert forall|k: Seq<char>| #[trigger]
                        entries_map(self.events@).contains_key(k) implies valid_stream(
                        k,
                        entries_map(self.events@)[k],
                    ) && entries_map(self.events@)[k].len() >= 1 by {
                        if k != key@ {
                            assert(old_map.contains_key(k));
                        }
                    }
                }
                Ok(())
            },
        }
    }

    fn stream_exists(&mut self, key: &str) -> (r: Result<bool, StoreError>)
        ensures
            r is Ok,
    {
        let owned: String = key.to_owned();
        let r = self.find_index(&owned);
        proof {
            lemma_entries_dom(self.events@, key@);
        }
        match r {
            Some(_) => Ok(true),
            None => Ok(false),
        }
    }

    fn get_events(&mut self, key: &str) -> (r: Result<Option<Vec<InventoryEvents>>, StoreError>)
        ensures
            r is Ok,
    {
        let ghost entries = self.events@;
        let owned: String = key.to_owned();
        match self.find_index(&owned) {
            None => {
                proof {
                    lemma_entries_dom(entries, key@);
                }
                Ok(None)
            },
            Some(i) => {
                let n = self.events[i].events.len();
                let mut out: Vec<InventoryEvents> = Vec::new();
                let mut j: usize = 0;
                while j < n
                    invariant
                        j <= n,
                        i < self.events@.len(),
                        self.events@ == entries,
                        n == entries[i as int].events@.len(),
                        out@ == entries[i as int].events@.take(j as int),
                    decreases n - j,
                {
                    let ev = clone_event(&self.events[i].events[j]);
                    out.push(ev);
                    proof {
                        assert(out@ =~= entries[i as int].events@.take(j as int + 1));
                    }
                    j = j + 1;
                }
                proof {
                    assert(out@ =~= entries[i as int].events@);
                    lemma_entries_get(entries, i as int);
                }
                Ok(Some(out))
            },
        }
    }
}

} // verus!
