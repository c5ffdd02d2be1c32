//! The in-memory store of responses, keyed by request URL.

use chrono::{NaiveDateTime, Utc};
use http::HeaderMap;
use std::path::PathBuf;
use vstd::pervasive::VecAdditionalExecFns;
use vstd::prelude::*;
use vstd::slice::slice_to_vec;

use crate::headers::{header_fields, header_map_clone};

verus! {

#[verifier::external_type_specification]
#[verifier::external_body]
pub struct ExNaiveDateTime(NaiveDateTime);

#[verifier::external_type_specification]
#[verifier::external_body]
pub struct ExPathBuf(PathBuf);

/// `Utc::now`, as a date and time in UTC: the current time, of which nothing
/// is promised.
#[verifier::external_body]
pub(crate) fn current_time() -> NaiveDateTime {
    Utc::now().naive_utc()
}

/// A stored response: its body, its headers, its status and when (in UTC) it
/// was stored.
#[derive(Debug)]
pub struct CacheEntry {
    pub content: Vec<u8>,
    pub headers: HeaderMap,
    pub status: u16,
    pub timestamp: NaiveDateTime,
}

/// A stored response as a value.
pub struct EntryView {
    pub content: Seq<u8>,
    pub headers: Map<Seq<u8>, Seq<Seq<u8>>>,
    pub status: u16,
    pub timestamp: NaiveDateTime,
}

impl View for CacheEntry {
    type V = EntryView;

    open spec fn view(&self) -> EntryView {
        EntryView {
            content: self.content@,
            headers: header_fields(self.headers),
            status: self.status,
            timestamp: self.timestamp,
        }
    }
}

impl CacheEntry {
    /// A copy of the entry, equal to it as a value.
    pub fn duplicate(&self) -> (copy: CacheEntry)
        ensures
            copy@ == self@,
    {
        CacheEntry {
            content: slice_to_vec(self.content.as_slice()),
            headers: header_map_clone(&self.headers),
            status: self.status,
            timestamp: self.timestamp,
        }
    }
}

/// No URL occurs twice among the slots.
pub open spec fn keys_distinct(slots: Seq<(String, CacheEntry)>) -> bool {
    forall|i: int, j: int| 0 <= i < j < slots.len() ==> slots[i].0@ != slots[j].0@
}

/// The slots as a map from URL to entry.
pub open spec fn slots_map(slots: Seq<(String, CacheEntry)>) -> Map<Seq<char>, EntryView>
    decreases slots.len(),
{
    if slots.len() == 0 {
        Map::empty()
    } else {
        slots_map(slots.drop_last()).insert(slots.last().0@, slots.last().1@)
    }
}

/// The sum of the body lengths in the slots.
pub open spec fn slots_total(slots: Seq<(String, CacheEntry)>) -> nat
    decreases slots.len(),
{
    if slots.len() == 0 {
        0
    } else {
        slots_total(slots.drop_last()) + slots.last().1.content@.len()
    }
}

/// `n`, or `u64::MAX` where `n` does not fit.
pub open spec fn saturate(n: nat) -> u64 {
    if n <= u64::MAX {
        n as u64
    } else {
        u64::MAX
    }
}

proof fn lemma_slots_map(slots: Seq<(String, CacheEntry)>)
    requires
        keys_distinct(slots),
    ensures
        forall|i: int|
            0 <= i < slots.len() ==> {
                &&& #[trigger] slots_map(slots).dom().contains(slots[i].0@)
                &&& slots_map(slots)[slots[i].0@] == slots[i].1@
            },
        forall|k: Seq<char>|
            #[trigger] slots_map(slots).dom().contains(k) ==> exists|i: int|
                0 <= i < slots.len() && slots[i].0@ == k,
        slots_map(slots).dom().finite(),
        slots_map(slots).dom().len() == slots.len(),
    decreases slots.len(),
{
    if slots.len() > 0 {
        let prefix = slots.drop_last();
        let n: int = slots.len() - 1;
        lemma_slots_map(prefix);
        assert forall|i: int| 0 <= i < slots.len() implies {
            &&& #[trigger] slots_map(slots).dom().contains(slots[i].0@)
            &&& slots_map(slots)[slots[i].0@] == slots[i].1@
        } by {
            if i < n {
                assert(prefix[i] == slots[i]);
            }
        }
        assert forall|k: Seq<char>| #[trigger] slots_map(slots).dom().contains(k) implies exists|i: int|
            0 <= i < slots.len() && slots[i].0@ == k by {
            if k != slots[n].0@ {
                assert(slots_map(prefix).dom().contains(k));
                let i = choose|i: int| 0 <= i < prefix.len() && prefix[i].0@ == k;
                assert(slots[i] == prefix[i]);
            }
        }
        if slots_map(prefix).dom().contains(slots[n].0@) {
            let i = choose|i: int| 0 <= i < prefix.len() && prefix[i].0@ == slots[n].0@;
            assert(slots[i] == prefix[i]);
        }
    }
}

proof fn lemma_slots_total_update(slots: Seq<(String, CacheEntry)>, i: int, x: (String, CacheEntry))
    requires
        0 <= i < slots.len(),
    ensures
        slots_total(slots.update(i, x)) + slots[i].1.content@.len() == slots_total(slots)
            + x.1.content@.len(),
    decreases slots.len(),
{
    let n: int = slots.len() - 1;
    if i == n {
        assert(slots.update(i, x).drop_last() =~= slots.drop_last());
    } else {
        assert(slots.update(i, x).drop_last() =~= slots.drop_last().update(i, x));
        lemma_slots_total_update(slots.drop_last(), i, x);
    }
}

/// Stores `entry` under `url` among distinct slots: in place of the slot for
/// that URL where there is one, as a new last slot otherwise.
fn insert_slot(urls: &mut Vec<(String, CacheEntry)>, url: String, entry: CacheEntry)
    requires
        keys_distinct(old(urls)@),
    ensures
        keys_distinct(final(urls)@),
        slots_map(final(urls)@) == slots_map(old(urls)@).insert(url@, entry@),
        slots_total(final(urls)@) + (if slots_map(old(urls)@).dom().contains(url@) {
            slots_map(old(urls)@)[url@].content.len()
        } else {
            0
        }) == slots_total(old(urls)@) + entry@.content.len(),
{
    let ghost before = urls@;
    proof {
        lemma_slots_map(before);
    }
    let mut i: usize = 0;
    while i < urls.len()
        invariant
            i <= urls.len(),
            urls@ == before,
            old(urls)@ == before,
            keys_distinct(before),
            forall|j: int| 0 <= j < i ==> before[j].0@ != url@,
        decreases urls.len() - i,
    {
        if urls[i].0 == url {
            let ghost slot = (url, entry);
            urls.set(i, (url, entry));
            proof {
                let after = urls@;
                lemma_slots_map(before);
                assert(before[i as int].0@ == url@);
                assert(after == before.update(i as int, slot));
                assert(keys_distinct(after)) by {
                    assert forall|a: int, b: int| 0 <= a < b < after.len() implies after[a].0@
                        != after[b].0@ by {
                        assert(after[i as int].0@ == before[i as int].0@);
                    }
                }
                lemma_slots_map(after);
                lemma_slots_total_update(before, i as int, slot);
                assert(slots_map(after) =~= slots_map(before).insert(slot.0@, slot.1@)) by {
                    assert forall|k: Seq<char>| #[trigger] slots_map(after).dom().contains(k)
                        implies slots_map(before).insert(slot.0@, slot.1@).dom().contains(k) by {
                        let j = choose|j: int| 0 <= j < after.len() && after[j].0@ == k;
                        if j != i {
                            assert(after[j] == before[j]);
                        }
                    }
                    assert forall|k: Seq<char>|
                        #[trigger] slots_map(before).insert(slot.0@, slot.1@).dom().contains(k)
                        implies slots_map(after).dom().contains(k) && slots_map(after)[k]
                        == slots_map(before).insert(slot.0@, slot.1@)[k] by {
                        if k == slot.0@ {
                            assert(after[i as int] == slot);
                        } else {
                            let j = choose|j: int| 0 <= j < before.len() && before[j].0@ == k;
                            assert(after[j] == before[j]);
                        }
                    }
                }
                assert(slots_map(before)[url@] == before[i as int].1@);
            }
            return;
        }
        i = i + 1;
    }
    let ghost slot = (url, entry);
    urls.push((url, entry));
    proof {
        let after = urls@;
        assert(after.drop_last() =~= before);
        assert(!slots_map(before).dom().contains(slot.0@)) by {
            if slots_map(before).dom().contains(slot.0@) {
                let j = choose|j: int| 0 <= j < before.len() && before[j].0@ == slot.0@;
            }
        }
    }
}

/// The response store: the largest body it keeps, the entries by URL (one
/// per URL), and the directory set aside for it.
pub struct DataStore {
    max_store_size: u64,
    urls: Vec<(String, CacheEntry)>,
    store: PathBuf,
}

/// A response store as a value.
pub struct StoreView {
    /// The stored entries by URL.
    pub entries: Map<Seq<char>, EntryView>,
    /// The largest body the store keeps.
    pub max_store_size: u64,
    /// The directory set aside for the store.
    pub store: PathBuf,
}

impl View for DataStore {
    type V = StoreView;

    closed spec fn view(&self) -> StoreView {
        StoreView {
            entries: slots_map(self.urls@),
            max_store_size: self.max_store_size,
            store: self.store,
        }
    }
}

impl DataStore {
    /// Each URL has one entry.
    #[verifier::type_invariant]
    spec fn one_entry_per_url(&self) -> bool {
        keys_distinct(self.urls@)
    }

    /// The sum of the body lengths of the stored entries.
    pub closed spec fn spec_total_size(&self) -> nat {
        slots_total(self.urls@)
    }

    /// An empty store.
    pub fn new(max_store_size: u64, store: PathBuf) -> (s: Self)
        ensures
            s@.entries == Map::<Seq<char>, EntryView>::empty(),
            s@.max_store_size == max_store_size,
            s@.store == store,
            s.spec_total_size() == 0,
    {
        let s = DataStore { max_store_size, urls: Vec::new(), store };
        assert(slots_map(s.urls@) =~= Map::<Seq<char>, EntryView>::empty());
        s
    }

    /// The largest body the store keeps.
    pub fn max_store_size(&self) -> (max: u64)
        ensures
            max == self@.max_store_size,
    {
        self.max_store_size
    }

    /// The directory set aside for the store.
    pub fn store(&self) -> (dir: &PathBuf)
        ensures
            *dir == self@.store,
    {
        &self.store
    }

    /// A copy of the entry stored under `url`, if there is one.
    pub fn get(&self, url: &str) -> (found: Option<CacheEntry>)
        ensures
            match found {
                Some(entry) => self@.entries.dom().contains(url@) && entry@ == self@.entries[url@],
                None => !self@.entries.dom().contains(url@),
            },
    {
        proof {
            use_type_invariant(self);
            lemma_slots_map(self.urls@);
        }
        let key = url.to_string();
        let mut i: usize = 0;
        while i < self.urls.len()
            invariant
                i <= self.urls.len(),
                keys_distinct(self.urls@),
                key@ == url@,
                forall|j: int| 0 <= j < i ==> self.urls@[j].0@ != url@,
            decreases self.urls.len() - i,
        {
            if self.urls[i].0 == key {
                proof {
                    lemma_slots_map(self.urls@);
                    assert(self.urls@[i as int].0@ == url@);
                }
                return Some(self.urls[i].1.duplicate());
            }
            i = i + 1;
        }
        proof {
            lemma_slots_map(self.urls@);
            if self@.entries.dom().contains(url@) {
                let j = choose|j: int| 0 <= j < self.urls@.len() && self.urls@[j].0@ == url@;
            }
        }
        None
    }

    /// Stores `entry` under `url`, in place of what was stored there.
    pub fn insert(&mut self, url: String, entry: CacheEntry)
        ensures
            final(self)@.entries == old(self)@.entries.insert(url@, entry@),
            final(self)@.max_store_size == old(self)@.max_store_size,
            final(self)@.store == old(self)@.store,
            final(self).spec_total_size() + (if old(self)@.entries.dom().contains(url@) {
                old(self)@.entries[url@].content.len()
            } else {
                0
            }) == old(self).spec_total_size() + entry@.content.len(),
    {
        proof {
            use_type_invariant(&*self);
        }
        let mut urls: Vec<(String, CacheEntry)> = Vec::new();
        std::mem::swap(&mut urls, &mut self.urls);
        insert_slot(&mut urls, url, entry);
        self.urls = urls;
    }

    /// The sum of the body lengths of the stored entries, or `u64::MAX` where
    /// it does not fit.
    pub fn total_size(&self) -> (total: u64)
        ensures
            total == saturate(self.spec_total_size()),
    {
        let mut total: u64 = 0;
        let mut i: usize = 0;
        while i < self.urls.len()
            invariant
                i <= self.urls.len(),
                total == saturate(slots_total(self.urls@.take(i as int))),
            decreases self.urls.len() - i,
        {
            assert(self.urls@.take(i + 1).drop_last() =~= self.urls@.take(i as int));
            let len: u64 = self.urls[i].1.content.len() as u64;
            if total > u64::MAX - len {
                total = u64::MAX;
            } else {
                total = total + len;
            }
            i = i + 1;
        }
        assert(self.urls@.take(self.urls.len() as int) =~= self.urls@);
        total
    }

    /// The number of stored entries.
    pub fn len(&self) -> (n: usize)
        ensures
            self@.entries.dom().finite(),
            n == self@.entries.dom().len(),
    {
        proof {
            use_type_invariant(self);
            lemma_slots_map(self.urls@);
        }
        self.urls.len()
    }

    /// Whether the store holds no entry.
    pub fn is_empty(&self) -> (empty: bool)
        ensures
            empty == (self@.entries == Map::<Seq<char>, EntryView>::empty()),
    {
        proof {
            use_type_invariant(self);
            lemma_slots_map(self.urls@);
            if self@.entries == Map::<Seq<char>, EntryView>::empty() {
                assert(self@.entries.dom() =~= Set::<Seq<char>>::empty());
            }
            if self.urls@.len() > 0 {
                assert(self@.entries.dom().contains(self.urls@[0].0@));
            }
        }
        self.urls.len() == 0
    }
}

/// What a store holds after storing `entry` under `url`: that entry under
/// that URL, and under every other URL what it held before.
pub proof fn read_after_write(before: DataStore, after: DataStore, url: Seq<char>, entry: EntryView, other: Seq<char>)
    requires
        after@.entries == before@.entries.insert(url, entry),
    ensures
        after@.entries.dom().contains(url),
        after@.entries[url] == entry,
        other != url ==> after@.entries.dom().contains(other) == before@.entries.dom().contains(other),
        other != url && before@.entries.dom().contains(other) ==> after@.entries[other]
            == before@.entries[other],
{
}

/// Storing under a URL twice keeps only the second entry.
pub proof fn later_write_wins(before: DataStore, after: DataStore, url: Seq<char>, first: EntryView, second: EntryView)
    requires
        after@.entries == before@.entries.insert(url, first).insert(url, second),
    ensures
        after@.entries == before@.entries.insert(url, second),
{
    assert(after@.entries =~= before@.entries.insert(url, second));
}

} // verus!
