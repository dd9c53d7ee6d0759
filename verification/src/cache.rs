//! The cache of item records that a deployment keeps between runs.
//!
//! The cache maps item keys to records and holds the address of the
//! collection mint once there is one. Loading and persisting it is the
//! driver's business; this module is the record keeping.

use vstd::prelude::*;
use vstd::string::*;

verus! {

/// The record of one item: its name, where its off-ledger metadata lies, and
/// whether it has been created on the ledger.
#[derive(Clone, Debug, PartialEq, Eq)]
pub struct CacheItem {
    pub name: String,
    pub metadata_link: String,
    pub on_chain: bool,
}

/// The mathematical view of a `CacheItem`.
pub struct CacheItemView {
    pub name: Seq<char>,
    pub metadata_link: Seq<char>,
    pub on_chain: bool,
}

impl View for CacheItem {
    type V = CacheItemView;

    open spec fn view(&self) -> CacheItemView {
        CacheItemView {
            name: self.name@,
            metadata_link: self.metadata_link@,
            on_chain: self.on_chain,
        }
    }
}

impl CacheItem {
    /// A record that is not yet on the ledger.
    pub fn new(name: String, metadata_link: String) -> (item: CacheItem)
        ensures
            item@ == (CacheItemView {
                name: name@,
                metadata_link: metadata_link@,
                on_chain: false,
            }),
    {
        CacheItem { name, metadata_link, on_chain: false }
    }
}

/// One entry of the cache: a key and its record.
struct CacheEntry {
    key: String,
    item: CacheItem,
}

/// The mathematical view of a `Cache`: the records by key, and the address
/// of the collection mint in base 58 (empty while there is none).
pub struct CacheView {
    pub items: Map<Seq<char>, CacheItemView>,
    pub collection_mint: Seq<char>,
}

/// The key under which the cache holds the record of the collection itself.
pub open spec fn collection_key() -> Seq<char> {
    "-1"@
}

/// Whether some entry has the key.
spec fn has_key(entries: Seq<CacheEntry>, key: Seq<char>) -> bool {
    exists|i: int| 0 <= i < entries.len() && (#[trigger] entries[i]).key@ == key
}

/// The position of the entry with the key, where there is one.
spec fn position(entries: Seq<CacheEntry>, key: Seq<char>) -> int {
    choose|i: int| 0 <= i < entries.len() && (#[trigger] entries[i]).key@ == key
}

/// No key occurs twice.
spec fn distinct_keys(entries: Seq<CacheEntry>) -> bool {
    forall|i: int, j: int|
        0 <= i < j < entries.len() ==> (#[trigger] entries[i]).key@ != (#[trigger] entries[j]).key@
}

/// The records by key.
spec fn records(entries: Seq<CacheEntry>) -> Map<Seq<char>, CacheItemView> {
    Map::new(
        |key: Seq<char>| has_key(entries, key),
        |key: Seq<char>| entries[position(entries, key)].item@,
    )
}

/// The cache: item records by key, in the order in which their keys were
/// first inserted, and the collection mint's address. No key occurs twice.
pub struct Cache {
    collection_mint: String,
    entries: Vec<CacheEntry>,
}

impl View for Cache {
    type V = CacheView;

    closed spec fn view(&self) -> CacheView {
        CacheView { items: records(self.entries@), collection_mint: self.collection_mint@ }
    }
}

impl Cache {
    #[verifier::type_invariant]
    spec fn well_formed(self) -> bool {
        distinct_keys(self.entries@)
    }

    /// An empty cache.
    pub fn new() -> (cache: Cache)
        ensures
            cache@.items == Map::<Seq<char>, CacheItemView>::empty(),
            cache@.collection_mint == Seq::<char>::empty(),
    {
        let cache = Cache { collection_mint: String::new(), entries: Vec::new() };
        assert(cache@.items =~= Map::<Seq<char>, CacheItemView>::empty());
        cache
    }

    /// The position of the entry with the key.
    fn find(&self, key: &String) -> (res: Option<usize>)
        ensures
            res matches Some(i) ==> i < self.entries.len() && self.entries[i as int].key@ == key@,
            res is None ==> !has_key(self.entries@, key@),
    {
        let mut i: usize = 0;
        while i < self.entries.len()
            invariant
                i <= self.entries.len(),
                forall|j: int| 0 <= j < i ==> (#[trigger] self.entries[j]).key@ != key@,
            decreases self.entries.len() - i,
        {
            if self.entries[i].key == *key {
                return Some(i);
            }
            i += 1;
        }
        None
    }

    /// Whether the cache holds a record under the key.
    pub fn contains_key(&self, key: &String) -> (found: bool)
        ensures
            found == self@.items.contains_key(key@),
    {
        self.find(key).is_some()
    }

    /// The record under the key.
    pub fn get(&self, key: &String) -> (res: Option<&CacheItem>)
        ensures
            res matches Some(item) ==> self@.items.contains_key(key@) && item@
                == self@.items[key@],
            res is None ==> !self@.items.contains_key(key@),
    {
        proof {
            use_type_invariant(self);
        }
        match self.find(key) {
            Some(i) => {
                assert(has_key(self.entries@, key@));
                Some(&self.entries[i].item)
            },
            None => None,
        }
    }

    /// The number of records.
    pub fn len(&self) -> (n: usize)
        ensures
            n == self@.items.len(),
            self@.items.dom().finite(),
    {
        proof {
            use_type_invariant(self);
            lemma_records_len(self.entries@);
        }
        self.entries.len()
    }

    /// The address of the collection mint in base 58, empty while there is
    /// none.
    pub fn collection_mint(&self) -> (mint: &String)
        ensures
            mint@ == self@.collection_mint,
    {
        &self.collection_mint
    }

    /// Records the address of the collection mint.
    pub fn set_collection_mint(&mut self, mint: String)
        ensures
            final(self)@.collection_mint == mint@,
            final(self)@.items == old(self)@.items,
    {
        proof {
            use_type_invariant(&*self);
        }
        self.collection_mint = mint;
    }

    /// Puts a record under the key, in place of the one that was there.
    pub fn insert(&mut self, key: String, item: CacheItem)
        ensures
            final(self)@.items == old(self)@.items.insert(key@, item@),
            final(self)@.collection_mint == old(self)@.collection_mint,
    {
        proof {
            use_type_invariant(&*self);
        }
        let ghost before = self.entries@;
        match self.find(&key) {
            Some(i) => {
                let mut entries: Vec<CacheEntry> = Vec::new();
                std::mem::swap(&mut self.entries, &mut entries);
                entries[i] = CacheEntry { key, item };
                proof {
                    lemma_records_after_replace(before, entries@, i as int);
                }
                self.entries = entries;
            },
            None => {
                let mut entries: Vec<CacheEntry> = Vec::new();
                std::mem::swap(&mut self.entries, &mut entries);
                entries.push(CacheEntry { key, item });
                proof {
                    lemma_records_after_push(before, entries@);
                }
                self.entries = entries;
            },
        }
    }

    /// Sets the on-ledger flag of the record under the key. Returns whether
    /// there is such a record; the cache is unchanged where there is none.
    pub fn set_on_chain(&mut self, key: &String, on_chain: bool) -> (found: bool)
        ensures
            found == old(self)@.items.contains_key(key@),
            found ==> final(self)@.items == old(self)@.items.insert(
                key@,
                (CacheItemView {
                    name: old(self)@.items[key@].name,
                    metadata_link: old(self)@.items[key@].metadata_link,
                    on_chain,
                }),
            ),
            !found ==> final(self)@.items == old(self)@.items,
            final(self)@.collection_mint == old(self)@.collection_mint,
    {
        proof {
            use_type_invariant(&*self);
        }
        let ghost before = self.entries@;
        match self.find(key) {
            Some(i) => {
                assert(has_key(before, key@));
                let mut entries: Vec<CacheEntry> = Vec::new();
                std::mem::swap(&mut self.entries, &mut entries);
                entries[i].item.on_chain = on_chain;
                proof {
                    lemma_records_after_replace(before, entries@, i as int);
                }
                self.entries = entries;
                true
            },
            None => false,
        }
    }

    /// The keys, in the order in which they were first inserted.
    pub fn keys(&self) -> (keys: Vec<String>)
        ensures
            keys.len() == self@.items.len(),
            forall|i: int| 0 <= i < keys.len() ==> self@.items.contains_key(#[trigger] keys[i]@),
            forall|key: Seq<char>|
                self@.items.contains_key(key) ==> exists|i: int|
                    0 <= i < keys.len() && #[trigger] keys[i]@ == key,
            forall|i: int, j: int| 0 <= i < j < keys.len() ==> keys[i]@ != keys[j]@,
    {
        proof {
            use_type_invariant(self);
            lemma_records_len(self.entries@);
        }
        let mut keys: Vec<String> = Vec::new();
        let mut i: usize = 0;
        while i < self.entries.len()
            invariant
                i <= self.entries.len(),
                keys.len() == i,
                forall|j: int| 0 <= j < i ==> (#[trigger] keys[j])@ == self.entries[j].key@,
            decreases self.entries.len() - i,
        {
            keys.push(self.entries[i].key.clone());
            i += 1;
        }
        assert forall|key: Seq<char>| self@.items.contains_key(key) implies exists|i: int|
            0 <= i < keys.len() && #[trigger] keys[i]@ == key by {
            let p = position(self.entries@, key);
            assert(keys[p]@ == key);
        }
        keys
    }
}

/// With distinct keys there are as many records as entries.
proof fn lemma_records_len(entries: Seq<CacheEntry>)
    requires
        distinct_keys(entries),
    ensures
        records(entries).dom().finite(),
        records(entries).len() == entries.len(),
    decreases entries.len(),
{
    if entries.len() == 0 {
        assert(records(entries).dom() =~= Set::<Seq<char>>::empty());
    } else {
        let front = entries.drop_last();
        let last = entries.last();
        lemma_records_len(front);
        assert forall|key: Seq<char>| has_key(entries, key) <==> (has_key(front, key) || key
            == last.key@) by {
            if has_key(entries, key) {
                let i = position(entries, key);
                if i < front.len() {
                    assert(front[i].key@ == key);
                }
            }
            if has_key(front, key) {
                let i = position(front, key);
                assert(entries[i].key@ == key);
            }
            if key == last.key@ {
                assert(entries[entries.len() - 1].key@ == key);
            }
        }
        assert(!has_key(front, last.key@)) by {
            if has_key(front, last.key@) {
                let i = position(front, last.key@);
                assert(entries[i].key@ == entries[entries.len() - 1].key@);
            }
        }
        assert(records(entries).dom() =~= records(front).dom().insert(last.key@));
    }
}

/// Replacing the entry at one position by one with the same key.
proof fn lemma_records_after_replace(before: Seq<CacheEntry>, after: Seq<CacheEntry>, at: int)
    requires
        distinct_keys(before),
        0 <= at < before.len(),
        after.len() == before.len(),
        after[at].key@ == before[at].key@,
        forall|i: int| 0 <= i < before.len() && i != at ==> after[i] == before[i],
    ensures
        distinct_keys(after),
        records(after) == records(before).insert(after[at].key@, after[at].item@),
{
    assert forall|i: int| 0 <= i < after.len() implies (#[trigger] after[i]).key@
        == before[i].key@ by {}
    assert forall|key: Seq<char>| has_key(after, key) == has_key(before, key) by {
        if has_key(after, key) {
            let i = position(after, key);
            assert(before[i].key@ == key);
        }
        if has_key(before, key) {
            let i = position(before, key);
            assert(after[i].key@ == key);
        }
    }
    assert(has_key(before, before[at].key@));
    assert forall|key: Seq<char>| has_key(after, key) implies position(after, key) == position(
        before,
        key,
    ) by {
        let i = position(after, key);
        let j = position(before, key);
        assert(after[j].key@ == key);
        assert(before[i].key@ == key);
    }
    assert(records(after) =~= records(before).insert(after[at].key@, after[at].item@));
}

/// Appending an entry whose key is new.
proof fn lemma_records_after_push(before: Seq<CacheEntry>, after: Seq<CacheEntry>)
    requires
        distinct_keys(before),
        after.len() == before.len() + 1,
        forall|i: int| 0 <= i < before.len() ==> after[i] == before[i],
        !has_key(before, after.last().key@),
    ensures
        distinct_keys(after),
        records(after) == records(before).insert(after.last().key@, after.last().item@),
{
    let last = after.last();
    assert forall|i: int, j: int| 0 <= i < j < after.len() implies (#[trigger] after[i]).key@ != (
    #[trigger] after[j]).key@ by {
        if j == before.len() {
            assert(before[i].key@ == after[i].key@);
        } else {
            assert(before[i].key@ == after[i].key@);
            assert(before[j].key@ == after[j].key@);
        }
    }
    assert forall|key: Seq<char>| has_key(after, key) == (has_key(before, key) || key
        == last.key@) by {
        if has_key(after, key) {
            let i = position(after, key);
            if i < before.len() {
                assert(before[i].key@ == key);
            }
        }
        if has_key(before, key) {
            let i = position(before, key);
            assert(after[i].key@ == key);
        }
        if key == last.key@ {
            assert(after[after.len() - 1].key@ == key);
        }
    }
    assert forall|key: Seq<char>| has_key(before, key) implies position(after, key) == position(
        before,
        key,
    ) by {
        let j = position(before, key);
        assert(after[j].key@ == key);
        let i = position(after, key);
        if i < before.len() {
            assert(before[i].key@ == key);
        }
    }
    assert(after[after.len() - 1].key@ == last.key@);
    assert(records(after) =~= records(before).insert(last.key@, last.item@));
}

} // verus!
