//! The table of municipality records by key.

use crate::municd::record::{MuniCdRecord, MuniCdRecordView};
use vstd::hash_map::StringHashMap;
use vstd::prelude::*;

verus! {

/// The table: municipality records by key. No key occurs twice, and a record
/// filed under a key that is taken replaces the earlier one.
pub struct MuniCdMap {
    map: StringHashMap<MuniCdRecord>,
    keys: Vec<String>,
}

impl View for MuniCdMap {
    type V = Map<Seq<char>, MuniCdRecordView>;

    closed spec fn view(&self) -> Map<Seq<char>, MuniCdRecordView> {
        self.map@.map_values(|r: MuniCdRecord| r@)
    }
}

/// Whether `key` is among `keys`.
pub open spec fn has_key(keys: Seq<String>, key: Seq<char>) -> bool {
    exists|i: int| 0 <= i < keys.len() && #[trigger] keys[i]@ == key
}

/// Whether `key` is the key of one of `entries`.
pub open spec fn has_entry(entries: Seq<(String, MuniCdRecord)>, key: Seq<char>) -> bool {
    exists|i: int| 0 <= i < entries.len() && (#[trigger] entries[i]).0@ == key
}

/// Whether `entries` lists the mappings of `table`: each once, and no other.
pub open spec fn lists(
    entries: Seq<(String, MuniCdRecord)>,
    table: Map<Seq<char>, MuniCdRecordView>,
) -> bool {
    &&& forall|i: int|
        0 <= i < entries.len() ==> table.contains_key((#[trigger] entries[i]).0@)
            && table[entries[i].0@] == entries[i].1@
    &&& forall|k: Seq<char>| table.contains_key(k) ==> has_entry(entries, k)
    &&& forall|i: int, j: int|
        0 <= i < j < entries.len() ==> (#[trigger] entries[i]).0@ != (#[trigger] entries[j]).0@
}

/// A list of mappings, as mathematical values.
pub open spec fn entry_views(entries: Seq<(String, MuniCdRecord)>) -> Seq<
    (Seq<char>, MuniCdRecordView),
> {
    entries.map_values(|e: (String, MuniCdRecord)| (e.0@, e.1@))
}

/// The table that holds the mappings of a list, a later one in place of an
/// earlier one with the same key.
pub open spec fn table_of(entries: Seq<(Seq<char>, MuniCdRecordView)>) -> Map<
    Seq<char>,
    MuniCdRecordView,
>
    decreases entries.len(),
{
    if entries.len() == 0 {
        Map::empty()
    } else {
        table_of(entries.drop_last()).insert(entries.last().0, entries.last().1)
    }
}

impl MuniCdMap {
    /// `keys` holds the keys of `map`, each once.
    #[verifier::type_invariant]
    spec fn keys_are_listed(self) -> bool {
        &&& forall|i: int|
            0 <= i < self.keys@.len() ==> self.map@.contains_key(#[trigger] self.keys@[i]@)
        &&& forall|k: Seq<char>| self.map@.contains_key(k) ==> has_key(self.keys@, k)
        &&& forall|i: int, j: int|
            0 <= i < j < self.keys@.len() ==> self.keys@[i]@ != self.keys@[j]@
    }

    /// The empty table.
    pub fn new() -> (r: Self)
        ensures
            r@ == Map::<Seq<char>, MuniCdRecordView>::empty(),
    {
        let r = MuniCdMap { map: StringHashMap::new(), keys: Vec::new() };
        r
    }

    /// The table that holds the mappings of `entries`, a later one in place
    /// of an earlier one with the same key.
    pub fn from_entries(entries: &Vec<(String, MuniCdRecord)>) -> (r: Self)
        ensures
            r@ == table_of(entry_views(entries@)),
    {
        let mut table = MuniCdMap::new();
        let mut i: usize = 0;
        while i < entries.len()
            invariant
                i <= entries.len(),
                table@ == table_of(entry_views(entries@).take(i as int)),
            decreases entries.len() - i,
        {
            proof {
                let views = entry_views(entries@);
                assert(views.take(i + 1).drop_last() == views.take(i as int));
            }
            table.insert(entries[i].0.clone(), entries[i].1.clone());
            i += 1;
        }
        assert(entry_views(entries@).take(i as int) == entry_views(entries@));
        table
    }

    /// Files `record` under `key`, in place of any record that was there.
    pub fn insert(&mut self, key: String, record: MuniCdRecord)
        ensures
            final(self)@ == old(self)@.insert(key@, record@),
    {
        let mut taken = MuniCdMap::new();
        core::mem::swap(self, &mut taken);
        proof {
            use_type_invariant(&taken);
        }
        let MuniCdMap { mut map, mut keys } = taken;
        let ghost old_map = map@;
        let ghost old_keys = keys@;
        if !map.contains_key(key.as_str()) {
            keys.push(key.clone());
        }
        map.insert(key, record);
        proof {
            assert forall|k: Seq<char>| map@.contains_key(k) implies has_key(keys@, k) by {
                if old_map.contains_key(k) {
                    assert(has_key(old_keys, k));
                    let i = choose|i: int| 0 <= i < old_keys.len() && #[trigger] old_keys[i]@ == k;
                    assert(keys@[i]@ == k);
                } else {
                    assert(keys@[old_keys.len() as int]@ == k);
                }
            }
        }
        *self = MuniCdMap { map, keys };
    }

    /// The record filed under `key`, if there is one.
    pub fn get(&self, key: &str) -> (r: Option<&MuniCdRecord>)
        ensures
            match r {
                Some(record) => self@.contains_key(key@) && self@[key@] == record@,
                None => !self@.contains_key(key@),
            },
    {
        self.map.get(key)
    }

    /// The number of records.
    pub fn len(&self) -> (r: usize)
        ensures
            r == self@.len(),
    {
        proof {
            use_type_invariant(self);
            lemma_listed_keys_count(self.keys@, self.map@.dom());
            assert(self@.dom() == self.map@.dom());
        }
        self.keys.len()
    }

    /// The mappings of the table, each once.
    pub fn entries(&self) -> (r: Vec<(String, MuniCdRecord)>)
        ensures
            lists(r@, self@),
    {
        proof {
            use_type_invariant(self);
        }
        let mut out: Vec<(String, MuniCdRecord)> = Vec::new();
        let mut i: usize = 0;
        while i < self.keys.len()
            invariant
                i <= self.keys@.len(),
                self.keys_are_listed(),
                out@.len() == i,
                forall|j: int|
                    0 <= j < i ==> (#[trigger] out@[j]).0@ == self.keys@[j]@ && out@[j].1@
                        == self@[self.keys@[j]@],
            decreases self.keys@.len() - i,
        {
            let key = self.keys[i].clone();
            let record = match self.map.get(key.as_str()) {
                Some(record) => record.clone(),
                // Not reached: every listed key is filed.
                None => return out,
            };
            out.push((key, record));
            i += 1;
        }
        proof {
            assert forall|k: Seq<char>| self@.contains_key(k) implies has_entry(out@, k) by {
                assert(has_key(self.keys@, k));
                let j = choose|j: int| 0 <= j < self.keys@.len() && #[trigger] self.keys@[j]@ == k;
                assert(out@[j].0@ == k);
            }
        }
        out
    }
}

/// A table rebuilt from a list of its mappings is the same table: what
/// `entries` hands out, `from_entries` puts together again.
pub proof fn lemma_entries_rebuild_table(
    entries: Seq<(String, MuniCdRecord)>,
    table: Map<Seq<char>, MuniCdRecordView>,
)
    requires
        lists(entries, table),
    ensures
        table_of(entry_views(entries)) == table,
    decreases entries.len(),
{
    let views = entry_views(entries);
    if entries.len() == 0 {
        assert forall|k: Seq<char>| !table.contains_key(k) by {
            if table.contains_key(k) {
                assert(has_entry(entries, k));
            }
        }
    } else {
        let rest = entries.drop_last();
        let last = entries.last();
        let smaller = table.remove(last.0@);
        assert forall|k: Seq<char>| smaller.contains_key(k) implies has_entry(rest, k) by {
            assert(has_entry(entries, k));
            let i = choose|i: int| 0 <= i < entries.len() && (#[trigger] entries[i]).0@ == k;
            assert(rest[i].0@ == k);
        }
        assert(lists(rest, smaller));
        lemma_entries_rebuild_table(rest, smaller);
        assert(views.drop_last() == entry_views(rest));
    }
}

/// A list of distinct keys that covers a set exactly has as many items as
/// the set has elements.
proof fn lemma_listed_keys_count(keys: Seq<String>, dom: Set<Seq<char>>)
    requires
        forall|i: int| 0 <= i < keys.len() ==> dom.contains(#[trigger] keys[i]@),
        forall|k: Seq<char>| dom.contains(k) ==> has_key(keys, k),
        forall|i: int, j: int| 0 <= i < j < keys.len() ==> keys[i]@ != keys[j]@,
    ensures
        dom.finite(),
        dom.len() == keys.len(),
    decreases keys.len(),
{
    if keys.len() == 0 {
        assert(dom == Set::<Seq<char>>::empty());
    } else {
        let last = keys.last()@;
        let rest = keys.drop_last();
        let smaller = dom.remove(last);
        assert forall|k: Seq<char>| smaller.contains(k) implies has_key(rest, k) by {
            let i = choose|i: int| 0 <= i < keys.len() && #[trigger] keys[i]@ == k;
            assert(rest[i]@ == k);
        }
        lemma_listed_keys_count(rest, smaller);
    }
}

} // verus!
