//! The extension map of a telemetry record: measurement blocks keyed by
//! payload identifiers that are only known at run time.

use super::payload::{PayloadGimbalInfo, PayloadGimbalInfoView};
use crate::text::same_text;
use vstd::prelude::*;

verus! {

/// One entry of a [`PayloadMap`].
#[derive(Debug, PartialEq)]
pub struct PayloadEntry {
    /// Payload identifier, written `{type}-{subtype}-{gimbal index}`.
    pub key: String,
    pub info: PayloadGimbalInfo,
}

impl Clone for PayloadEntry {
    fn clone(&self) -> (copy: PayloadEntry)
        ensures
            copy.key@ == self.key@,
            copy.info@ == self.info@,
    {
        PayloadEntry { key: self.key.clone(), info: self.info.clone() }
    }
}

/// A map from payload identifiers to measurement blocks. No identifier
/// occurs twice; the order of the entries carries no meaning.
#[derive(Debug)]
pub struct PayloadMap {
    entries: Vec<PayloadEntry>,
}

/// Whether no key occurs twice among the entries.
pub open spec fn distinct_keys(entries: Seq<PayloadEntry>) -> bool {
    forall|i: int, j: int|
        0 <= i < j < entries.len() ==> (#[trigger] entries[i]).key@ != (#[trigger] entries[j]).key@
}

/// A position at which `key` stands among the entries.
pub open spec fn position_of(entries: Seq<PayloadEntry>, key: Seq<char>) -> int {
    choose|i: int| 0 <= i < entries.len() && entries[i].key@ == key
}

/// The map that a sequence of entries stands for.
pub open spec fn entries_view(entries: Seq<PayloadEntry>) -> Map<
    Seq<char>,
    PayloadGimbalInfoView,
> {
    Map::new(
        |k: Seq<char>| exists|i: int| 0 <= i < entries.len() && entries[i].key@ == k,
        |k: Seq<char>| entries[position_of(entries, k)].info@,
    )
}

/// Among entries with distinct keys, each entry is what the map holds under
/// its key.
pub proof fn lemma_entry_in_view(entries: Seq<PayloadEntry>, i: int)
    requires
        distinct_keys(entries),
        0 <= i < entries.len(),
    ensures
        entries_view(entries).contains_key(entries[i].key@),
        entries_view(entries)[entries[i].key@] == entries[i].info@,
{
    let p = position_of(entries, entries[i].key@);
    if p < i {
        assert(entries[p].key@ != entries[i].key@);
    } else if i < p {
        assert(entries[i].key@ != entries[p].key@);
    }
}

/// An entry with a new key, added at the end, adds its key to the map.
pub proof fn lemma_entries_view_push(entries: Seq<PayloadEntry>, entry: PayloadEntry)
    requires
        distinct_keys(entries),
        !entries_view(entries).contains_key(entry.key@),
    ensures
        distinct_keys(entries.push(entry)),
        entries_view(entries.push(entry)) == entries_view(entries).insert(entry.key@, entry.info@),
{
    let longer = entries.push(entry);
    let n = entries.len() as int;
    assert forall|i: int, j: int| 0 <= i < j < longer.len() implies (#[trigger] longer[i]).key@
        != (#[trigger] longer[j]).key@ by {
        if j == n {
            assert(entries[i].key@ == longer[i].key@);
        } else {
            assert(entries[i] == longer[i] && entries[j] == longer[j]);
        }
    }
    let a = entries_view(longer);
    let b = entries_view(entries).insert(entry.key@, entry.info@);
    assert forall|k: Seq<char>| a.contains_key(k) <==> b.contains_key(k) by {
        if a.contains_key(k) {
            let i = choose|i: int| 0 <= i < longer.len() && longer[i].key@ == k;
            if i < n {
                assert(entries[i].key@ == k);
            }
        }
        if b.contains_key(k) {
            if k == entry.key@ {
                assert(longer[n].key@ == k);
            } else {
                let i = choose|i: int| 0 <= i < entries.len() && entries[i].key@ == k;
                assert(longer[i].key@ == k);
            }
        }
    }
    assert forall|k: Seq<char>| a.contains_key(k) implies a[k] == b[k] by {
        let i = choose|i: int| 0 <= i < longer.len() && longer[i].key@ == k;
        lemma_entry_in_view(longer, i);
        if i < n {
            assert(entries[i] == longer[i]);
            lemma_entry_in_view(entries, i);
        }
    }
    assert(a =~= b);
}

/// An entry put in the place of another with the same key changes what the
/// map holds under that key, and nothing else.
pub proof fn lemma_entries_view_update(entries: Seq<PayloadEntry>, i: int, entry: PayloadEntry)
    requires
        distinct_keys(entries),
        0 <= i < entries.len(),
        entries[i].key@ == entry.key@,
    ensures
        distinct_keys(entries.update(i, entry)),
        entries_view(entries.update(i, entry)) == entries_view(entries).insert(
            entry.key@,
            entry.info@,
        ),
{
    let changed = entries.update(i, entry);
    assert forall|x: int, y: int| 0 <= x < y < changed.len() implies (#[trigger] changed[x]).key@
        != (#[trigger] changed[y]).key@ by {
        assert(changed[x].key@ == entries[x].key@);
        assert(changed[y].key@ == entries[y].key@);
    }
    let a = entries_view(changed);
    let b = entries_view(entries).insert(entry.key@, entry.info@);
    assert forall|k: Seq<char>| a.contains_key(k) <==> b.contains_key(k) by {
        if a.contains_key(k) {
            let x = choose|x: int| 0 <= x < changed.len() && changed[x].key@ == k;
            assert(entries[x].key@ == k);
        }
        if b.contains_key(k) {
            if k == entry.key@ {
                assert(changed[i].key@ == k);
            } else {
                let x = choose|x: int| 0 <= x < entries.len() && entries[x].key@ == k;
                assert(changed[x].key@ == k);
            }
        }
    }
    assert forall|k: Seq<char>| a.contains_key(k) implies a[k] == b[k] by {
        let x = choose|x: int| 0 <= x < changed.len() && changed[x].key@ == k;
        lemma_entry_in_view(changed, x);
        if x != i {
            assert(entries[x] == changed[x]);
            lemma_entry_in_view(entries, x);
        }
    }
    assert(a =~= b);
}

/// Entries that agree key by key and block by block stand for the same map,
/// and their keys are distinct together.
pub proof fn lemma_entries_view_same(left: Seq<PayloadEntry>, right: Seq<PayloadEntry>)
    requires
        distinct_keys(right),
        left.len() == right.len(),
        forall|i: int|
            0 <= i < left.len() ==> (#[trigger] left[i]).key@ == right[i].key@ && left[i].info@
                == right[i].info@,
    ensures
        distinct_keys(left),
        entries_view(left) == entries_view(right),
{
    assert forall|x: int, y: int| 0 <= x < y < left.len() implies (#[trigger] left[x]).key@ != (
    #[trigger] left[y]).key@ by {
        assert(right[x].key@ != right[y].key@);
    }
    let a = entries_view(left);
    let b = entries_view(right);
    assert forall|k: Seq<char>| a.contains_key(k) <==> b.contains_key(k) by {
        if a.contains_key(k) {
            let x = choose|x: int| 0 <= x < left.len() && left[x].key@ == k;
            assert(right[x].key@ == k);
        }
        if b.contains_key(k) {
            let x = choose|x: int| 0 <= x < right.len() && right[x].key@ == k;
            assert(left[x].key@ == k);
        }
    }
    assert forall|k: Seq<char>| a.contains_key(k) implies a[k] == b[k] by {
        let x = choose|x: int| 0 <= x < left.len() && left[x].key@ == k;
        lemma_entry_in_view(left, x);
        lemma_entry_in_view(right, x);
    }
    assert(a =~= b);
}

/// Entries with distinct keys stand for a map with as many keys.
pub proof fn lemma_entries_view_len(entries: Seq<PayloadEntry>)
    requires
        distinct_keys(entries),
    ensures
        entries_view(entries).dom().finite(),
        entries_view(entries).dom().len() == entries.len(),
    decreases entries.len(),
{
    if entries.len() == 0 {
        assert(entries_view(entries).dom() =~= Set::<Seq<char>>::empty());
    } else {
        let front = entries.drop_last();
        let last = entries.last();
        assert(distinct_keys(front)) by {
            assert forall|i: int, j: int| 0 <= i < j < front.len() implies (
            #[trigger] front[i]).key@ != (#[trigger] front[j]).key@ by {
                assert(front[i] == entries[i] && front[j] == entries[j]);
            }
        }
        lemma_entries_view_len(front);
        assert(!entries_view(front).contains_key(last.key@)) by {
            if entries_view(front).contains_key(last.key@) {
                let i = choose|i: int| 0 <= i < front.len() && front[i].key@ == last.key@;
                assert(entries[i].key@ == front[i].key@);
                assert(entries[entries.len() - 1].key@ == last.key@);
            }
        }
        lemma_entries_view_push(front, last);
        assert(front.push(last) =~= entries);
        assert(entries_view(entries).dom() =~= entries_view(front).dom().insert(last.key@));
    }
}

impl View for PayloadMap {
    type V = Map<Seq<char>, PayloadGimbalInfoView>;

    closed spec fn view(&self) -> Map<Seq<char>, PayloadGimbalInfoView> {
        entries_view(self.entries@)
    }
}

impl Clone for PayloadMap {
    fn clone(&self) -> (copy: PayloadMap)
        ensures
            copy@ == self@,
    {
        proof {
            use_type_invariant(self);
        }
        let mut entries: Vec<PayloadEntry> = Vec::new();
        let mut i: usize = 0;
        while i < self.entries.len()
            invariant
                i <= self.entries.len(),
                entries@.len() == i,
                forall|k: int|
                    0 <= k < i ==> (#[trigger] entries@[k]).key@ == self.entries@[k].key@
                        && entries@[k].info@ == self.entries@[k].info@,
            decreases self.entries.len() - i,
        {
            entries.push(self.entries[i].clone());
            i += 1;
        }
        proof {
            lemma_entries_view_same(entries@, self.entries@);
        }
        PayloadMap { entries }
    }
}

impl PayloadMap {
    #[verifier::type_invariant]
    spec fn keys_are_distinct(self) -> bool {
        distinct_keys(self.entries@)
    }

    /// An empty map.
    pub fn new() -> (map: PayloadMap)
        ensures
            map@ == Map::<Seq<char>, PayloadGimbalInfoView>::empty(),
    {
        let map = PayloadMap { entries: Vec::new() };
        assert(map@ =~= Map::<Seq<char>, PayloadGimbalInfoView>::empty());
        map
    }

    /// The number of entries.
    pub fn len(&self) -> (n: usize)
        ensures
            self@.dom().finite(),
            n == self@.len(),
    {
        proof {
            use_type_invariant(self);
            lemma_entries_view_len(self.entries@);
        }
        self.entries.len()
    }

    /// Whether the map has no entry.
    pub fn is_empty(&self) -> (empty: bool)
        ensures
            empty == (self@ == Map::<Seq<char>, PayloadGimbalInfoView>::empty()),
    {
        proof {
            use_type_invariant(self);
            if self.entries@.len() > 0 {
                lemma_entry_in_view(self.entries@, 0);
            } else {
                assert(self@ =~= Map::<Seq<char>, PayloadGimbalInfoView>::empty());
            }
        }
        self.entries.len() == 0
    }

    /// The position of `key` among the entries, if it is there.
    fn find(&self, key: &str) -> (found: Option<usize>)
        ensures
            match found {
                Some(i) => i < self.entries@.len() && self.entries@[i as int].key@ == key@,
                None => !self@.contains_key(key@),
            },
    {
        let mut i: usize = 0;
        while i < self.entries.len()
            invariant
                i <= self.entries.len(),
                forall|j: int| 0 <= j < i ==> self.entries@[j].key@ != key@,
            decreases self.entries.len() - i,
        {
            if same_text(self.entries[i].key.as_str(), key) {
                return Some(i);
            }
            i += 1;
        }
        None
    }

    /// Whether the map has an entry for `key`.
    pub fn contains_key(&self, key: &str) -> (found: bool)
        ensures
            found == self@.contains_key(key@),
    {
        self.find(key).is_some()
    }

    /// The block stored for `key`, if there is one.
    pub fn get(&self, key: &str) -> (found: Option<&PayloadGimbalInfo>)
        ensures
            match found {
                Some(info) => self@.contains_key(key@) && self@[key@] == info@,
                None => !self@.contains_key(key@),
            },
    {
        match self.find(key) {
            Some(i) => {
                proof {
                    use_type_invariant(self);
                    lemma_entry_in_view(self.entries@, i as int);
                }
                Some(&self.entries[i].info)
            },
            None => None,
        }
    }

    /// Stores `info` for `key`, in the place of what was stored for it before.
    pub fn insert(&mut self, key: String, info: PayloadGimbalInfo)
        ensures
            final(self)@ == old(self)@.insert(key@, info@),
    {
        let place = self.find(key.as_str());
        let mut taken = PayloadMap::new();
        core::mem::swap(self, &mut taken);
        proof {
            use_type_invariant(&taken);
        }
        let mut entries = taken.entries;
        match place {
            Some(i) => {
                proof {
                    lemma_entries_view_update(entries@, i as int, PayloadEntry { key, info });
                }
                entries[i] = PayloadEntry { key, info };
            },
            None => {
                proof {
                    lemma_entries_view_push(entries@, PayloadEntry { key, info });
                }
                entries.push(PayloadEntry { key, info });
            },
        }
        *self = PayloadMap { entries };
    }

    /// The entries, each key once, in no particular order.
    pub fn entries(&self) -> (entries: &Vec<PayloadEntry>)
        ensures
            distinct_keys(entries@),
            entries_view(entries@) == self@,
    {
        proof {
            use_type_invariant(self);
        }
        &self.entries
    }
}

} // verus!
