//! Key-value stores from names or addresses to addresses, as components keep
//! them on the ledger: each key holds at most one address.
use crate::address::Address;
use vstd::prelude::*;

verus! {

/// A key of a `Registry`: compared and copied by its view.
pub trait RegistryKey: View + Sized {
    fn same_key(&self, other: &Self) -> (r: bool)
        ensures
            r == (self@ == other@),
    ;

    fn dup(&self) -> (r: Self)
        ensures
            r@ == self@,
    ;
}

impl RegistryKey for String {
    fn same_key(&self, other: &Self) -> (r: bool) {
        *self == *other
    }

    fn dup(&self) -> (r: Self) {
        self.clone()
    }
}

impl RegistryKey for Address {
    fn same_key(&self, other: &Self) -> (r: bool) {
        self.same(other)
    }

    fn dup(&self) -> (r: Self) {
        self.copy()
    }
}

/// A store from keys to addresses.
pub struct Registry<K: RegistryKey> {
    pub entries: Vec<(K, Address)>,
}

/// The index of key `k` among the entries, where it occurs.
pub open spec fn entry_index<K: RegistryKey>(s: Seq<(K, Address)>, k: K::V) -> int {
    choose|i: int| 0 <= i < s.len() && s[i].0@ == k
}

/// The entries as a map.
pub open spec fn entries_map<K: RegistryKey>(s: Seq<(K, Address)>) -> Map<K::V, Seq<u8>> {
    Map::new(
        |k: K::V| exists|i: int| 0 <= i < s.len() && s[i].0@ == k,
        |k: K::V| s[entry_index(s, k)].1@,
    )
}

impl<K: RegistryKey> View for Registry<K> {
    type V = Map<K::V, Seq<u8>>;

    open spec fn view(&self) -> Map<K::V, Seq<u8>> {
        entries_map(self.entries@)
    }
}

impl<K: RegistryKey> Registry<K> {
    /// No key occurs twice.
    pub open spec fn wf(&self) -> bool {
        forall|i: int, j: int|
            0 <= i < self.entries@.len() && 0 <= j < self.entries@.len() && i != j
                ==> self.entries@[i].0@ != self.entries@[j].0@
    }

    /// The empty store.
    pub fn new() -> (r: Registry<K>)
        ensures
            r.wf(),
            r@ == Map::<K::V, Seq<u8>>::empty(),
    {
        let r = Registry { entries: Vec::new() };
        assert(r@ =~= Map::<K::V, Seq<u8>>::empty());
        r
    }

    /// Where `k` occurs among the entries.
    fn find(&self, k: &K) -> (r: Option<usize>)
        requires
            self.wf(),
        ensures
            match r {
                Some(i) => i < self.entries@.len() && self.entries@[i as int].0@ == k@
                    && self@.contains_key(k@) && entry_index(self.entries@, k@) == i,
                None => !self@.contains_key(k@),
            },
    {
        let n = self.entries.len();
        let mut i: usize = 0;
        while i < n
            invariant
                n == self.entries.len(),
                0 <= i <= n,
                self.wf(),
                forall|j: int| 0 <= j < i ==> self.entries@[j].0@ != k@,
            decreases n - i,
        {
            if self.entries[i].0.same_key(k) {
                assert(self.entries@[i as int].0@ == k@);
                assert(self@.contains_key(k@));
                return Some(i);
            }
            i += 1;
        }
        None
    }

    /// The address stored under `k`.
    pub fn get(&self, k: &K) -> (r: Option<Address>)
        requires
            self.wf(),
        ensures
            match r {
                Some(a) => self@.contains_key(k@) && a@ == self@[k@],
                None => !self@.contains_key(k@),
            },
    {
        match self.find(k) {
            Some(i) => Some(self.entries[i].1.copy()),
            None => None,
        }
    }

    /// Stores `a` under `k`, replacing what was there.
    pub fn insert(&mut self, k: K, a: Address)
        requires
            old(self).wf(),
        ensures
            final(self).wf(),
            final(self)@ == old(self)@.insert(k@, a@),
    {
        let ghost s = self.entries@;
        match self.find(&k) {
            Some(i) => {
                self.entries.set(i, (k, a));
                let ghost t = self.entries@;
                assert forall|key: K::V| #[trigger] entries_map(t).contains_key(key) == s_has(s, key) || key == t[i as int].0@ by {
                    if exists|j: int| 0 <= j < t.len() && t[j].0@ == key {
                        let j = choose|j: int| 0 <= j < t.len() && t[j].0@ == key;
                        if j != i {
                            assert(s[j].0@ == key);
                        }
                    }
                    if s_has(s, key) {
                        let j = choose|j: int| 0 <= j < s.len() && s[j].0@ == key;
                        assert(t[j].0@ == key);
                    }
                }
                assert forall|key: K::V| entries_map(t).contains_key(key) && key != t[i as int].0@
                    implies #[trigger] entries_map(t)[key] == entries_map(s)[key] by {
                    let j = entry_index(t, key);
                    assert(t[j].0@ == key);
                    assert(s[j].0@ == key);
                    assert(entry_index(s, key) == j);
                }
                assert(entries_map(t)[k@] == a@) by {
                    assert(t[i as int].0@ == k@);
                    assert(entry_index(t, k@) == i);
                }
                assert(entries_map(t) =~= entries_map(s).insert(k@, a@));
            },
            None => {
                self.entries.push((k, a));
                let ghost t = self.entries@;
                let ghost n: int = s.len() as int;
                assert forall|key: K::V| #[trigger] entries_map(t).contains_key(key) == (s_has(s, key) || key == t[n].0@) by {
                    if exists|j: int| 0 <= j < t.len() && t[j].0@ == key {
                        let j = choose|j: int| 0 <= j < t.len() && t[j].0@ == key;
                        if j != n {
                            assert(s[j].0@ == key);
                        }
                    }
                    if s_has(s, key) {
                        let j = choose|j: int| 0 <= j < s.len() && s[j].0@ == key;
                        assert(t[j].0@ == key);
                    }
                    assert(t[n].0@ == t[n].0@);
                }
                assert forall|key: K::V| entries_map(t).contains_key(key) && key != t[n].0@
                    implies #[trigger] entries_map(t)[key] == entries_map(s)[key] by {
                    let j = entry_index(t, key);
                    assert(t[j].0@ == key);
                    assert(s[j].0@ == key);
                    assert(entry_index(s, key) == j);
                }
                assert(entries_map(t)[k@] == a@) by {
                    assert(t[n].0@ == k@);
                    assert(entry_index(t, k@) == n);
                }
                assert(entries_map(t) =~= entries_map(s).insert(k@, a@));
            },
        }
    }

    /// Removes what is stored under `k`.
    pub fn remove(&mut self, k: &K)
        requires
            old(self).wf(),
        ensures
            final(self).wf(),
            final(self)@ == old(self)@.remove(k@),
    {
        let ghost s = self.entries@;
        match self.find(k) {
            Some(i) => {
                self.entries.remove(i);
                let ghost t = self.entries@;
                assert(t =~= s.remove(i as int));
                assert forall|key: K::V| #[trigger] entries_map(t).contains_key(key) == (s_has(s, key) && key != k@) by {
                    if exists|j: int| 0 <= j < t.len() && t[j].0@ == key {
                        let j = choose|j: int| 0 <= j < t.len() && t[j].0@ == key;
                        if j < i {
                            assert(s[j].0@ == key);
                        } else {
                            assert(s[j + 1].0@ == key);
                        }
                    }
                    if s_has(s, key) && key != k@ {
                        let j = choose|j: int| 0 <= j < s.len() && s[j].0@ == key;
                        if j < i {
                            assert(t[j].0@ == key);
                        } else {
                            assert(t[j - 1].0@ == key);
                        }
                    }
                }
                assert forall|key: K::V| entries_map(t).contains_key(key)
                    implies #[trigger] entries_map(t)[key] == entries_map(s)[key] by {
                    let j = entry_index(t, key);
                    assert(t[j].0@ == key);
                    if j < i {
                        assert(s[j].0@ == key);
                        assert(entry_index(s, key) == j);
                    } else {
                        assert(s[j + 1].0@ == key);
                        assert(entry_index(s, key) == j + 1);
                    }
                }
                assert(entries_map(t) =~= entries_map(s).remove(k@));
            },
            None => {
                assert(entries_map(s) =~= entries_map(s).remove(k@));
            },
        }
    }
}

/// Whether key `k` occurs among the entries.
pub open spec fn s_has<K: RegistryKey>(s: Seq<(K, Address)>, k: K::V) -> bool {
    exists|i: int| 0 <= i < s.len() && s[i].0@ == k
}

} // verus!
