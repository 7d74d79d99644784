//! A map from names to values that keeps its entries in the order in which
//! their names were first put in.

use vstd::prelude::*;
use crate::text::{before, comes_before, law_dictionary_order, same, texts};

verus! {

/// A value that can be copied without changing what it stands for.
pub trait Duplicate: View + Sized {
    /// A copy with the same contents.
    fn duplicate(&self) -> (r: Self)
        ensures
            r@ == self@,
    ;
}

/// A map whose keys are strings. No key occurs twice.
pub struct StringMap<V: Duplicate> {
    entries: Vec<(String, V)>,
}

/// Whether some entry has the key `k`.
pub closed spec fn has_key<V: Duplicate>(entries: Seq<(String, V)>, k: Seq<char>) -> bool {
    exists|i: int| 0 <= i < entries.len() && (#[trigger] entries[i]).0@ == k
}

/// The entry that has the key `k`.
pub closed spec fn entry_of<V: Duplicate>(entries: Seq<(String, V)>, k: Seq<char>) -> (String, V) {
    entries[choose|i: int| 0 <= i < entries.len() && (#[trigger] entries[i]).0@ == k]
}

/// No two entries share a key.
pub closed spec fn keys_differ<V: Duplicate>(entries: Seq<(String, V)>) -> bool {
    forall|i: int, j: int|
        0 <= i < j < entries.len() ==> (#[trigger] entries[i]).0@ != (#[trigger] entries[j]).0@
}

/// The keys in the order of the entries.
pub closed spec fn key_seq<V: Duplicate>(entries: Seq<(String, V)>) -> Seq<Seq<char>> {
    entries.map_values(|e: (String, V)| e.0@)
}

/// The map that the entries stand for.
pub closed spec fn contents<V: Duplicate>(entries: Seq<(String, V)>) -> Map<Seq<char>, V::V> {
    key_seq(entries).to_set().mk_map(|k: Seq<char>| entry_of(entries, k).1@)
}

impl<V: Duplicate> View for StringMap<V> {
    type V = Map<Seq<char>, V::V>;

    closed spec fn view(&self) -> Map<Seq<char>, V::V> {
        contents(self.entries@)
    }
}

proof fn lemma_entry<V: Duplicate>(entries: Seq<(String, V)>, i: int)
    requires
        keys_differ(entries),
        0 <= i < entries.len(),
    ensures
        contents(entries).contains_key(entries[i].0@),
        contents(entries)[entries[i].0@] == entries[i].1@,
{
    let k = entries[i].0@;
    assert(key_seq(entries)[i] == k);
    assert(key_seq(entries).contains(k));
    let j = choose|j: int| 0 <= j < entries.len() && (#[trigger] entries[j]).0@ == k;
    assert(entries[i].0@ == k);
    assert(i == j);
}

proof fn lemma_has_key<V: Duplicate>(entries: Seq<(String, V)>, k: Seq<char>)
    ensures
        contents(entries).contains_key(k) <==> has_key(entries, k),
{
    if has_key(entries, k) {
        let i = choose|i: int| 0 <= i < entries.len() && (#[trigger] entries[i]).0@ == k;
        assert(key_seq(entries)[i] == k);
        assert(key_seq(entries).contains(k));
    }
    if key_seq(entries).contains(k) {
        let i = choose|i: int| 0 <= i < key_seq(entries).len() && key_seq(entries)[i] == k;
        assert(entries[i].0@ == k);
    }
}

proof fn lemma_contents_are<V: Duplicate>(entries: Seq<(String, V)>, m: Map<Seq<char>, V::V>)
    requires
        keys_differ(entries),
        forall|i: int|
            0 <= i < entries.len() ==> m.contains_key((#[trigger] entries[i]).0@)
                && m[entries[i].0@] == entries[i].1@,
        forall|k: Seq<char>| #[trigger] m.contains_key(k) ==> has_key(entries, k),
    ensures
        contents(entries) == m,
{
    let c = contents(entries);
    assert forall|k: Seq<char>| c.contains_key(k) == m.contains_key(k) by {
        lemma_has_key(entries, k);
    }
    assert forall|k: Seq<char>| #[trigger] c.contains_key(k) implies c[k] == m[k] by {
        lemma_has_key(entries, k);
        let i = choose|i: int| 0 <= i < entries.len() && (#[trigger] entries[i]).0@ == k;
        lemma_entry(entries, i);
    }
    assert(c =~= m);
}

proof fn lemma_count<V: Duplicate>(entries: Seq<(String, V)>)
    requires
        keys_differ(entries),
    ensures
        key_seq(entries).no_duplicates(),
        contents(entries).dom() == key_seq(entries).to_set(),
        contents(entries).dom().finite(),
        contents(entries).len() == entries.len(),
{
    let keys = key_seq(entries);
    assert forall|i: int, j: int| 0 <= i < keys.len() && 0 <= j < keys.len() && i != j implies keys[i]
        != keys[j] by {
        assert(keys[i] == entries[i].0@ && keys[j] == entries[j].0@);
    }
    keys.unique_seq_to_set();
    assert(contents(entries).dom() =~= keys.to_set());
}

/// `keys` goes through the keys of `m`, each once.
pub open spec fn enumerates<A>(keys: Seq<Seq<char>>, m: Map<Seq<char>, A>) -> bool {
    &&& keys.no_duplicates()
    &&& keys.to_set() == m.dom()
    &&& keys.len() == m.len()
}

/// `values` holds what each key of `m` maps to, once for each key.
pub open spec fn lists_values<A>(values: Seq<A>, m: Map<Seq<char>, A>) -> bool {
    exists|keys: Seq<Seq<char>>| #[trigger]
        enumerates(keys, m) && values == keys.map_values(|k: Seq<char>| m[k])
}

/// The keys come in dictionary order.
pub open spec fn in_order(keys: Seq<Seq<char>>) -> bool {
    forall|i: int, j: int| 0 <= i < j < keys.len() ==> before(#[trigger] keys[i], #[trigger] keys[j])
}

proof fn lemma_in_order_distinct(keys: Seq<Seq<char>>)
    requires
        in_order(keys),
    ensures
        keys.no_duplicates(),
{
    assert forall|i: int, j: int| 0 <= i < keys.len() && 0 <= j < keys.len() && i != j implies keys[i]
        != keys[j] by {
        if i < j {
            law_dictionary_order(keys[i], keys[j], keys[i]);
        } else {
            law_dictionary_order(keys[j], keys[i], keys[i]);
        }
    }
}

/// Putting the next key behind all keys that come before it keeps the order.
proof fn lemma_sorted_insert(
    sorted: Seq<Seq<char>>,
    at: int,
    key: Seq<char>,
    all: Seq<Seq<char>>,
    i: int,
)
    requires
        in_order(sorted),
        0 <= at <= sorted.len(),
        forall|j: int| 0 <= j < at ==> before(#[trigger] sorted[j], key),
        at < sorted.len() ==> !before(sorted[at], key),
        0 <= i < all.len(),
        all[i] == key,
        !all.take(i).contains(key),
        sorted.to_set() == all.take(i).to_set(),
    ensures
        in_order(sorted.insert(at, key)),
        sorted.insert(at, key).to_set() == all.take(i + 1).to_set(),
{
    let r = sorted.insert(at, key);
    let shorter = all.take(i);
    let longer = all.take(i + 1);
    assert forall|j: int| 0 <= j < sorted.len() implies #[trigger] sorted[j] != key by {
        assert(sorted.to_set().contains(sorted[j]));
        assert(all.take(i).to_set().contains(sorted[j]));
    }
    assert forall|j: int| at <= j < sorted.len() implies before(key, #[trigger] sorted[j]) by {
        law_dictionary_order(sorted[at], key, key);
        if j > at {
            law_dictionary_order(key, sorted[at], sorted[j]);
        }
    }
    assert forall|a: int, b: int| 0 <= a < b < r.len() implies before(
        #[trigger] r[a],
        #[trigger] r[b],
    ) by {
        let x = if a < at { a } else { a - 1 };
        let y = if b < at { b } else { b - 1 };
        if a != at && b != at {
            assert(before(sorted[x], sorted[y]));
        }
    }
    assert forall|x: Seq<char>| r.to_set().contains(x) == all.take(i + 1).to_set().contains(x) by {
        assert(sorted.to_set().contains(x) == all.take(i).to_set().contains(x));
        if r.contains(x) {
            let j = choose|j: int| 0 <= j < r.len() && r[j] == x;
            if j == at {
                assert(longer[i] == x);
            } else {
                let y = if j < at { j } else { j - 1 };
                assert(sorted[y] == x);
                assert(sorted.to_set().contains(x));
                assert(shorter.to_set().contains(x));
                let z = choose|z: int| 0 <= z < shorter.len() && shorter[z] == x;
                assert(longer[z] == x);
            }
        }
        if all.take(i + 1).contains(x) {
            let z = choose|z: int| 0 <= z < longer.len() && longer[z] == x;
            if z == i {
                assert(r[at] == x);
            } else {
                assert(shorter[z] == x);
                assert(shorter.to_set().contains(x));
                assert(sorted.to_set().contains(x));
                let y = choose|y: int| 0 <= y < sorted.len() && sorted[y] == x;
                let j = if y < at { y } else { y + 1 };
                assert(r[j] == x);
            }
        }
    }
    assert(r.to_set() =~= all.take(i + 1).to_set());
}

impl<V: Duplicate> StringMap<V> {
    #[verifier::type_invariant]
    spec fn well_formed(self) -> bool {
        keys_differ(self.entries@)
    }

    /// An empty map.
    pub fn new() -> (map: Self)
        ensures
            map@ == Map::<Seq<char>, V::V>::empty(),
    {
        let map: StringMap<V> = StringMap { entries: Vec::new() };
        proof {
            lemma_contents_are(map.entries@, Map::<Seq<char>, V::V>::empty());
        }
        map
    }

    /// How many keys there are.
    pub fn len(&self) -> (n: usize)
        ensures
            n == self@.len(),
            self@.dom().finite(),
    {
        proof {
            use_type_invariant(self);
            lemma_count(self.entries@);
        }
        self.entries.len()
    }

    /// Whether there is no key.
    pub fn is_empty(&self) -> (empty: bool)
        ensures
            empty == (self@ == Map::<Seq<char>, V::V>::empty()),
    {
        proof {
            use_type_invariant(self);
            if self.entries@.len() == 0 {
                lemma_contents_are(self.entries@, Map::<Seq<char>, V::V>::empty());
            } else {
                lemma_entry(self.entries@, 0);
            }
        }
        self.entries.len() == 0
    }

    /// The position of `key` among the entries.
    fn position(&self, key: &str) -> (at: Option<usize>)
        ensures
            at matches Some(i) ==> i < self.entries@.len() && self.entries@[i as int].0@ == key@,
            at is None ==> !has_key(self.entries@, key@),
    {
        for i in 0..self.entries.len()
            invariant
                forall|j: int| 0 <= j < i ==> (#[trigger] self.entries@[j]).0@ != key@,
        {
            if same(self.entries[i].0.as_str(), key) {
                return Some(i);
            }
        }
        None
    }

    /// What `key` maps to.
    pub fn get(&self, key: &str) -> (value: Option<&V>)
        ensures
            value is Some <==> self@.contains_key(key@),
            value matches Some(v) ==> v@ == self@[key@],
    {
        proof {
            use_type_invariant(self);
            lemma_has_key(self.entries@, key@);
        }
        match self.position(key) {
            Some(i) => {
                proof {
                    lemma_entry(self.entries@, i as int);
                }
                Some(&self.entries[i].1)
            },
            None => None,
        }
    }

    /// Whether `key` maps to something.
    pub fn contains_key(&self, key: &str) -> (found: bool)
        ensures
            found == self@.contains_key(key@),
    {
        self.get(key).is_some()
    }

    /// Makes `key` map to `value`.
    pub fn insert(&mut self, key: String, value: V)
        ensures
            final(self)@ == old(self)@.insert(key@, value@),
    {
        proof {
            use_type_invariant(&*self);
        }
        let ghost was = self.entries@;
        let ghost m = self@.insert(key@, value@);
        let at: Option<usize> = self.position(key.as_str());
        let mut entries: Vec<(String, V)> = Vec::new();
        std::mem::swap(&mut entries, &mut self.entries);
        let ghost k = key@;
        match at {
            Some(i) => {
                entries[i] = (key, value);
            },
            None => {
                entries.push((key, value));
            },
        }
        proof {
            assert(keys_differ(entries@)) by {
                assert forall|i: int, j: int| 0 <= i < j < entries@.len() implies (
                #[trigger] entries@[i]).0@ != (#[trigger] entries@[j]).0@ by {
                    if i < was.len() && j < was.len() {
                        assert(was[i].0@ != was[j].0@);
                    } else {
                        assert(was[i].0@ != k);
                    }
                }
            }
            assert forall|i: int| 0 <= i < entries@.len() implies m.contains_key(
                (#[trigger] entries@[i]).0@,
            ) && m[entries@[i].0@] == entries@[i].1@ by {
                if i < was.len() && was[i].0@ != k {
                    lemma_entry(was, i);
                }
            }
            assert forall|x: Seq<char>| #[trigger] m.contains_key(x) implies has_key(
                entries@,
                x,
            ) by {
                lemma_has_key(was, x);
                if x == k {
                    let i = match at {
                        Some(i) => i as int,
                        None => was.len() as int,
                    };
                    assert(entries@[i].0@ == k);
                } else {
                    let i = choose|i: int| 0 <= i < was.len() && (#[trigger] was[i]).0@ == x;
                    assert(entries@[i].0@ == x);
                }
            }
            lemma_contents_are(entries@, m);
        }
        self.entries = entries;
    }

    /// Takes `key` out, and says whether it was there.
    pub fn remove(&mut self, key: &str) -> (found: bool)
        ensures
            final(self)@ == old(self)@.remove(key@),
            found == old(self)@.contains_key(key@),
    {
        proof {
            use_type_invariant(&*self);
            lemma_has_key(self.entries@, key@);
        }
        let ghost was = self.entries@;
        let ghost m = self@.remove(key@);
        match self.position(key) {
            None => {
                assert(m =~= self@);
                false
            },
            Some(at) => {
                proof {
                    lemma_entry(was, at as int);
                }
                let mut entries: Vec<(String, V)> = Vec::new();
                std::mem::swap(&mut entries, &mut self.entries);
                entries.remove(at);
                proof {
                    assert(entries@ =~= was.remove(at as int));
                    assert forall|i: int, j: int| 0 <= i < j < entries@.len() implies (
                    #[trigger] entries@[i]).0@ != (#[trigger] entries@[j]).0@ by {
                        let a = if i < at { i } else { i + 1 };
                        let b = if j < at { j } else { j + 1 };
                        assert(was[a].0@ != was[b].0@);
                    }
                    assert forall|i: int| 0 <= i < entries@.len() implies m.contains_key(
                        (#[trigger] entries@[i]).0@,
                    ) && m[entries@[i].0@] == entries@[i].1@ by {
                        let a = if i < at { i } else { i + 1 };
                        lemma_entry(was, a);
                        assert(was[a].0@ != was[at as int].0@);
                    }
                    assert forall|x: Seq<char>| #[trigger] m.contains_key(x) implies has_key(
                        entries@,
                        x,
                    ) by {
                        lemma_has_key(was, x);
                        let i = choose|i: int| 0 <= i < was.len() && (#[trigger] was[i]).0@ == x;
                        let b = if i < at { i } else { i - 1 };
                        assert(entries@[b].0@ == x);
                    }
                    lemma_contents_are(entries@, m);
                }
                self.entries = entries;
                true
            },
        }
    }

    /// The keys, in the order in which they were put in.
    pub fn keys(&self) -> (keys: Vec<String>)
        ensures
            enumerates(texts(keys@), self@),
    {
        let mut keys: Vec<String> = Vec::new();
        for i in 0..self.entries.len()
            invariant
                keys@.len() == i,
                forall|j: int| 0 <= j < i ==> (#[trigger] keys@[j])@ == self.entries@[j].0@,
        {
            keys.push(self.entries[i].0.clone());
        }
        proof {
            use_type_invariant(self);
            lemma_count(self.entries@);
            assert(texts(keys@) =~= key_seq(self.entries@));
        }
        keys
    }

    /// The keys in dictionary order.
    pub fn sorted_keys(&self) -> (keys: Vec<String>)
        ensures
            enumerates(texts(keys@), self@),
            in_order(texts(keys@)),
    {
        proof {
            use_type_invariant(self);
        }
        let mut sorted: Vec<String> = Vec::new();
        let ghost all = key_seq(self.entries@);
        for i in 0..self.entries.len()
            invariant
                all == key_seq(self.entries@),
                sorted@.len() == i,
                keys_differ(self.entries@),
                in_order(texts(sorted@)),
                texts(sorted@).to_set() =~= all.take(i as int).to_set(),
        {
            let key: String = self.entries[i].0.clone();
            let mut at: usize = 0;
            while at < sorted.len() && comes_before(sorted[at].as_str(), key.as_str())
                invariant
                    at <= sorted@.len(),
                    forall|j: int| 0 <= j < at ==> before((#[trigger] sorted@[j])@, key@),
                decreases sorted@.len() - at,
            {
                at = at + 1;
            }
            let ghost was = sorted@;
            sorted.insert(at, key);
            proof {
                lemma_sorted_insert(texts(was), at as int, key@, all, i as int);
                assert(texts(sorted@) =~= texts(was).insert(at as int, key@));
            }
        }
        proof {
            use_type_invariant(self);
            lemma_count(self.entries@);
            assert(all.take(all.len() as int) =~= all);
            lemma_in_order_distinct(texts(sorted@));
        }
        sorted
    }

    /// A copy of each value, in the order in which the keys were put in.
    pub fn values(&self) -> (values: Vec<V>)
        ensures
            lists_values(values@.map_values(|v: V| v@), self@),
    {
        let mut values: Vec<V> = Vec::new();
        for i in 0..self.entries.len()
            invariant
                values@.len() == i,
                forall|j: int| 0 <= j < i ==> (#[trigger] values@[j])@ == self.entries@[j].1@,
        {
            values.push(self.entries[i].1.duplicate());
        }
        proof {
            use_type_invariant(self);
            lemma_count(self.entries@);
            let keys = key_seq(self.entries@);
            assert forall|i: int| 0 <= i < keys.len() implies self@[#[trigger] keys[i]]
                == self.entries@[i].1@ by {
                lemma_entry(self.entries@, i);
            }
            assert(enumerates(keys, self@));
            assert(values@.map_values(|v: V| v@) =~= keys.map_values(|k: Seq<char>| self@[k]));
        }
        values
    }

    /// A copy of the map.
    pub fn copy(&self) -> (map: Self)
        ensures
            map@ == self@,
    {
        proof {
            use_type_invariant(self);
        }
        let mut entries: Vec<(String, V)> = Vec::new();
        for i in 0..self.entries.len()
            invariant
                entries@.len() == i,
                forall|j: int|
                    0 <= j < i ==> (#[trigger] entries@[j]).0@ == self.entries@[j].0@ && entries@[j].1@
                        == self.entries@[j].1@,
        {
            entries.push((self.entries[i].0.clone(), self.entries[i].1.duplicate()));
        }
        proof {
            assert forall|i: int, j: int| 0 <= i < j < entries@.len() implies (
            #[trigger] entries@[i]).0@ != (#[trigger] entries@[j]).0@ by {
                assert(self.entries@[i].0@ != self.entries@[j].0@);
            }
            assert forall|i: int| 0 <= i < entries@.len() implies self@.contains_key(
                (#[trigger] entries@[i]).0@,
            ) && self@[entries@[i].0@] == entries@[i].1@ by {
                lemma_entry(self.entries@, i);
            }
            assert forall|k: Seq<char>| #[trigger] self@.contains_key(k) implies has_key(
                entries@,
                k,
            ) by {
                lemma_has_key(self.entries@, k);
                let i = choose|i: int|
                    0 <= i < self.entries@.len() && (#[trigger] self.entries@[i]).0@ == k;
                assert(entries@[i].0@ == k);
            }
            lemma_contents_are(entries@, self@);
        }
        StringMap { entries }
    }
}

} // verus!
