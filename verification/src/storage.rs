//! A finite map keyed by strings.
//!
//! The map is kept as a list of entries in which no key occurs twice.  Its
//! view is the mathematical map from a key's characters to the stored value.

use vstd::prelude::*;

verus! {

/// No two entries of `s` carry the same key.
spec fn distinct_keys<V>(s: Seq<(String, V)>) -> bool {
    forall|i: int, j: int|
        #![trigger s[i], s[j]]
        0 <= i < j < s.len() ==> s[i].0@ != s[j].0@
}

/// Some entry of `s` carries the key `k`.
spec fn has_key<V>(s: Seq<(String, V)>, k: Seq<char>) -> bool {
    exists|i: int| 0 <= i < s.len() && (#[trigger] s[i]).0@ == k
}

/// The place of an entry of `s` that carries the key `k`.
spec fn index_of<V>(s: Seq<(String, V)>, k: Seq<char>) -> int {
    choose|i: int| 0 <= i < s.len() && (#[trigger] s[i]).0@ == k
}

/// The map that a list of entries stands for.
spec fn entries_map<V>(s: Seq<(String, V)>) -> Map<Seq<char>, V> {
    Map::new(|k: Seq<char>| has_key(s, k), |k: Seq<char>| s[index_of(s, k)].1)
}

/// With distinct keys, the entry at place `i` is what the map holds under
/// that entry's key.
proof fn lemma_entry<V>(s: Seq<(String, V)>, i: int)
    requires
        distinct_keys(s),
        0 <= i < s.len(),
    ensures
        entries_map(s).contains_key(s[i].0@),
        entries_map(s)[s[i].0@] == s[i].1,
{
    let j = index_of(s, s[i].0@);
    assert(j == i);
}

/// A key of the map is carried by the entry at its chosen place.
proof fn lemma_key_place<V>(s: Seq<(String, V)>, k: Seq<char>)
    requires
        entries_map(s).contains_key(k),
    ensures
        0 <= index_of(s, k) < s.len(),
        s[index_of(s, k)].0@ == k,
        entries_map(s)[k] == s[index_of(s, k)].1,
{
}

/// Appending an entry under a fresh key inserts it into the map.
proof fn lemma_push<V>(s: Seq<(String, V)>, key: String, value: V)
    requires
        distinct_keys(s),
        !entries_map(s).contains_key(key@),
    ensures
        distinct_keys(s.push((key, value))),
        entries_map(s.push((key, value))) == entries_map(s).insert(key@, value),
{
    let t = s.push((key, value));
    let grown = entries_map(s).insert(key@, value);
    assert forall|i: int, j: int| 0 <= i < j < t.len() implies t[i].0@ != t[j].0@ by {
        if j == s.len() {
            lemma_entry(s, i);
        }
    }
    assert forall|k: Seq<char>| entries_map(t).contains_key(k) implies #[trigger] grown.contains_key(
        k,
    ) && entries_map(t)[k] == grown[k] by {
        lemma_key_place(t, k);
        if index_of(t, k) < s.len() {
            lemma_entry(s, index_of(t, k));
        }
    }
    assert forall|k: Seq<char>| #[trigger] grown.contains_key(k) implies entries_map(
        t,
    ).contains_key(k) by {
        if k == key@ {
            lemma_entry(t, s.len() as int);
        } else {
            lemma_key_place(s, k);
            lemma_entry(t, index_of(s, k));
        }
    }
    assert(entries_map(t) =~= grown);
}

/// Replacing the value of the entry at place `i` replaces it in the map.
proof fn lemma_update<V>(s: Seq<(String, V)>, i: int, key: String, value: V)
    requires
        distinct_keys(s),
        0 <= i < s.len(),
        key@ == s[i].0@,
    ensures
        distinct_keys(s.update(i, (key, value))),
        entries_map(s.update(i, (key, value))) == entries_map(s).insert(key@, value),
{
    let t = s.update(i, (key, value));
    let changed = entries_map(s).insert(key@, value);
    assert(distinct_keys(t));
    assert forall|k: Seq<char>| entries_map(t).contains_key(k) implies #[trigger] changed.contains_key(
        k,
    ) && entries_map(t)[k] == changed[k] by {
        lemma_key_place(t, k);
        lemma_entry(s, index_of(t, k));
    }
    assert forall|k: Seq<char>| #[trigger] changed.contains_key(k) implies entries_map(
        t,
    ).contains_key(k) by {
        if k == key@ {
            lemma_entry(t, i);
        } else {
            lemma_key_place(s, k);
            lemma_entry(t, index_of(s, k));
        }
    }
    assert(entries_map(t) =~= changed);
}

/// Taking the entry at place `i` out removes its key from the map.
proof fn lemma_remove<V>(s: Seq<(String, V)>, i: int)
    requires
        distinct_keys(s),
        0 <= i < s.len(),
    ensures
        distinct_keys(s.remove(i)),
        entries_map(s.remove(i)) == entries_map(s).remove(s[i].0@),
{
    let t = s.remove(i);
    let shrunk = entries_map(s).remove(s[i].0@);
    // The entry at place `a` of `t` stood at place `a` or `a + 1` of `s`.
    assert forall|a: int| 0 <= a < t.len() implies #[trigger] t[a] == s[if a < i {
        a
    } else {
        a + 1
    }] by {}
    assert(distinct_keys(t));
    assert forall|k: Seq<char>| entries_map(t).contains_key(k) implies #[trigger] shrunk.contains_key(
        k,
    ) && entries_map(t)[k] == shrunk[k] by {
        lemma_key_place(t, k);
        let a = index_of(t, k);
        lemma_entry(s, if a < i { a } else { a + 1 });
    }
    assert forall|k: Seq<char>| #[trigger] shrunk.contains_key(k) implies entries_map(
        t,
    ).contains_key(k) by {
        lemma_key_place(s, k);
        let a = index_of(s, k);
        lemma_entry(t, if a < i { a } else { a - 1 });
    }
    assert(entries_map(t) =~= shrunk);
}

/// A map from strings to values of type `V`.
#[derive(Debug)]
pub struct StringMap<V> {
    entries: Vec<(String, V)>,
}

impl<V> View for StringMap<V> {
    type V = Map<Seq<char>, V>;

    closed spec fn view(&self) -> Map<Seq<char>, V> {
        entries_map(self.entries@)
    }
}

impl<V> StringMap<V> {
    #[verifier::type_invariant]
    spec fn well_formed(&self) -> bool {
        distinct_keys(self.entries@)
    }

    /// An empty map.
    pub fn new() -> (m: Self)
        ensures
            m@ == Map::<Seq<char>, V>::empty(),
    {
        let m = StringMap { entries: Vec::new() };
        assert(m@ =~= Map::<Seq<char>, V>::empty());
        m
    }

    /// The place of the entry stored under `key`, if there is one.
    fn position(&self, key: &String) -> (r: Option<usize>)
        ensures
            match r {
                Some(i) => i < self.entries@.len() && self.entries@[i as int].0@ == key@,
                None => !self@.contains_key(key@),
            },
    {
        let mut i: usize = 0;
        while i < self.entries.len()
            invariant
                i <= self.entries@.len(),
                forall|j: int| 0 <= j < i ==> (#[trigger] self.entries@[j]).0@ != key@,
            decreases self.entries@.len() - i,
        {
            if self.entries[i].0 == *key {
                return Some(i);
            }
            i += 1;
        }
        None
    }

    /// The value stored under `key`, if there is one.
    pub fn get(&self, key: &String) -> (r: Option<&V>)
        ensures
            match r {
                Some(v) => self@.contains_key(key@) && *v == self@[key@],
                None => !self@.contains_key(key@),
            },
    {
        match self.position(key) {
            Some(i) => {
                proof {
                    use_type_invariant(self);
                    lemma_entry(self.entries@, i as int);
                }
                Some(&self.entries[i].1)
            },
            None => None,
        }
    }

    /// Stores `value` under `key`, replacing what was stored there before.
    pub fn insert(&mut self, key: String, value: V)
        ensures
            final(self)@ == old(self)@.insert(key@, value),
    {
        proof {
            use_type_invariant(&*self);
        }
        let found = self.position(&key);
        // The entries are taken out while they change and put back at the end.
        let mut entries: Vec<(String, V)> = Vec::new();
        core::mem::swap(&mut self.entries, &mut entries);
        match found {
            Some(i) => {
                proof {
                    lemma_update(entries@, i as int, key, value);
                }
                entries[i] = (key, value);
            },
            None => {
                proof {
                    lemma_push(entries@, key, value);
                }
                entries.push((key, value));
            },
        }
        self.entries = entries;
    }

    /// Removes `key` and what was stored under it, if anything was.
    pub fn remove(&mut self, key: &String)
        ensures
            final(self)@ == old(self)@.remove(key@),
    {
        proof {
            use_type_invariant(&*self);
        }
        match self.position(key) {
            Some(i) => {
                let mut entries: Vec<(String, V)> = Vec::new();
                core::mem::swap(&mut self.entries, &mut entries);
                proof {
                    lemma_remove(entries@, i as int);
                }
                entries.remove(i);
                self.entries = entries;
            },
            None => {
            },
        }
    }
}

} // verus!
