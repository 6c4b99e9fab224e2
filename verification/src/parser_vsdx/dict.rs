//! A dictionary with text for keys, which keeps its entries in the order
//! in which their keys were first seen.

use vstd::prelude::*;

verus! {

/// The map that the first `n` entries stand for.
pub open spec fn to_map<V: View>(entries: Seq<(String, V)>, n: nat) -> Map<Seq<char>, V::V>
    decreases n,
{
    if n == 0 {
        Map::empty()
    } else {
        to_map(entries, (n - 1) as nat).insert(entries[n - 1].0@, entries[n - 1].1@)
    }
}

/// Whether no key stands twice among `entries`.
pub open spec fn distinct_keys<V>(entries: Seq<(String, V)>) -> bool {
    forall|i: int, j: int|
        0 <= i < j < entries.len() ==> (#[trigger] entries[i]).0@ != (#[trigger] entries[j]).0@
}

/// A dictionary from text to `V`.
#[derive(Debug)]
pub struct Dict<V> {
    entries: Vec<(String, V)>,
}

impl<V: View> View for Dict<V> {
    type V = Map<Seq<char>, V::V>;

    closed spec fn view(&self) -> Map<Seq<char>, V::V> {
        to_map(self.entries@, self.entries@.len())
    }
}

proof fn lemma_keys<V: View>(entries: Seq<(String, V)>, n: nat, key: Seq<char>)
    requires
        n <= entries.len(),
    ensures
        to_map(entries, n).contains_key(key) <==> exists|i: int|
            0 <= i < n && (#[trigger] entries[i]).0@ == key,
    decreases n,
{
    if n > 0 {
        lemma_keys(entries, (n - 1) as nat, key);
        if entries[n - 1].0@ == key {
            assert(0 <= n - 1 < n && entries[n - 1].0@ == key);
        }
    }
}

proof fn lemma_value<V: View>(entries: Seq<(String, V)>, n: nat, at: int)
    requires
        n <= entries.len(),
        0 <= at < n,
        distinct_keys(entries),
    ensures
        to_map(entries, n).contains_key(entries[at].0@),
        to_map(entries, n)[entries[at].0@] == entries[at].1@,
    decreases n,
{
    if at < n - 1 {
        lemma_value(entries, (n - 1) as nat, at);
    }
}

proof fn lemma_replace<V: View>(entries: Seq<(String, V)>, n: nat, at: int, entry: (String, V))
    requires
        n <= entries.len(),
        0 <= at < entries.len(),
        distinct_keys(entries),
        entry.0@ == entries[at].0@,
    ensures
        distinct_keys(entries.update(at, entry)),
        to_map(entries.update(at, entry), n) == if at < n {
            to_map(entries, n).insert(entry.0@, entry.1@)
        } else {
            to_map(entries, n)
        },
    decreases n,
{
    let after = entries.update(at, entry);
    assert(distinct_keys(after)) by {
        assert forall|i: int, j: int| 0 <= i < j < after.len() implies (#[trigger] after[i]).0@ != (
        #[trigger] after[j]).0@ by {
            assert(entries[i].0@ != entries[j].0@);
        }
    }
    if n > 0 {
        lemma_replace(entries, (n - 1) as nat, at, entry);
        let last = n - 1;
        if at == last {
            assert(to_map(after, n) =~= to_map(entries, n).insert(entry.0@, entry.1@));
        } else if at < last {
            assert(entries[at].0@ != entries[last].0@);
            assert(to_map(after, n) =~= to_map(entries, n).insert(entry.0@, entry.1@));
        }
    }
}

impl<V> Dict<V> {
    #[verifier::type_invariant]
    spec fn keys_are_distinct(self) -> bool {
        distinct_keys(self.entries@)
    }
}

impl<V: View> Dict<V> {
    /// An empty dictionary.
    pub fn new() -> (dict: Self)
        ensures
            dict@ == Map::<Seq<char>, V::V>::empty(),
    {
        Dict { entries: Vec::new() }
    }

    /// Where `key` stands among the entries.
    fn find(&self, key: &String) -> (at: Option<usize>)
        ensures
            match at {
                Some(i) => i < self.entries@.len() && self.entries@[i as int].0@ == key@,
                None => forall|i: int|
                    0 <= i < self.entries@.len() ==> (#[trigger] self.entries@[i]).0@ != key@,
            },
    {
        let mut i: usize = 0;
        while i < self.entries.len()
            invariant
                i <= self.entries.len(),
                forall|j: int| 0 <= j < i ==> (#[trigger] self.entries@[j]).0@ != key@,
            decreases self.entries.len() - i,
        {
            if self.entries[i].0 == *key {
                return Some(i);
            }
            i += 1;
        }
        None
    }

    /// Puts `value` under `key`; a value that stood there is replaced.
    pub fn insert(&mut self, key: String, value: V)
        ensures
            final(self)@ == old(self)@.insert(key@, value@),
    {
        proof {
            use_type_invariant(&*self);
        }
        match self.find(&key) {
            Some(at) => {
                proof {
                    lemma_replace(self.entries@, self.entries@.len(), at as int, (key, value));
                }
                let mut entries: Vec<(String, V)> = Vec::new();
                std::mem::swap(&mut entries, &mut self.entries);
                entries.set(at, (key, value));
                self.entries = entries;
            },
            None => {
                let mut entries: Vec<(String, V)> = Vec::new();
                std::mem::swap(&mut entries, &mut self.entries);
                entries.push((key, value));
                self.entries = entries;
                assert(forall|n: nat|
                    n <= old(self).entries@.len() ==> to_map(self.entries@, n) == to_map(
                        old(self).entries@,
                        n,
                    )) by {
                    assert forall|n: nat| n <= old(self).entries@.len() implies to_map(
                        self.entries@,
                        n,
                    ) == to_map(old(self).entries@, n) by {
                        lemma_prefix(old(self).entries@, self.entries@, n);
                    }
                }
            },
        }
    }

    /// The value under `key`, if there is one.
    pub fn get(&self, key: &str) -> (value: Option<&V>)
        ensures
            match value {
                Some(found) => self@.contains_key(key@) && self@[key@] == found@,
                None => !self@.contains_key(key@),
            },
    {
        proof {
            use_type_invariant(self);
            lemma_keys(self.entries@, self.entries@.len(), key@);
        }
        let owned: String = key.to_owned();
        match self.find(&owned) {
            Some(at) => {
                proof {
                    lemma_value(self.entries@, self.entries@.len(), at as int);
                }
                Some(&self.entries[at].1)
            },
            None => None,
        }
    }

    /// Whether there is a value under `key`.
    pub fn contains_key(&self, key: &str) -> (found: bool)
        ensures
            found == self@.contains_key(key@),
    {
        self.get(key).is_some()
    }

    /// The entries, in the order in which their keys were first put.
    pub fn entries(&self) -> (entries: &Vec<(String, V)>)
        ensures
            to_map(entries@, entries@.len()) == self@,
            distinct_keys(entries@),
            entries@.len() == self.spec_len(),
    {
        proof {
            use_type_invariant(self);
            lemma_size(self.entries@, self.entries@.len());
        }
        &self.entries
    }

    /// Number of entries: the number of keys, which are finitely many.
    pub fn len(&self) -> (n: usize)
        ensures
            n == self.spec_len(),
            self@.dom().finite(),
    {
        proof {
            use_type_invariant(self);
            lemma_size(self.entries@, self.entries@.len());
        }
        self.entries.len()
    }

    /// Number of keys.
    pub open spec fn spec_len(&self) -> nat {
        self@.dom().len()
    }
}

proof fn lemma_size<V: View>(entries: Seq<(String, V)>, n: nat)
    requires
        n <= entries.len(),
        distinct_keys(entries),
    ensures
        to_map(entries, n).dom().finite(),
        to_map(entries, n).dom().len() == n,
    decreases n,
{
    if n > 0 {
        let before = to_map(entries, (n - 1) as nat);
        let key = entries[n - 1].0@;
        lemma_size(entries, (n - 1) as nat);
        lemma_keys(entries, (n - 1) as nat, key);
        assert(!before.contains_key(key)) by {
            if before.contains_key(key) {
                let i = choose|i: int| 0 <= i < n - 1 && (#[trigger] entries[i]).0@ == key;
                assert(entries[i].0@ != entries[n - 1].0@);
            }
        }
        assert(to_map(entries, n).dom() =~= before.dom().insert(key));
    } else {
        assert(to_map(entries, n).dom() =~= Set::<Seq<char>>::empty());
    }
}

proof fn lemma_prefix<V: View>(short: Seq<(String, V)>, long: Seq<(String, V)>, n: nat)
    requires
        n <= short.len() <= long.len(),
        forall|i: int| 0 <= i < short.len() ==> short[i] == long[i],
    ensures
        to_map(long, n) == to_map(short, n),
    decreases n,
{
    if n > 0 {
        lemma_prefix(short, long, (n - 1) as nat);
    }
}

} // verus!
