//! Maps keyed by text, whose keys can be listed.

use vstd::prelude::*;
use crate::support::stored::Stored;
use crate::support::text;

verus! {

/// A map from texts to values, kept in the order in which keys came.
#[derive(Debug)]
pub struct TextMap<V: View> {
    entries: Vec<(String, V)>,
}

/// Whether no two entries share a key.
spec fn unique_keys<V: View>(entries: Seq<(String, V)>) -> bool {
    forall|i: int, j: int|
        0 <= i < entries.len() && 0 <= j < entries.len() && #[trigger] entries[i].0@
            == #[trigger] entries[j].0@ ==> i == j
}

/// Whether some entry has the key.
spec fn has_key<V: View>(entries: Seq<(String, V)>, key: Seq<char>) -> bool {
    exists|i: int| 0 <= i < entries.len() && #[trigger] entries[i].0@ == key
}

/// Where the key stands.
spec fn index_of_key<V: View>(entries: Seq<(String, V)>, key: Seq<char>) -> int {
    choose|i: int| 0 <= i < entries.len() && #[trigger] entries[i].0@ == key
}

/// The map that the entries stand for.
spec fn as_map<V: View>(entries: Seq<(String, V)>) -> Map<Seq<char>, V::V> {
    Map::new(
        |k: Seq<char>| has_key(entries, k),
        |k: Seq<char>| entries[index_of_key(entries, k)].1@,
    )
}

impl<V: View> View for TextMap<V> {
    type V = Map<Seq<char>, V::V>;

    closed spec fn view(&self) -> Map<Seq<char>, V::V> {
        as_map(self.entries@)
    }
}

impl<V: View> TextMap<V> {
    #[verifier::type_invariant]
    spec fn well_formed(self) -> bool {
        unique_keys(self.entries@)
    }

    /// The empty map.
    pub fn new() -> (r: Self)
        ensures
            r@ == Map::<Seq<char>, V::V>::empty(),
    {
        let r = TextMap { entries: Vec::new() };
        proof {
            assert(r@ =~= Map::<Seq<char>, V::V>::empty());
        }
        r
    }

    fn position(&self, key: &str) -> (r: Option<usize>)
        ensures
            match r {
                Some(i) => i < self.entries@.len() && self.entries@[i as int].0@ == key@,
                None => !has_key(self.entries@, key@),
            },
    {
        let mut i: usize = 0;
        while i < self.entries.len()
            invariant
                i <= self.entries@.len(),
                forall|j: int| 0 <= j < i ==> #[trigger] self.entries@[j].0@ != key@,
            decreases self.entries.len() - i,
        {
            if text::same_text(self.entries[i].0.as_str(), key) {
                return Some(i);
            }
            i = i + 1;
        }
        None
    }

    /// The value under `key`.
    pub fn get(&self, key: &str) -> (r: Option<&V>)
        ensures
            r is Some <==> self@.contains_key(key@),
            r is Some ==> r->0@ == self@[key@],
    {
        proof {
            use_type_invariant(self);
        }
        match self.position(key) {
            Some(i) => {
                proof {
                    assert(has_key(self.entries@, key@));
                }
                Some(&self.entries[i].1)
            },
            None => None,
        }
    }

    /// Whether there is a value under `key`.
    pub fn contains_key(&self, key: &str) -> (r: bool)
        ensures
            r == self@.contains_key(key@),
    {
        self.get(key).is_some()
    }

    /// Puts `value` under `key`, in place of what was there.
    pub fn insert(&mut self, key: String, value: V)
        ensures
            final(self)@ == old(self)@.insert(key@, value@),
    {
        proof {
            use_type_invariant(&*self);
        }
        let position = self.position(key.as_str());
        let ghost before = self.entries@;
        let mut entries: Vec<(String, V)> = Vec::new();
        std::mem::swap(&mut entries, &mut self.entries);
        match position {
            Some(i) => {
                entries[i] = (key, value);
            },
            None => {
                entries.push((key, value));
            },
        }
        proof {
            lemma_insert(before, entries@, key, value);
        }
        self.entries = entries;
    }

    /// The keys, each once.
    pub fn keys(&self) -> (r: Vec<String>)
        ensures
            text::texts(r@).no_duplicates(),
            forall|k: Seq<char>| #[trigger] text::texts(r@).contains(k) <==> self@.contains_key(k),
    {
        proof {
            use_type_invariant(self);
        }
        let mut r: Vec<String> = Vec::new();
        let mut i: usize = 0;
        while i < self.entries.len()
            invariant
                i <= self.entries@.len(),
                r@.len() == i,
                forall|j: int| 0 <= j < i ==> #[trigger] r@[j] == self.entries@[j].0,
            decreases self.entries.len() - i,
        {
            r.push(self.entries[i].0.clone());
            i = i + 1;
        }
        proof {
            let ks = text::texts(r@);
            assert forall|j: int| 0 <= j < ks.len() implies #[trigger] ks[j]
                == self.entries@[j].0@ by {}
            assert forall|k: Seq<char>| #[trigger] ks.contains(k) <==> self@.contains_key(k) by {
                if ks.contains(k) {
                    let j = choose|j: int| 0 <= j < ks.len() && ks[j] == k;
                    assert(self.entries@[j].0@ == k);
                }
                if has_key(self.entries@, k) {
                    let j = index_of_key(self.entries@, k);
                    assert(ks[j] == k);
                }
            }
        }
        r
    }
}

impl<V: Stored> TextMap<V> {
    /// A copy with the same contents.
    pub fn duplicate(&self) -> (r: Self)
        ensures
            r@ == self@,
    {
        proof {
            use_type_invariant(self);
        }
        let mut entries: Vec<(String, V)> = Vec::new();
        let mut i: usize = 0;
        while i < self.entries.len()
            invariant
                i <= self.entries@.len(),
                entries@.len() == i,
                forall|j: int|
                    0 <= j < i ==> (#[trigger] entries@[j]).0 == self.entries@[j].0 && entries@[j].1@
                        == self.entries@[j].1@,
            decreases self.entries.len() - i,
        {
            entries.push((self.entries[i].0.clone(), self.entries[i].1.duplicate()));
            i = i + 1;
        }
        proof {
            lemma_same_contents(self.entries@, entries@);
        }
        TextMap { entries }
    }
}

impl<V: Stored> Clone for TextMap<V> {
    fn clone(&self) -> (r: Self)
        ensures
            r@ == self@,
    {
        self.duplicate()
    }
}

/// Entries with equal keys and contents stand for the same map.
proof fn lemma_same_contents<V: View>(a: Seq<(String, V)>, b: Seq<(String, V)>)
    requires
        unique_keys(a),
        a.len() == b.len(),
        forall|j: int|
            0 <= j < a.len() ==> (#[trigger] b[j]).0 == a[j].0 && b[j].1@ == a[j].1@,
    ensures
        unique_keys(b),
        as_map(a) == as_map(b),
{
    assert forall|k: Seq<char>| #[trigger] has_key(a, k) <==> has_key(b, k) by {
        if has_key(a, k) {
            let j = index_of_key(a, k);
            assert(b[j].0@ == k);
        }
        if has_key(b, k) {
            let j = index_of_key(b, k);
            assert(a[j].0@ == k);
        }
    }
    assert forall|k: Seq<char>| has_key(a, k) implies #[trigger] index_of_key(a, k)
        == index_of_key(b, k) by {
        let j = index_of_key(a, k);
        assert(b[j].0@ == k);
        let i = index_of_key(b, k);
        assert(a[i].0@ == k);
    }
    assert(as_map(a) =~= as_map(b)) by {
        assert forall|k: Seq<char>| has_key(a, k) implies as_map(a)[k] == as_map(b)[k] by {
            let j = index_of_key(a, k);
            assert(index_of_key(b, k) == j);
            assert(b[j].1@ == a[j].1@);
        }
    }
}

/// Replacing the entry of a key, or adding one where there was none, inserts
/// into the map.
proof fn lemma_insert<V: View>(
    before: Seq<(String, V)>,
    after: Seq<(String, V)>,
    key: String,
    value: V,
)
    requires
        unique_keys(before),
        (!has_key(before, key@) && after == before.push((key, value))) || (exists|i: int|
            0 <= i < before.len() && #[trigger] before[i].0@ == key@ && after == before.update(
                i,
                (key, value),
            )),
    ensures
        unique_keys(after),
        as_map(after) == as_map(before).insert(key@, value@),
{
    if !has_key(before, key@) && after == before.push((key, value)) {
        assert(after[before.len() as int].0@ == key@);
        assert forall|k: Seq<char>| #[trigger] has_key(after, k) <==> (k == key@ || has_key(
            before,
            k,
        )) by {
            if has_key(before, k) {
                let i = index_of_key(before, k);
                assert(after[i].0@ == k);
            }
        }
        assert forall|k: Seq<char>| has_key(before, k) implies after[index_of_key(after, k)]
            == #[trigger] before[index_of_key(before, k)] by {
            let i = index_of_key(before, k);
            assert(after[i].0@ == k);
            assert(k != key@);
        }
    } else {
        let i = choose|i: int|
            0 <= i < before.len() && #[trigger] before[i].0@ == key@ && after == before.update(
                i,
                (key, value),
            );
        assert(after[i].0@ == key@);
        assert forall|j: int| 0 <= j < after.len() implies #[trigger] after[j].0@
            == before[j].0@ by {}
        assert forall|k: Seq<char>| #[trigger] has_key(after, k) <==> has_key(before, k) by {
            if has_key(before, k) {
                let j = index_of_key(before, k);
                assert(after[j].0@ == k);
            }
            if has_key(after, k) {
                let j = index_of_key(after, k);
                assert(before[j].0@ == k);
            }
        }
        assert forall|k: Seq<char>| has_key(before, k) && k != key@ implies after[index_of_key(
            after,
            k,
        )] == #[trigger] before[index_of_key(before, k)] by {
            let j = index_of_key(before, k);
            assert(after[j].0@ == k);
        }
    }
    assert(as_map(after) =~= as_map(before).insert(key@, value@));
}

} // verus!
