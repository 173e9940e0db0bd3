//! The display names known so far, by author.

use vstd::prelude::*;

verus! {

/// One author's display name.
struct CacheEntry {
    author: String,
    name: String,
}

/// A mapping from author to display name.
///
/// An author has at most one name; a later one replaces the earlier. Nothing
/// is ever evicted.
pub struct MetadataCache {
    entries: Vec<CacheEntry>,
}

/// The value under `key`, if the map has one.
pub open spec fn lookup(names: Map<Seq<char>, Seq<char>>, key: Seq<char>) -> Option<Seq<char>> {
    if names.contains_key(key) {
        Some(names[key])
    } else {
        None
    }
}

impl View for MetadataCache {
    type V = Map<Seq<char>, Seq<char>>;

    closed spec fn view(&self) -> Map<Seq<char>, Seq<char>> {
        Map::new(
            |author: Seq<char>| self.holds(author),
            |author: Seq<char>| self.name_at(self.index_of(author)),
        )
    }
}

impl MetadataCache {
    spec fn author_at(&self, i: int) -> Seq<char> {
        self.entries@[i].author@
    }

    spec fn name_at(&self, i: int) -> Seq<char> {
        self.entries@[i].name@
    }

    spec fn holds(&self, author: Seq<char>) -> bool {
        exists|i: int| 0 <= i < self.entries@.len() && #[trigger] self.author_at(i) == author
    }

    spec fn index_of(&self, author: Seq<char>) -> int {
        choose|i: int| 0 <= i < self.entries@.len() && #[trigger] self.author_at(i) == author
    }

    #[verifier::type_invariant]
    spec fn authors_distinct(&self) -> bool {
        forall|i: int, j: int|
            0 <= i < j < self.entries@.len() ==> self.entries@[i].author@
                != self.entries@[j].author@
    }

    proof fn lemma_entry(&self, i: int)
        requires
            self.authors_distinct(),
            0 <= i < self.entries@.len(),
        ensures
            self@.contains_key(self.author_at(i)),
            self@[self.author_at(i)] == self.name_at(i),
    {
        let author = self.author_at(i);
        assert(self.holds(author));
        let j = self.index_of(author);
        assert(self.author_at(j) == author);
        assert(j == i);
    }

    /// A cache that knows nobody.
    pub fn new() -> (cache: MetadataCache)
        ensures
            cache@ == Map::<Seq<char>, Seq<char>>::empty(),
    {
        let cache = MetadataCache { entries: Vec::new() };
        assert(cache@ =~= Map::<Seq<char>, Seq<char>>::empty());
        cache
    }

    fn position(&self, author: &String) -> (found: Option<usize>)
        ensures
            match found {
                Some(i) => i < self.entries@.len() && self.author_at(i as int) == author@,
                None => !self.holds(author@),
            },
    {
        let mut i: usize = 0;
        while i < self.entries.len()
            invariant
                i <= self.entries@.len(),
                forall|j: int| 0 <= j < i ==> #[trigger] self.author_at(j) != author@,
            decreases self.entries@.len() - i,
        {
            if self.entries[i].author == *author {
                return Some(i);
            }
            i += 1;
        }
        None
    }

    /// The display name of `author`, if one is known.
    pub fn get(&self, author: &String) -> (name: Option<String>)
        ensures
            name.deep_view() == lookup(self@, author@),
    {
        proof {
            use_type_invariant(self);
        }
        match self.position(author) {
            Some(i) => {
                proof {
                    self.lemma_entry(i as int);
                }
                Some(self.entries[i].name.clone())
            },
            None => None,
        }
    }

    /// Whether a display name is known for `author`.
    pub fn contains(&self, author: &String) -> (known: bool)
        ensures
            known == self@.contains_key(author@),
    {
        proof {
            use_type_invariant(self);
        }
        match self.position(author) {
            Some(i) => {
                proof {
                    self.lemma_entry(i as int);
                }
                true
            },
            None => false,
        }
    }

    /// Records `name` for `author`, in place of any name known before.
    pub fn insert(self, author: String, name: String) -> (updated: MetadataCache)
        ensures
            updated@ == self@.insert(author@, name@),
    {
        proof {
            use_type_invariant(&self);
        }
        let ghost key = author@;
        let ghost value = name@;
        let found = self.position(&author);
        let mut entries = self.entries;
        match found {
            Some(i) => {
                entries.set(i, CacheEntry { author, name });
                proof {
                    assert forall|a: int, b: int|
                        0 <= a < b < entries@.len() implies entries@[a].author@
                        != entries@[b].author@ by {
                        assert(self.author_at(a) != self.author_at(b));
                    }
                }
                let updated = MetadataCache { entries };
                proof {
                    assert forall|j: int|
                        0 <= j < updated.entries@.len() implies #[trigger] updated.author_at(j)
                        == self.author_at(j) by {}
                    assert forall|k: Seq<char>| updated.holds(k) == self.holds(k) by {
                        if updated.holds(k) {
                            let j = updated.index_of(k);
                            assert(self.author_at(j) == k);
                        }
                        if self.holds(k) {
                            let j = self.index_of(k);
                            assert(updated.author_at(j) == k);
                        }
                    }
                    self.lemma_entry(i as int);
                    assert forall|k: Seq<char>|
                        #[trigger] updated@.contains_key(k) implies updated@[k] == self@.insert(
                        key,
                        value,
                    )[k] by {
                        let j = updated.index_of(k);
                        assert(updated.author_at(j) == k);
                        updated.lemma_entry(j);
                        self.lemma_entry(j);
                    }
                    assert(updated@ =~= self@.insert(key, value));
                }
                updated
            },
            None => {
                entries.push(CacheEntry { author, name });
                proof {
                    assert forall|a: int, b: int|
                        0 <= a < b < entries@.len() implies entries@[a].author@
                        != entries@[b].author@ by {
                        assert(self.author_at(a) == entries@[a].author@);
                        if b < entries@.len() - 1 {
                            assert(self.author_at(a) != self.author_at(b));
                        }
                    }
                }
                let updated = MetadataCache { entries };
                proof {
                    let last = updated.entries@.len() - 1;
                    assert forall|j: int| 0 <= j < last implies #[trigger] updated.author_at(j)
                        == self.author_at(j) by {}
                    assert(updated.author_at(last) == key);
                    assert forall|k: Seq<char>| updated.holds(k) == (self.holds(k) || k == key) by {
                        if updated.holds(k) {
                            let j = updated.index_of(k);
                            if j < last {
                                assert(self.author_at(j) == k);
                            }
                        }
                        if self.holds(k) {
                            let j = self.index_of(k);
                            assert(updated.author_at(j) == k);
                        }
                    }
                    assert forall|k: Seq<char>|
                        #[trigger] updated@.contains_key(k) implies updated@[k] == self@.insert(
                        key,
                        value,
                    )[k] by {
                        let j = updated.index_of(k);
                        assert(updated.author_at(j) == k);
                        updated.lemma_entry(j);
                        if j < last {
                            self.lemma_entry(j);
                        }
                    }
                    assert(updated@ =~= self@.insert(key, value));
                }
                updated
            },
        }
    }
}

} // verus!
