//! Base images that have been converted already.
use vstd::prelude::*;
use crate::text::same_text;

verus! {

/// A cached conversion.
struct CacheEntry {
    key: String,
    path: String,
}

/// Maps a base image to the file that it was converted to.
pub struct Ext4Cache {
    entries: Vec<CacheEntry>,
}

impl Ext4Cache {
    /// The position of `key` among the entries.
    spec fn holds_at(self, key: Seq<char>, i: int) -> bool {
        0 <= i < self.entries@.len() && self.entries@[i].key@ == key
    }

    /// No key occurs twice.
    pub closed spec fn wf(self) -> bool {
        forall|i: int, j: int|
            0 <= i < j < self.entries@.len() ==> #[trigger] self.entries@[i].key@
                != #[trigger] self.entries@[j].key@
    }
}

impl View for Ext4Cache {
    type V = Map<Seq<char>, Seq<char>>;

    closed spec fn view(&self) -> Map<Seq<char>, Seq<char>> {
        Map::new(
            |key: Seq<char>| exists|i: int| self.holds_at(key, i),
            |key: Seq<char>| self.entries@[choose|i: int| self.holds_at(key, i)].path@,
        )
    }
}

impl Ext4Cache {
    /// An empty cache.
    pub fn new() -> (r: Ext4Cache)
        ensures
            r.wf(),
            r@ == Map::<Seq<char>, Seq<char>>::empty(),
    {
        let r = Ext4Cache { entries: Vec::new() };
        assert(r@ =~= Map::<Seq<char>, Seq<char>>::empty());
        r
    }

    /// Under the invariant an entry is what its key maps to.
    proof fn lemma_entry(&self, i: int)
        requires
            self.wf(),
            0 <= i < self.entries@.len(),
        ensures
            self@.contains_key(self.entries@[i].key@),
            self@[self.entries@[i].key@] == self.entries@[i].path@,
    {
        let key = self.entries@[i].key@;
        assert(self.holds_at(key, i));
        let j = choose|j: int| self.holds_at(key, j);
        assert(self.holds_at(key, j));
        assert(i == j);
    }

    /// The file that `key` was converted to.
    pub fn get(&self, key: &str) -> (r: Option<String>)
        requires
            self.wf(),
        ensures
            r is Some <==> self@.contains_key(key@),
            r matches Some(path) ==> path@ == self@[key@],
    {
        let mut i: usize = 0;
        while i < self.entries.len()
            invariant
                i <= self.entries@.len(),
                self.wf(),
                forall|j: int| 0 <= j < i ==> #[trigger] self.entries@[j].key@ != key@,
            decreases self.entries@.len() - i,
        {
            if same_text(self.entries[i].key.as_str(), key) {
                proof {
                    self.lemma_entry(i as int);
                }
                return Some(self.entries[i].path.clone());
            }
            i = i + 1;
        }
        assert forall|j: int| !self.holds_at(key@, j) by {}
        None
    }

    /// Maps `key` to `path`, in place of what it was mapped to before.
    pub fn insert(&mut self, key: String, path: String)
        requires
            old(self).wf(),
        ensures
            final(self).wf(),
            final(self)@ == old(self)@.insert(key@, path@),
    {
        let ghost before = *self;
        let mut i: usize = 0;
        while i < self.entries.len() && !same_text(self.entries[i].key.as_str(), key.as_str())
            invariant
                *self == before,
                i <= self.entries@.len(),
                forall|j: int| 0 <= j < i ==> #[trigger] self.entries@[j].key@ != key@,
            decreases self.entries@.len() - i,
        {
            i = i + 1;
        }
        let entry = CacheEntry { key, path };
        if i < self.entries.len() {
            self.entries.set(i, entry);
        } else {
            self.entries.push(entry);
        }
        proof {
            assert(self.entries@[i as int] == entry);
            assert forall|j: int| 0 <= j < self.entries@.len() && j != i implies
                #[trigger] self.entries@[j] == before.entries@[j] by {}
            assert(self.wf());
            let now = self@;
            let then = before@.insert(key@, path@);
            assert forall|k: Seq<char>| now.contains_key(k) == then.contains_key(k) by {
                if now.contains_key(k) && k != key@ {
                    let j = choose|j: int| self.holds_at(k, j);
                    assert(before.holds_at(k, j));
                }
                if then.contains_key(k) {
                    if k == key@ {
                        assert(self.holds_at(k, i as int));
                    } else {
                        let j = choose|j: int| before.holds_at(k, j);
                        assert(self.holds_at(k, j));
                    }
                }
            }
            assert forall|k: Seq<char>| now.contains_key(k) implies now[k] == then[k] by {
                let j = choose|j: int| self.holds_at(k, j);
                self.lemma_entry(j);
                if k == key@ {
                    self.lemma_entry(i as int);
                } else {
                    assert(j != i);
                    before.lemma_entry(j);
                }
            }
            assert(now =~= then);
        }
    }
}

} // verus!
