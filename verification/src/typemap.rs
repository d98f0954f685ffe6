//! A typed key-value store: a map from a stable type token to an opaque
//! value, with `put` overwriting any prior value under the same token.
//!
//! Type identity is represented by a caller-chosen 64-bit token; the `Key`
//! trait names the convention by which a marker type supplies its token.

use vstd::prelude::*;

verus! {

/// The relationship between a marker type and the token its values are
/// stored under.
pub trait Key {
    fn token() -> u64;
}

/// A map from type tokens to values of the store's value type.
pub struct TypeMap<V> {
    entries: Vec<(u64, V)>,
}

/// The map a list of entries denotes, later entries overriding earlier ones.
pub open spec fn map_of<V>(entries: Seq<(u64, V)>) -> Map<u64, V>
    decreases entries.len(),
{
    if entries.len() == 0 {
        Map::empty()
    } else {
        map_of(entries.drop_last()).insert(entries.last().0, entries.last().1)
    }
}

/// A token is in the denoted map exactly when some entry carries it.
proof fn lemma_map_of_contains<V>(entries: Seq<(u64, V)>, token: u64)
    ensures
        map_of(entries).contains_key(token) <==> exists|i: int|
            0 <= i < entries.len() && (#[trigger] entries[i]).0 == token,
    decreases entries.len(),
{
    if entries.len() > 0 {
        lemma_map_of_contains(entries.drop_last(), token);
        if entries.last().0 == token {
            assert(entries[entries.len() - 1].0 == token);
        } else if exists|i: int| 0 <= i < entries.len() && (#[trigger] entries[i]).0 == token {
            let i = choose|i: int| 0 <= i < entries.len() && (#[trigger] entries[i]).0 == token;
            assert(entries.drop_last()[i] == entries[i]);
        }
    }
}

/// With unique tokens, the denoted map sends an entry's token to its value.
proof fn lemma_map_of_index<V>(entries: Seq<(u64, V)>, i: int)
    requires
        forall|p: int, q: int|
            0 <= p < q < entries.len() ==> (#[trigger] entries[p]).0 != (#[trigger] entries[q]).0,
        0 <= i < entries.len(),
    ensures
        map_of(entries).contains_key(entries[i].0),
        map_of(entries)[entries[i].0] == entries[i].1,
    decreases entries.len(),
{
    if i == entries.len() - 1 {
    } else {
        lemma_map_of_index(entries.drop_last(), i);
        assert(entries.drop_last()[i] == entries[i]);
        assert(entries[i].0 != entries.last().0);
    }
}

/// With unique tokens, removing an entry removes exactly its token from the
/// denoted map.
proof fn lemma_map_of_remove<V>(entries: Seq<(u64, V)>, i: int)
    requires
        forall|p: int, q: int|
            0 <= p < q < entries.len() ==> (#[trigger] entries[p]).0 != (#[trigger] entries[q]).0,
        0 <= i < entries.len(),
    ensures
        map_of(entries.remove(i)) == map_of(entries).remove(entries[i].0),
    decreases entries.len(),
{
    lemma_map_of_contains(entries.drop_last(), entries.last().0);
    if i == entries.len() - 1 {
        assert(entries.remove(i) =~= entries.drop_last());
        assert(!map_of(entries.drop_last()).contains_key(entries.last().0));
        assert(map_of(entries.drop_last()) =~= map_of(entries).remove(entries[i].0));
    } else {
        lemma_map_of_remove(entries.drop_last(), i);
        assert(entries.drop_last()[i] == entries[i]);
        assert(entries.remove(i).drop_last() =~= entries.drop_last().remove(i));
        assert(entries.remove(i).last() == entries.last());
        assert(map_of(entries.remove(i)) == map_of(entries.drop_last().remove(i)).insert(
            entries.last().0,
            entries.last().1,
        ));
        assert(entries[i].0 != entries.last().0);
        assert(map_of(entries.drop_last()).remove(entries[i].0).insert(
            entries.last().0,
            entries.last().1,
        ) =~= map_of(entries).remove(entries[i].0));
    }
}

impl<V> View for TypeMap<V> {
    type V = Map<u64, V>;

    closed spec fn view(&self) -> Map<u64, V> {
        map_of(self.entries@)
    }
}

impl<V> TypeMap<V> {
    /// Every token occurs in at most one entry.
    #[verifier::type_invariant]
    closed spec fn wf(&self) -> bool {
        forall|p: int, q: int|
            0 <= p < q < self.entries@.len() ==> (#[trigger] self.entries@[p]).0 != (
            #[trigger] self.entries@[q]).0
    }

    /// Constructs a new, empty store.
    pub fn new() -> (r: Self)
        ensures
            r@ == Map::<u64, V>::empty(),
    {
        TypeMap { entries: Vec::new() }
    }

    /// The position of the entry carrying the token, if any.
    fn position(&self, token: u64) -> (r: Option<usize>)
        ensures
            match r {
                Some(i) => i < self.entries@.len() && self.entries@[i as int].0 == token,
                None => forall|i: int|
                    0 <= i < self.entries@.len() ==> (#[trigger] self.entries@[i]).0 != token,
            },
    {
        let mut i: usize = 0;
        while i < self.entries.len()
            invariant
                i <= self.entries@.len(),
                forall|k: int| 0 <= k < i ==> (#[trigger] self.entries@[k]).0 != token,
            decreases self.entries@.len() - i,
        {
            if self.entries[i].0 == token {
                return Some(i);
            }
            i = i + 1;
        }
        None
    }

    /// Stores a value under the token, handing back any value previously
    /// stored under it.
    pub fn put(&mut self, token: u64, value: V) -> (prior: Option<V>)
        ensures
            final(self)@ == old(self)@.insert(token, value),
            match prior {
                Some(p) => old(self)@.contains_key(token) && old(self)@[token] == p,
                None => !old(self)@.contains_key(token),
            },
    {
        proof {
            use_type_invariant(&*self);
            lemma_map_of_contains(self.entries@, token);
        }
        let found = self.position(token);
        let mut entries: Vec<(u64, V)> = Vec::new();
        core::mem::swap(&mut entries, &mut self.entries);
        let ghost orig = entries@;
        let prior: Option<V> = match found {
            Some(i) => {
                proof {
                    lemma_map_of_index(orig, i as int);
                    lemma_map_of_remove(orig, i as int);
                    orig.remove_ensures(i as int);
                }
                let entry = entries.remove(i);
                Some(entry.1)
            },
            None => None,
        };
        let ghost mid = entries@;
        proof {
            assert forall|k: int| 0 <= k < mid.len() implies (#[trigger] mid[k]).0 != token by {
                match found {
                    Some(i) => {
                        if k < i {
                            assert(mid[k] == orig[k]);
                        } else {
                            assert(mid[k] == orig[k + 1]);
                        }
                    },
                    None => {},
                }
            }
            assert forall|p: int, q: int|
                0 <= p < q < mid.len() implies (#[trigger] mid[p]).0 != (#[trigger] mid[q]).0 by {
                match found {
                    Some(i) => {
                        let p0 = if p < i {
                            p
                        } else {
                            p + 1
                        };
                        let q0 = if q < i {
                            q
                        } else {
                            q + 1
                        };
                        assert(mid[p] == orig[p0]);
                        assert(mid[q] == orig[q0]);
                    },
                    None => {},
                }
            }
            match found {
                Some(i) => {
                    assert(map_of(mid) == old(self)@.remove(token));
                },
                None => {
                    assert(map_of(mid) == old(self)@);
                },
            }
        }
        entries.push((token, value));
        proof {
            assert(entries@.drop_last() =~= mid);
            assert(entries@.last() == (token, value));
            assert(map_of(entries@) == map_of(mid).insert(token, value));
            match found {
                Some(i) => {
                    assert(old(self)@.remove(token).insert(token, value) =~= old(self)@.insert(
                        token,
                        value,
                    ));
                },
                None => {},
            }
            assert forall|p: int, q: int|
                0 <= p < q < entries@.len() implies (#[trigger] entries@[p]).0 != (
            #[trigger] entries@[q]).0 by {
                if q < entries@.len() - 1 {
                    assert(entries@[p] == mid[p]);
                    assert(entries@[q] == mid[q]);
                } else {
                    assert(entries@[p] == mid[p]);
                    assert(entries@[q] == (token, value));
                }
            }
        }
        self.entries = entries;
        prior
    }

    /// Whether a value is stored under the token.
    pub fn has(&self, token: u64) -> (r: bool)
        ensures
            r == self@.contains_key(token),
    {
        proof {
            use_type_invariant(&*self);
            lemma_map_of_contains(self.entries@, token);
        }
        match self.position(token) {
            Some(_) => true,
            None => false,
        }
    }

    /// The value stored under the token, if any.
    pub fn try_get(&self, token: u64) -> (r: Option<&V>)
        ensures
            match r {
                Some(v) => self@.contains_key(token) && self@[token] == *v,
                None => !self@.contains_key(token),
            },
    {
        proof {
            use_type_invariant(&*self);
            lemma_map_of_contains(self.entries@, token);
        }
        match self.position(token) {
            Some(i) => {
                proof {
                    lemma_map_of_index(self.entries@, i as int);
                }
                Some(&self.entries[i].1)
            },
            None => None,
        }
    }

    /// The value stored under the token; asking for an absent token is a
    /// caller error, ruled out by the precondition.
    pub fn get(&self, token: u64) -> (r: &V)
        requires
            self@.contains_key(token),
        ensures
            self@[token] == *r,
    {
        match self.try_get(token) {
            Some(v) => v,
            None => vstd::pervasive::unreached(),
        }
    }
}

} // verus!
