//! Deduplicated string sets and last-wins string maps.
//!
//! These are the result shapes of extraction and scanning: a set of extracted
//! values and a map of version components. They are backed by plain vectors;
//! the set keeps one copy of each string, the map lets a later insertion of a
//! key overwrite an earlier one.

use vstd::prelude::*;

verus! {

/// The views of a sequence of strings.
pub open spec fn views_of(items: Seq<String>) -> Seq<Seq<char>> {
    items.map_values(|s: String| s@)
}

/// The set holding the first `n` entries of `items`.
pub open spec fn seq_set_upto(items: Seq<Seq<char>>, n: int) -> Set<Seq<char>>
    decreases n,
{
    if n <= 0 {
        Set::empty()
    } else {
        seq_set_upto(items, n - 1).insert(items[n - 1])
    }
}

/// The set holding the entries of `items`.
pub open spec fn seq_set(items: Seq<Seq<char>>) -> Set<Seq<char>> {
    seq_set_upto(items, items.len() as int)
}

pub proof fn lemma_seq_set_upto_contains(items: Seq<Seq<char>>, n: int, x: Seq<char>)
    requires
        n <= items.len(),
    ensures
        seq_set_upto(items, n).contains(x) <==> exists|i: int| 0 <= i < n && items[i] == x,
    decreases n,
{
    if n > 0 {
        lemma_seq_set_upto_contains(items, n - 1, x);
        if items[n - 1] == x {
            assert(seq_set_upto(items, n).contains(x));
        }
    }
}

/// Two sequences that agree on their first `n` entries build the same set.
pub proof fn lemma_seq_set_upto_agrees(a: Seq<Seq<char>>, b: Seq<Seq<char>>, n: int)
    requires
        forall|i: int| 0 <= i < n ==> a[i] == b[i],
    ensures
        seq_set_upto(a, n) == seq_set_upto(b, n),
    decreases n,
{
    if n > 0 {
        lemma_seq_set_upto_agrees(a, b, n - 1);
    }
}

/// A deduplicated set of strings, the result shape of an extraction and of a
/// scan. Its view is the set of the views of its members.
pub struct StringSet {
    items: Vec<String>,
}

impl View for StringSet {
    type V = Set<Seq<char>>;

    closed spec fn view(&self) -> Set<Seq<char>> {
        seq_set(views_of(self.items@))
    }
}

impl StringSet {
    pub fn new() -> (r: StringSet)
        ensures
            r@ == Set::<Seq<char>>::empty(),
    {
        let r = StringSet { items: Vec::new() };
        proof {
            assert(r@ =~= Set::<Seq<char>>::empty());
        }
        r
    }

    /// Whether `s` is a member of the set.
    pub fn contains(&self, s: &String) -> (r: bool)
        ensures
            r == self@.contains(s@),
    {
        let ghost vs = views_of(self.items@);
        let mut i: usize = 0;
        while i < self.items.len()
            invariant
                0 <= i <= self.items@.len(),
                vs == views_of(self.items@),
                forall|j: int| 0 <= j < i ==> vs[j] != s@,
            decreases self.items@.len() - i,
        {
            if *s == self.items[i] {
                proof {
                    assert(vs[i as int] == s@);
                    lemma_seq_set_upto_contains(vs, vs.len() as int, s@);
                }
                return true;
            }
            i += 1;
        }
        proof {
            lemma_seq_set_upto_contains(vs, vs.len() as int, s@);
        }
        false
    }

    /// Adds `s`; a string already present is kept once.
    pub fn insert(&mut self, s: String)
        ensures
            final(self)@ == old(self)@.insert(s@),
    {
        let ghost before = views_of(self.items@);
        if self.contains(&s) {
            proof {
                assert(old(self)@.insert(s@) =~= old(self)@);
            }
        } else {
            let ghost sv = s@;
            self.items.push(s);
            proof {
                let after = views_of(self.items@);
                assert(after =~= before.push(sv));
                lemma_seq_set_upto_agrees(after, before, before.len() as int);
                assert(after[before.len() as int] == sv);
                assert(final(self)@ =~= old(self)@.insert(sv));
            }
        }
    }

    /// Adds every string of `items`.
    pub fn insert_all(&mut self, items: &Vec<String>)
        ensures
            final(self)@ == old(self)@.union(seq_set(views_of(items@))),
    {
        let ghost vs = views_of(items@);
        let mut i: usize = 0;
        while i < items.len()
            invariant
                0 <= i <= items@.len(),
                vs == views_of(items@),
                self@ == old(self)@.union(seq_set_upto(vs, i as int)),
            decreases items@.len() - i,
        {
            let it = &items[i];
            self.insert(it.clone());
            proof {
                assert(self@ =~= old(self)@.union(seq_set_upto(vs, i as int + 1)));
            }
            i += 1;
        }
        proof {
            assert(self@ == old(self)@.union(seq_set(views_of(items@))));
        }
    }

    /// Whether the set has no member.
    pub fn is_empty(&self) -> (r: bool)
        ensures
            r == (self@ == Set::<Seq<char>>::empty()),
    {
        let ghost vs = views_of(self.items@);
        if self.items.len() == 0 {
            proof {
                assert(self@ =~= Set::<Seq<char>>::empty());
            }
            true
        } else {
            proof {
                lemma_seq_set_upto_contains(vs, vs.len() as int, vs[0]);
                assert(self@.contains(vs[0]));
                assert(self@ != Set::<Seq<char>>::empty());
            }
            false
        }
    }
}

/// The map holding the first `n` entries of `entries`, a later entry of a key
/// overwriting an earlier one.
pub open spec fn map_upto(entries: Seq<(String, String)>, n: int) -> Map<Seq<char>, Seq<char>>
    decreases n,
{
    if n <= 0 {
        Map::empty()
    } else {
        map_upto(entries, n - 1).insert(entries[n - 1].0@, entries[n - 1].1@)
    }
}

/// `base` extended with the first `n` entries of `entries`, last entry of a
/// key winning.
pub open spec fn merged_upto(
    base: Map<Seq<char>, Seq<char>>,
    entries: Seq<(String, String)>,
    n: int,
) -> Map<Seq<char>, Seq<char>>
    decreases n,
{
    if n <= 0 {
        base
    } else {
        merged_upto(base, entries, n - 1).insert(entries[n - 1].0@, entries[n - 1].1@)
    }
}

/// A string-to-string map with last-wins insertion, the version-component
/// result shape of an extraction.
pub struct VersionMap {
    entries: Vec<(String, String)>,
}

impl View for VersionMap {
    type V = Map<Seq<char>, Seq<char>>;

    closed spec fn view(&self) -> Map<Seq<char>, Seq<char>> {
        map_upto(self.entries@, self.entries@.len() as int)
    }
}

impl VersionMap {
    pub fn new() -> (r: VersionMap)
        ensures
            r@ == Map::<Seq<char>, Seq<char>>::empty(),
    {
        VersionMap { entries: Vec::new() }
    }

    /// Binds `key` to `value`, overwriting an earlier binding of `key`.
    pub fn insert(&mut self, key: String, value: String)
        ensures
            final(self)@ == old(self)@.insert(key@, value@),
    {
        self.entries.push((key, value));
        proof {
            let after = self.entries@;
            lemma_map_upto_agrees(after, old(self).entries@, old(self).entries@.len() as int);
        }
    }

    /// Merges a list of derived components into the map; within the list and
    /// against the map, a later binding of a key wins.
    pub fn insert_all(&mut self, components: &Vec<(String, String)>)
        ensures
            final(self)@ == merged_upto(old(self)@, components@, components@.len() as int),
    {
        let mut i: usize = 0;
        while i < components.len()
            invariant
                0 <= i <= components@.len(),
                self@ == merged_upto(old(self)@, components@, i as int),
            decreases components@.len() - i,
        {
            let pair = &components[i];
            self.insert(pair.0.clone(), pair.1.clone());
            i += 1;
        }
    }

    /// The value bound to `key`, if any.
    pub fn get(&self, key: &String) -> (r: Option<&String>)
        ensures
            match r {
                Some(v) => self@.contains_key(key@) && self@[key@] == v@,
                None => !self@.contains_key(key@),
            },
    {
        let ghost es = self.entries@;
        let mut i: usize = self.entries.len();
        while i > 0
            invariant
                0 <= i <= es.len(),
                es == self.entries@,
                forall|j: int| i <= j < es.len() ==> es[j].0@ != key@,
                self@ == map_upto(es, es.len() as int),
            decreases i,
        {
            i -= 1;
            if self.entries[i].0 == *key {
                proof {
                    lemma_map_upto_last(es, es.len() as int, i as int, key@);
                }
                return Some(&self.entries[i].1);
            }
        }
        proof {
            lemma_map_upto_absent(es, es.len() as int, key@);
        }
        None
    }

    /// Whether the map has no binding.
    pub fn is_empty(&self) -> (r: bool)
        ensures
            r == (self@ == Map::<Seq<char>, Seq<char>>::empty()),
    {
        if self.entries.len() == 0 {
            true
        } else {
            proof {
                assert(self@.contains_key(self.entries@[self.entries@.len() - 1].0@));
                assert(self@ != Map::<Seq<char>, Seq<char>>::empty());
            }
            false
        }
    }
}

/// Two entry sequences that agree on their first `n` entries build the same
/// map.
pub proof fn lemma_map_upto_agrees(a: Seq<(String, String)>, b: Seq<(String, String)>, n: int)
    requires
        forall|i: int| 0 <= i < n ==> a[i] == b[i],
    ensures
        map_upto(a, n) == map_upto(b, n),
    decreases n,
{
    if n > 0 {
        lemma_map_upto_agrees(a, b, n - 1);
    }
}

/// If entry `i` binds `key` and no later entry below `n` does, the map of the
/// first `n` entries binds `key` to entry `i`'s value.
proof fn lemma_map_upto_last(entries: Seq<(String, String)>, n: int, i: int, key: Seq<char>)
    requires
        0 <= i < n <= entries.len(),
        entries[i].0@ == key,
        forall|j: int| i < j < n ==> entries[j].0@ != key,
    ensures
        map_upto(entries, n).contains_key(key),
        map_upto(entries, n)[key] == entries[i].1@,
    decreases n,
{
    if i < n - 1 {
        lemma_map_upto_last(entries, n - 1, i, key);
    }
}

/// If no entry below `n` binds `key`, the map of the first `n` entries has no
/// binding for it.
proof fn lemma_map_upto_absent(entries: Seq<(String, String)>, n: int, key: Seq<char>)
    requires
        n <= entries.len(),
        forall|j: int| 0 <= j < n ==> entries[j].0@ != key,
    ensures
        !map_upto(entries, n).contains_key(key),
    decreases n,
{
    if n > 0 {
        lemma_map_upto_absent(entries, n - 1, key);
    }
}

} // verus!
