//! Sets of names and maps keyed by name, kept in the order in which the names came in.

use crate::name::{is_name, Name};
use vstd::prelude::*;

verus! {

/// The views of a list of names, in order.
pub open spec fn names(v: Seq<Name>) -> Seq<Seq<char>> {
    Seq::new(v.len(), |i: int| v[i]@)
}

/// The position of `name` among `v`, or `None` where it is not among them.
pub fn position(v: &Vec<Name>, name: &Name) -> (r: Option<usize>)
    ensures
        match r {
            Some(i) => i < v@.len() && v@[i as int]@ == name@ && !names(v@).take(i as int).contains(
                name@,
            ),
            None => !names(v@).contains(name@),
        },
{
    let mut i: usize = 0;
    while i < v.len()
        invariant
            i <= v@.len(),
            forall|j: int| 0 <= j < i ==> v@[j]@ != name@,
        decreases v@.len() - i,
    {
        if v[i] == *name {
            assert forall|j: int| 0 <= j < names(v@).take(i as int).len() implies names(v@).take(
                i as int,
            )[j] != name@ by {
                assert(names(v@).take(i as int)[j] == v@[j]@);
            }
            return Some(i);
        }
        i += 1;
    }
    assert forall|j: int| 0 <= j < names(v@).len() implies names(v@)[j] != name@ by {
        assert(names(v@)[j] == v@[j]@);
    }
    None
}

/// In a sequence without duplicates, an element is found where it stands.
pub proof fn lemma_index_of<A>(s: Seq<A>, i: int)
    requires
        s.no_duplicates(),
        0 <= i < s.len(),
    ensures
        s.contains(s[i]),
        s.index_of(s[i]) == i,
{
    assert(0 <= i < s.len() && s[i] == s[i]);
}

/// A set of names.
#[derive(Debug)]
pub struct NameSet {
    items: Vec<Name>,
}

impl View for NameSet {
    type V = Set<Seq<char>>;

    open spec fn view(&self) -> Set<Seq<char>> {
        self.order().to_set()
    }
}

impl NameSet {
    #[verifier::type_invariant]
    spec fn well_formed(self) -> bool {
        names(self.items@).no_duplicates()
    }

    /// The names of the set in the order in which they came in, each once.
    pub closed spec fn order(&self) -> Seq<Seq<char>> {
        names(self.items@)
    }

    /// The empty set.
    pub fn new() -> (r: NameSet)
        ensures
            r.order() == Seq::<Seq<char>>::empty(),
            r@ == Set::<Seq<char>>::empty(),
    {
        let r = NameSet { items: Vec::new() };
        assert(r.order() =~= Seq::<Seq<char>>::empty());
        assert(r@ =~= Set::<Seq<char>>::empty());
        r
    }

    /// How many names the set holds.
    pub fn len(&self) -> (n: usize)
        ensures
            n == self.order().len(),
            self.order().no_duplicates(),
    {
        proof {
            use_type_invariant(self);
        }
        self.items.len()
    }

    /// Whether the set holds no name.
    pub fn is_empty(&self) -> (b: bool)
        ensures
            b == (self@ == Set::<Seq<char>>::empty()),
            b == (self.order().len() == 0),
    {
        let b = self.items.len() == 0;
        proof {
            if b {
                assert(self@ =~= Set::<Seq<char>>::empty());
            } else {
                assert(self@.contains(self.order()[0]));
            }
        }
        b
    }

    /// Whether `name` is in the set.
    pub fn contains(&self, name: &Name) -> (b: bool)
        ensures
            b == self@.contains(name@),
    {
        let found = position(&self.items, name);
        proof {
            if let Some(i) = found {
                assert(self.order()[i as int] == name@);
            }
        }
        found.is_some()
    }

    /// The name at position `i` of the order.
    pub fn get(&self, i: usize) -> (r: &Name)
        requires
            i < self.order().len(),
        ensures
            r@ == self.order()[i as int],
            self@.contains(r@),
            is_name(r@),
    {
        assert(self.order()[i as int] == self.items@[i as int]@);
        let name = &self.items[i];
        let text = name.as_str();
        assert(is_name(text@));
        name
    }

    /// Puts `name` into the set and says whether it was new.
    pub fn insert(&mut self, name: Name) -> (fresh: bool)
        ensures
            fresh == !old(self)@.contains(name@),
            final(self)@ == old(self)@.insert(name@),
            final(self).order() == if fresh {
                old(self).order().push(name@)
            } else {
                old(self).order()
            },
    {
        proof {
            use_type_invariant(&*self);
        }
        let found = position(&self.items, &name);
        if let Some(i) = found {
            assert(self.order()[i as int] == name@);
            assert(self@ =~= old(self)@.insert(name@));
            false
        } else {
            let mut items: Vec<Name> = Vec::new();
            core::mem::swap(&mut self.items, &mut items);
            items.push(name);
            assert(names(items@) =~= old(self).order().push(name@));
            self.items = items;
            assert(self@ =~= old(self)@.insert(name@)) by {
                assert forall|k: Seq<char>| self@.contains(k) <==> old(self)@.insert(
                    name@,
                ).contains(k) by {
                    if self@.contains(k) {
                        let i = choose|i: int| 0 <= i < self.order().len() && self.order()[i] == k;
                        if i < old(self).order().len() {
                            assert(old(self).order()[i] == k);
                        }
                    }
                    if old(self)@.contains(k) {
                        let i = choose|i: int|
                            0 <= i < old(self).order().len() && old(self).order()[i] == k;
                        assert(self.order()[i] == k);
                    }
                    if k == name@ {
                        assert(self.order()[self.order().len() - 1] == k);
                    }
                }
            }
            true
        }
    }
}

impl Clone for NameSet {
    fn clone(&self) -> (r: Self)
        ensures
            r.order() == self.order(),
            r@ == self@,
    {
        proof {
            use_type_invariant(self);
        }
        let items = self.items.clone();
        assert(names(items@) =~= names(self.items@));
        NameSet { items }
    }
}

/// A map from names to values.
#[derive(Debug)]
pub struct NameMap<V> {
    entries: Vec<(Name, V)>,
}

impl<V> View for NameMap<V> {
    type V = Map<Seq<char>, V>;

    open spec fn view(&self) -> Map<Seq<char>, V> {
        Map::new(
            |k: Seq<char>| self.keys().contains(k),
            |k: Seq<char>| self.values()[self.keys().index_of(k)],
        )
    }
}

impl<V> NameMap<V> {
    #[verifier::type_invariant]
    spec fn well_formed(self) -> bool {
        self.keys().no_duplicates()
    }

    /// The keys of the map in the order in which they came in, each once.
    pub closed spec fn keys(&self) -> Seq<Seq<char>> {
        Seq::new(self.entries@.len(), |i: int| self.entries@[i].0@)
    }

    /// The values of the map, each at the position of its key.
    pub closed spec fn values(&self) -> Seq<V> {
        Seq::new(self.entries@.len(), |i: int| self.entries@[i].1)
    }

    /// The empty map.
    pub fn new() -> (r: NameMap<V>)
        ensures
            r.keys() == Seq::<Seq<char>>::empty(),
            r.values() == Seq::<V>::empty(),
            r@ == Map::<Seq<char>, V>::empty(),
    {
        let r = NameMap { entries: Vec::new() };
        assert(r.keys() =~= Seq::<Seq<char>>::empty());
        assert(r.values() =~= Seq::<V>::empty());
        assert(r@ =~= Map::<Seq<char>, V>::empty());
        r
    }

    /// How many keys the map holds.
    pub fn len(&self) -> (n: usize)
        ensures
            n == self.keys().len(),
            n == self.values().len(),
            self.keys().no_duplicates(),
    {
        proof {
            use_type_invariant(self);
        }
        self.entries.len()
    }

    /// The position of `name` among the keys.
    pub fn find(&self, name: &Name) -> (r: Option<usize>)
        ensures
            self.keys().len() == self.values().len(),
            match r {
                Some(i) => {
                    &&& i < self.keys().len()
                    &&& self.keys()[i as int] == name@
                    &&& self@.contains_key(name@)
                    &&& self@[name@] == self.values()[i as int]
                },
                None => !self@.contains_key(name@),
            },
    {
        proof {
            use_type_invariant(self);
        }
        let mut i: usize = 0;
        while i < self.entries.len()
            invariant
                i <= self.entries@.len(),
                self.keys().no_duplicates(),
                forall|j: int| 0 <= j < i ==> self.entries@[j].0@ != name@,
            decreases self.entries@.len() - i,
        {
            if self.entries[i].0 == *name {
                assert(self.keys()[i as int] == name@);
                proof {
                    lemma_index_of(self.keys(), i as int);
                }
                return Some(i);
            }
            i += 1;
        }
        assert forall|j: int| 0 <= j < self.keys().len() implies self.keys()[j] != name@ by {
            assert(self.keys()[j] == self.entries@[j].0@);
        }
        None
    }

    /// Whether the map holds the key `name`.
    pub fn contains_key(&self, name: &Name) -> (b: bool)
        ensures
            b == self@.contains_key(name@),
    {
        self.find(name).is_some()
    }

    /// The value of `name`, where the map holds the key.
    pub fn get(&self, name: &Name) -> (r: Option<&V>)
        ensures
            match r {
                Some(v) => self@.contains_key(name@) && self@[name@] == *v,
                None => !self@.contains_key(name@),
            },
    {
        match self.find(name) {
            Some(i) => Some(&self.entries[i].1),
            None => None,
        }
    }

    /// The key at position `i`.
    pub fn key_at(&self, i: usize) -> (r: &Name)
        requires
            i < self.keys().len(),
        ensures
            r@ == self.keys()[i as int],
            self@.contains_key(r@),
            is_name(r@),
    {
        assert(self.keys()[i as int] == self.entries@[i as int].0@);
        let name = &self.entries[i].0;
        let text = name.as_str();
        assert(is_name(text@));
        name
    }

    /// The value at position `i`.
    pub fn value_at(&self, i: usize) -> (r: &V)
        requires
            i < self.keys().len(),
        ensures
            i < self.values().len(),
            *r == self.values()[i as int],
            self@[self.keys()[i as int]] == *r,
    {
        proof {
            use_type_invariant(self);
            lemma_index_of(self.keys(), i as int);
        }
        &self.entries[i].1
    }

    /// The keys with their values, in the order of the keys.
    pub fn into_entries(self) -> (r: Vec<(Name, V)>)
        ensures
            r@.len() == self.keys().len(),
            forall|i: int|
                0 <= i < r@.len() ==> (#[trigger] r@[i]).0@ == self.keys()[i] && r@[i].1
                    == self.values()[i],
    {
        self.entries
    }

    /// Sets the value of `name`, which becomes the last key where it is new.
    pub fn insert(&mut self, name: Name, value: V)
        ensures
            final(self)@ == old(self)@.insert(name@, value),
            final(self).keys() == if old(self)@.contains_key(name@) {
                old(self).keys()
            } else {
                old(self).keys().push(name@)
            },
    {
        proof {
            use_type_invariant(&*self);
        }
        let found = self.find(&name);
        let mut entries: Vec<(Name, V)> = Vec::new();
        core::mem::swap(&mut self.entries, &mut entries);
        let ghost key = name@;
        match found {
            Some(i) => {
                entries[i] = (name, value);
            },
            None => {
                entries.push((name, value));
            },
        }
        let ghost new_keys = Seq::new(entries@.len(), |i: int| entries@[i].0@);
        proof {
            match found {
                Some(i) => {
                    assert(new_keys =~= old(self).keys());
                },
                None => {
                    assert(new_keys =~= old(self).keys().push(key));
                },
            }
        }
        self.entries = entries;
        proof {
            assert(self.keys() == new_keys);
            assert forall|k: Seq<char>| #[trigger]
                self@.contains_key(k) == old(self)@.insert(key, value).contains_key(k) by {
                if old(self).keys().contains(k) {
                    let j = choose|j: int| 0 <= j < old(self).keys().len() && old(self).keys()[j] == k;
                    assert(new_keys[j] == k);
                }
                if k == key {
                    match found {
                        Some(i) => {},
                        None => {
                            assert(new_keys[new_keys.len() - 1] == k);
                        },
                    }
                }
            }
            assert forall|k: Seq<char>| #[trigger] self@.contains_key(k) implies self@[k]
                == old(self)@.insert(key, value)[k] by {
                let j = self.keys().index_of(k);
                assert(self.keys()[j] == k);
                if k == key {
                    match found {
                        Some(i) => {
                            assert(j == i);
                        },
                        None => {
                            assert(self.keys()[self.keys().len() - 1] == k);
                            assert(j == self.keys().len() - 1);
                        },
                    }
                } else {
                    assert(old(self).keys()[j] == k);
                    assert(old(self).keys().index_of(k) == j);
                }
            }
            assert(self@ =~= old(self)@.insert(key, value));
        }
    }
}

} // verus!
