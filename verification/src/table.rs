//! A table keyed by a path of names, such as (object type, object key) or
//! (object type, object key, field).

use vstd::prelude::*;
use crate::value::text_views;

verus! {

/// Whether two paths are equal, name by name.
pub fn same_path(a: &Vec<String>, b: &Vec<String>) -> (r: bool)
    ensures
        r == (text_views(a@) == text_views(b@)),
{
    if a.len() != b.len() {
        assert(text_views(a@).len() != text_views(b@).len());
        return false;
    }
    let mut i: usize = 0;
    while i < a.len()
        invariant
            i <= a.len(),
            a.len() == b.len(),
            forall|j: int| 0 <= j < i ==> a@[j]@ == b@[j]@,
        decreases a.len() - i,
    {
        if !(a[i] == b[i]) {
            assert(text_views(a@)[i as int] != text_views(b@)[i as int]);
            return false;
        }
        i = i + 1;
    }
    assert(text_views(a@) =~= text_views(b@));
    true
}

/// A path of one name.
pub fn path1(a: &str) -> (p: Vec<String>)
    ensures
        text_views(p@) == seq![a@],
{
    let mut p: Vec<String> = Vec::new();
    p.push(a.to_owned());
    assert(text_views(p@) =~= seq![a@]);
    p
}

/// A path of two names.
pub fn path2(a: &str, b: &str) -> (p: Vec<String>)
    ensures
        text_views(p@) == seq![a@, b@],
{
    let mut p: Vec<String> = Vec::new();
    p.push(a.to_owned());
    p.push(b.to_owned());
    assert(text_views(p@) =~= seq![a@, b@]);
    p
}

/// A path of three names.
pub fn path3(a: &str, b: &str, c: &str) -> (p: Vec<String>)
    ensures
        text_views(p@) == seq![a@, b@, c@],
{
    let mut p: Vec<String> = Vec::new();
    p.push(a.to_owned());
    p.push(b.to_owned());
    p.push(c.to_owned());
    assert(text_views(p@) =~= seq![a@, b@, c@]);
    p
}

/// A table from paths to values. No path occurs twice.
pub struct PathTable<T> {
    keys: Vec<Vec<String>>,
    values: Vec<T>,
}

impl<T> PathTable<T> {
    /// The path stored at a place.
    pub closed spec fn key_at(&self, i: int) -> Seq<Seq<char>> {
        text_views(self.keys@[i]@)
    }

    /// The value stored at a place.
    pub closed spec fn value_at(&self, i: int) -> T {
        self.values@[i]
    }

    /// The number of places.
    pub closed spec fn places(&self) -> nat {
        self.keys@.len()
    }

    /// The invariant of the representation: every path has one place.
    pub closed spec fn inv(&self) -> bool {
        &&& self.keys@.len() == self.values@.len()
        &&& forall|i: int, j: int|
            0 <= i < self.keys@.len() && 0 <= j < self.keys@.len() && i != j ==> self.key_at(i)
                != self.key_at(j)
    }

    /// The table as a map.
    pub closed spec fn map(&self) -> Map<Seq<Seq<char>>, T> {
        Map::new(
            |p: Seq<Seq<char>>| exists|i: int| 0 <= i < self.places() && self.key_at(i) == p,
            |p: Seq<Seq<char>>|
                self.value_at(choose|i: int| 0 <= i < self.places() && self.key_at(i) == p),
        )
    }

    /// Every place holds a path of the map with its value, and every path of
    /// the map has a place.
    pub proof fn lemma_places(&self)
        requires
            self.inv(),
        ensures
            forall|i: int|
                0 <= i < self.places() ==> self.map().dom().contains(#[trigger] self.key_at(i))
                    && self.map()[self.key_at(i)] == self.value_at(i),
            forall|p: Seq<Seq<char>>|
                self.map().dom().contains(p) ==> exists|i: int|
                    0 <= i < self.places() && #[trigger] self.key_at(i) == p,
    {
        assert forall|i: int| 0 <= i < self.places() implies self.map().dom().contains(
            #[trigger] self.key_at(i),
        ) && self.map()[self.key_at(i)] == self.value_at(i) by {
            let p = self.key_at(i);
            let c = choose|c: int| 0 <= c < self.places() && self.key_at(c) == p;
            assert(c == i);
        }
    }

    /// An empty table.
    pub fn new() -> (t: Self)
        ensures
            t.inv(),
            t.map() == Map::<Seq<Seq<char>>, T>::empty(),
            t.places() == 0,
    {
        let t = PathTable { keys: Vec::new(), values: Vec::new() };
        assert(t.map() =~= Map::<Seq<Seq<char>>, T>::empty());
        t
    }

    /// The number of paths in the table.
    pub fn len(&self) -> (n: usize)
        requires
            self.inv(),
        ensures
            n == self.places(),
    {
        self.keys.len()
    }

    /// The place of a path, if the table holds it.
    pub fn find(&self, path: &Vec<String>) -> (r: Option<usize>)
        requires
            self.inv(),
        ensures
            r is Some <==> self.map().dom().contains(text_views(path@)),
            r matches Some(i) ==> i < self.places() && self.key_at(i as int) == text_views(path@)
                && self.map()[text_views(path@)] == self.value_at(i as int),
    {
        let mut i: usize = 0;
        while i < self.keys.len()
            invariant
                self.inv(),
                i <= self.keys.len(),
                forall|j: int| 0 <= j < i ==> self.key_at(j) != text_views(path@),
            decreases self.keys.len() - i,
        {
            if same_path(&self.keys[i], path) {
                proof {
                    self.lemma_places();
                    assert(self.key_at(i as int) == text_views(path@));
                }
                return Some(i);
            }
            i = i + 1;
        }
        proof {
            self.lemma_places();
        }
        None
    }

    /// The value at a place.
    pub fn value(&self, i: usize) -> (v: &T)
        requires
            self.inv(),
            i < self.places(),
        ensures
            *v == self.value_at(i as int),
    {
        &self.values[i]
    }

    /// Puts a value at a place that exists.
    pub fn replace(&mut self, i: usize, value: T)
        requires
            old(self).inv(),
            i < old(self).places(),
        ensures
            final(self).inv(),
            final(self).places() == old(self).places(),
            final(self).map() == old(self).map().insert(old(self).key_at(i as int), value),
            forall|j: int| 0 <= j < old(self).places() ==> final(self).key_at(j) == old(self).key_at(j),
    {
        proof {
            old(self).lemma_places();
        }
        self.values.set(i, value);
        proof {
            assert(self.keys@ == old(self).keys@);
            assert forall|j: int| 0 <= j < self.keys@.len() implies self.key_at(j) == old(
                self,
            ).key_at(j) by {}
            assert(self.inv());
            self.lemma_places();
            let target = old(self).map().insert(old(self).key_at(i as int), value);
            assert forall|p: Seq<Seq<char>>| self.map().dom().contains(p) <==> target.dom().contains(
                p,
            ) by {
                if self.map().dom().contains(p) {
                    let j = choose|j: int| 0 <= j < self.places() && self.key_at(j) == p;
                    assert(old(self).key_at(j) == p);
                }
                if old(self).map().dom().contains(p) {
                    let j = choose|j: int| 0 <= j < old(self).places() && old(self).key_at(j) == p;
                    assert(self.key_at(j) == p);
                }
                if p == old(self).key_at(i as int) {
                    assert(self.key_at(i as int) == p);
                }
            }
            assert forall|p: Seq<Seq<char>>| self.map().dom().contains(p) implies self.map()[p]
                == target[p] by {
                let j = choose|j: int| 0 <= j < self.places() && self.key_at(j) == p;
                assert(self.map()[self.key_at(j)] == self.value_at(j));
                assert(old(self).key_at(j) == p);
                assert(old(self).map()[old(self).key_at(j)] == old(self).value_at(j));
            }
            assert(self.map() =~= target);
        }
    }

    /// Adds a path that the table does not hold, with its value. Returns the
    /// place.
    pub fn add(&mut self, path: Vec<String>, value: T) -> (i: usize)
        requires
            old(self).inv(),
            !old(self).map().dom().contains(text_views(path@)),
        ensures
            final(self).inv(),
            i == old(self).places(),
            final(self).places() == old(self).places() + 1,
            final(self).key_at(i as int) == text_views(path@),
            final(self).map() == old(self).map().insert(text_views(path@), value),
            forall|j: int| 0 <= j < old(self).places() ==> final(self).key_at(j) == old(self).key_at(j),
    {
        proof {
            old(self).lemma_places();
        }
        let i = self.keys.len();
        self.keys.push(path);
        self.values.push(value);
        proof {
            assert forall|a: int, b: int|
                0 <= a < self.keys@.len() && 0 <= b < self.keys@.len() && a != b implies self.key_at(
                a,
            ) != self.key_at(b) by {
                if a < i && b < i {
                    assert(old(self).key_at(a) != old(self).key_at(b));
                } else if a < i {
                    assert(old(self).map().dom().contains(old(self).key_at(a)));
                } else if b < i {
                    assert(old(self).map().dom().contains(old(self).key_at(b)));
                }
            }
            self.lemma_places();
            let target = old(self).map().insert(text_views(path@), value);
            assert forall|p: Seq<Seq<char>>| self.map().dom().contains(p) <==> target.dom().contains(
                p,
            ) by {
                if self.map().dom().contains(p) {
                    let j = choose|j: int| 0 <= j < self.places() && self.key_at(j) == p;
                    if j < i {
                        assert(old(self).key_at(j) == p);
                    }
                }
                if old(self).map().dom().contains(p) {
                    let j = choose|j: int| 0 <= j < old(self).places() && old(self).key_at(j) == p;
                    assert(self.key_at(j) == p);
                }
                if p == text_views(path@) {
                    assert(self.key_at(i as int) == p);
                }
            }
            assert forall|p: Seq<Seq<char>>| self.map().dom().contains(p) implies self.map()[p]
                == target[p] by {
                let j = choose|j: int| 0 <= j < self.places() && self.key_at(j) == p;
                assert(self.map()[self.key_at(j)] == self.value_at(j));
                if j < i {
                    assert(old(self).key_at(j) == p);
                    assert(old(self).map()[old(self).key_at(j)] == old(self).value_at(j));
                }
            }
            assert(self.map() =~= target);
        }
        i
    }

    /// Puts a value under a path, whether the table holds the path or not.
    pub fn put(&mut self, path: Vec<String>, value: T)
        requires
            old(self).inv(),
        ensures
            final(self).inv(),
            final(self).map() == old(self).map().insert(text_views(path@), value),
    {
        match self.find(&path) {
            Some(i) => {
                self.replace(i, value);
            },
            None => {
                self.add(path, value);
            },
        }
    }
}

} // verus!
