//! An association from service names to values.
//!
//! The routing topology binds each service name to exactly one value (a
//! backend address, or a tunnel description). The map is built once while the
//! topology is loaded and only read afterwards, so connection handlers may
//! share it freely.

use vstd::prelude::*;

verus! {

/// The finite map described by a sequence of (name, value) entries, where a
/// later entry for the same name replaces an earlier one.
pub open spec fn map_of_entries<T>(entries: Seq<(Seq<char>, T)>) -> Map<Seq<char>, T>
    decreases entries.len(),
{
    if entries.len() == 0 {
        Map::empty()
    } else {
        map_of_entries(entries.drop_last()).insert(entries.last().0, entries.last().1)
    }
}

proof fn lemma_map_of_entries_contains<T>(entries: Seq<(Seq<char>, T)>, k: Seq<char>)
    ensures
        map_of_entries(entries).contains_key(k) <==> exists|i: int|
            0 <= i < entries.len() && entries[i].0 == k,
    decreases entries.len(),
{
    if entries.len() > 0 {
        lemma_map_of_entries_contains(entries.drop_last(), k);
        if entries.last().0 != k {
            if exists|i: int| 0 <= i < entries.len() && entries[i].0 == k {
                let i = choose|i: int| 0 <= i < entries.len() && entries[i].0 == k;
                assert(entries.drop_last()[i] == entries[i]);
            }
        }
    }
}

proof fn lemma_map_of_entries_get<T>(entries: Seq<(Seq<char>, T)>, i: int)
    requires
        0 <= i < entries.len(),
        forall|j: int| i < j < entries.len() ==> entries[j].0 != entries[i].0,
    ensures
        map_of_entries(entries).contains_key(entries[i].0),
        map_of_entries(entries)[entries[i].0] == entries[i].1,
    decreases entries.len(),
{
    if i == entries.len() - 1 {
    } else {
        assert(entries.drop_last()[i] == entries[i]);
        lemma_map_of_entries_get(entries.drop_last(), i);
    }
}

proof fn lemma_map_of_entries_update<T>(entries: Seq<(Seq<char>, T)>, i: int, v: T)
    requires
        0 <= i < entries.len(),
        forall|p: int, q: int| 0 <= p < q < entries.len() ==> entries[p].0 != entries[q].0,
    ensures
        map_of_entries(entries.update(i, (entries[i].0, v))) == map_of_entries(entries).insert(
            entries[i].0,
            v,
        ),
    decreases entries.len(),
{
    let updated = entries.update(i, (entries[i].0, v));
    if i == entries.len() - 1 {
        assert(updated.drop_last() =~= entries.drop_last());
        assert(map_of_entries(updated) =~= map_of_entries(entries).insert(entries[i].0, v));
    } else {
        assert(updated.drop_last() =~= entries.drop_last().update(i, (entries[i].0, v)));
        assert(entries.drop_last()[i] == entries[i]);
        lemma_map_of_entries_update(entries.drop_last(), i, v);
        assert(updated.last() == entries.last());
        assert(entries.last().0 != entries[i].0);
        assert(map_of_entries(updated) =~= map_of_entries(entries).insert(entries[i].0, v));
    }
}

proof fn lemma_map_of_entries_push<T>(entries: Seq<(Seq<char>, T)>, k: Seq<char>, v: T)
    ensures
        map_of_entries(entries.push((k, v))) == map_of_entries(entries).insert(k, v),
{
    assert(entries.push((k, v)).drop_last() =~= entries);
}

/// An immutable map from service names to values, each name bound at most
/// once.
pub struct NameMap<V> {
    pairs: Vec<(String, V)>,
}

impl<V: View> NameMap<V> {
    /// The entries in insertion order, as (name, value) pairs.
    pub closed spec fn entries_view(self) -> Seq<(Seq<char>, V::V)> {
        self.pairs@.map(|_i: int, p: (String, V)| (p.0@, p.1@))
    }

    /// Every name is bound at most once.
    pub closed spec fn wf(self) -> bool {
        forall|i: int, j: int|
            0 <= i < j < self.pairs@.len() ==> #[trigger] self.pairs@[i].0@ != #[trigger] self.pairs@[j].0@
    }

    /// An empty map.
    pub fn new() -> (r: Self)
        ensures
            r@ == Map::<Seq<char>, V::V>::empty(),
            r.wf(),
            r.entries_view() == Seq::<(Seq<char>, V::V)>::empty(),
    {
        let r = NameMap { pairs: Vec::new() };
        proof {
            assert(r.entries_view() =~= Seq::<(Seq<char>, V::V)>::empty());
        }
        r
    }

    /// Binds `name` to `value`, replacing any earlier binding of `name`.
    pub fn insert(&mut self, name: String, value: V)
        requires
            old(self).wf(),
        ensures
            final(self).wf(),
            final(self)@ == old(self)@.insert(name@, value@),
    {
        let ghost entries = self.entries_view();
        let n = self.pairs.len();
        for i in 0..n
            invariant
                n == self.pairs.len(),
                self == old(self),
                old(self).wf(),
                entries == self.entries_view(),
                entries.len() == n,
                forall|j: int| 0 <= j < i ==> self.pairs@[j].0@ != name@,
        {
            if self.pairs[i].0 == *(&name) {
                let ghost k = self.pairs@[i as int].0@;
                proof {
                    assert(entries[i as int] == (k, self.pairs@[i as int].1@));
                }
                self.pairs.set(i, (name, value));
                proof {
                    assert forall|p: int, q: int|
                        0 <= p < q < entries.len() implies entries[p].0 != entries[q].0 by {
                        assert(entries[p].0 == old(self).pairs@[p].0@);
                        assert(entries[q].0 == old(self).pairs@[q].0@);
                    }
                    assert(self.entries_view() =~= entries.update(i as int, (k, value@)));
                    lemma_map_of_entries_update(entries, i as int, value@);
                    assert forall|p: int, q: int|
                        0 <= p < q < self.pairs@.len() implies self.pairs@[p].0@
                        != self.pairs@[q].0@ by {
                        assert(self.pairs@[i as int].0@ == old(self).pairs@[i as int].0@);
                        assert(self.pairs@[p].0@ == old(self).pairs@[p].0@);
                        assert(self.pairs@[q].0@ == old(self).pairs@[q].0@);
                        assert(old(self).pairs@[p].0@ != old(self).pairs@[q].0@);
                    }
                }
                return ;
            }
        }
        self.pairs.push((name, value));
        proof {
            assert(self.entries_view() =~= entries.push((name@, value@)));
            lemma_map_of_entries_push(entries, name@, value@);
            assert(forall|p: int|
                0 <= p < entries.len() ==> #[trigger] self.pairs@[p] == old(self).pairs@[p]);
        }
    }

    /// Whether `name` is bound.
    pub fn contains_key(&self, name: &String) -> (r: bool)
        ensures
            r <==> self@.contains_key(name@),
    {
        let n = self.pairs.len();
        for i in 0..n
            invariant
                n == self.pairs.len(),
                forall|j: int| 0 <= j < i ==> self.pairs@[j].0@ != name@,
        {
            if self.pairs[i].0 == *name {
                proof {
                    assert(self.entries_view()[i as int].0 == name@);
                    lemma_map_of_entries_contains(self.entries_view(), name@);
                }
                return true;
            }
        }
        proof {
            lemma_map_of_entries_contains(self.entries_view(), name@);
        }
        false
    }

    /// The value bound to `name`, when one is.
    pub fn get<'a>(&'a self, name: &String) -> (r: Option<&'a V>)
        requires
            self.wf(),
        ensures
            r is Some <==> self@.contains_key(name@),
            r matches Some(v) ==> self@[name@] == v@,
    {
        let n = self.pairs.len();
        for i in 0..n
            invariant
                n == self.pairs.len(),
                self.wf(),
                forall|j: int| 0 <= j < i ==> self.pairs@[j].0@ != name@,
        {
            if self.pairs[i].0 == *name {
                proof {
                    assert(self.entries_view()[i as int].0 == name@);
                    assert(forall|j: int|
                        i < j < self.entries_view().len() ==> #[trigger] self.entries_view()[j].0
                            != name@);
                    lemma_map_of_entries_contains(self.entries_view(), name@);
                    lemma_map_of_entries_get(self.entries_view(), i as int);
                }
                return Some(&self.pairs[i].1);
            }
        }
        proof {
            lemma_map_of_entries_contains(self.entries_view(), name@);
        }
        None
    }

    /// How many names are bound.
    pub fn len(&self) -> (n: usize)
        ensures
            n == self.entries_view().len(),
    {
        self.pairs.len()
    }

    /// The entry at position `i` in insertion order.
    pub fn entry_at<'a>(&'a self, i: usize) -> (r: &'a (String, V))
        requires
            i < self.entries_view().len(),
            self.wf(),
        ensures
            r.0@ == self.entries_view()[i as int].0,
            r.1@ == self.entries_view()[i as int].1,
            self@.contains_key(r.0@),
            self@[r.0@] == r.1@,
    {
        proof {
            lemma_map_of_entries_contains(self.entries_view(), self.entries_view()[i as int].0);
            lemma_map_of_entries_get(self.entries_view(), i as int);
        }
        &self.pairs[i]
    }
}

impl<V: View> View for NameMap<V> {
    type V = Map<Seq<char>, V::V>;

    open spec fn view(&self) -> Map<Seq<char>, V::V> {
        map_of_entries(self.entries_view())
    }
}

} // verus!
