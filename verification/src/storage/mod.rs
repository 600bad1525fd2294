//! Storage of metric bundles: the name-to-entry tables both storage
//! flavours are built on, grown by the mutable flavour and fixed by the
//! immutable one.

pub mod immutable;
pub mod mutable;

use vstd::prelude::*;

use crate::metric::{
    distinct_keys, find_pair_index, lemma_pair_map_contains, lemma_pair_map_finite,
    lemma_pair_map_get, lemma_pair_map_len, lemma_pair_map_push, lemma_pair_map_update, pair_map,
};

pub use self::{immutable::Storage as Immutable, mutable::Storage as Mutable};

verus! {

/// Name identifying a bundle stored in a storage.
pub type KeyName = String;

/// The (name, value) view of a table's entries.
pub open spec fn entry_views<M>(s: Seq<(KeyName, M)>) -> Seq<(Seq<char>, M)> {
    s.map_values(|p: (KeyName, M)| (p.0@, p.1))
}

/// A table from metric name to entry, one entry per name.
///
/// Viewed as the finite map its entries describe.
pub struct Collection<M> {
    /// The entries, no two sharing a name.
    entries: Vec<(KeyName, M)>,
}

impl<M> View for Collection<M> {
    type V = Map<Seq<char>, M>;

    closed spec fn view(&self) -> Map<Seq<char>, M> {
        pair_map(entry_views(self.entries@))
    }
}

impl<M> Collection<M> {
    /// No two entries share a name.
    pub closed spec fn wf(self) -> bool {
        distinct_keys(entry_views(self.entries@))
    }

    /// An empty table.
    pub fn new() -> (c: Self)
        ensures
            c.wf(),
            c@ == Map::<Seq<char>, M>::empty(),
    {
        let c = Collection { entries: Vec::new() };
        proof {
            assert(entry_views(c.entries@) =~= Seq::empty());
        }
        c
    }

    /// The number of entries.
    pub fn len(&self) -> (n: usize)
        requires
            self.wf(),
        ensures
            n == self@.dom().len(),
    {
        proof {
            lemma_pair_map_len(entry_views(self.entries@));
        }
        self.entries.len()
    }

    /// The entry under `name`, if any.
    pub fn get(&self, name: &str) -> (r: Option<&M>)
        requires
            self.wf(),
        ensures
            match r {
                Some(m) => self@.dom().contains(name@) && *m == self@[name@],
                None => !self@.dom().contains(name@),
            },
    {
        let owned: KeyName = name.to_owned();
        proof {
            lemma_pair_map_contains(entry_views(self.entries@), name@);
        }
        match find_pair_index(&self.entries, &owned) {
            Some(i) => {
                proof {
                    lemma_pair_map_get(entry_views(self.entries@), i as int);
                }
                Some(&self.entries[i].1)
            },
            None => None,
        }
    }

    /// Puts `value` under `name`, replacing any entry already there.
    pub fn insert(&mut self, name: KeyName, value: M)
        requires
            old(self).wf(),
        ensures
            final(self).wf(),
            final(self)@ == old(self)@.insert(name@, value),
    {
        let ghost evs = entry_views(self.entries@);
        match find_pair_index(&self.entries, &name) {
            Some(i) => {
                let entry = &mut self.entries[i];
                entry.1 = value;
                proof {
                    assert(entry_views(self.entries@) =~= evs.update(i as int, (evs[i as int].0, value)));
                    lemma_pair_map_update(evs, i as int, value);
                    assert(evs[i as int].0 == name@);
                }
            },
            None => {
                self.entries.push((name, value));
                proof {
                    assert(entry_views(self.entries@) =~= evs.push((name@, value)));
                    lemma_pair_map_push(evs, (name@, value));
                }
            },
        }
    }

    /// Takes the entry under `name` out of the table, if any.
    pub fn remove(&mut self, name: &str) -> (r: Option<M>)
        requires
            old(self).wf(),
        ensures
            final(self).wf(),
            match r {
                Some(m) => old(self)@.dom().contains(name@) && m == old(self)@[name@]
                    && final(self)@ == old(self)@.remove(name@),
                None => !old(self)@.dom().contains(name@) && *final(self) == *old(self),
            },
    {
        let owned: KeyName = name.to_owned();
        let ghost evs = entry_views(self.entries@);
        proof {
            lemma_pair_map_contains(evs, name@);
        }
        match find_pair_index(&self.entries, &owned) {
            Some(i) => {
                let (_gone_name, value) = self.entries.remove(i);
                proof {
                    assert(entry_views(self.entries@) =~= evs.remove(i as int));
                    lemma_pair_map_get(evs, i as int);
                    lemma_pair_map_remove(evs, i as int);
                    assert(evs[i as int].0 == name@);
                }
                Some(value)
            },
            None => None,
        }
    }

    /// The table's map has finitely many names.
    pub proof fn lemma_finite(self)
        ensures
            self@.dom().finite(),
    {
        lemma_pair_map_finite(entry_views(self.entries@));
    }

    /// Takes the whole table, leaving this one empty.
    pub fn take(&mut self) -> (t: Self)
        requires
            old(self).wf(),
        ensures
            final(self).wf(),
            final(self)@ == Map::<Seq<char>, M>::empty(),
            t == *old(self),
    {
        let mut t = Collection::new();
        std::mem::swap(&mut t, self);
        t
    }

    /// Takes some entry out of the table, or reports it empty.
    pub fn pop(&mut self) -> (r: Option<(KeyName, M)>)
        requires
            old(self).wf(),
        ensures
            final(self).wf(),
            match r {
                Some(p) => old(self)@.dom().contains(p.0@) && p.1 == old(self)@[p.0@]
                    && final(self)@ == old(self)@.remove(p.0@),
                None => old(self)@ == Map::<Seq<char>, M>::empty() && *final(self) == *old(self),
            },
    {
        let ghost evs = entry_views(self.entries@);
        if self.entries.len() == 0 {
            proof {
                assert(evs =~= Seq::empty());
            }
            None
        } else {
            let i = self.entries.len() - 1;
            let (name, value) = self.entries.remove(i);
            proof {
                assert(entry_views(self.entries@) =~= evs.remove(i as int));
                lemma_pair_map_get(evs, i as int);
                lemma_pair_map_remove(evs, i as int);
            }
            Some((name, value))
        }
    }
}

/// Removing the entry at `i`, under distinct names, removes its name from
/// the map.
pub proof fn lemma_pair_map_remove<M>(s: Seq<(Seq<char>, M)>, i: int)
    requires
        distinct_keys(s),
        0 <= i < s.len(),
    ensures
        distinct_keys(s.remove(i)),
        pair_map(s.remove(i)) =~= pair_map(s).remove(s[i].0),
    decreases s.len(),
{
    lemma_pair_map_contains(s.drop_last(), s.last().0);
    if i == s.len() - 1 {
        assert(s.remove(i) =~= s.drop_last());
        assert(!pair_map(s.drop_last()).dom().contains(s.last().0));
    } else {
        assert(distinct_keys(s.drop_last()));
        lemma_pair_map_remove(s.drop_last(), i);
        assert(s.remove(i).drop_last() =~= s.drop_last().remove(i));
        assert(s.remove(i).last() == s.last());
        assert(s.drop_last()[i] == s[i]);
        assert(s.last().0 != s[i].0);
    }
}

/// Retrieving a per-kind table from a storage.
pub trait Get<C>: Sized {
    /// The table this storage holds for the kind.
    spec fn collection_spec(&self) -> C;

    /// Returns the kind's table.
    fn collection(&self) -> (c: &C)
        ensures
            *c == self.collection_spec(),
    ;
}

} // verus!
