//! The transition registry: a lookup table from transition names to
//! transition instances.
//!
//! The registry is a field of every module processing context, so each
//! context carries its own set of selectable transitions. Its default value
//! is the empty mapping, and looking up a name that is not present is a
//! normal absence result, never an error.

use vstd::prelude::*;
use vstd::set::axiom_set_empty_len;
use vstd::set::axiom_set_insert_len;

verus! {

/// True when no two entries carry the same name.
spec fn unique_keys<T>(entries: Seq<(String, T)>) -> bool {
    forall|i: int, j: int|
        0 <= i < j < entries.len() ==> entries[i].0@ != entries[j].0@
}

/// The mapping represented by a sequence of name/transition entries; a later
/// entry for a name shadows an earlier one.
spec fn entries_map<T>(entries: Seq<(String, T)>) -> Map<Seq<char>, T>
    decreases entries.len(),
{
    if entries.len() == 0 {
        Map::empty()
    } else {
        entries_map(entries.drop_last()).insert(entries.last().0@, entries.last().1)
    }
}

proof fn lemma_entries_map_contains<T>(entries: Seq<(String, T)>, name: Seq<char>)
    ensures
        entries_map(entries).contains_key(name) <==> (exists|i: int|
            0 <= i < entries.len() && entries[i].0@ == name),
    decreases entries.len(),
{
    if entries.len() > 0 {
        lemma_entries_map_contains(entries.drop_last(), name);
        if entries.last().0@ != name && entries_map(entries).contains_key(name) {
            let i = choose|i: int|
                0 <= i < entries.drop_last().len() && entries.drop_last()[i].0@ == name;
            assert(entries[i].0@ == name);
        }
        if exists|i: int| 0 <= i < entries.len() && entries[i].0@ == name {
            let i = choose|i: int| 0 <= i < entries.len() && entries[i].0@ == name;
            if i < entries.len() - 1 {
                assert(entries.drop_last()[i].0@ == name);
            }
        }
    }
}

proof fn lemma_entries_map_index<T>(entries: Seq<(String, T)>, i: int)
    requires
        unique_keys(entries),
        0 <= i < entries.len(),
    ensures
        entries_map(entries).contains_key(entries[i].0@),
        entries_map(entries)[entries[i].0@] == entries[i].1,
    decreases entries.len(),
{
    if i == entries.len() - 1 {
        assert(entries.last() == entries[i]);
    } else {
        lemma_entries_map_index(entries.drop_last(), i);
        assert(entries.drop_last()[i] == entries[i]);
        assert(entries.last().0@ != entries[i].0@);
    }
}

proof fn lemma_entries_map_len<T>(entries: Seq<(String, T)>)
    requires
        unique_keys(entries),
    ensures
        entries_map(entries).dom().finite(),
        entries_map(entries).dom().len() == entries.len(),
    decreases entries.len(),
{
    if entries.len() > 0 {
        let prefix = entries.drop_last();
        lemma_entries_map_len(prefix);
        lemma_entries_map_contains(prefix, entries.last().0@);
        assert(forall|i: int|
            0 <= i < prefix.len() ==> prefix[i].0@ != entries.last().0@);
        assert(!entries_map(prefix).contains_key(entries.last().0@));
        axiom_set_insert_len(entries_map(prefix).dom(), entries.last().0@);
        assert(entries_map(entries).dom() =~= entries_map(prefix).dom().insert(
            entries.last().0@,
        ));
    } else {
        broadcast use axiom_set_empty_len;

        assert(entries_map(entries).dom() =~= Set::<Seq<char>>::empty());
    }
}

/// The lookup table of transitions available to a module processing context,
/// keyed by name. Names are unique; their order is irrelevant.
pub struct TransitionsByName<T> {
    entries: Vec<(String, T)>,
}

impl<T> View for TransitionsByName<T> {
    type V = Map<Seq<char>, T>;

    closed spec fn view(&self) -> Map<Seq<char>, T> {
        entries_map(self.entries@)
    }
}

impl<T> TransitionsByName<T> {
    /// Internal well-formedness: no name occurs twice.
    pub closed spec fn wf(&self) -> bool {
        unique_keys(self.entries@)
    }

    /// The default registry: the empty mapping.
    pub fn value_default() -> (r: Self)
        ensures
            r@ == Map::<Seq<char>, T>::empty(),
            r.wf(),
    {
        TransitionsByName { entries: Vec::new() }
    }

    /// How many transitions are registered.
    pub fn len(&self) -> (n: usize)
        requires
            self.wf(),
        ensures
            n == self@.dom().len(),
    {
        proof {
            lemma_entries_map_len(self.entries@);
        }
        self.entries.len()
    }

    /// Look a transition up by name. Absence is a normal result, not an
    /// error: callers decide whether a miss means "use the untransformed
    /// pipeline" or a configuration mistake.
    pub fn get(&self, name: &String) -> (r: Option<&T>)
        requires
            self.wf(),
        ensures
            match r {
                Some(t) => self@.contains_key(name@) && *t == self@[name@],
                None => !self@.contains_key(name@),
            },
    {
        let n = self.entries.len();
        let mut i: usize = 0;
        while i < n
            invariant
                self.wf(),
                n == self.entries@.len(),
                i <= n,
                forall|j: int| 0 <= j < i ==> self.entries@[j].0@ != name@,
            decreases n - i,
        {
            if self.entries[i].0 == *name {
                proof {
                    lemma_entries_map_index(self.entries@, i as int);
                }
                return Some(&self.entries[i].1);
            }
            i += 1;
        }
        proof {
            lemma_entries_map_contains(self.entries@, name@);
        }
        None
    }

    /// Register a transition under a name, replacing any transition the name
    /// was already bound to.
    pub fn insert(&mut self, name: String, transition: T)
        requires
            old(self).wf(),
        ensures
            final(self).wf(),
            final(self)@ == old(self)@.insert(name@, transition),
    {
        let n = self.entries.len();
        let mut i: usize = 0;
        while i < n
            invariant
                unique_keys(self.entries@),
                self.entries@ == old(self).entries@,
                n == self.entries@.len(),
                i <= n,
                forall|j: int| 0 <= j < i ==> self.entries@[j].0@ != name@,
            decreases n - i,
        {
            if self.entries[i].0 == name {
                let ghost prior = self.entries@;
                let ghost gname = name@;
                self.entries.set(i, (name, transition));
                proof {
                    broadcast use vstd::map::group_map_axioms;

                    let entry = self.entries@[i as int];
                    assert(entry.0@ == gname);
                    assert(self.entries@ =~= prior.update(i as int, entry));
                    lemma_entries_map_update(prior, i as int, entry);
                    assert(entries_map(self.entries@) =~= entries_map(prior).insert(
                        gname,
                        entry.1,
                    ));
                }
                return;
            }
            i += 1;
        }
        self.entries.push((name, transition));
        proof {
            assert(self.entries@.drop_last() == old(self).entries@);
        }
    }
}

proof fn lemma_entries_map_update<T>(entries: Seq<(String, T)>, i: int, entry: (String, T))
    requires
        unique_keys(entries),
        0 <= i < entries.len(),
        entry.0@ == entries[i].0@,
    ensures
        unique_keys(entries.update(i, entry)),
        entries_map(entries.update(i, entry)) == entries_map(entries).insert(entry.0@, entry.1),
    decreases entries.len(),
{
    let updated = entries.update(i, entry);
    assert(forall|j: int| 0 <= j < entries.len() && j != i ==> updated[j] == entries[j]);
    if i == entries.len() - 1 {
        assert(updated.drop_last() =~= entries.drop_last());
        assert(updated.last() == entry);
        assert(entries_map(updated) =~= entries_map(entries).insert(entry.0@, entry.1));
    } else {
        assert(updated.drop_last() =~= entries.drop_last().update(i, entry));
        lemma_entries_map_update(entries.drop_last(), i, entry);
        assert(updated.last() == entries.last());
        assert(entries.last().0@ != entry.0@);
        assert(entries_map(updated) =~= entries_map(entries).insert(entry.0@, entry.1));
    }
}

/// Law: a freshly constructed registry reports zero entries, and every name
/// lookup reports absence.
pub proof fn lemma_default_registry_absent<T>(registry: TransitionsByName<T>)
    requires
        registry@ == Map::<Seq<char>, T>::empty(),
    ensures
        registry@.dom().len() == 0,
        forall|name: Seq<char>| !registry@.contains_key(name),
{
    broadcast use axiom_set_empty_len;

    assert(registry@.dom() =~= Set::<Seq<char>>::empty());
}

} // verus!
