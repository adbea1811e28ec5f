//! Tables keyed by name: a module's functions, a machine's globals.

use vstd::prelude::*;

verus! {

/// What `name` is bound to in a list of bindings: the first binding of that
/// name counts.
pub open spec fn lookup<M>(bindings: Seq<(Seq<char>, M)>, name: Seq<char>) -> Option<M>
    decreases bindings.len(),
{
    if bindings.len() == 0 {
        None
    } else if bindings[0].0 == name {
        Some(bindings[0].1)
    } else {
        lookup(bindings.drop_first(), name)
    }
}

/// The list after binding `name` to `value`: a binding of that name is
/// replaced where it stands, a new name goes to the end.
pub open spec fn bind<M>(bindings: Seq<(Seq<char>, M)>, name: Seq<char>, value: M) -> Seq<
    (Seq<char>, M),
>
    decreases bindings.len(),
{
    if bindings.len() == 0 {
        seq![(name, value)]
    } else if bindings[0].0 == name {
        bindings.update(0, (name, value))
    } else {
        seq![bindings[0]] + bind(bindings.drop_first(), name, value)
    }
}

/// Whether no name is bound twice.
pub open spec fn distinct_names<M>(bindings: Seq<(Seq<char>, M)>) -> bool {
    forall|i: int, j: int|
        0 <= i < j < bindings.len() ==> (#[trigger] bindings[i]).0 != (#[trigger] bindings[j]).0
}

/// Binding a name makes it look up to the new value and changes what no other
/// name looks up to.
pub proof fn lemma_lookup_bind<M>(
    bindings: Seq<(Seq<char>, M)>,
    name: Seq<char>,
    value: M,
    other: Seq<char>,
)
    ensures
        lookup(bind(bindings, name, value), name) == Some(value),
        other != name ==> lookup(bind(bindings, name, value), other) == lookup(bindings, other),
    decreases bindings.len(),
{
    reveal_with_fuel(lookup, 2);
    if bindings.len() == 0 {
    } else if bindings[0].0 == name {
        assert(bindings.update(0, (name, value)).drop_first() =~= bindings.drop_first());
    } else {
        let rest = bind(bindings.drop_first(), name, value);
        let whole = seq![bindings[0]] + rest;
        assert(whole.drop_first() =~= rest);
        lemma_lookup_bind(bindings.drop_first(), name, value, other);
    }
}

/// The names of `bind` are those of the list, in place, and the new name
/// at the end where it was not bound.
proof fn lemma_bind_names<M>(bindings: Seq<(Seq<char>, M)>, name: Seq<char>, value: M)
    ensures
        bind(bindings, name, value).len() == bindings.len() || (bind(bindings, name, value).len()
            == bindings.len() + 1 && bind(bindings, name, value).last().0 == name && forall|
            i: int,
        |
            0 <= i < bindings.len() ==> (#[trigger] bindings[i]).0 != name),
        forall|i: int|
            0 <= i < bindings.len() ==> (#[trigger] bind(bindings, name, value)[i]).0
                == bindings[i].0,
    decreases bindings.len(),
{
    if bindings.len() == 0 {
    } else if bindings[0].0 == name {
    } else {
        let tail = bindings.drop_first();
        lemma_bind_names(tail, name, value);
        let rest = bind(tail, name, value);
        let whole = seq![bindings[0]] + rest;
        assert forall|i: int| 0 <= i < bindings.len() implies (#[trigger] whole[i]).0
            == bindings[i].0 by {}
        if whole.len() == bindings.len() + 1 {
            assert forall|i: int| 0 <= i < bindings.len() implies (#[trigger] bindings[i]).0
                != name by {
                if i > 0 {
                    assert(bindings[i] == tail[i - 1]);
                }
            }
        }
    }
}

/// Binding a name never makes a name occur twice.
pub proof fn lemma_bind_keeps_distinct<M>(
    bindings: Seq<(Seq<char>, M)>,
    name: Seq<char>,
    value: M,
)
    requires
        distinct_names(bindings),
    ensures
        distinct_names(bind(bindings, name, value)),
{
    lemma_bind_names(bindings, name, value);
    let after = bind(bindings, name, value);
    assert forall|i: int, j: int| 0 <= i < j < after.len() implies (#[trigger] after[i]).0 != (
    #[trigger] after[j]).0 by {}
}

/// The bindings that a list of entries holds, in order.
pub open spec fn bindings_of<V: View>(entries: Seq<(String, V)>) -> Seq<(Seq<char>, V::V)> {
    Seq::new(entries.len(), |i: int| (entries[i].0@, entries[i].1@))
}

/// Finds the first entry of the given name.
fn position<V: View>(entries: &Vec<(String, V)>, name: &String) -> (r: Option<usize>)
    ensures
        match r {
            Some(i) => i < entries@.len() && entries@[i as int].0@ == name@ && lookup(
                bindings_of(entries@),
                name@,
            ) == Some(entries@[i as int].1@) && forall|k: int|
                0 <= k < i ==> (#[trigger] bindings_of(entries@)[k]).0 != name@,
            None => lookup(bindings_of(entries@), name@) is None && forall|k: int|
                0 <= k < entries@.len() ==> (#[trigger] bindings_of(entries@)[k]).0 != name@,
        },
{
    let ghost all = bindings_of(entries@);
    let mut i: usize = 0;
    assert(all.skip(0) =~= all);
    while i < entries.len()
        invariant
            i <= entries.len(),
            all == bindings_of(entries@),
            lookup(all, name@) == lookup(all.skip(i as int), name@),
            forall|k: int| 0 <= k < i ==> (#[trigger] all[k]).0 != name@,
        decreases entries.len() - i,
    {
        let ghost rest = all.skip(i as int);
        assert(rest.drop_first() =~= all.skip(i + 1));
        if entries[i].0 == *name {
            return Some(i);
        }
        i += 1;
    }
    None
}

/// A table from names to values that keeps the order in which names were
/// first bound. No name is bound twice in it.
#[derive(Debug)]
pub struct NameTable<V: View> {
    entries: Vec<(String, V)>,
}

impl<V: View> View for NameTable<V> {
    type V = Seq<(Seq<char>, V::V)>;

    /// The bindings, in the order in which their names were first bound.
    closed spec fn view(&self) -> Seq<(Seq<char>, V::V)> {
        bindings_of(self.entries@)
    }
}

impl<V: View> NameTable<V> {
    /// What holds of every table: its names are distinct.
    #[verifier::type_invariant]
    spec fn names_are_distinct(&self) -> bool {
        distinct_names(bindings_of(self.entries@))
    }

    /// An empty table.
    pub fn new() -> (table: Self)
        ensures
            table@ == Seq::<(Seq<char>, V::V)>::empty(),
            distinct_names(table@),
    {
        NameTable { entries: Vec::new() }
    }

    /// The number of names bound.
    pub fn len(&self) -> (n: usize)
        ensures
            n == self@.len(),
            distinct_names(self@),
    {
        proof {
            use_type_invariant(self);
        }
        self.entries.len()
    }

    /// The name and value of the binding at `index`, in binding order, or
    /// `None` where the table has no such binding.
    pub fn entry(&self, index: usize) -> (e: Option<(&String, &V)>)
        ensures
            distinct_names(self@),
            match e {
                Some(binding) => index < self@.len() && binding.0@ == self@[index as int].0
                    && binding.1@ == self@[index as int].1,
                None => index >= self@.len(),
            },
    {
        proof {
            use_type_invariant(self);
        }
        if index < self.entries.len() {
            Some((&self.entries[index].0, &self.entries[index].1))
        } else {
            None
        }
    }

    /// The value bound to `name`, if it is bound.
    pub fn get(&self, name: &String) -> (r: Option<&V>)
        ensures
            distinct_names(self@),
            match r {
                Some(v) => lookup(self@, name@) == Some(v@),
                None => lookup(self@, name@) is None,
            },
    {
        proof {
            use_type_invariant(self);
        }
        match position(&self.entries, name) {
            Some(i) => Some(&self.entries[i].1),
            None => None,
        }
    }

    /// Binds `name` to `value`, replacing what it was bound to. The names of
    /// the table stay distinct.
    pub fn insert(&mut self, name: String, value: V)
        ensures
            final(self)@ == bind(old(self)@, name@, value@),
            distinct_names(old(self)@),
            distinct_names(final(self)@),
    {
        proof {
            use_type_invariant(&*self);
        }
        let ghost before = self@;
        proof {
            lemma_bind_keeps_distinct(before, name@, value@);
        }
        let mut taken: NameTable<V> = NameTable::new();
        std::mem::swap(self, &mut taken);
        let mut entries = taken.entries;
        match position(&entries, &name) {
            Some(i) => {
                proof {
                    lemma_bind_replaces(before, name@, value@, i as int);
                }
                entries.set(i, (name, value));
                assert(bindings_of(entries@) =~= before.update(i as int, (name@, value@)));
            },
            None => {
                proof {
                    lemma_bind_appends(before, name@, value@);
                }
                entries.push((name, value));
                assert(bindings_of(entries@) =~= before.push((name@, value@)));
            },
        }
        *self = NameTable { entries };
    }
}

/// Where the first binding of `name` stands at `i`, binding replaces it there.
proof fn lemma_bind_replaces<M>(bindings: Seq<(Seq<char>, M)>, name: Seq<char>, value: M, i: int)
    requires
        0 <= i < bindings.len(),
        bindings[i].0 == name,
        forall|k: int| 0 <= k < i ==> (#[trigger] bindings[k]).0 != name,
    ensures
        bind(bindings, name, value) == bindings.update(i, (name, value)),
    decreases bindings.len(),
{
    if i == 0 {
    } else {
        let rest = bindings.drop_first();
        assert forall|k: int| 0 <= k < i - 1 implies (#[trigger] rest[k]).0 != name by {}
        lemma_bind_replaces(rest, name, value, i - 1);
    }
}

/// Where `name` is not bound, binding appends it.
proof fn lemma_bind_appends<M>(bindings: Seq<(Seq<char>, M)>, name: Seq<char>, value: M)
    requires
        forall|k: int| 0 <= k < bindings.len() ==> (#[trigger] bindings[k]).0 != name,
    ensures
        bind(bindings, name, value) == bindings.push((name, value)),
    decreases bindings.len(),
{
    if bindings.len() == 0 {
    } else {
        let rest = bindings.drop_first();
        assert forall|k: int| 0 <= k < rest.len() implies (#[trigger] rest[k]).0 != name by {}
        lemma_bind_appends(rest, name, value);
    }
}

} // verus!
