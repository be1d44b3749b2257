use vstd::prelude::*;

verus! {

/// The value bound to `name` in `entries`; a later binding hides an earlier one.
pub open spec fn lookup<V>(entries: Seq<(Seq<char>, V)>, name: Seq<char>) -> Option<V>
    decreases entries.len(),
{
    if entries.len() == 0 {
        None
    } else if entries.last().0 == name {
        Some(entries.last().1)
    } else {
        lookup(entries.drop_last(), name)
    }
}

/// A bound name is bound at some position of `entries`, to the value found there.
pub proof fn lemma_lookup_found<V>(entries: Seq<(Seq<char>, V)>, name: Seq<char>)
    requires
        lookup(entries, name) is Some,
    ensures
        exists|i: int|
            0 <= i < entries.len() && #[trigger] entries[i].0 == name && lookup(entries, name)
                == Some(entries[i].1),
    decreases entries.len(),
{
    if entries.last().0 != name {
        let rest = entries.drop_last();
        lemma_lookup_found(rest, name);
        let i = choose|i: int|
            0 <= i < rest.len() && #[trigger] rest[i].0 == name && lookup(rest, name) == Some(
                rest[i].1,
            );
        assert(entries[i] == rest[i]);
    } else {
        assert(entries[entries.len() - 1].0 == name);
    }
}

/// Appending bindings of other names leaves the binding of `name` as it was.
pub proof fn lemma_lookup_append_other<V>(
    entries: Seq<(Seq<char>, V)>,
    added: Seq<(Seq<char>, V)>,
    name: Seq<char>,
)
    requires
        forall|i: int| 0 <= i < added.len() ==> #[trigger] added[i].0 != name,
    ensures
        lookup(entries + added, name) == lookup(entries, name),
    decreases added.len(),
{
    if added.len() == 0 {
        assert(entries + added =~= entries);
    } else {
        let shorter = added.drop_last();
        assert((entries + added).drop_last() =~= entries + shorter);
        assert((entries + added).last() == added[added.len() - 1]);
        lemma_lookup_append_other(entries, shorter, name);
    }
}

/// A table from names to slots, filled once per name and read afterwards.
pub struct SlotTable<V> {
    entries: Vec<(String, V)>,
}

impl<V> SlotTable<V> {
    /// The bindings in insertion order.
    pub closed spec fn entries(&self) -> Seq<(Seq<char>, V)> {
        self.entries@.map_values(|e: (String, V)| (e.0@, e.1))
    }

    /// The slot bound to `name`, if any.
    pub open spec fn get_spec(&self, name: Seq<char>) -> Option<V> {
        lookup(self.entries(), name)
    }

    pub open spec fn len_spec(&self) -> nat {
        self.entries().len()
    }

    pub fn new() -> (r: Self)
        ensures
            r.entries() == Seq::<(Seq<char>, V)>::empty(),
    {
        let r = SlotTable { entries: Vec::new() };
        assert(r.entries() =~= Seq::<(Seq<char>, V)>::empty());
        r
    }

    pub fn len(&self) -> (r: usize)
        ensures
            r == self.len_spec(),
    {
        self.entries.len()
    }

    /// The slot stored at `i`, in insertion order.
    pub fn value_at(&self, i: usize) -> (r: &V)
        requires
            i < self.len_spec(),
        ensures
            *r == self.entries()[i as int].1,
    {
        &self.entries[i].1
    }

    /// The position of the binding that `get_spec(name)` reports.
    fn position(&self, name: &str) -> (r: Option<usize>)
        ensures
            match r {
                Some(i) => i < self.len_spec() && self.get_spec(name@) == Some(
                    self.entries()[i as int].1,
                ),
                None => self.get_spec(name@) is None,
            },
    {
        let key = name.to_owned();
        let ghost all = self.entries();
        let mut i: usize = self.entries.len();
        assert(all.subrange(0, i as int) =~= all);
        while i > 0
            invariant
                i <= self.entries@.len(),
                all == self.entries(),
                key@ == name@,
                lookup(all, name@) == lookup(all.subrange(0, i as int), name@),
            decreases i,
        {
            let ghost pre = all.subrange(0, i as int);
            assert(pre.drop_last() =~= all.subrange(0, i - 1));
            if self.entries[i - 1].0 == key {
                return Some(i - 1);
            }
            i = i - 1;
        }
        assert(all.subrange(0, 0) =~= Seq::<(Seq<char>, V)>::empty());
        None
    }

    /// The slot bound to `name`, if any.
    pub fn get(&self, name: &str) -> (r: Option<&V>)
        ensures
            match r {
                Some(v) => self.get_spec(name@) == Some(*v),
                None => self.get_spec(name@) is None,
            },
    {
        match self.position(name) {
            Some(i) => Some(&self.entries[i].1),
            None => None,
        }
    }

    /// Binds `name` to `value`; an earlier binding of `name` is kept.
    pub fn insert(&mut self, name: &str, value: V)
        ensures
            old(self).get_spec(name@) is Some ==> final(self).entries() == old(self).entries(),
            old(self).get_spec(name@) is None ==> final(self).entries() == old(
                self,
            ).entries().push((name@, value)),
            forall|k: Seq<char>|
                #[trigger] final(self).get_spec(k) == if k == name@ && old(self).get_spec(
                    name@,
                ) is None {
                    Some(value)
                } else {
                    old(self).get_spec(k)
                },
    {
        if self.position(name).is_none() {
            let ghost before = self.entries();
            self.entries.push((name.to_owned(), value));
            assert(self.entries() =~= before.push((name@, value)));
            assert forall|k: Seq<char>| #[trigger] lookup(before.push((name@, value)), k) == if k
                == name@ {
                Some(value)
            } else {
                lookup(before, k)
            } by {
                assert(before.push((name@, value)).drop_last() =~= before);
            }
        }
    }
}

} // verus!
