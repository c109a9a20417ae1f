//! A small map from names to items, kept in the order of first insertion.

use vstd::prelude::*;
use vstd::string::*;

verus! {

/// The map that a sequence of named items stands for. Where a name occurs more
/// than once the last occurrence counts.
pub open spec fn table_of<V>(entries: Seq<(Seq<char>, V)>) -> Map<Seq<char>, V>
    decreases entries.len(),
{
    if entries.len() == 0 {
        Map::empty()
    } else {
        table_of(entries.drop_last()).insert(entries.last().0, entries.last().1)
    }
}

/// No name occurs twice.
pub open spec fn distinct_names<V>(entries: Seq<(Seq<char>, V)>) -> bool {
    forall|i: int, j: int| 0 <= i < j < entries.len() ==> entries[i].0 != entries[j].0
}

/// Where no name occurs twice, none does once the last entry is left out.
pub proof fn lemma_distinct_front<V>(entries: Seq<(Seq<char>, V)>)
    requires
        distinct_names(entries),
        entries.len() > 0,
    ensures
        distinct_names(entries.drop_last()),
{
    let front = entries.drop_last();
    assert forall|a: int, b: int| 0 <= a < b < front.len() implies front[a].0 != front[b].0 by {
        assert(entries[a].0 != entries[b].0);
    }
}

/// A name is a key of the map exactly if some entry carries it.
pub proof fn lemma_table_keys<V>(entries: Seq<(Seq<char>, V)>, name: Seq<char>)
    ensures
        table_of(entries).contains_key(name) <==> exists|i: int|
            0 <= i < entries.len() && #[trigger] entries[i].0 == name,
        table_of(entries).dom().finite(),
    decreases entries.len(),
{
    if entries.len() > 0 {
        let front = entries.drop_last();
        lemma_table_keys(front, name);
        if table_of(entries).contains_key(name) {
            if entries.last().0 == name {
                assert(entries[entries.len() - 1].0 == name);
            } else {
                let i = choose|i: int| 0 <= i < front.len() && #[trigger] front[i].0 == name;
                assert(entries[i].0 == name);
            }
        }
        if exists|i: int| 0 <= i < entries.len() && #[trigger] entries[i].0 == name {
            let i = choose|i: int| 0 <= i < entries.len() && #[trigger] entries[i].0 == name;
            if i < entries.len() - 1 {
                assert(front[i].0 == name);
            }
        }
    }
}

/// Where no name occurs twice, each entry is what the map holds under its name.
pub proof fn lemma_table_entry<V>(entries: Seq<(Seq<char>, V)>, i: int)
    requires
        distinct_names(entries),
        0 <= i < entries.len(),
    ensures
        table_of(entries).contains_key(entries[i].0),
        table_of(entries)[entries[i].0] == entries[i].1,
    decreases entries.len(),
{
    if i < entries.len() - 1 {
        let front = entries.drop_last();
        lemma_distinct_front(entries);
        lemma_table_entry(front, i);
        assert(entries[i].0 != entries[entries.len() - 1].0);
    }
}

/// Where no name occurs twice, replacing the item of one entry is an insert
/// under that entry's name.
pub proof fn lemma_table_replace<V>(entries: Seq<(Seq<char>, V)>, i: int, item: V)
    requires
        distinct_names(entries),
        0 <= i < entries.len(),
    ensures
        table_of(entries.update(i, (entries[i].0, item))) == table_of(entries).insert(
            entries[i].0,
            item,
        ),
        distinct_names(entries.update(i, (entries[i].0, item))),
    decreases entries.len(),
{
    let name = entries[i].0;
    let changed = entries.update(i, (name, item));
    let front = entries.drop_last();
    assert(distinct_names(changed)) by {
        assert forall|a: int, b: int| 0 <= a < b < changed.len() implies changed[a].0
            != changed[b].0 by {
            assert(entries[a].0 != entries[b].0);
        }
    }
    if i == entries.len() - 1 {
        assert(changed.drop_last() =~= front);
        assert(table_of(changed) =~= table_of(entries).insert(name, item));
    } else {
        lemma_distinct_front(entries);
        lemma_table_replace(front, i, item);
        assert(changed.drop_last() =~= front.update(i, (name, item)));
        assert(entries[i].0 != entries[entries.len() - 1].0);
        assert(changed.last() == entries.last());
        assert(table_of(changed) =~= table_of(entries).insert(name, item));
    }
}

/// Where no name occurs twice, the map has as many keys as there are entries.
pub proof fn lemma_table_len<V>(entries: Seq<(Seq<char>, V)>)
    requires
        distinct_names(entries),
    ensures
        table_of(entries).dom().finite(),
        table_of(entries).len() == entries.len(),
    decreases entries.len(),
{
    if entries.len() > 0 {
        let front = entries.drop_last();
        lemma_distinct_front(entries);
        lemma_table_len(front);
        lemma_table_keys(front, entries.last().0);
        if table_of(front).contains_key(entries.last().0) {
            let last = entries.last().0;
            let i = choose|i: int| 0 <= i < front.len() && #[trigger] front[i].0 == last;
            assert(entries[i].0 != entries[entries.len() - 1].0);
        }
    }
}

/// One named item.
struct Entry<T> {
    name: String,
    item: T,
}

/// A map from names to items. No name is held twice; an insert under a name
/// that is present replaces the item, and the entry keeps its place.
pub struct NameTable<T> {
    entries: Vec<Entry<T>>,
}

impl<T: View> View for NameTable<T> {
    type V = Map<Seq<char>, T::V>;

    open spec fn view(&self) -> Map<Seq<char>, T::V> {
        table_of(self.entries())
    }
}

impl<T: View> NameTable<T> {
    /// The names and items, in the order in which the names were first
    /// inserted.
    pub closed spec fn entries(&self) -> Seq<(Seq<char>, T::V)> {
        Seq::new(self.entries.len() as nat, |i: int| (self.entries[i].name@, self.entries[i].item@))
    }

    /// The invariant of the table: no name is held twice.
    pub open spec fn wf(&self) -> bool {
        distinct_names(self.entries())
    }

    /// A table that holds nothing.
    pub fn new() -> (r: Self)
        ensures
            r.wf(),
            r.entries() == Seq::<(Seq<char>, T::V)>::empty(),
            r@ == Map::<Seq<char>, T::V>::empty(),
    {
        let r = NameTable { entries: Vec::new() };
        assert(r.entries() =~= Seq::<(Seq<char>, T::V)>::empty());
        r
    }

    /// The number of entries.
    pub fn len(&self) -> (r: usize)
        ensures
            r == self.entries().len(),
            self.wf() ==> r == self@.len(),
    {
        proof {
            if self.wf() {
                lemma_table_len(self.entries());
            }
        }
        self.entries.len()
    }

    /// The name of the entry at position `i`.
    pub fn name_at(&self, i: usize) -> (r: &String)
        requires
            i < self.entries().len(),
        ensures
            r@ == self.entries()[i as int].0,
    {
        &self.entries[i].name
    }

    /// The item of the entry at position `i`.
    pub fn item_at(&self, i: usize) -> (r: &T)
        requires
            i < self.entries().len(),
        ensures
            r@ == self.entries()[i as int].1,
    {
        &self.entries[i].item
    }

    /// The position of the entry with the given name.
    pub fn position(&self, name: &str) -> (r: Option<usize>)
        ensures
            match r {
                Some(i) => i < self.entries().len() && self.entries()[i as int].0 == name@,
                None => forall|i: int|
                    0 <= i < self.entries().len() ==> self.entries()[i].0 != name@,
            },
            self@.contains_key(name@) <==> r is Some,
    {
        let key = String::from_str(name);
        let mut i: usize = 0;
        let mut found: Option<usize> = None;
        while i < self.entries.len()
            invariant_except_break
                found is None,
                i <= self.entries.len(),
                forall|j: int| 0 <= j < i ==> self.entries()[j].0 != name@,
            invariant
                key@ == name@,
            ensures
                match found {
                    Some(k) => k < self.entries().len() && self.entries()[k as int].0 == name@,
                    None => forall|j: int|
                        0 <= j < self.entries().len() ==> self.entries()[j].0 != name@,
                },
            decreases self.entries.len() - i,
        {
            if self.entries[i].name == key {
                found = Some(i);
                break ;
            }
            i += 1;
        }
        proof {
            lemma_table_keys(self.entries(), name@);
            if let Some(k) = found {
                assert(self.entries()[k as int].0 == name@);
            }
        }
        found
    }

    /// Adds an entry under a name that the table does not hold yet.
    pub fn push_new(&mut self, name: &str, item: T)
        requires
            old(self).wf(),
            forall|i: int| 0 <= i < old(self).entries().len() ==> old(self).entries()[i].0 != name@,
        ensures
            final(self).wf(),
            final(self).entries() == old(self).entries().push((name@, item@)),
            final(self)@ == old(self)@.insert(name@, item@),
    {
        let ghost before = self.entries();
        self.entries.push(Entry { name: String::from_str(name), item });
        proof {
            let after = self.entries();
            assert(after =~= before.push((name@, item@)));
            assert(after.drop_last() =~= before);
            assert forall|a: int, b: int| 0 <= a < b < after.len() implies after[a].0
                != after[b].0 by {
                if b < before.len() {
                    assert(before[a].0 != before[b].0);
                } else {
                    assert(before[a].0 != name@);
                }
            }
        }
    }

    /// Whether the table holds an item under `name`.
    pub fn contains(&self, name: &str) -> (r: bool)
        ensures
            r == self@.contains_key(name@),
    {
        self.position(name).is_some()
    }

    /// The item held under `name`.
    pub fn get(&self, name: &str) -> (r: Option<&T>)
        requires
            self.wf(),
        ensures
            match r {
                Some(item) => self@.contains_key(name@) && self@[name@] == item@,
                None => !self@.contains_key(name@),
            },
    {
        match self.position(name) {
            Some(i) => {
                proof {
                    lemma_table_entry(self.entries(), i as int);
                }
                Some(&self.entries[i].item)
            },
            None => None,
        }
    }

    /// Holds `item` under `name` from now on, in place of what was held there.
    pub fn insert(&mut self, name: &str, item: T)
        requires
            old(self).wf(),
        ensures
            final(self).wf(),
            final(self)@ == old(self)@.insert(name@, item@),
            old(self)@.contains_key(name@) ==> exists|i: int|
                0 <= i < old(self).entries().len() && #[trigger] old(self).entries()[i].0 == name@
                    && final(self).entries() == old(self).entries().update(i, (name@, item@)),
            !old(self)@.contains_key(name@) ==> final(self).entries() == old(self).entries().push(
                (name@, item@),
            ),
    {
        let ghost before = self.entries();
        match self.position(name) {
            Some(i) => {
                self.entries.set(i, Entry { name: String::from_str(name), item });
                proof {
                    lemma_table_replace(before, i as int, item@);
                    assert(self.entries() =~= before.update(i as int, (name@, item@)));
                    assert(before[i as int].0 == name@);
                }
            },
            None => {
                self.entries.push(Entry { name: String::from_str(name), item });
                proof {
                    let after = self.entries();
                    assert(after.drop_last() =~= before);
                    assert(after.last() == (name@, item@));
                    assert(after =~= before.push((name@, item@)));
                    assert forall|a: int, b: int| 0 <= a < b < after.len() implies after[a].0
                        != after[b].0 by {
                        if b < before.len() {
                            assert(before[a].0 != before[b].0);
                        } else {
                            assert(before[a].0 != name@);
                        }
                    }
                }
            },
        }
    }
}

} // verus!
