//! A list of `(name, value)` entries in which no name occurs twice, read as a
//! map from names to values. Wallets are kept by name in such a list.
use vstd::prelude::*;

verus! {

/// No two entries carry the same name.
pub open spec fn names_unique<V>(entries: Seq<(String, V)>) -> bool {
    forall|i: int, j: int|
        0 <= i < entries.len() && 0 <= j < entries.len() && i != j ==> entries[i].0@
            != entries[j].0@
}

/// The map from names to values that the entries stand for; a later entry
/// wins over an earlier one with the same name.
pub open spec fn entries_map<V>(entries: Seq<(String, V)>) -> Map<Seq<char>, V>
    decreases entries.len(),
{
    if entries.len() == 0 {
        Map::empty()
    } else {
        entries_map(entries.drop_last()).insert(entries.last().0@, entries.last().1)
    }
}

/// A name is in the map exactly when some entry carries it.
pub proof fn lemma_entries_dom<V>(entries: Seq<(String, V)>, name: Seq<char>)
    ensures
        entries_map(entries).dom().contains(name) <==> exists|i: int|
            0 <= i < entries.len() && #[trigger] entries[i].0@ == name,
    decreases entries.len(),
{
    if entries.len() > 0 {
        let rest = entries.drop_last();
        lemma_entries_dom(rest, name);
        if entries_map(rest).dom().contains(name) {
            let i = choose|i: int| 0 <= i < rest.len() && #[trigger] rest[i].0@ == name;
            assert(entries[i].0@ == name);
        }
        if exists|i: int| 0 <= i < entries.len() && #[trigger] entries[i].0@ == name {
            let i = choose|i: int| 0 <= i < entries.len() && #[trigger] entries[i].0@ == name;
            if i < entries.len() - 1 {
                assert(rest[i].0@ == name);
            }
        }
    }
}

/// With unique names, the map gives an entry's name that entry's value.
pub proof fn lemma_entries_value<V>(entries: Seq<(String, V)>, i: int)
    requires
        names_unique(entries),
        0 <= i < entries.len(),
    ensures
        entries_map(entries).dom().contains(entries[i].0@),
        entries_map(entries)[entries[i].0@] == entries[i].1,
    decreases entries.len(),
{
    let rest = entries.drop_last();
    if i < entries.len() - 1 {
        assert(names_unique(rest));
        lemma_entries_value(rest, i);
        assert(entries[i].0@ != entries.last().0@);
    }
}

/// With unique names, replacing the value of entry `i` replaces the value
/// of its name in the map.
pub proof fn lemma_entries_update<V>(entries: Seq<(String, V)>, i: int, name: String, value: V)
    requires
        names_unique(entries),
        0 <= i < entries.len(),
        name@ == entries[i].0@,
    ensures
        names_unique(entries.update(i, (name, value))),
        entries_map(entries.update(i, (name, value))) =~= entries_map(entries).insert(
            name@,
            value,
        ),
    decreases entries.len(),
{
    let updated = entries.update(i, (name, value));
    if i == entries.len() - 1 {
        assert(updated.drop_last() =~= entries.drop_last());
    } else {
        let rest = entries.drop_last();
        assert(names_unique(rest));
        lemma_entries_update(rest, i, name, value);
        assert(updated.drop_last() =~= rest.update(i, (name, value)));
        assert(entries[i].0@ != entries.last().0@);
    }
}

/// The index of the entry named `name`, if there is one.
pub fn find_name<V>(entries: &Vec<(String, V)>, name: &String) -> (found: Option<usize>)
    ensures
        match found {
            Some(i) => i < entries@.len() && entries@[i as int].0@ == name@,
            None => forall|i: int| 0 <= i < entries@.len() ==> (#[trigger] entries@[i]).0@ != name@,
        },
{
    let mut i: usize = 0;
    while i < entries.len()
        invariant
            i <= entries@.len(),
            forall|j: int| 0 <= j < i ==> (#[trigger] entries@[j]).0@ != name@,
        decreases entries@.len() - i,
    {
        if entries[i].0 == *name {
            return Some(i);
        }
        i = i + 1;
    }
    None
}

/// Gives `name` the value `value`: the entry with that name is replaced, or a
/// new entry is added at the end.
pub fn upsert<V>(entries: &mut Vec<(String, V)>, name: String, value: V)
    requires
        names_unique(old(entries)@),
    ensures
        names_unique(final(entries)@),
        entries_map(final(entries)@) =~= entries_map(old(entries)@).insert(name@, value),
{
    match find_name(entries, &name) {
        Some(i) => {
            proof {
                lemma_entries_update(entries@, i as int, name, value);
            }
            entries.set(i, (name, value));
        },
        None => {
            let ghost before = entries@;
            entries.push((name, value));
            assert(entries@.drop_last() =~= before);
        },
    }
}

/// The value that `name` has; the name must be present.
pub fn value_named<'a, V>(entries: &'a Vec<(String, V)>, name: &String) -> (value: &'a V)
    requires
        names_unique(entries@),
        entries_map(entries@).dom().contains(name@),
    ensures
        *value == entries_map(entries@)[name@],
{
    proof {
        lemma_entries_dom(entries@, name@);
    }
    match find_name(entries, name) {
        Some(i) => {
            proof {
                lemma_entries_value(entries@, i as int);
            }
            &entries[i].1
        },
        None => {
            assert(false);
            &entries[0].1
        },
    }
}

/// Gives every name of `other` its value there; names that only `entries`
/// has keep their values.
pub fn absorb<V>(entries: &mut Vec<(String, V)>, other: Vec<(String, V)>)
    requires
        names_unique(old(entries)@),
    ensures
        names_unique(final(entries)@),
        entries_map(final(entries)@) =~= entries_map(old(entries)@).union_prefer_right(
            entries_map(other@),
        ),
{
    let ghost start = entries_map(entries@);
    let ghost all = other@;
    let ghost mut k: int = 0;
    let mut rest = other;
    assert(all.take(0) =~= Seq::<(String, V)>::empty());
    while rest.len() > 0
        invariant
            names_unique(entries@),
            0 <= k <= all.len(),
            rest@ =~= all.skip(k),
            entries_map(entries@) =~= start.union_prefer_right(entries_map(all.take(k))),
        decreases rest@.len(),
    {
        let (name, value) = rest.remove(0);
        upsert(entries, name, value);
        proof {
            assert(all.take(k + 1).drop_last() =~= all.take(k));
            k = k + 1;
        }
    }
    assert(all.take(k) =~= all);
}

} // verus!
