//! The server's name and id tables for this game.
use std::collections::HashMap;
use vstd::prelude::*;

verus! {

broadcast use vstd::std_specs::hash::group_hash_axioms;

/// Item names by item id and location ids by location name.
#[derive(Debug)]
pub struct DataPackage {
    pub item_id_to_name: HashMap<i64, String>,
    pub location_name_to_id: Vec<(String, i64)>,
}

/// The name of an item id in a name table.
pub open spec fn item_name_in(names: Map<i64, String>, id: i64) -> Option<Seq<char>> {
    if names.contains_key(id) {
        Some(names[id]@)
    } else {
        None
    }
}

/// The id of the first location of `table` with the given name.
pub open spec fn location_id_in(table: Seq<(String, i64)>, name: Seq<char>) -> Option<i64>
    decreases table.len(),
{
    if table.len() == 0 {
        None
    } else if table[0].0@ == name {
        Some(table[0].1)
    } else {
        location_id_in(table.drop_first(), name)
    }
}

impl DataPackage {
    /// Empty tables.
    pub fn new() -> (r: DataPackage)
        ensures
            r.item_id_to_name@ == Map::<i64, String>::empty(),
            r.location_name_to_id@ == Seq::<(String, i64)>::empty(),
    {
        DataPackage { item_id_to_name: HashMap::new(), location_name_to_id: Vec::new() }
    }

    /// Records the name of an item id, replacing an earlier one.
    pub fn add_item_name(&mut self, id: i64, name: String)
        ensures
            final(self).item_id_to_name@ == old(self).item_id_to_name@.insert(id, name),
            final(self).location_name_to_id@ == old(self).location_name_to_id@,
    {
        self.item_id_to_name.insert(id, name);
    }

    /// Records the id of a location, replacing the id of a location of the same name.
    pub fn add_location(&mut self, name: String, id: i64)
        ensures
            final(self).item_id_to_name@ == old(self).item_id_to_name@,
            final(self).location_name_to_id@ == match name_index(old(self).location_name_to_id@, name@) {
                Some(i) => old(self).location_name_to_id@.update(i, (name, id)),
                None => old(self).location_name_to_id@.push((name, id)),
            },
            location_names_unique(old(self).location_name_to_id@) ==> location_names_unique(final(self).location_name_to_id@),
    {
        let mut i: usize = 0;
        while i < self.location_name_to_id.len()
            invariant
                i <= self.location_name_to_id.len(),
                self.location_name_to_id@ == old(self).location_name_to_id@,
                self.item_id_to_name@ == old(self).item_id_to_name@,
                name_index(self.location_name_to_id@.take(i as int), name@) is None,
            decreases self.location_name_to_id.len() - i,
        {
            assert(self.location_name_to_id@.take(i as int + 1).drop_last() =~= self.location_name_to_id@.take(i as int));
            if self.location_name_to_id[i].0 == name {
                proof {
                    lemma_name_index_prefix(self.location_name_to_id@, name@, i as int + 1);
                }
                self.location_name_to_id.set(i, (name, id));
                return;
            }
            i = i + 1;
        }
        assert(self.location_name_to_id@.take(i as int) =~= self.location_name_to_id@);
        proof {
            lemma_name_index_none(self.location_name_to_id@, name@);
        }
        self.location_name_to_id.push((name, id));
    }
}

/// Index of the first location of `table` with the given name.
pub open spec fn name_index(table: Seq<(String, i64)>, name: Seq<char>) -> Option<int>
    decreases table.len(),
{
    if table.len() == 0 {
        None
    } else {
        match name_index(table.drop_last(), name) {
            Some(i) => Some(i),
            None => if table.last().0@ == name {
                Some(table.len() - 1)
            } else {
                None
            },
        }
    }
}

/// Whether no two locations of a table share a name, as in the server's map.
pub open spec fn location_names_unique(table: Seq<(String, i64)>) -> bool {
    forall|i: int, j: int| 0 <= i < table.len() && 0 <= j < table.len() && i != j ==> (#[trigger] table[i]).0@ != (#[trigger] table[j]).0@
}

/// An index found within a prefix is the first of the whole table, and holds the name.
pub proof fn lemma_name_index_prefix(t: Seq<(String, i64)>, name: Seq<char>, n: int)
    requires
        0 <= n <= t.len(),
        name_index(t.take(n), name) is Some,
    ensures
        name_index(t, name) == name_index(t.take(n), name),
        name_index(t, name) matches Some(i) && 0 <= i < t.len() && t[i].0@ == name,
    decreases t.len() - n,
{
    if n < t.len() {
        assert(t.take(n + 1).drop_last() =~= t.take(n));
        lemma_name_index_prefix(t, name, n + 1);
    } else {
        assert(t.take(n) =~= t);
        lemma_name_index_found(t, name);
    }
}

/// A found index holds the name.
pub proof fn lemma_name_index_found(t: Seq<(String, i64)>, name: Seq<char>)
    ensures
        name_index(t, name) matches Some(i) ==> 0 <= i < t.len() && t[i].0@ == name,
    decreases t.len(),
{
    if t.len() > 0 {
        lemma_name_index_found(t.drop_last(), name);
    }
}

/// Without an index, no location holds the name.
pub proof fn lemma_name_index_none(t: Seq<(String, i64)>, name: Seq<char>)
    ensures
        name_index(t, name) is None ==> forall|j: int| 0 <= j < t.len() ==> (#[trigger] t[j]).0@ != name,
    decreases t.len(),
{
    if t.len() > 0 {
        lemma_name_index_none(t.drop_last(), name);
        if name_index(t, name) is None {
            assert forall|j: int| 0 <= j < t.len() implies (#[trigger] t[j]).0@ != name by {
                if j < t.len() - 1 {
                    assert(t.drop_last()[j] == t[j]);
                }
            }
        }
    }
}

/// Looks up the name of an item id.
pub fn get_item_name(dp: &DataPackage, id: i64) -> (r: Option<String>)
    ensures
        r is None <==> item_name_in(dp.item_id_to_name@, id) is None,
        r matches Some(s) ==> item_name_in(dp.item_id_to_name@, id) == Some(s@),
{
    match dp.item_id_to_name.get(&id) {
        Some(s) => Some(s.clone()),
        None => None,
    }
}

/// Looks up the id of a location by name.
pub fn get_location_id(dp: &DataPackage, name: &str) -> (r: Option<i64>)
    ensures
        r == location_id_in(dp.location_name_to_id@, name@),
{
    let table = &dp.location_name_to_id;
    let mut i: usize = 0;
    assert(table@.skip(0) =~= table@);
    while i < table.len()
        invariant
            i <= table.len(),
            table@ == dp.location_name_to_id@,
            location_id_in(table@, name@) == location_id_in(table@.skip(i as int), name@),
        decreases table.len() - i,
    {
        assert(table@.skip(i as int)[0] == table@[i as int]);
        if crate::items::same_name(table[i].0.as_str(), name) {
            assert(location_id_in(table@.skip(i as int), name@) == Some(table@[i as int].1));
            return Some(table[i].1);
        }
        assert(table@.skip(i as int).drop_first() =~= table@.skip(i as int + 1));
        i = i + 1;
    }
    assert(table@.skip(i as int) =~= Seq::<(String, i64)>::empty());
    None
}

/// The name of the first location of `table` with the given id.
pub open spec fn location_name_in(table: Seq<(String, i64)>, id: i64) -> Option<Seq<char>>
    decreases table.len(),
{
    if table.len() == 0 {
        None
    } else if table[0].1 == id {
        Some(table[0].0@)
    } else {
        location_name_in(table.drop_first(), id)
    }
}

/// Looks up the name of a location by id.
pub fn get_location_name(dp: &DataPackage, id: i64) -> (r: Option<String>)
    ensures
        r is None <==> location_name_in(dp.location_name_to_id@, id) is None,
        r matches Some(n) ==> location_name_in(dp.location_name_to_id@, id) == Some(n@),
{
    let table = &dp.location_name_to_id;
    let mut i: usize = 0;
    assert(table@.skip(0) =~= table@);
    while i < table.len()
        invariant
            i <= table.len(),
            table@ == dp.location_name_to_id@,
            location_name_in(table@, id) == location_name_in(table@.skip(i as int), id),
        decreases table.len() - i,
    {
        assert(table@.skip(i as int)[0] == table@[i as int]);
        if table[i].1 == id {
            assert(location_name_in(table@.skip(i as int), id) == Some(table@[i as int].0@));
            return Some(table[i].0.clone());
        }
        assert(table@.skip(i as int).drop_first() =~= table@.skip(i as int + 1));
        i = i + 1;
    }
    assert(table@.skip(i as int) =~= Seq::<(String, i64)>::empty());
    None
}

} // verus!
