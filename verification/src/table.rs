//! A small table that is looked up by text.
use crate::text::str_eq;
use vstd::prelude::*;

verus! {

/// Values by text. No text occurs twice.
#[derive(Debug)]
pub struct Table<V> {
    items: Vec<(String, V)>,
}

/// Whether an item stands under `key`.
spec fn has_key<V>(items: Seq<(String, V)>, key: Seq<char>) -> bool {
    exists|i: int| 0 <= i < items.len() && (#[trigger] items[i]).0@ == key
}

/// Where an item stands under `key`.
spec fn place<V>(items: Seq<(String, V)>, key: Seq<char>) -> int {
    choose|i: int| 0 <= i < items.len() && (#[trigger] items[i]).0@ == key
}

impl<V> View for Table<V> {
    type V = Map<Seq<char>, V>;

    closed spec fn view(&self) -> Map<Seq<char>, V> {
        Map::new(
            |key: Seq<char>| has_key(self.items@, key),
            |key: Seq<char>| self.items@[place(self.items@, key)].1,
        )
    }
}

impl<V> Table<V> {
    /// No text occurs twice.
    pub closed spec fn wf(&self) -> bool {
        forall|i: int, j: int|
            0 <= i < self.items@.len() && 0 <= j < self.items@.len() && (#[trigger] self.items@[i]).0@
                == (#[trigger] self.items@[j]).0@ ==> i == j
    }

    /// An empty table.
    pub fn new() -> (table: Table<V>)
        ensures
            table.wf(),
            table@ == Map::<Seq<char>, V>::empty(),
    {
        let table = Table { items: Vec::new() };
        assert(table@ =~= Map::<Seq<char>, V>::empty());
        table
    }

    /// Where `key` stands.
    fn find(&self, key: &str) -> (at: Option<usize>)
        requires
            self.wf(),
        ensures
            match at {
                Some(i) => {
                    &&& i < self.items@.len()
                    &&& self.items@[i as int].0@ == key@
                    &&& self@.dom().contains(key@)
                    &&& self@[key@] == self.items@[i as int].1
                },
                None => !has_key(self.items@, key@) && !self@.dom().contains(key@),
            },
    {
        let n = self.items.len();
        for i in 0..n
            invariant
                n == self.items@.len(),
                self.wf(),
                forall|k: int| 0 <= k < i ==> (#[trigger] self.items@[k]).0@ != key@,
        {
            if str_eq(self.items[i].0.as_str(), key) {
                assert(has_key(self.items@, key@));
                assert(place(self.items@, key@) == i);
                return Some(i);
            }
        }
        None
    }

    /// The value under `key`.
    pub fn get(&self, key: &str) -> (value: Option<&V>)
        requires
            self.wf(),
        ensures
            match value {
                Some(v) => self@.dom().contains(key@) && *v == self@[key@],
                None => !self@.dom().contains(key@),
            },
    {
        match self.find(key) {
            Some(i) => Some(&self.items[i].1),
            None => None,
        }
    }

    /// Takes the value under `key` out.
    pub fn remove(&mut self, key: &str) -> (value: Option<V>)
        requires
            old(self).wf(),
        ensures
            final(self).wf(),
            final(self)@ == old(self)@.remove(key@),
            match value {
                Some(v) => old(self)@.dom().contains(key@) && v == old(self)@[key@],
                None => !old(self)@.dom().contains(key@),
            },
    {
        match self.find(key) {
            Some(i) => {
                let ghost before = self.items@;
                let (k, v) = self.items.remove(i);
                proof {
                    let after = self.items@;
                    assert(after == before.remove(i as int));
                    assert forall|t: Seq<char>| #[trigger] has_key(after, t) implies t != key@
                        && has_key(before, t) && before[place(before, t)].1 == after[place(
                        after,
                        t,
                    )].1 by {
                        let j = place(after, t);
                        let j2 = if j < i { j } else { j + 1 };
                        assert(before[j2] == after[j]);
                        assert(before[i as int].0@ == key@);
                        assert(place(before, t) == j2);
                    }
                    assert forall|t: Seq<char>| #[trigger] has_key(before, t) && t != key@ implies has_key(
                        after,
                        t,
                    ) by {
                        let j = place(before, t);
                        let j2 = if j < i { j } else { j - 1 };
                        assert(after[j2] == before[j]);
                    }
                    assert(self.wf()) by {
                        assert forall|a: int, b: int|
                            0 <= a < after.len() && 0 <= b < after.len() && (#[trigger] after[a]).0@
                                == (#[trigger] after[b]).0@ implies a == b by {
                            let a2 = if a < i { a } else { a + 1 };
                            let b2 = if b < i { b } else { b + 1 };
                            assert(before[a2] == after[a] && before[b2] == after[b]);
                        }
                    }
                    assert(self@ =~= old(self)@.remove(key@));
                }
                Some(v)
            },
            None => {
                assert(self@ =~= old(self)@.remove(key@));
                None
            },
        }
    }

    /// Puts `value` under `key`, in place of what stood there.
    pub fn insert(&mut self, key: String, value: V)
        requires
            old(self).wf(),
        ensures
            final(self).wf(),
            final(self)@ == old(self)@.insert(key@, value),
    {
        let _ = self.remove(key.as_str());
        let ghost before = self.items@;
        let ghost map = self@;
        let ghost name = key@;
        assert(!has_key(before, name)) by {
            assert(!map.dom().contains(name));
        }
        self.items.push((key, value));
        proof {
            let after = self.items@;
            assert(after.drop_last() =~= before);
            assert forall|t: Seq<char>| #[trigger] has_key(after, t) <==> (has_key(before, t) || t
                == name) by {
                if has_key(before, t) {
                    let j = place(before, t);
                    assert(after[j] == before[j]);
                }
                if t == name {
                    assert(after[before.len() as int].0@ == name);
                }
                if has_key(after, t) && t != name {
                    let j = place(after, t);
                    assert(before[j] == after[j]);
                }
            }
            assert(self.wf()) by {
                assert forall|a: int, b: int|
                    0 <= a < after.len() && 0 <= b < after.len() && (#[trigger] after[a]).0@ == (
                    #[trigger] after[b]).0@ implies a == b by {
                    if a < before.len() {
                        assert(before[a] == after[a]);
                    }
                    if b < before.len() {
                        assert(before[b] == after[b]);
                    }
                }
            }
            assert forall|t: Seq<char>| #[trigger] has_key(after, t) implies after[place(after, t)].1
                == (if t == name {
                value
            } else {
                before[place(before, t)].1
            }) by {
                if t == name {
                    assert(after[before.len() as int].0@ == name);
                } else {
                    let j = place(before, t);
                    assert(after[j] == before[j]);
                    assert(place(after, t) == j);
                }
            }
            let target = old(self)@.insert(name, value);
            assert forall|t: Seq<char>| #[trigger] self@.dom().contains(t) <==> target.dom().contains(
                t,
            ) by {
                assert(map.dom().contains(t) == has_key(before, t));
                assert(self@.dom().contains(t) == has_key(after, t));
            }
            assert forall|t: Seq<char>| #[trigger] self@.dom().contains(t) implies self@[t]
                == target[t] by {
                assert(has_key(after, t));
                if t != name {
                    assert(map.dom().contains(t));
                    assert(map[t] == before[place(before, t)].1);
                }
            }
            assert(self@ =~= target);
        }
    }
}

/// What the calls of a table give and change: what was put under a text is found under it, and under
/// no other.
pub proof fn law_calls_of_a_table<V>()
    ensures
        forall|t: Table<V>| #[trigger]
            call_ensures(Table::<V>::new, (), t) ==> t@ == Map::<Seq<char>, V>::empty(),
        forall|t: &Table<V>, key: &str, value: Option<&V>| #[trigger]
            call_ensures(Table::<V>::get, (t, key), value) ==> {
                &&& value is Some <==> t@.dom().contains(key@)
                &&& value is Some ==> *value->Some_0 == t@[key@]
            },
        forall|m: &mut Table<V>, key: &str, value: Option<V>| #[trigger]
            call_ensures(Table::<V>::remove, (m, key), value) ==> {
                &&& final(m)@ == (*m)@.remove(key@)
                &&& value is Some <==> (*m)@.dom().contains(key@)
                &&& value is Some ==> value->Some_0 == (*m)@[key@]
            },
        forall|m: &mut Table<V>, key: String, value: V| #[trigger]
            call_ensures(Table::<V>::insert, (m, key, value), ()) ==> final(m)@ == (*m)@.insert(
                key@,
                value,
            ),
{
}

} // verus!
