//! Maps from names to values that keep their names in lexicographic order.
//!
//! The entries of such a map are a list of pairs, sorted by name. The
//! functions of this file work on the list itself; `StrMap` wraps one.
use crate::text::{
    lemma_lex_lt_irreflexive, lemma_lex_lt_transitive, lex_lt, str_order, strictly_sorted, Order3,
};
use vstd::prelude::*;
use vstd::string::*;

verus! {

/// The entries of a map: pairs of a name and a value, sorted by name.
pub type Entries<V> = Vec<(String, V)>;

/// The names of a list of entries, in its order.
pub open spec fn names_of<V>(e: Seq<(String, V)>) -> Seq<Seq<char>> {
    e.map_values(|x: (String, V)| x.0@)
}

/// A list of entries as a mathematical map from names to values.
pub open spec fn map_of<V>(e: Seq<(String, V)>) -> Map<Seq<char>, V> {
    Map::new(|n: Seq<char>| names_of(e).contains(n), |n: Seq<char>| e[names_of(e).index_of(n)].1)
}

/// The names stand in strictly increasing order, so none occurs twice.
pub open spec fn sorted<V>(e: Seq<(String, V)>) -> bool {
    strictly_sorted(names_of(e))
}

/// In a well-formed map a name stands at one position only, the map holds
/// at a name what stands beside it, and the names are the domain.
pub proof fn lemma_positions<V>(e: Seq<(String, V)>)
    requires
        sorted(e),
    ensures
        forall|i: int|
            0 <= i < names_of(e).len() ==> names_of(e).index_of(#[trigger] names_of(e)[i])
                == i,
        forall|i: int|
            0 <= i < names_of(e).len() ==> map_of(e).contains_key(#[trigger] names_of(e)[i])
                && map_of(e)[names_of(e)[i]] == e[i].1,
        map_of(e).dom() =~= names_of(e).to_set(),
        names_of(e).len() == e.len(),
        names_of(e).no_duplicates(),
{
    let names = names_of(e);
    assert forall|i: int| 0 <= i < names.len() implies names.index_of(#[trigger] names[i])
        == i by {
        let j = names.index_of(names[i]);
        assert(names.contains(names[i]));
        lemma_lex_lt_irreflexive(names[i]);
        if j < i {
            assert(lex_lt(names[j], names[i]));
        } else if i < j {
            assert(lex_lt(names[i], names[j]));
        }
    }
    assert forall|i: int, j: int| 0 <= i < names.len() && 0 <= j < names.len() && i != j implies names[i] != names[j] by {
        lemma_lex_lt_irreflexive(names[i]);
        if j < i {
            assert(lex_lt(names[j], names[i]));
        } else {
            assert(lex_lt(names[i], names[j]));
        }
    }
}

/// A name that stands strictly between its neighbours is not in the map.
proof fn lemma_absent<V>(e: Seq<(String, V)>, name: Seq<char>, i: int)
    requires
        0 <= i <= names_of(e).len(),
        forall|j: int| 0 <= j < i ==> lex_lt(#[trigger] names_of(e)[j], name),
        forall|j: int| i <= j < names_of(e).len() ==> lex_lt(name, #[trigger] names_of(e)[j]),
    ensures
        !map_of(e).contains_key(name),
        !names_of(e).contains(name),
{
    if names_of(e).contains(name) {
        let j = names_of(e).index_of(name);
        lemma_lex_lt_irreflexive(name);
        if j < i {
            assert(lex_lt(names_of(e)[j], name));
        } else {
            assert(lex_lt(name, names_of(e)[j]));
        }
    }
}

/// Where `name` stands (`Ok`), or where it would have to be put (`Err`).
pub fn find_entry<V>(e: &Vec<(String, V)>, name: &str) -> (r: Result<usize, usize>)
    requires
        sorted(e@),
    ensures
        match r {
            Ok(i) => i < names_of(e@).len() && names_of(e@)[i as int] == name@
                && map_of(e@).contains_key(name@) && map_of(e@)[name@] == e@[i as int].1,
            Err(i) => {
                &&& i <= names_of(e@).len()
                &&& !map_of(e@).contains_key(name@)
                &&& forall|j: int| 0 <= j < i ==> lex_lt(#[trigger] names_of(e@)[j], name@)
                &&& forall|j: int|
                    i <= j < names_of(e@).len() ==> lex_lt(name@, #[trigger] names_of(e@)[j])
            },
        },
{
    proof {
        lemma_positions(e@);
    }
    let mut i: usize = 0;
    while i < e.len()
        invariant
            sorted(e@),
            i <= e@.len(),
            names_of(e@).len() == e@.len(),
            forall|j: int| 0 <= j < i ==> lex_lt(#[trigger] names_of(e@)[j], name@),
        decreases e@.len() - i,
    {
        match str_order(e[i].0.as_str(), name) {
            Order3::Equal => {
                proof {
                    lemma_positions(e@);
                }
                return Ok(i);
            },
            Order3::Greater => {
                proof {
                    assert forall|j: int| i <= j < names_of(e@).len() implies lex_lt(
                        name@,
                        #[trigger] names_of(e@)[j],
                    ) by {
                        if j > i {
                            lemma_lex_lt_transitive(name@, names_of(e@)[i as int], names_of(e@)[j]);
                        }
                    }
                    lemma_absent(e@, name@, i as int);
                }
                return Err(i);
            },
            Order3::Less => {},
        }
        i = i + 1;
    }
    proof {
        lemma_absent(e@, name@, i as int);
    }
    Err(i)
}

/// Puts a new entry at position `i`, where its name stands strictly between
/// the names before and after that position.
pub fn insert_entry_at<V>(e: &mut Vec<(String, V)>, i: usize, name: String, value: V)
    requires
        sorted(old(e)@),
        i <= old(e)@.len(),
        forall|j: int| 0 <= j < i ==> lex_lt(#[trigger] names_of(old(e)@)[j], name@),
        forall|j: int| i <= j < old(e)@.len() ==> lex_lt(name@, #[trigger] names_of(old(e)@)[j]),
    ensures
        sorted(final(e)@),
        final(e)@ == old(e)@.insert(i as int, (name, value)),
        names_of(final(e)@) == names_of(old(e)@).insert(i as int, name@),
        map_of(final(e)@) == map_of(old(e)@).insert(name@, value),
        !map_of(old(e)@).contains_key(name@),
{
    let ghost before = e@;
    let ghost key = name@;
    proof {
        lemma_positions(e@);
        lemma_absent(e@, name@, i as int);
    }
    e.insert(i, (name, value));
    proof {
        assert(names_of(e@) =~= names_of(before).insert(i as int, key));
        assert forall|a: int, b: int| 0 <= a < b < names_of(e@).len() implies lex_lt(
            #[trigger] names_of(e@)[a],
            #[trigger] names_of(e@)[b],
        ) by {
            let x = if a < i { a } else { a - 1 };
            let y = if b < i { b } else { b - 1 };
            if a != i && b != i {
                assert(names_of(e@)[a] == names_of(before)[x]);
                assert(names_of(e@)[b] == names_of(before)[y]);
            } else if a == i {
                assert(names_of(e@)[b] == names_of(before)[y]);
            } else {
                assert(names_of(e@)[a] == names_of(before)[x]);
            }
        }
        lemma_positions(e@);
        assert(map_of(e@) =~= map_of(before).insert(key, value)) by {
            assert forall|n: Seq<char>| #[trigger] names_of(e@).contains(n) <==> (n == key
                || names_of(before).contains(n)) by {
                if names_of(e@).contains(n) {
                    let j = names_of(e@).index_of(n);
                    if j < i {
                        assert(names_of(before)[j] == n);
                    } else if j > i {
                        assert(names_of(before)[j - 1] == n);
                    }
                }
                if names_of(before).contains(n) {
                    let j = names_of(before).index_of(n);
                    if j < i {
                        assert(names_of(e@)[j] == n);
                    } else {
                        assert(names_of(e@)[j + 1] == n);
                    }
                }
                if n == key {
                    assert(names_of(e@)[i as int] == n);
                }
            }
            assert forall|n: Seq<char>| names_of(e@).contains(n) implies #[trigger] map_of(e@)[n]
                == map_of(before).insert(key, value)[n] by {
                let j = names_of(e@).index_of(n);
                assert(names_of(e@)[j] == n);
                if j < i {
                    assert(names_of(before)[j] == n);
                } else if j > i {
                    assert(names_of(before)[j - 1] == n);
                }
            }
        }
    }
}

/// Puts `value` at `name` and gives back what stood there before.
pub fn put_entry<V>(e: &mut Vec<(String, V)>, name: String, value: V) -> (r: Option<V>)
    requires
        sorted(old(e)@),
    ensures
        sorted(final(e)@),
        final(e)@.len() == old(e)@.len() + if map_of(old(e)@).contains_key(name@) {
            0int
        } else {
            1int
        },
        map_of(final(e)@) == map_of(old(e)@).insert(name@, value),
        r == if map_of(old(e)@).contains_key(name@) {
            Some(map_of(old(e)@)[name@])
        } else {
            None::<V>
        },
{
    let ghost before = e@;
    let ghost key = name@;
    proof {
        lemma_positions(e@);
    }
    match find_entry(e, name.as_str()) {
        Ok(i) => {
            let old_entry = e.remove(i);
            e.insert(i, (name, value));
            proof {
                assert(names_of(e@) =~= names_of(before));
                lemma_positions(e@);
                assert(map_of(e@) =~= map_of(before).insert(key, value)) by {
                    assert forall|n: Seq<char>| names_of(e@).contains(n) implies #[trigger] map_of(e@)[n]
                        == map_of(before).insert(key, value)[n] by {
                        let j = names_of(e@).index_of(n);
                        assert(names_of(e@)[j] == n);
                    }
                }
            }
            Some(old_entry.1)
        },
        Err(i) => {
            insert_entry_at(e, i, name, value);
            None
        },
    }
}

/// Takes the entry at `name` out of the map.
pub fn take_entry<V>(e: &mut Vec<(String, V)>, name: &str) -> (r: Option<V>)
    requires
        sorted(old(e)@),
    ensures
        sorted(final(e)@),
        map_of(final(e)@) == map_of(old(e)@).remove(name@),
        r == if map_of(old(e)@).contains_key(name@) {
            Some(map_of(old(e)@)[name@])
        } else {
            None::<V>
        },
{
    let ghost before = e@;
    proof {
        lemma_positions(e@);
    }
    match find_entry(e, name) {
        Ok(i) => {
            let old_entry = e.remove(i);
            proof {
                assert(names_of(e@) =~= names_of(before).remove(i as int));
                assert forall|a: int, b: int| 0 <= a < b < names_of(e@).len() implies lex_lt(
                    #[trigger] names_of(e@)[a],
                    #[trigger] names_of(e@)[b],
                ) by {
                    let x = if a < i { a } else { a + 1 };
                    let y = if b < i { b } else { b + 1 };
                    assert(names_of(e@)[a] == names_of(before)[x]);
                    assert(names_of(e@)[b] == names_of(before)[y]);
                }
                lemma_positions(e@);
                assert(map_of(e@) =~= map_of(before).remove(name@)) by {
                    assert forall|n: Seq<char>| #[trigger] names_of(e@).contains(n) <==> (n != name@
                        && names_of(before).contains(n)) by {
                        if names_of(e@).contains(n) {
                            let j = names_of(e@).index_of(n);
                            if j < i {
                                assert(names_of(before)[j] == n);
                            } else {
                                assert(names_of(before)[j + 1] == n);
                            }
                        }
                        if names_of(before).contains(n) && n != name@ {
                            let j = names_of(before).index_of(n);
                            if j < i {
                                assert(names_of(e@)[j] == n);
                            } else {
                                assert(names_of(e@)[j - 1] == n);
                            }
                        }
                    }
                    assert forall|n: Seq<char>| names_of(e@).contains(n) implies #[trigger] map_of(e@)[n]
                        == map_of(before)[n] by {
                        let j = names_of(e@).index_of(n);
                        assert(names_of(e@)[j] == n);
                        if j < i {
                            assert(names_of(before)[j] == n);
                        } else {
                            assert(names_of(before)[j + 1] == n);
                        }
                    }
                }
            }
            Some(old_entry.1)
        },
        Err(_) => {
            assert(map_of(e@) =~= map_of(before).remove(name@));
            None
        },
    }
}

/// The names, in the order in which they are enumerated.
pub fn entry_names<V>(e: &Vec<(String, V)>) -> (r: Vec<String>)
    ensures
        r@.map_values(|s: String| s@) == names_of(e@),
{
    let mut r: Vec<String> = Vec::new();
    let mut i: usize = 0;
    while i < e.len()
        invariant
            i <= e@.len(),
            r@.len() == i,
            forall|j: int| 0 <= j < i ==> (#[trigger] r@[j])@ == names_of(e@)[j],
        decreases e@.len() - i,
    {
        r.push(e[i].0.clone());
        i = i + 1;
    }
    assert(r@.map_values(|s: String| s@) =~= names_of(e@));
    r
}

/// Putting another value beside the name at position `i` keeps the names and
/// their order, and changes the map at that name only.
pub proof fn lemma_value_update<V>(e: Seq<(String, V)>, i: int, v: V)
    requires
        sorted(e),
        0 <= i < e.len(),
    ensures
        names_of(e.update(i, (e[i].0, v))) == names_of(e),
        sorted(e.update(i, (e[i].0, v))),
        map_of(e.update(i, (e[i].0, v))) == map_of(e).insert(names_of(e)[i], v),
{
    let f = e.update(i, (e[i].0, v));
    assert(names_of(f) =~= names_of(e));
    lemma_positions(e);
    lemma_positions(f);
    assert(map_of(f) =~= map_of(e).insert(names_of(e)[i], v)) by {
        assert forall|n: Seq<char>| names_of(f).contains(n) implies #[trigger] map_of(f)[n] == map_of(
            e,
        ).insert(names_of(e)[i], v)[n] by {
            let j = names_of(f).index_of(n);
            assert(names_of(f)[j] == n);
        }
    }
}

/// A map keyed by text. No name occurs twice, and the names are enumerated in
/// strictly increasing lexicographic order.
#[derive(Debug)]
pub struct StrMap<V> {
    entries: Vec<(String, V)>,
}

impl<V> StrMap<V> {
    /// The entries in the order in which they are enumerated.
    pub closed spec fn entries(&self) -> Seq<(String, V)> {
        self.entries@
    }

    /// The names in the order in which they are enumerated.
    pub open spec fn names(&self) -> Seq<Seq<char>> {
        names_of(self.entries())
    }

    /// The map as a mathematical map from names to values.
    pub open spec fn map(&self) -> Map<Seq<char>, V> {
        map_of(self.entries())
    }

    /// The names stand in strictly increasing order, so none occurs twice.
    pub open spec fn wf(&self) -> bool {
        sorted(self.entries())
    }

    /// In a well-formed map the names are the domain, each once, and the
    /// map holds at a name what stands beside it.
    pub proof fn lemma_names(&self)
        requires
            self.wf(),
        ensures
            self.names().len() == self.entries().len(),
            self.names().no_duplicates(),
            forall|n: Seq<char>| self.names().contains(n) <==> #[trigger] self.map().contains_key(n),
            forall|i: int|
                0 <= i < self.names().len() ==> self.map().contains_key(#[trigger] self.names()[i])
                    && self.map()[self.names()[i]] == self.entries()[i].1,
    {
        lemma_positions(self.entries());
    }

    /// An empty map.
    pub fn new() -> (m: Self)
        ensures
            m.wf(),
            m.entries().len() == 0,
            m.map() == Map::<Seq<char>, V>::empty(),
    {
        let m = StrMap { entries: Vec::new() };
        assert(m.map() =~= Map::<Seq<char>, V>::empty());
        m
    }

    /// The number of entries.
    pub fn len(&self) -> (n: usize)
        ensures
            n == self.entries().len(),
            n == self.names().len(),
    {
        self.entries.len()
    }

    /// Whether the map holds `name`.
    pub fn contains_key(&self, name: &str) -> (r: bool)
        requires
            self.wf(),
        ensures
            r == self.map().contains_key(name@),
    {
        find_entry(&self.entries, name).is_ok()
    }

    /// The value at `name`.
    pub fn get(&self, name: &str) -> (r: Option<&V>)
        requires
            self.wf(),
        ensures
            match r {
                Some(v) => self.map().contains_key(name@) && *v == self.map()[name@],
                None => !self.map().contains_key(name@),
            },
    {
        match find_entry(&self.entries, name) {
            Ok(i) => Some(&self.entries[i].1),
            Err(_) => None,
        }
    }

    /// The name at position `i` of the enumeration.
    pub fn name_at(&self, i: usize) -> (r: &String)
        requires
            i < self.names().len(),
        ensures
            r@ == self.names()[i as int],
    {
        &self.entries[i].0
    }

    /// The value at position `i` of the enumeration.
    pub fn value_at(&self, i: usize) -> (r: &V)
        requires
            self.wf(),
            i < self.names().len(),
        ensures
            *r == self.entries()[i as int].1,
            *r == self.map()[self.names()[i as int]],
    {
        proof {
            lemma_positions(self.entries());
        }
        &self.entries[i].1
    }

    /// Puts `value` at `name` and gives back what stood there before.
    pub fn insert(&mut self, name: String, value: V) -> (r: Option<V>)
        requires
            old(self).wf(),
        ensures
            final(self).wf(),
            final(self).names().len() == old(self).names().len() + if old(self).map().contains_key(
                name@,
            ) {
                0int
            } else {
                1int
            },
            final(self).map() == old(self).map().insert(name@, value),
            r == if old(self).map().contains_key(name@) {
                Some(old(self).map()[name@])
            } else {
                None::<V>
            },
    {
        put_entry(&mut self.entries, name, value)
    }

    /// Takes the entry at `name` out of the map.
    pub fn remove(&mut self, name: &str) -> (r: Option<V>)
        requires
            old(self).wf(),
        ensures
            final(self).wf(),
            final(self).map() == old(self).map().remove(name@),
            r == if old(self).map().contains_key(name@) {
                Some(old(self).map()[name@])
            } else {
                None::<V>
            },
    {
        take_entry(&mut self.entries, name)
    }

    /// Takes the entry with the greatest name out of the map.
    pub fn pop_last(&mut self) -> (r: Option<(String, V)>)
        requires
            old(self).wf(),
        ensures
            final(self).wf(),
            match r {
                Some(entry) => {
                    &&& old(self).map().contains_key(entry.0@)
                    &&& old(self).map()[entry.0@] == entry.1
                    &&& final(self).map() == old(self).map().remove(entry.0@)
                    &&& final(self).names() == old(self).names().drop_last()
                },
                None => old(self).names().len() == 0 && final(self).map() == old(self).map()
                    && final(self).names() == old(self).names(),
            },
    {
        let ghost before = self.entries@;
        proof {
            lemma_positions(before);
        }
        let r = self.entries.pop();
        proof {
            if r is Some {
                let last = before.len() - 1;
                let key = names_of(before)[last];
                assert(names_of(self.entries@) =~= names_of(before).drop_last());
                assert forall|a: int, b: int| 0 <= a < b < names_of(self.entries@).len() implies lex_lt(
                    #[trigger] names_of(self.entries@)[a],
                    #[trigger] names_of(self.entries@)[b],
                ) by {
                    assert(names_of(self.entries@)[a] == names_of(before)[a]);
                    assert(names_of(self.entries@)[b] == names_of(before)[b]);
                }
                lemma_positions(self.entries@);
                assert(map_of(self.entries@) =~= map_of(before).remove(key)) by {
                    assert forall|n: Seq<char>| #[trigger]
                        names_of(self.entries@).contains(n) <==> (n != key && names_of(
                            before,
                        ).contains(n)) by {
                        if names_of(self.entries@).contains(n) {
                            let j = names_of(self.entries@).index_of(n);
                            assert(names_of(before)[j] == n);
                        }
                        if names_of(before).contains(n) && n != key {
                            let j = names_of(before).index_of(n);
                            assert(names_of(self.entries@)[j] == n);
                        }
                    }
                    assert forall|n: Seq<char>| names_of(self.entries@).contains(n) implies #[trigger] map_of(
                        self.entries@,
                    )[n] == map_of(before)[n] by {
                        let j = names_of(self.entries@).index_of(n);
                        assert(names_of(self.entries@)[j] == n);
                        assert(names_of(before)[j] == n);
                    }
                }
            } else {
                assert(names_of(before) =~= Seq::<Seq<char>>::empty());
            }
        }
        r
    }

    /// The names, in the order in which they are enumerated.
    pub fn keys(&self) -> (r: Vec<String>)
        ensures
            r@.map_values(|s: String| s@) == self.names(),
    {
        entry_names(&self.entries)
    }
}

impl<V> Default for StrMap<V> {
    fn default() -> (m: Self)
        ensures
            m.wf(),
            m.map() == Map::<Seq<char>, V>::empty(),
    {
        StrMap::new()
    }
}

impl<V: Clone> Clone for StrMap<V> {
    /// A map with the same names, each with a clone of its value.
    fn clone(&self) -> (m: Self)
        ensures
            m.names() == self.names(),
            forall|i: int|
                0 <= i < self.entries().len() ==> cloned(
                    (#[trigger] self.entries()[i]).1,
                    m.entries()[i].1,
                ),
            self.wf() ==> m.wf(),
            self.wf() ==> forall|n: Seq<char>| #[trigger]
                self.map().contains_key(n) ==> m.map().contains_key(n) && cloned(
                    self.map()[n],
                    m.map()[n],
                ),
    {
        let mut entries: Vec<(String, V)> = Vec::new();
        let mut i: usize = 0;
        while i < self.entries.len()
            invariant
                i <= self.entries@.len(),
                entries@.len() == i,
                forall|j: int|
                    0 <= j < i ==> (#[trigger] entries@[j]).0@ == self.entries@[j].0@ && cloned(
                        self.entries@[j].1,
                        entries@[j].1,
                    ),
            decreases self.entries@.len() - i,
        {
            entries.push((self.entries[i].0.clone(), self.entries[i].1.clone()));
            i = i + 1;
        }
        let m = StrMap { entries };
        proof {
            assert(m.names() =~= self.names());
            if self.wf() {
                lemma_positions(self.entries@);
                lemma_positions(m.entries@);
                assert forall|n: Seq<char>| #[trigger]
                    self.map().contains_key(n) implies m.map().contains_key(n) && cloned(
                    self.map()[n],
                    m.map()[n],
                ) by {
                    let j = self.names().index_of(n);
                    assert(self.names()[j] == n);
                    assert(m.names()[j] == n);
                }
            }
        }
        m
    }
}

} // verus!
