//! A registry held in memory: a tree of named keys, each with its subkeys and
//! its values, and the table of the handles that were given out for it.
use crate::strmap::{
    entry_names, find_entry, insert_entry_at, lemma_value_update, map_of, names_of, put_entry,
    sorted, Entries,
};
use crate::err::{ErrorView, ForensicError, ForensicResult};
use crate::text::{char_len, first_sep, is_sep, lemma_first_sep, split_once_sep, split_path};
use crate::traits::registry::{
    child_path, longest, low32, texts, RegData, RegHiveKey, RegValue, RegistryKeyInfo,
    RegistryModel, RegistryReader,
};
use crate::utils::time::{filetime_fields, Filetime};
use vstd::prelude::*;
use vstd::string::*;

verus! {

/// A key of the registry: its name, its subkeys and its values. The two
/// namespaces are apart: a subkey and a value may bear one name.
#[derive(Debug)]
pub struct MountedCell {
    pub name: String,
    pub keys: Entries<MountedCell>,
    pub values: Entries<RegValue>,
}

/// The names by which a path descends from a key: its segments, where a
/// separator at the very end adds none, and none at all for the empty path.
pub open spec fn descend_path(p: Seq<char>) -> Seq<Seq<char>>
    decreases p.len(),
{
    if p.len() == 0 {
        Seq::<Seq<char>>::empty()
    } else {
        let i = first_sep(p);
        if 0 <= i < p.len() {
            seq![p.take(i)] + descend_path(p.skip(i + 1))
        } else {
            seq![p]
        }
    }
}

/// The key that a path of names leads to, from the keys of `forest` down.
/// The empty path leads nowhere.
pub open spec fn find_node(forest: Seq<(String, MountedCell)>, segs: Seq<Seq<char>>) -> Option<
    MountedCell,
>
    decreases segs.len(),
{
    if segs.len() == 0 {
        None
    } else if !map_of(forest).contains_key(segs[0]) {
        None
    } else if segs.len() == 1 {
        Some(map_of(forest)[segs[0]])
    } else {
        find_node(map_of(forest)[segs[0]].keys@, segs.drop_first())
    }
}

/// Every key below `forest` is in order: its names are sorted, and each key
/// bears the name under which it hangs.
pub open spec fn forest_wf(forest: Seq<(String, MountedCell)>) -> bool {
    &&& sorted(forest)
    &&& forall|segs: Seq<Seq<char>>| node_ok(#[trigger] find_node(forest, segs), segs.last())
}

/// A key, where there is one, has its names sorted and bears the name `name`.
pub open spec fn node_ok(node: Option<MountedCell>, name: Seq<char>) -> bool {
    match node {
        Some(c) => sorted(c.keys@) && sorted(c.values@) && c.name@ == name,
        None => true,
    }
}

impl MountedCell {
    /// The key is in order, with every key below it.
    pub open spec fn wf(&self) -> bool {
        sorted(self.values@) && forest_wf(self.keys@)
    }

    /// The key that a path of names leads to from this one; the empty path
    /// leads to this key itself.
    pub open spec fn node_at(&self, segs: Seq<Seq<char>>) -> Option<MountedCell> {
        if segs.len() == 0 {
            Some(*self)
        } else {
            find_node(self.keys@, segs)
        }
    }

    /// The value called `name` of this key.
    pub open spec fn value(&self, name: Seq<char>) -> Option<RegData> {
        if map_of(self.values@).contains_key(name) {
            Some(map_of(self.values@)[name]@)
        } else {
            None
        }
    }

    /// The value called `name` of the key that `segs` leads to.
    pub open spec fn value_at(&self, segs: Seq<Seq<char>>, name: Seq<char>) -> Option<RegData> {
        match self.node_at(segs) {
            Some(c) => c.value(name),
            None => None,
        }
    }

    /// A key of the given name without subkeys or values.
    pub fn new(name: &str) -> (c: Self)
        ensures
            c.wf(),
            c.name@ == name@,
            c.keys@.len() == 0,
            c.values@.len() == 0,
    {
        let c = MountedCell { name: String::from_str(name), keys: Vec::new(), values: Vec::new() };
        assert(forest_wf(c.keys@));
        c
    }
}

/// A key that hangs in a forest in order is in order itself.
pub proof fn lemma_child_wf(forest: Seq<(String, MountedCell)>, name: Seq<char>)
    requires
        forest_wf(forest),
        map_of(forest).contains_key(name),
    ensures
        map_of(forest)[name].wf(),
        map_of(forest)[name].name@ == name,
{
    let child = map_of(forest)[name];
    assert(find_node(forest, seq![name]) == Some(child));
    assert(seq![name].last() == name);
    assert forall|segs: Seq<Seq<char>>| node_ok(
        #[trigger] find_node(child.keys@, segs),
        segs.last(),
    ) by {
        if segs.len() > 0 {
            let whole = seq![name] + segs;
            assert(whole.drop_first() =~= segs);
            assert(find_node(forest, whole) == find_node(child.keys@, segs));
            assert(whole.last() == segs.last());
        }
    }
}

/// A forest of keys that are each in order, and that each bear the name
/// under which they hang, is in order.
pub proof fn lemma_forest_wf(forest: Seq<(String, MountedCell)>)
    requires
        sorted(forest),
        forall|n: Seq<char>| #[trigger]
            map_of(forest).contains_key(n) ==> map_of(forest)[n].wf() && map_of(forest)[n].name@ == n,
    ensures
        forest_wf(forest),
{
    assert forall|segs: Seq<Seq<char>>| node_ok(#[trigger] find_node(forest, segs), segs.last()) by {
        if find_node(forest, segs) is Some {
            let child = map_of(forest)[segs[0]];
            assert(map_of(forest).contains_key(segs[0]));
            assert(child.wf() && child.name@ == segs[0]);
            if segs.len() > 1 {
                let rest = segs.drop_first();
                assert(rest.last() == segs.last());
                assert(node_ok(find_node(child.keys@, rest), rest.last()));
            }
        }
    }
}

/// A path has at least one segment.
pub proof fn lemma_split_path_len(s: Seq<char>)
    ensures
        split_path(s).len() >= 1,
    decreases s.len(),
{
    lemma_first_sep(s);
    let i = first_sep(s);
    if 0 <= i < s.len() {
        lemma_split_path_len(s.skip(i + 1));
    }
}

impl MountedCell {
    /// Whether the path leads to a key below this one.
    pub fn contains_key(&self, path: &str) -> (r: bool)
        requires
            self.wf(),
        ensures
            r == (find_node(self.keys@, split_path(path@)) is Some),
        decreases path@.len(),
    {
        let (first, rest) = match split_once_sep(path) {
            Some(v) => v,
            None => {
                return find_entry(&self.keys, path).is_ok();
            },
        };
        proof {
            lemma_split_path_len(rest@);
            assert((seq![first@] + split_path(rest@)).drop_first() =~= split_path(rest@));
        }
        let hive = match find_entry(&self.keys, first) {
            Ok(i) => &self.keys[i].1,
            Err(_) => {
                return false;
            },
        };
        proof {
            lemma_child_wf(self.keys@, first@);
        }
        hive.contains_key(rest)
    }
}

/// The first name of a path, which is what stands before its first
/// separator, and what follows that separator.
fn first_and_rest<'a>(path: &'a str) -> (r: (&'a str, &'a str))
    ensures
        reg_path(path@) == seq![r.0@] + descend_path(r.1@),
        path@.len() > 0 ==> descend_path(path@) == reg_path(path@) && r.1@.len() < path@.len(),
{
    proof {
        reveal_strlit("");
        lemma_first_sep(path@);
    }
    match split_once_sep(path) {
        Some(v) => v,
        None => {
            assert(""@ =~= Seq::<char>::empty());
            assert(seq![path@] + descend_path(""@) =~= seq![path@]);
            (path, "")
        },
    }
}

/// A path that begins with `first` leads from a key through the subkey of
/// that name, and nowhere where there is no such subkey.
pub proof fn lemma_node_step(cell: MountedCell, first: Seq<char>, rest: Seq<Seq<char>>)
    ensures
        cell.node_at(seq![first] + rest) == if map_of(cell.keys@).contains_key(first) {
            map_of(cell.keys@)[first].node_at(rest)
        } else {
            None
        },
{
    let whole = seq![first] + rest;
    assert(whole[0] == first);
    assert(whole.drop_first() =~= rest);
}

impl MountedCell {
    /// The value called `value` of the key that `path` leads to.
    pub fn get_value(&self, path: &str, value: &str) -> (r: Option<RegValue>)
        requires
            self.wf(),
        ensures
            match r {
                Some(v) => self.value_at(descend_path(path@), value@) == Some(v@),
                None => self.value_at(descend_path(path@), value@) is None,
            },
        decreases path@.len(),
    {
        if path.is_empty() {
            return match find_entry(&self.values, value) {
                Ok(i) => Some(self.values[i].1.clone()),
                Err(_) => None,
            };
        }
        let (first, rest) = first_and_rest(path);
        proof {
            lemma_node_step(*self, first@, descend_path(rest@));
        }
        match find_entry(&self.keys, first) {
            Ok(i) => {
                proof {
                    lemma_child_wf(self.keys@, first@);
                }
                self.keys[i].1.get_value(rest, value)
            },
            Err(_) => None,
        }
    }

    /// The names of the values of the key that `path` leads to, in order;
    /// none where it leads to no key.
    pub fn get_values(&self, path: &str) -> (r: Vec<String>)
        requires
            self.wf(),
        ensures
            texts(r@) == match self.node_at(descend_path(path@)) {
                Some(c) => names_of(c.values@),
                None => Seq::<Seq<char>>::empty(),
            },
        decreases path@.len(),
    {
        if path.is_empty() {
            return entry_names(&self.values);
        }
        let (first, rest) = first_and_rest(path);
        proof {
            lemma_node_step(*self, first@, descend_path(rest@));
        }
        match find_entry(&self.keys, first) {
            Ok(i) => {
                proof {
                    lemma_child_wf(self.keys@, first@);
                }
                self.keys[i].1.get_values(rest)
            },
            Err(_) => {
                let r: Vec<String> = Vec::new();
                assert(texts(r@) =~= Seq::<Seq<char>>::empty());
                r
            },
        }
    }

    /// The names of the subkeys of the key that `path` leads to, in order;
    /// none where it leads to no key.
    pub fn get_keys(&self, path: &str) -> (r: Vec<String>)
        requires
            self.wf(),
        ensures
            texts(r@) == match self.node_at(descend_path(path@)) {
                Some(c) => names_of(c.keys@),
                None => Seq::<Seq<char>>::empty(),
            },
        decreases path@.len(),
    {
        if path.is_empty() {
            return entry_names(&self.keys);
        }
        let (first, rest) = first_and_rest(path);
        proof {
            lemma_node_step(*self, first@, descend_path(rest@));
        }
        match find_entry(&self.keys, first) {
            Ok(i) => {
                proof {
                    lemma_child_wf(self.keys@, first@);
                }
                self.keys[i].1.get_keys(rest)
            },
            Err(_) => {
                let r: Vec<String> = Vec::new();
                assert(texts(r@) =~= Seq::<Seq<char>>::empty());
                r
            },
        }
    }
}

/// A value that is put under a name.
pub struct Put {
    pub name: Seq<char>,
    pub data: RegData,
}

/// What `after` holds where `before` has grown by the keys along the path
/// `target` and, where `change` names one, by that value at the end of it:
/// the keys of `after` are those of `before` and those along `target`, and
/// every value is as before but for the one that was put.
pub open spec fn grown(
    before: MountedCell,
    after: MountedCell,
    target: Seq<Seq<char>>,
    change: Option<Put>,
) -> bool {
    &&& after.name@ == before.name@
    &&& forall|segs: Seq<Seq<char>>|
        (#[trigger] after.node_at(segs)) is Some <==> (before.node_at(segs) is Some
            || segs.is_prefix_of(target))
    &&& forall|segs: Seq<Seq<char>>, n: Seq<char>| #[trigger]
        after.value_at(segs, n) == if change is Some && segs == target && n == change->0.name {
            Some(change->0.data)
        } else {
            before.value_at(segs, n)
        }
}

/// Where a subkey has grown, the key above it has grown by the same path
/// with the name of that subkey in front.
pub proof fn lemma_grown_step(
    before: MountedCell,
    after: MountedCell,
    first: Seq<char>,
    child_before: MountedCell,
    child_after: MountedCell,
    sub: Seq<Seq<char>>,
    change: Option<Put>,
)
    requires
        after.name@ == before.name@,
        after.values@ == before.values@,
        map_of(after.keys@) == map_of(before.keys@).insert(first, child_after),
        map_of(before.keys@).contains_key(first) ==> child_before == map_of(before.keys@)[first],
        !map_of(before.keys@).contains_key(first) ==> child_before.keys@.len() == 0
            && child_before.values@.len() == 0,
        grown(child_before, child_after, sub, change),
    ensures
        grown(before, after, seq![first] + sub, change),
{
    let target = seq![first] + sub;
    assert(target[0] == first);
    assert(target.drop_first() =~= sub);
    assert forall|segs: Seq<Seq<char>>|
        (#[trigger] after.node_at(segs)) is Some <==> (before.node_at(segs) is Some
            || segs.is_prefix_of(target)) by {
        if segs.len() > 0 {
            let f = segs[0];
            let r = segs.drop_first();
            assert(segs =~= seq![f] + r);
            lemma_node_step(after, f, r);
            lemma_node_step(before, f, r);
            lemma_prefix_step(segs, target);
            if f == first {
                assert(child_after.node_at(r) is Some <==> (child_before.node_at(r) is Some
                    || r.is_prefix_of(sub)));
                if !map_of(before.keys@).contains_key(first) {
                    assert(child_before.node_at(r) is Some <==> r.len() == 0);
                }
            }
        }
    }
    assert forall|segs: Seq<Seq<char>>, n: Seq<char>| #[trigger]
        after.value_at(segs, n) == if change is Some && segs == target && n == change->0.name {
            Some(change->0.data)
        } else {
            before.value_at(segs, n)
        } by {
        if segs.len() > 0 {
            let f = segs[0];
            let r = segs.drop_first();
            assert(segs =~= seq![f] + r);
            lemma_node_step(after, f, r);
            lemma_node_step(before, f, r);
            if f == first {
                assert(child_after.value_at(r, n) == if change is Some && r == sub && n
                    == change->0.name {
                    Some(change->0.data)
                } else {
                    child_before.value_at(r, n)
                });
                if !map_of(before.keys@).contains_key(first) {
                    assert(child_before.value_at(r, n) is None);
                }
                if r == sub {
                    assert(segs =~= target);
                }
            } else {
                assert(segs != target);
            }
        } else {
            assert(segs != target);
        }
    }
}

/// A path that is not empty begins another exactly where both begin with
/// the same name and the rest of the one begins the rest of the other.
pub proof fn lemma_prefix_step(a: Seq<Seq<char>>, b: Seq<Seq<char>>)
    requires
        a.len() > 0,
        b.len() > 0,
    ensures
        a.is_prefix_of(b) <==> (a[0] == b[0] && a.drop_first().is_prefix_of(b.drop_first())),
{
    let x = a.drop_first();
    let y = b.drop_first();
    if a.is_prefix_of(b) {
        assert(b.subrange(0, a.len() as int)[0] == a[0]);
        assert(x =~= y.subrange(0, x.len() as int)) by {
            assert forall|i: int| 0 <= i < x.len() implies x[i] == y.subrange(0, x.len() as int)[i] by {
                assert(a[i + 1] == b.subrange(0, a.len() as int)[i + 1]);
            }
        }
    }
    if a[0] == b[0] && x.is_prefix_of(y) {
        assert(a =~= b.subrange(0, a.len() as int)) by {
            assert forall|i: int| 0 <= i < a.len() implies a[i] == b.subrange(0, a.len() as int)[i] by {
                if i > 0 {
                    assert(x[i - 1] == y.subrange(0, x.len() as int)[i - 1]);
                }
            }
        }
    }
}

/// `after` is `before` with the subkey called `name` made where it was not
/// there, and that subkey stands at position `i`, in order.
pub open spec fn subkey_made(before: MountedCell, after: MountedCell, i: int, name: Seq<char>) -> bool {
    &&& after.name == before.name
    &&& after.values == before.values
    &&& sorted(after.keys@)
    &&& 0 <= i < after.keys@.len()
    &&& names_of(after.keys@)[i] == name
    &&& map_of(after.keys@).contains_key(name)
    &&& map_of(after.keys@)[name] == after.keys@[i].1
    &&& after.keys@[i].1.wf()
    &&& after.keys@[i].1.name@ == name
    &&& map_of(before.keys@).contains_key(name) ==> after.keys == before.keys
    &&& !map_of(before.keys@).contains_key(name) ==> {
        &&& after.keys@[i].1.keys@.len() == 0
        &&& after.keys@[i].1.values@.len() == 0
        &&& map_of(after.keys@) == map_of(before.keys@).insert(name, after.keys@[i].1)
    }
}

/// A key of which the subkey at position `i` has grown has grown itself by
/// the same path with the name of the subkey in front, and is in order.
pub proof fn lemma_subkey_grown(
    before: MountedCell,
    middle: MountedCell,
    after: MountedCell,
    i: int,
    first: Seq<char>,
    sub: Seq<Seq<char>>,
    change: Option<Put>,
)
    requires
        before.wf(),
        subkey_made(before, middle, i, first),
        after.name == middle.name,
        after.values == middle.values,
        after.keys@ == middle.keys@.update(i, (middle.keys@[i].0, after.keys@[i].1)),
        after.keys@[i].1.wf(),
        grown(middle.keys@[i].1, after.keys@[i].1, sub, change),
    ensures
        after.wf(),
        grown(before, after, seq![first] + sub, change),
{
    let child_before = middle.keys@[i].1;
    let child_after = after.keys@[i].1;
    lemma_value_update(middle.keys@, i, child_after);
    assert(map_of(after.keys@) =~= map_of(before.keys@).insert(first, child_after));
    assert forall|n: Seq<char>| #[trigger]
        map_of(after.keys@).contains_key(n) implies map_of(after.keys@)[n].wf() && map_of(
        after.keys@,
    )[n].name@ == n by {
        if n != first {
            lemma_child_wf(before.keys@, n);
        }
    }
    lemma_forest_wf(after.keys@);
    lemma_grown_step(before, after, first, child_before, child_after, sub, change);
}

impl MountedCell {
    /// The subkey called `name` and its position, made first where there is
    /// none.
    fn subkey_position(&mut self, name: &str) -> (i: usize)
        requires
            old(self).wf(),
        ensures
            subkey_made(*old(self), *final(self), i as int, name@),
    {
        match find_entry(&self.keys, name) {
            Ok(i) => {
                proof {
                    lemma_child_wf(self.keys@, name@);
                }
                i
            },
            Err(i) => {
                insert_entry_at(&mut self.keys, i, String::from_str(name), MountedCell::new(name));
                i
            },
        }
    }

    /// Puts the value `data` under the name `value` at the key that `path`
    /// leads to, and makes the keys along the path that are not there yet.
    pub fn add_value(&mut self, path: &str, value: &str, data: RegValue)
        requires
            old(self).wf(),
        ensures
            final(self).wf(),
            grown(*old(self), *final(self), descend_path(path@), Some(Put { name: value@, data: data@ })),
        decreases path@.len(),
    {
        let ghost before = *self;
        if path.is_empty() {
            put_entry(&mut self.values, String::from_str(value), data);
            proof {
                let target = Seq::<Seq<char>>::empty();
                assert(descend_path(path@) =~= target);
                assert forall|segs: Seq<Seq<char>>|
                    (#[trigger] self.node_at(segs)) is Some <==> (before.node_at(segs) is Some
                        || segs.is_prefix_of(target)) by {}
                assert forall|segs: Seq<Seq<char>>, n: Seq<char>| #[trigger]
                    self.value_at(segs, n) == if segs == target && n == value@ {
                        Some(data@)
                    } else {
                        before.value_at(segs, n)
                    } by {
                    if segs.len() == 0 {
                        assert(segs =~= target);
                    }
                }
            }
            return ;
        }
        let (first, rest) = first_and_rest(path);
        let i = self.subkey_position(first);
        let ghost middle = *self;
        self.keys[i].1.add_value(rest, value, data);
        proof {
            lemma_subkey_grown(before, middle, *self, i as int, first@, descend_path(rest@), Some(Put { name: value@, data: data@ }));
        }
    }

    /// Makes the keys along `path` that are not there yet.
    pub fn add_key(&mut self, path: &str)
        requires
            old(self).wf(),
        ensures
            final(self).wf(),
            grown(*old(self), *final(self), descend_path(path@), None),
        decreases path@.len(),
    {
        let ghost before = *self;
        if path.is_empty() {
            proof {
                let target = Seq::<Seq<char>>::empty();
                assert(descend_path(path@) =~= target);
            }
            return ;
        }
        let (first, rest) = first_and_rest(path);
        let i = self.subkey_position(first);
        let ghost middle = *self;
        self.keys[i].1.add_key(rest);
        proof {
            lemma_subkey_grown(before, middle, *self, i as int, first@, descend_path(rest@), None);
        }
    }
}

/// The names by which a path leads from the root of a registry to a key: the
/// name of the hive, which is the part before the first separator, and then
/// the names by which the rest descends from the hive.
pub open spec fn reg_path(p: Seq<char>) -> Seq<Seq<char>> {
    let i = first_sep(p);
    if 0 <= i < p.len() {
        seq![p.take(i)] + descend_path(p.skip(i + 1))
    } else {
        seq![p]
    }
}

/// The table of handles as a map from keys to the paths they designate.
pub open spec fn handle_table(t: Seq<(RegHiveKey, String)>) -> Map<RegHiveKey, Seq<char>> {
    Map::new(
        |k: RegHiveKey| exists|i: int| 0 <= i < t.len() && (#[trigger] t[i]).0 == k,
        |k: RegHiveKey| t[choose|i: int| 0 <= i < t.len() && (#[trigger] t[i]).0 == k].1@,
    )
}

/// No key stands twice in the table.
pub open spec fn distinct_handles(t: Seq<(RegHiveKey, String)>) -> bool {
    forall|i: int, j: int| 0 <= i < j < t.len() ==> (#[trigger] t[i]).0 != (#[trigger] t[j]).0
}

/// What the tree below `root` holds, as the registry contract presents it.
/// A key stands at a path where the segments of the path lead to one. Values
/// and names are found along the path without a separator at its end. The
/// names of a path can be enumerated where its hive is there; a path that
/// leads to no key then has none.
pub open spec fn model_of(root: MountedCell) -> RegistryModel {
    RegistryModel {
        keys: Set::new(|p: Seq<char>| root.node_at(split_path(p)) is Some),
        values: Map::new(
            |k: (Seq<char>, Seq<char>)| root.value_at(reg_path(k.0), k.1) is Some,
            |k: (Seq<char>, Seq<char>)| root.value_at(reg_path(k.0), k.1)->0,
        ),
        subkeys: Map::new(
            |p: Seq<char>| map_of(root.keys@).contains_key(reg_path(p)[0]),
            |p: Seq<char>|
                match root.node_at(reg_path(p)) {
                    Some(c) => names_of(c.keys@),
                    None => Seq::<Seq<char>>::empty(),
                },
        ),
        value_names: Map::new(
            |p: Seq<char>| map_of(root.keys@).contains_key(reg_path(p)[0]),
            |p: Seq<char>|
                match root.node_at(reg_path(p)) {
                    Some(c) => names_of(c.values@),
                    None => Seq::<Seq<char>>::empty(),
                },
        ),
    }
}

/// Where `key` stands in the table.
fn find_handle(t: &Vec<(RegHiveKey, String)>, key: RegHiveKey) -> (r: Option<usize>)
    requires
        distinct_handles(t@),
    ensures
        match r {
            Some(i) => i < t@.len() && t@[i as int].0 == key && handle_table(t@).contains_key(key)
                && handle_table(t@)[key] == t@[i as int].1@,
            None => !handle_table(t@).contains_key(key),
        },
{
    let mut i: usize = 0;
    while i < t.len()
        invariant
            i <= t@.len(),
            distinct_handles(t@),
            forall|j: int| 0 <= j < i ==> (#[trigger] t@[j]).0 != key,
        decreases t@.len() - i,
    {
        if t[i].0 == key {
            proof {
                let j = choose|j: int| 0 <= j < t@.len() && (#[trigger] t@[j]).0 == key;
                if i < j {
                    assert(t@[i as int].0 != t@[j].0);
                }
            }
            return Some(i);
        }
        i = i + 1;
    }
    None
}

/// A key that is not in the table yet can be put at its end.
proof fn lemma_bind_handle(t: Seq<(RegHiveKey, String)>, key: RegHiveKey, path: String)
    requires
        distinct_handles(t),
        !handle_table(t).contains_key(key),
    ensures
        distinct_handles(t.push((key, path))),
        handle_table(t.push((key, path))) == handle_table(t).insert(key, path@),
{
    let u = t.push((key, path));
    assert forall|i: int, j: int| 0 <= i < j < u.len() implies (#[trigger] u[i]).0 != (
    #[trigger] u[j]).0 by {
        if j == t.len() {
            assert(t[i].0 != key);
        }
    }
    assert(handle_table(u) =~= handle_table(t).insert(key, path@)) by {
        assert forall|k: RegHiveKey| #[trigger]
            handle_table(u).contains_key(k) <==> handle_table(t).insert(key, path@).contains_key(
                k,
            ) by {
            if handle_table(u).contains_key(k) {
                let i = choose|i: int| 0 <= i < u.len() && (#[trigger] u[i]).0 == k;
                if i < t.len() {
                    assert(t[i].0 == k);
                }
            }
            if handle_table(t).contains_key(k) {
                let i = choose|i: int| 0 <= i < t.len() && (#[trigger] t[i]).0 == k;
                assert(u[i].0 == k);
            }
            if k == key {
                assert(u[t.len() as int].0 == k);
            }
        }
        assert forall|k: RegHiveKey| handle_table(u).contains_key(k) implies #[trigger] handle_table(
            u,
        )[k] == handle_table(t).insert(key, path@)[k] by {
            let i = choose|i: int| 0 <= i < u.len() && (#[trigger] u[i]).0 == k;
            if k == key {
                if i < t.len() {
                    assert(t[i].0 == key);
                }
            } else {
                assert(i < t.len());
                let j = choose|j: int| 0 <= j < t.len() && (#[trigger] t[j]).0 == k;
                assert(t[i].0 == k);
                if i < j {
                    assert(t[i].0 != t[j].0);
                } else if j < i {
                    assert(t[j].0 != t[i].0);
                }
            }
        }
    }
}

/// Basic Registry for testing. Includes the user profile "S-1-5-21-1366093794-4292800403-1155380978-513"
#[derive(Debug)]
pub struct TestingRegistry {
    /// The key above the hives: its subkeys are the hives.
    pub cell: MountedCell,
    /// The paths of the keys that are known: the roots, and what was opened.
    pub cached: Vec<(RegHiveKey, String)>,
    /// The number of the next handle.
    pub counter: isize,
}

impl TestingRegistry {
    /// The tree is in order, no key stands twice in the table of handles,
    /// and every handle in it was given out by the counter.
    pub open spec fn wf(&self) -> bool {
        &&& self.cell.wf()
        &&& distinct_handles(self.cached@)
        &&& 0 <= self.counter
        &&& forall|i: int|
            0 <= i < self.cached@.len() ==> ((#[trigger] self.cached@[i]).0 matches RegHiveKey::Hkey(
                n,
            ) ==> n < self.counter)
    }

    /// A registry without hives, in which the well-known roots are known.
    pub fn empty() -> (r: Self)
        ensures
            r.wf(),
            r.counter == 0,
            r.handles() == root_handles(),
            r.cell.keys@.len() == 0,
            r.cell.values@.len() == 0,
    {
        proof {
            reveal_strlit("");
        }
        Self { cell: MountedCell::new(""), cached: basic_cache(), counter: 0 }
    }

    /// Hands out the number of the next handle.
    pub fn increase_counter(&mut self) -> (r: isize)
        requires
            old(self).counter < isize::MAX,
        ensures
            r == old(self).counter,
            final(self).counter == r + 1,
            final(self).cell == old(self).cell,
            final(self).cached == old(self).cached,
    {
        let ret = self.counter;
        self.counter = self.counter + 1;
        ret
    }

    /// Puts the value `data` under the name `value` at the key that `path`
    /// leads to, and makes the hive and the keys along the path that are not
    /// there yet.
    pub fn add_value(&mut self, path: &str, value: &str, data: RegValue)
        requires
            old(self).wf(),
        ensures
            final(self).wf(),
            final(self).cached == old(self).cached,
            final(self).counter == old(self).counter,
            grown(
                old(self).cell,
                final(self).cell,
                reg_path(path@),
                Some(Put { name: value@, data: data@ }),
            ),
    {
        let ghost before = self.cell;
        let (hkey, rest) = first_and_rest(path);
        let i = self.cell.subkey_position(hkey);
        let ghost middle = self.cell;
        self.cell.keys[i].1.add_value(rest, value, data);
        proof {
            lemma_subkey_grown(
                before,
                middle,
                self.cell,
                i as int,
                hkey@,
                descend_path(rest@),
                Some(Put { name: value@, data: data@ }),
            );
        }
    }

    /// The table of handles as a map.
    pub open spec fn handles(&self) -> Map<RegHiveKey, Seq<char>> {
        handle_table(self.cached@)
    }

    /// Whether a key stands at the path.
    pub fn contains(&self, path: &str) -> (r: bool)
        requires
            self.wf(),
        ensures
            r == model_of(self.cell).keys.contains(path@),
    {
        proof {
            lemma_split_path_len(path@);
        }
        self.cell.contains_key(path)
    }

    /// The value called `value` of the key at `path`.
    pub fn get_value(&self, path: &str, value: &str) -> (r: Option<RegValue>)
        requires
            self.wf(),
        ensures
            match r {
                Some(v) => model_of(self.cell).values.contains_key((path@, value@)) && model_of(
                    self.cell,
                ).values[(path@, value@)] == v@,
                None => !model_of(self.cell).values.contains_key((path@, value@)),
            },
    {
        let (hkey, rest) = first_and_rest(path);
        proof {
            lemma_node_step(self.cell, hkey@, descend_path(rest@));
        }
        let hive = match find_entry(&self.cell.keys, hkey) {
            Ok(i) => &self.cell.keys[i].1,
            Err(_) => {
                return None;
            },
        };
        proof {
            lemma_child_wf(self.cell.keys@, hkey@);
        }
        hive.get_value(rest, value)
    }

    /// The names of the values of the key at `path`, in order: `None` where
    /// the hive of the path is not there, and no names where the hive is
    /// there and the path leads to no key.
    pub fn get_values(&self, path: &str) -> (r: Option<Vec<String>>)
        requires
            self.wf(),
        ensures
            match r {
                Some(v) => model_of(self.cell).value_names.contains_key(path@) && model_of(
                    self.cell,
                ).value_names[path@] == texts(v@),
                None => !model_of(self.cell).value_names.contains_key(path@),
            },
    {
        let (hkey, rest) = first_and_rest(path);
        proof {
            lemma_node_step(self.cell, hkey@, descend_path(rest@));
            assert(reg_path(path@)[0] == hkey@);
        }
        let hive = match find_entry(&self.cell.keys, hkey) {
            Ok(i) => &self.cell.keys[i].1,
            Err(_) => {
                return None;
            },
        };
        proof {
            lemma_child_wf(self.cell.keys@, hkey@);
        }
        Some(hive.get_values(rest))
    }

    /// The names of the subkeys of the key at `path`, in order: `None` where
    /// the hive of the path is not there, and no names where the hive is
    /// there and the path leads to no key.
    pub fn get_keys(&self, path: &str) -> (r: Option<Vec<String>>)
        requires
            self.wf(),
        ensures
            match r {
                Some(v) => model_of(self.cell).subkeys.contains_key(path@) && model_of(
                    self.cell,
                ).subkeys[path@] == texts(v@),
                None => !model_of(self.cell).subkeys.contains_key(path@),
            },
    {
        let (hkey, rest) = first_and_rest(path);
        proof {
            lemma_node_step(self.cell, hkey@, descend_path(rest@));
            assert(reg_path(path@)[0] == hkey@);
        }
        let hive = match find_entry(&self.cell.keys, hkey) {
            Ok(i) => &self.cell.keys[i].1,
            Err(_) => {
                return None;
            },
        };
        proof {
            lemma_child_wf(self.cell.keys@, hkey@);
        }
        Some(hive.get_keys(rest))
    }
}

/// The paths that the well-known roots designate in a new registry.
pub open spec fn root_handles() -> Map<RegHiveKey, Seq<char>> {
    Map::<RegHiveKey, Seq<char>>::empty().insert(RegHiveKey::HkeyLocalMachine, "HKLM"@).insert(
        RegHiveKey::HkeyCurrentUser,
        "HKCU"@,
    ).insert(RegHiveKey::HkeyUsers, "HKU"@).insert(RegHiveKey::HkeyClassesRoot, "HKCR"@)
}

/// The table of handles of a new registry: the well-known roots.
fn basic_cache() -> (t: Vec<(RegHiveKey, String)>)
    ensures
        distinct_handles(t@),
        handle_table(t@) == root_handles(),
        forall|i: int| 0 <= i < t@.len() ==> !((#[trigger] t@[i]).0 is Hkey),
{
    let mut t: Vec<(RegHiveKey, String)> = Vec::new();
    assert(handle_table(t@) =~= Map::<RegHiveKey, Seq<char>>::empty());
    let p = String::from_str("HKLM");
    proof {
        lemma_bind_handle(t@, RegHiveKey::HkeyLocalMachine, p);
    }
    t.push((RegHiveKey::HkeyLocalMachine, p));
    let p = String::from_str("HKCU");
    proof {
        lemma_bind_handle(t@, RegHiveKey::HkeyCurrentUser, p);
    }
    t.push((RegHiveKey::HkeyCurrentUser, p));
    let p = String::from_str("HKU");
    proof {
        lemma_bind_handle(t@, RegHiveKey::HkeyUsers, p);
    }
    t.push((RegHiveKey::HkeyUsers, p));
    let p = String::from_str("HKCR");
    proof {
        lemma_bind_handle(t@, RegHiveKey::HkeyClassesRoot, p);
    }
    t.push((RegHiveKey::HkeyClassesRoot, p));
    t
}

/// The length of the longest of the names, in bytes, as a 32-bit number.
fn longest_name(names: &Vec<String>) -> (r: u32)
    ensures
        r == low32(longest(texts(names@))),
{
    let mut best: usize = 0;
    let mut i: usize = 0;
    assert(texts(names@).take(0) =~= Seq::<Seq<char>>::empty());
    while i < names.len()
        invariant
            i <= names.len(),
            best == longest(texts(names@).take(i as int)),
        decreases names.len() - i,
    {
        let n = names[i].as_str().as_bytes().len();
        proof {
            let after = texts(names@).take(i + 1);
            assert(after.drop_last() =~= texts(names@).take(i as int));
            assert(after.last() == names@[i as int]@);
        }
        if n > best {
            best = n;
        }
        i = i + 1;
    }
    assert(texts(names@).take(names.len() as int) =~= texts(names@));
    ((best as u64) % 0x1_0000_0000) as u32
}

impl RegistryReader for TestingRegistry {
    /// A new test registry, whatever the file.
    fn from_file<F>(&self, file: F) -> (r: ForensicResult<TestingRegistry>)
        ensures
            r matches Ok(reader) && reader.wf() && is_basic_registry(reader.cell) && reader.counter
                == 0 && reader.handles() == root_handles(),
    {
        Ok(TestingRegistry::new())
    }

    /// A new test registry, whatever the file system.
    fn from_fs<S>(&self, fs: S) -> (r: ForensicResult<TestingRegistry>)
        ensures
            r matches Ok(reader) && reader.wf() && is_basic_registry(reader.cell) && reader.counter
                == 0 && reader.handles() == root_handles(),
    {
        Ok(TestingRegistry::new())
    }

    open spec fn inv(&self) -> bool {
        self.wf()
    }

    open spec fn store(&self) -> RegistryModel {
        model_of(self.cell)
    }

    open spec fn handles(&self) -> Map<RegHiveKey, Seq<char>> {
        handle_table(self.cached@)
    }

    open spec fn exact(&self) -> bool {
        true
    }

    open spec fn handles_left(&self) -> nat {
        (isize::MAX - self.counter) as nat
    }

    fn open_key(&mut self, hkey: RegHiveKey, key_name: &str) -> (r: ForensicResult<RegHiveKey>)
        ensures
            final(self).cell == old(self).cell,
            r matches Ok(h) ==> h == RegHiveKey::Hkey(old(self).counter) && final(self).counter
                == old(self).counter + 1,
            r is Err ==> final(self).counter == old(self).counter,
            r matches Err(e) ==> e@ == (if !old(self).handles().contains_key(hkey) {
                ErrorView::Missing("Hkey not found"@)
            } else if !old(self).store().keys.contains(
                child_path(old(self).handles()[hkey], key_name@),
            ) {
                ErrorView::Missing(
                    "Key path "@ + child_path(old(self).handles()[hkey], key_name@)
                        + " not found"@,
                )
            } else {
                ErrorView::Other("No handles left"@)
            }),
    {
        let i = match find_handle(&self.cached, hkey) {
            Some(i) => i,
            None => {
                return Err(ForensicError::missing_str("Hkey not found"));
            },
        };
        proof {
            reveal_strlit("\\");
        }
        let mut full_path = self.cached[i].1.clone();
        full_path.append("\\");
        full_path.append(key_name);
        assert(full_path@ =~= child_path(self.handles()[hkey], key_name@));
        if !self.contains(full_path.as_str()) {
            let mut msg = String::from_str("Key path ");
            msg.append(full_path.as_str());
            msg.append(" not found");
            return Err(ForensicError::missing_string(msg));
        }
        if self.counter == isize::MAX {
            return Err(ForensicError::Other(String::from_str("No handles left")));
        }
        let handle = self.increase_counter();
        proof {
            let key = RegHiveKey::Hkey(handle);
            if handle_table(self.cached@).contains_key(key) {
                let j = choose|j: int|
                    0 <= j < self.cached@.len() && (#[trigger] self.cached@[j]).0 == key;
                assert(false);
            }
            lemma_bind_handle(self.cached@, key, full_path);
        }
        self.cached.push((RegHiveKey::Hkey(handle), full_path));
        Ok(RegHiveKey::Hkey(handle))
    }

    fn read_value(&self, hkey: RegHiveKey, value_name: &str) -> (r: ForensicResult<RegValue>)
        ensures
            r matches Err(e) ==> e@ == (if !self.handles().contains_key(hkey) {
                ErrorView::Missing("HKey not found"@)
            } else {
                ErrorView::Missing(
                    "Value "@ + child_path(self.handles()[hkey], value_name@) + " not found"@,
                )
            }),
    {
        let i = match find_handle(&self.cached, hkey) {
            Some(i) => i,
            None => {
                return Err(ForensicError::missing_str("HKey not found"));
            },
        };
        let key_path = &self.cached[i].1;
        match self.get_value(key_path.as_str(), value_name) {
            Some(v) => Ok(v),
            None => {
                proof {
                    reveal_strlit("\\");
                }
                let mut msg = String::from_str("Value ");
                msg.append(key_path.as_str());
                msg.append("\\");
                msg.append(value_name);
                msg.append(" not found");
                assert(msg@ =~= "Value "@ + child_path(self.handles()[hkey], value_name@)
                    + " not found"@);
                Err(ForensicError::missing_string(msg))
            },
        }
    }

    fn enumerate_values(&self, hkey: RegHiveKey) -> (r: ForensicResult<Vec<String>>)
        ensures
            r matches Err(e) ==> e@ == (if !self.handles().contains_key(hkey) {
                ErrorView::Missing("HKey not found"@)
            } else {
                ErrorView::Missing("Values for "@ + self.handles()[hkey] + " not found"@)
            }),
    {
        let i = match find_handle(&self.cached, hkey) {
            Some(i) => i,
            None => {
                return Err(ForensicError::missing_str("HKey not found"));
            },
        };
        let key_path = &self.cached[i].1;
        match self.get_values(key_path.as_str()) {
            Some(v) => Ok(v),
            None => Err(names_not_found("Values for ", key_path.as_str())),
        }
    }

    fn enumerate_keys(&self, hkey: RegHiveKey) -> (r: ForensicResult<Vec<String>>)
        ensures
            r matches Err(e) ==> e@ == (if !self.handles().contains_key(hkey) {
                ErrorView::Missing("HKey not found"@)
            } else {
                ErrorView::Missing("Keys for "@ + self.handles()[hkey] + " not found"@)
            }),
    {
        let i = match find_handle(&self.cached, hkey) {
            Some(i) => i,
            None => {
                return Err(ForensicError::missing_str("HKey not found"));
            },
        };
        let key_path = &self.cached[i].1;
        match self.get_keys(key_path.as_str()) {
            Some(v) => Ok(v),
            None => Err(names_not_found("Keys for ", key_path.as_str())),
        }
    }

    fn key_at(&self, hkey: RegHiveKey, pos: u32) -> (r: ForensicResult<String>) {
        let value = self.enumerate_keys(hkey)?;
        let pos = pos as usize;
        if pos >= value.len() {
            return Err(ForensicError::NoMoreData);
        }
        Ok(value[pos].clone())
    }

    fn value_at(&self, hkey: RegHiveKey, pos: u32) -> (r: ForensicResult<String>) {
        let value = self.enumerate_values(hkey)?;
        let pos = pos as usize;
        if pos >= value.len() {
            return Err(ForensicError::NoMoreData);
        }
        Ok(value[pos].clone())
    }

    fn key_info(&self, hkey: RegHiveKey) -> (r: ForensicResult<RegistryKeyInfo>)
        ensures
            r matches Ok(info) ==> info.max_value_length == 0 && info.last_write_time@
                == filetime_fields(0),
    {
        let value = self.enumerate_values(hkey)?;
        let keys = self.enumerate_keys(hkey)?;
        Ok(
            RegistryKeyInfo {
                last_write_time: Filetime::new(0),
                subkeys: ((keys.len() as u64) % 0x1_0000_0000) as u32,
                values: ((value.len() as u64) % 0x1_0000_0000) as u32,
                max_subkey_name_length: longest_name(&keys),
                max_value_name_length: longest_name(&value),
                max_value_length: 0,
            },
        )
    }
}

/// The error that tells that the names of a path cannot be enumerated.
fn names_not_found(what: &str, path: &str) -> (e: ForensicError)
    ensures
        e@ == ErrorView::Missing(what@ + path@ + " not found"@),
{
    let mut msg = String::from_str(what);
    msg.append(path);
    msg.append(" not found");
    ForensicError::missing_string(msg)
}

/// The path, below the root, of the key that holds the session variables
/// of the user of a new test registry.
pub open spec fn test_user_key() -> Seq<char> {
    "HKU\\S-1-5-21-1366093794-4292800403-1155380978-513\\Volatile Environment"@
}

/// The values of the key of the user of a new test registry.
pub open spec fn test_user_value(name: Seq<char>) -> Option<RegData> {
    if name == "USERNAME"@ {
        Some(RegData::SZ("Tester"@))
    } else if name == "USERDOMAIN"@ {
        Some(RegData::SZ("TestMachine"@))
    } else if name == "LOCALAPPDATA"@ {
        Some(RegData::SZ("C:\\Users\\Tester\\AppData\\Local"@))
    } else if name == "APPDATA"@ {
        Some(RegData::SZ("C:\\Users\\Tester\\AppData\\Roaming"@))
    } else if name == "USERPROFILE"@ {
        Some(RegData::SZ("C:\\Users\\Tester"@))
    } else {
        None
    }
}

/// What a new test registry holds: the hives HKLM, HKCU, HKCR and HKU, the
/// keys down to the key of the test user, and the values of that key.
pub open spec fn is_basic_registry(root: MountedCell) -> bool {
    &&& forall|segs: Seq<Seq<char>>|
        (#[trigger] root.node_at(segs)) is Some <==> (segs.is_prefix_of(seq!["HKLM"@])
            || segs.is_prefix_of(seq!["HKCU"@]) || segs.is_prefix_of(seq!["HKCR"@])
            || segs.is_prefix_of(descend_path(test_user_key())))
    &&& forall|segs: Seq<Seq<char>>, n: Seq<char>| #[trigger]
        root.value_at(segs, n) == if segs == descend_path(test_user_key()) {
            test_user_value(n)
        } else {
            None
        }
}

/// The tree of a new test registry.
fn basic_registry() -> (root: MountedCell)
    ensures
        root.wf(),
        is_basic_registry(root),
{
    proof {
        reveal_strlit("");
    }
    let mut root = MountedCell::new("");
    let ghost r0 = root;
    root.add_key("HKLM");
    let ghost r1 = root;
    root.add_key("HKCU");
    let ghost r2 = root;
    root.add_key("HKCR");
    let ghost r3 = root;
    root.add_value(
        "HKU\\S-1-5-21-1366093794-4292800403-1155380978-513\\Volatile Environment",
        "USERPROFILE",
        RegValue::from_str("C:\\Users\\Tester"),
    );
    let ghost r4 = root;
    root.add_value(
        "HKU\\S-1-5-21-1366093794-4292800403-1155380978-513\\Volatile Environment",
        "APPDATA",
        RegValue::from_str("C:\\Users\\Tester\\AppData\\Roaming"),
    );
    let ghost r5 = root;
    root.add_value(
        "HKU\\S-1-5-21-1366093794-4292800403-1155380978-513\\Volatile Environment",
        "LOCALAPPDATA",
        RegValue::from_str("C:\\Users\\Tester\\AppData\\Local"),
    );
    let ghost r6 = root;
    root.add_value(
        "HKU\\S-1-5-21-1366093794-4292800403-1155380978-513\\Volatile Environment",
        "USERDOMAIN",
        RegValue::from_str("TestMachine"),
    );
    let ghost r7 = root;
    root.add_value(
        "HKU\\S-1-5-21-1366093794-4292800403-1155380978-513\\Volatile Environment",
        "USERNAME",
        RegValue::from_str("Tester"),
    );
    proof {
        reveal_strlit("HKLM");
        reveal_strlit("HKCU");
        reveal_strlit("HKCR");
        lemma_hive_path("HKLM"@);
        lemma_hive_path("HKCU"@);
        lemma_hive_path("HKCR"@);
        let target = descend_path(test_user_key());
        assert forall|segs: Seq<Seq<char>>|
            (#[trigger] root.node_at(segs)) is Some <==> (segs.is_prefix_of(seq!["HKLM"@])
                || segs.is_prefix_of(seq!["HKCU"@]) || segs.is_prefix_of(seq!["HKCR"@])
                || segs.is_prefix_of(target)) by {
            assert(r7.node_at(segs) is Some <==> (r6.node_at(segs) is Some || segs.is_prefix_of(
                target,
            )));
            assert(r6.node_at(segs) is Some <==> (r5.node_at(segs) is Some || segs.is_prefix_of(
                target,
            )));
            assert(r5.node_at(segs) is Some <==> (r4.node_at(segs) is Some || segs.is_prefix_of(
                target,
            )));
            assert(r4.node_at(segs) is Some <==> (r3.node_at(segs) is Some || segs.is_prefix_of(
                target,
            )));
            assert(r3.node_at(segs) is Some <==> (r2.node_at(segs) is Some || segs.is_prefix_of(
                seq!["HKCR"@],
            )));
            assert(r2.node_at(segs) is Some <==> (r1.node_at(segs) is Some || segs.is_prefix_of(
                seq!["HKCU"@],
            )));
            assert(r1.node_at(segs) is Some <==> (r0.node_at(segs) is Some || segs.is_prefix_of(
                seq!["HKLM"@],
            )));
            assert(r0.node_at(segs) is Some <==> segs.len() == 0);
        }
        assert forall|segs: Seq<Seq<char>>, n: Seq<char>| #[trigger]
            root.value_at(segs, n) == if segs == target {
                test_user_value(n)
            } else {
                None
            } by {
            let a7 = r7.value_at(segs, n);
            let a6 = r6.value_at(segs, n);
            let a5 = r5.value_at(segs, n);
            let a4 = r4.value_at(segs, n);
            let a3 = r3.value_at(segs, n);
            let a2 = r2.value_at(segs, n);
            let a1 = r1.value_at(segs, n);
            let a0 = r0.value_at(segs, n);
            assert(a0 is None);
        }
    }
    root
}

/// A name without separators is a path of that one name.
proof fn lemma_hive_path(name: Seq<char>)
    requires
        name.len() > 0,
        forall|i: int| 0 <= i < name.len() ==> !is_sep(#[trigger] name[i]),
    ensures
        descend_path(name) == seq![name],
{
    crate::text::lemma_first_sep_is(name, name.len() as int);
}

impl TestingRegistry {
    /// A registry with the hives HKLM, HKCU, HKCR and HKU and the session
    /// variables of one test user.
    pub fn new() -> (r: Self)
        ensures
            r.wf(),
            r.counter == 0,
            r.handles() == root_handles(),
            is_basic_registry(r.cell),
    {
        Self { cell: basic_registry(), cached: basic_cache(), counter: 0 }
    }
}

/// The two paths are one but for which separator stands where.
pub open spec fn same_but_separators(p: Seq<char>, q: Seq<char>) -> bool {
    &&& p.len() == q.len()
    &&& forall|i: int| 0 <= i < p.len() ==> p[i] == q[i] || (is_sep(p[i]) && is_sep(q[i]))
}

/// Paths that differ only in which separator they use have the same
/// segments.
pub proof fn lemma_same_segments(p: Seq<char>, q: Seq<char>)
    requires
        same_but_separators(p, q),
    ensures
        split_path(p) == split_path(q),
        descend_path(p) == descend_path(q),
        reg_path(p) == reg_path(q),
    decreases p.len(),
{
    lemma_first_sep(p);
    let i = first_sep(p);
    assert forall|j: int| 0 <= j < i implies !is_sep(#[trigger] q[j]) by {
        assert(!is_sep(p[j]));
    }
    crate::text::lemma_first_sep_is(q, i);
    if i < p.len() {
        assert(p.take(i) =~= q.take(i)) by {
            assert forall|j: int| 0 <= j < i implies p[j] == q[j] by {
                assert(!is_sep(p[j]));
            }
        }
        let x = p.skip(i + 1);
        let y = q.skip(i + 1);
        assert(same_but_separators(x, y)) by {
            assert forall|j: int| 0 <= j < x.len() implies x[j] == y[j] || (is_sep(x[j])
                && is_sep(y[j])) by {
                assert(x[j] == p[j + i + 1]);
                assert(y[j] == q[j + i + 1]);
            }
        }
        lemma_same_segments(x, y);
    } else {
        assert(p =~= q) by {
            assert forall|j: int| 0 <= j < p.len() implies p[j] == q[j] by {
                assert(!is_sep(p[j]));
            }
        }
    }
}

/// Path separator equivalence: two paths that differ only in which separator
/// they use lead to the same key of a registry, so a key stands at the one
/// where a key stands at the other, with the same values and the same names.
pub proof fn lemma_separators_equivalent(root: MountedCell, p: Seq<char>, q: Seq<char>)
    requires
        same_but_separators(p, q),
    ensures
        root.node_at(split_path(p)) == root.node_at(split_path(q)),
        model_of(root).keys.contains(p) == model_of(root).keys.contains(q),
        forall|n: Seq<char>|
            model_of(root).values.contains_key((p, n)) == model_of(root).values.contains_key(
                (q, n),
            ),
        forall|n: Seq<char>|
            model_of(root).values.contains_key((p, n)) ==> model_of(root).values[(p, n)]
                == model_of(root).values[(q, n)],
        model_of(root).subkeys.contains_key(p) == model_of(root).subkeys.contains_key(q),
        model_of(root).subkeys.contains_key(p) ==> model_of(root).subkeys[p] == model_of(
            root,
        ).subkeys[q],
        model_of(root).value_names.contains_key(p) == model_of(root).value_names.contains_key(q),
        model_of(root).value_names.contains_key(p) ==> model_of(root).value_names[p] == model_of(
            root,
        ).value_names[q],
{
    lemma_same_segments(p, q);
}

/// Path separator equivalence below a key: two names that differ only in
/// which separator they use designate the same key below any key, so the one
/// can be opened where the other can, and what is read and enumerated
/// through the one is what is read and enumerated through the other.
pub proof fn lemma_separators_equivalent_below(
    root: MountedCell,
    base: Seq<char>,
    p: Seq<char>,
    q: Seq<char>,
)
    requires
        same_but_separators(p, q),
    ensures
        same_but_separators(child_path(base, p), child_path(base, q)),
        model_of(root).keys.contains(child_path(base, p)) == model_of(root).keys.contains(
            child_path(base, q),
        ),
        forall|n: Seq<char>|
            model_of(root).values.contains_key((child_path(base, p), n)) == model_of(
                root,
            ).values.contains_key((child_path(base, q), n)),
        forall|n: Seq<char>|
            model_of(root).values.contains_key((child_path(base, p), n)) ==> model_of(
                root,
            ).values[(child_path(base, p), n)] == model_of(root).values[(child_path(base, q), n)],
        model_of(root).subkeys.contains_key(child_path(base, p)) ==> model_of(root).subkeys[child_path(
            base,
            p,
        )] == model_of(root).subkeys[child_path(base, q)],
        model_of(root).value_names.contains_key(child_path(base, p)) ==> model_of(
            root,
        ).value_names[child_path(base, p)] == model_of(root).value_names[child_path(base, q)],
{
    let a = child_path(base, p);
    let b = child_path(base, q);
    assert(a.len() == b.len());
    assert forall|i: int| 0 <= i < a.len() implies a[i] == b[i] || (is_sep(a[i]) && is_sep(
        b[i],
    )) by {
        if i > base.len() {
            assert(a[i] == p[i - base.len() - 1]);
            assert(b[i] == q[i - base.len() - 1]);
        }
    }
    lemma_separators_equivalent(root, a, b);
}

/// The segments of a path that does not end with a separator are the names
/// by which it descends.
pub proof fn lemma_split_is_descend(p: Seq<char>)
    requires
        p.len() > 0,
        !is_sep(p.last()),
    ensures
        split_path(p) == descend_path(p),
        split_path(p) == reg_path(p),
    decreases p.len(),
{
    lemma_first_sep(p);
    let i = first_sep(p);
    if i < p.len() {
        let q = p.skip(i + 1);
        assert(i != p.len() - 1);
        assert(q.last() == p.last());
        lemma_split_is_descend(q);
    }
}

/// Round trip: after a value was put at a path under a name, the registry
/// holds that value there; and where the path does not end with a separator
/// a key stands at it, so that the key can be opened and the value read.
pub proof fn lemma_round_trip(
    before: MountedCell,
    after: MountedCell,
    path: Seq<char>,
    name: Seq<char>,
    data: RegData,
)
    requires
        grown(before, after, reg_path(path), Some(Put { name, data })),
    ensures
        model_of(after).values.contains_key((path, name)),
        model_of(after).values[(path, name)] == data,
        path.len() > 0 && !is_sep(path.last()) ==> model_of(after).keys.contains(path),
{
    assert(after.value_at(reg_path(path), name) == Some(data));
    if path.len() > 0 && !is_sep(path.last()) {
        lemma_split_is_descend(path);
        assert(reg_path(path).is_prefix_of(reg_path(path)));
    }
}

impl Default for MountedCell {
    /// A key without a name, subkeys or values.
    fn default() -> (c: Self)
        ensures
            c.wf(),
            c.name@.len() == 0,
            c.keys@.len() == 0,
            c.values@.len() == 0,
    {
        proof {
            reveal_strlit("");
        }
        MountedCell::new("")
    }
}

impl Default for TestingRegistry {
    fn default() -> (r: Self)
        ensures
            r.wf(),
            r.counter == 0,
            r.handles() == root_handles(),
            is_basic_registry(r.cell),
    {
        Self::new()
    }
}

/// The two keys bear one name and hold the same values under the same
/// names, and their subkeys are pairwise the same in this way.
pub open spec fn same_tree(a: MountedCell, b: MountedCell) -> bool
    decreases a,
{
    &&& a.name@ == b.name@
    &&& names_of(a.values@) == names_of(b.values@)
    &&& forall|i: int| 0 <= i < a.values@.len() ==> (#[trigger] a.values@[i]).1@ == b.values@[i].1@
    &&& names_of(a.keys@) == names_of(b.keys@)
    &&& forall|i: int|
        0 <= i < a.keys@.len() ==> same_tree((#[trigger] a.keys@[i]).1, b.keys@[i].1)
}

impl Clone for MountedCell {
    /// A copy of the key with all that is below it.
    fn clone(&self) -> (r: Self)
        ensures
            same_tree(*self, r),
        decreases self,
    {
        let mut keys: Entries<MountedCell> = Vec::new();
        let mut i: usize = 0;
        while i < self.keys.len()
            invariant
                i <= self.keys@.len(),
                keys@.len() == i,
                forall|j: int|
                    0 <= j < i ==> (#[trigger] keys@[j]).0@ == self.keys@[j].0@ && same_tree(
                        self.keys@[j].1,
                        keys@[j].1,
                    ),
            decreases self.keys@.len() - i,
        {
            keys.push((self.keys[i].0.clone(), self.keys[i].1.clone()));
            i = i + 1;
        }
        let mut values: Entries<RegValue> = Vec::new();
        let mut i: usize = 0;
        while i < self.values.len()
            invariant
                i <= self.values@.len(),
                values@.len() == i,
                forall|j: int|
                    0 <= j < i ==> (#[trigger] values@[j]).0@ == self.values@[j].0@ && values@[j].1@
                        == self.values@[j].1@,
            decreases self.values@.len() - i,
        {
            values.push((self.values[i].0.clone(), self.values[i].1.clone()));
            i = i + 1;
        }
        let r = MountedCell { name: self.name.clone(), keys, values };
        assert(names_of(r.keys@) =~= names_of(self.keys@));
        assert(names_of(r.values@) =~= names_of(self.values@));
        r
    }
}

/// Whether two keys, each there or not, are both missing or the same tree.
pub open spec fn same_node(a: Option<MountedCell>, b: Option<MountedCell>) -> bool {
    match (a, b) {
        (Some(x), Some(y)) => same_tree(x, y),
        (None, None) => true,
        _ => false,
    }
}

/// In two keys that are the same tree a path leads to the same key.
pub proof fn lemma_same_tree_nodes(a: MountedCell, b: MountedCell, segs: Seq<Seq<char>>)
    requires
        same_tree(a, b),
    ensures
        same_node(a.node_at(segs), b.node_at(segs)),
    decreases segs.len(),
{
    if segs.len() > 0 {
        let first = segs[0];
        let rest = segs.drop_first();
        assert(segs =~= seq![first] + rest);
        lemma_node_step(a, first, rest);
        lemma_node_step(b, first, rest);
        if map_of(a.keys@).contains_key(first) {
            let i = names_of(a.keys@).index_of(first);
            assert(names_of(a.keys@)[i] == first);
            assert(same_tree(a.keys@[i].1, b.keys@[i].1));
            lemma_same_tree_nodes(a.keys@[i].1, b.keys@[i].1, rest);
        }
    }
}

/// Two keys that are the same tree hold the same: a key stands in the one
/// where a key stands in the other, with the same values; and the one is in
/// order where the other is.
pub proof fn lemma_same_tree(a: MountedCell, b: MountedCell)
    requires
        same_tree(a, b),
    ensures
        grown(a, b, Seq::<Seq<char>>::empty(), None),
        a.wf() ==> b.wf(),
        model_of(a) == model_of(b),
{
    let nothing = Seq::<Seq<char>>::empty();
    assert forall|segs: Seq<Seq<char>>|
        (#[trigger] b.node_at(segs)) is Some <==> (a.node_at(segs) is Some || segs.is_prefix_of(
            nothing,
        )) by {
        lemma_same_tree_nodes(a, b, segs);
    }
    assert forall|segs: Seq<Seq<char>>, n: Seq<char>| #[trigger]
        b.value_at(segs, n) == a.value_at(segs, n) by {
        lemma_same_tree_nodes(a, b, segs);
        if a.node_at(segs) is Some {
            let x = a.node_at(segs)->0;
            let y = b.node_at(segs)->0;
            if map_of(x.values@).contains_key(n) {
                let i = names_of(x.values@).index_of(n);
                assert(names_of(x.values@)[i] == n);
                assert(x.values@[i].1@ == y.values@[i].1@);
            }
        }
    }
    if a.wf() {
        assert forall|segs: Seq<Seq<char>>| node_ok(
            #[trigger] find_node(b.keys@, segs),
            segs.last(),
        ) by {
            if segs.len() > 0 {
                lemma_same_tree_nodes(a, b, segs);
                assert(node_ok(find_node(a.keys@, segs), segs.last()));
            }
        }
    }
    assert(model_of(a).keys =~= model_of(b).keys) by {
        assert forall|p: Seq<char>| model_of(a).keys.contains(p) == model_of(b).keys.contains(
            p,
        ) by {
            lemma_same_tree_nodes(a, b, split_path(p));
        }
    }
    assert(model_of(a).values =~= model_of(b).values);
    assert(model_of(a).subkeys =~= model_of(b).subkeys) by {
        assert forall|p: Seq<char>| #[trigger]
            model_of(a).subkeys.contains_key(p) implies model_of(a).subkeys[p] == model_of(
            b,
        ).subkeys[p] by {
            lemma_same_tree_nodes(a, b, reg_path(p));
        }
    }
    assert(model_of(a).value_names =~= model_of(b).value_names) by {
        assert forall|p: Seq<char>| #[trigger]
            model_of(a).value_names.contains_key(p) implies model_of(a).value_names[p]
            == model_of(b).value_names[p] by {
            lemma_same_tree_nodes(a, b, reg_path(p));
        }
    }
}

impl Clone for TestingRegistry {
    /// A registry that holds the same and knows the same keys.
    fn clone(&self) -> (r: Self)
        ensures
            same_tree(self.cell, r.cell),
            model_of(r.cell) == model_of(self.cell),
            r.counter == self.counter,
            self.wf() ==> r.wf() && r.handles() == self.handles(),
    {
        let cell = self.cell.clone();
        let mut cached: Vec<(RegHiveKey, String)> = Vec::new();
        let mut i: usize = 0;
        while i < self.cached.len()
            invariant
                i <= self.cached@.len(),
                cached@.len() == i,
                forall|j: int|
                    0 <= j < i ==> (#[trigger] cached@[j]).0 == self.cached@[j].0 && cached@[j].1@
                        == self.cached@[j].1@,
            decreases self.cached@.len() - i,
        {
            cached.push((self.cached[i].0, self.cached[i].1.clone()));
            i = i + 1;
        }
        let r = Self { cell, cached, counter: self.counter };
        proof {
            lemma_same_tree(self.cell, r.cell);
            if self.wf() {
                lemma_same_table(self.cached@, r.cached@);
            }
        }
        r
    }
}

/// Two tables without a key twice that hold the same keys at the same
/// places designate the same paths.
proof fn lemma_same_table(a: Seq<(RegHiveKey, String)>, b: Seq<(RegHiveKey, String)>)
    requires
        a.len() == b.len(),
        forall|j: int| 0 <= j < a.len() ==> (#[trigger] a[j]).0 == b[j].0 && a[j].1@ == b[j].1@,
        distinct_handles(a),
    ensures
        distinct_handles(b),
        handle_table(a) == handle_table(b),
{
    assert forall|i: int, j: int| 0 <= i < j < b.len() implies (#[trigger] b[i]).0 != (
    #[trigger] b[j]).0 by {
        assert(a[i].0 != a[j].0);
    }
    assert(handle_table(a) =~= handle_table(b)) by {
        assert forall|k: RegHiveKey| #[trigger]
            handle_table(a).contains_key(k) == handle_table(b).contains_key(k) by {
            if handle_table(a).contains_key(k) {
                let j = choose|j: int| 0 <= j < a.len() && (#[trigger] a[j]).0 == k;
                assert(b[j].0 == k);
            }
            if handle_table(b).contains_key(k) {
                let j = choose|j: int| 0 <= j < b.len() && (#[trigger] b[j]).0 == k;
                assert(a[j].0 == k);
            }
        }
        assert forall|k: RegHiveKey| handle_table(a).contains_key(k) implies #[trigger] handle_table(
            a,
        )[k] == handle_table(b)[k] by {
            let ja = choose|j: int| 0 <= j < a.len() && (#[trigger] a[j]).0 == k;
            let jb = choose|j: int| 0 <= j < b.len() && (#[trigger] b[j]).0 == k;
            assert(handle_table(b).contains_key(k));
            assert(a[jb].0 == k);
            if ja < jb {
                assert(a[ja].0 != a[jb].0);
            } else if jb < ja {
                assert(a[jb].0 != a[ja].0);
            }
        }
    }
}

/// A path that is made of two leads where the second leads from where the
/// first leads.
pub proof fn lemma_node_at_append(cell: MountedCell, a: Seq<Seq<char>>, b: Seq<Seq<char>>)
    ensures
        cell.node_at(a + b) == match cell.node_at(a) {
            Some(c) => c.node_at(b),
            None => None,
        },
    decreases a.len(),
{
    if a.len() == 0 {
        assert(a + b =~= b);
    } else {
        let first = a[0];
        let rest = a.drop_first();
        assert(a =~= seq![first] + rest);
        assert(a + b =~= seq![first] + (rest + b));
        lemma_node_step(cell, first, rest);
        lemma_node_step(cell, first, rest + b);
        if map_of(cell.keys@).contains_key(first) {
            lemma_node_at_append(map_of(cell.keys@)[first], rest, b);
        }
    }
}

/// The segments of a path with a separator and a name without separators
/// after it are those of the path and then the name.
pub proof fn lemma_split_path_append(p: Seq<char>, sep: char, name: Seq<char>)
    requires
        is_sep(sep),
        forall|i: int| 0 <= i < name.len() ==> !is_sep(#[trigger] name[i]),
    ensures
        split_path(p + seq![sep] + name) == split_path(p) + seq![name],
    decreases p.len(),
{
    let whole = p + seq![sep] + name;
    lemma_first_sep(p);
    let i = first_sep(p);
    assert forall|j: int| 0 <= j < i implies !is_sep(#[trigger] whole[j]) by {
        assert(whole[j] == p[j]);
    }
    if i < p.len() {
        assert(whole[i] == p[i]);
        crate::text::lemma_first_sep_is(whole, i);
        assert(whole.take(i) =~= p.take(i));
        assert(whole.skip(i + 1) =~= p.skip(i + 1) + seq![sep] + name);
        lemma_split_path_append(p.skip(i + 1), sep, name);
        assert(split_path(whole) == seq![p.take(i)] + split_path(whole.skip(i + 1)));
        assert(split_path(p) == seq![p.take(i)] + split_path(p.skip(i + 1)));
        assert(seq![p.take(i)] + (split_path(p.skip(i + 1)) + seq![name]) =~= (seq![p.take(i)]
            + split_path(p.skip(i + 1))) + seq![name]);
    } else {
        assert(whole[i] == sep);
        crate::text::lemma_first_sep_is(whole, i);
        assert(whole.take(i) =~= p);
        assert(whole.skip(i + 1) =~= name);
        crate::text::lemma_first_sep_is(name, name.len() as int);
        assert(split_path(name) == seq![name]);
        assert(split_path(p) == seq![p]);
        assert(split_path(whole) == seq![p] + split_path(name));
    }
}

/// What is enumerated can be opened: where a path that does not end with a
/// separator lists a name among its subkeys, a key stands at the path of
/// that name below it.
pub proof fn lemma_listed_subkey_exists(root: MountedCell, path: Seq<char>, name: Seq<char>)
    requires
        root.wf(),
        path.len() > 0,
        !is_sep(path.last()),
        forall|i: int| 0 <= i < name.len() ==> !is_sep(#[trigger] name[i]),
        model_of(root).subkeys.contains_key(path),
        model_of(root).subkeys[path].contains(name),
    ensures
        model_of(root).keys.contains(child_path(path, name)),
{
    lemma_split_is_descend(path);
    lemma_split_path_append(path, '\\', name);
    lemma_node_at_append(root, split_path(path), seq![name]);
    let node = root.node_at(reg_path(path));
    assert(node is Some);
    let c = node->0;
    let i = names_of(c.keys@).index_of(name);
    assert(names_of(c.keys@)[i] == name);
    assert(map_of(c.keys@).contains_key(name));
    assert(c.node_at(seq![name]) is Some);
    assert(child_path(path, name) =~= path + seq!['\\'] + name);
}

/// Opening a key step by step leads where opening it at once leads: the
/// path of a key below a key below a base is the path, below the base, of
/// the two names with a separator between them.
pub proof fn lemma_paths_compose(base: Seq<char>, first: Seq<char>, second: Seq<char>)
    ensures
        child_path(child_path(base, first), second) == child_path(
            base,
            first + seq!['\\'] + second,
        ),
{
    assert(child_path(child_path(base, first), second) =~= child_path(
        base,
        first + seq!['\\'] + second,
    ));
}

} // verus!
