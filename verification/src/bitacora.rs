//! A result with the errors that were met on the way to it.
use crate::err::{ErrorView, ForensicError};
use crate::strmap::StrMap;
use vstd::prelude::*;
use vstd::string::*;

verus! {

/// The errors of one parser: the element that gave each error, and the error.
pub type ErrorList = Vec<(String, ForensicError)>;

/// A result, with the errors of each parser by the name of the parser.
pub struct Bitacora<T: Default> {
    pub data: T,
    pub errors: StrMap<ErrorList>,
}

/// A list of errors as plain values.
pub open spec fn list_view(list: Seq<(String, ForensicError)>) -> Seq<(Seq<char>, ErrorView)> {
    list.map_values(|e: (String, ForensicError)| (e.0@, e.1@))
}

/// The errors of each parser as plain values.
pub open spec fn errors_view(errors: Map<Seq<char>, ErrorList>) -> Map<
    Seq<char>,
    Seq<(Seq<char>, ErrorView)>,
> {
    Map::new(|k: Seq<char>| errors.contains_key(k), |k: Seq<char>| list_view(errors[k]@))
}

/// The errors of a parser, and none where the parser has none.
pub open spec fn errors_of(
    errors: Map<Seq<char>, Seq<(Seq<char>, ErrorView)>>,
    parser: Seq<char>,
) -> Seq<(Seq<char>, ErrorView)> {
    if errors.contains_key(parser) {
        errors[parser]
    } else {
        Seq::<(Seq<char>, ErrorView)>::empty()
    }
}

/// The errors of `first` with those of `second` after them, parser by
/// parser.
pub open spec fn merged(
    first: Map<Seq<char>, Seq<(Seq<char>, ErrorView)>>,
    second: Map<Seq<char>, Seq<(Seq<char>, ErrorView)>>,
) -> Map<Seq<char>, Seq<(Seq<char>, ErrorView)>> {
    Map::new(
        |k: Seq<char>| first.contains_key(k) || second.contains_key(k),
        |k: Seq<char>| errors_of(first, k) + errors_of(second, k),
    )
}

/// Copies a list of errors.
fn clone_list(list: &ErrorList) -> (r: ErrorList)
    ensures
        list_view(r@) == list_view(list@),
{
    let mut r: ErrorList = Vec::new();
    let mut i: usize = 0;
    while i < list.len()
        invariant
            i <= list.len(),
            r@.len() == i,
            forall|j: int|
                0 <= j < i ==> (#[trigger] r@[j]).0@ == list@[j].0@ && r@[j].1@ == list@[j].1@,
        decreases list.len() - i,
    {
        r.push((list[i].0.clone(), list[i].1.clone()));
        i = i + 1;
    }
    assert(list_view(r@) =~= list_view(list@));
    r
}

impl<T: Default> Bitacora<T> {
    /// The errors as plain values.
    pub open spec fn view_errors(&self) -> Map<Seq<char>, Seq<(Seq<char>, ErrorView)>> {
        errors_view(self.errors.map())
    }

    /// A result without errors.
    pub fn new(data: T) -> (r: Self)
        ensures
            r.data == data,
            r.errors.wf(),
            r.view_errors() == Map::<Seq<char>, Seq<(Seq<char>, ErrorView)>>::empty(),
    {
        let r = Self { data, errors: StrMap::new() };
        assert(r.view_errors() =~= Map::<Seq<char>, Seq<(Seq<char>, ErrorView)>>::empty());
        r
    }

    /// The default result with one error of one parser.
    pub fn error(parser: &str, element: String, err: ForensicError) -> (r: Self)
        ensures
            call_ensures(T::default, (), r.data),
            r.errors.wf(),
            r.view_errors() == Map::<Seq<char>, Seq<(Seq<char>, ErrorView)>>::empty().insert(
                parser@,
                seq![(element@, err@)],
            ),
    {
        let mut errors: StrMap<ErrorList> = StrMap::new();
        let mut list: ErrorList = Vec::new();
        list.push((element, err));
        assert(list_view(list@) =~= seq![(element@, err@)]);
        errors.insert(String::from_str(parser), list);
        let r = Self { data: T::default(), errors };
        assert(r.view_errors() =~= Map::<Seq<char>, Seq<(Seq<char>, ErrorView)>>::empty().insert(
            parser@,
            seq![(element@, err@)],
        ));
        r
    }

    /// Moves the errors of `errors` here. Where a parser has errors in
    /// both, those of `errors` take the place of those that were here.
    pub fn copy_errors(&mut self, errors: &mut StrMap<ErrorList>)
        requires
            old(self).errors.wf(),
            old(errors).wf(),
        ensures
            final(self).data == old(self).data,
            final(self).errors.wf(),
            final(errors).wf(),
            final(errors).names().len() == 0,
            final(self).view_errors() == old(self).view_errors().union_prefer_right(
                errors_view(old(errors).map()),
            ),
    {
        let ghost here = self.errors.map();
        let ghost there = errors.map();
        loop
            invariant
                self.data == old(self).data,
                self.errors.wf(),
                errors.wf(),
                self.errors.map().union_prefer_right(errors.map()) == here.union_prefer_right(there),
            ensures
                errors.names().len() == 0,
                self.errors.map().union_prefer_right(errors.map()) == here.union_prefer_right(there),
                self.data == old(self).data,
                self.errors.wf(),
                errors.wf(),
            decreases errors.names().len(),
        {
            let ghost s = self.errors.map();
            let ghost e = errors.map();
            match errors.pop_last() {
                Some((name, list)) => {
                    self.errors.insert(name, list);
                    assert(self.errors.map().union_prefer_right(errors.map()) =~= s.union_prefer_right(
                        e,
                    ));
                },
                None => {
                    break ;
                },
            }
        }
        proof {
            errors.lemma_names();
            assert(errors.map() =~= Map::<Seq<char>, ErrorList>::empty()) by {
                assert forall|k: Seq<char>| !errors.map().contains_key(k) by {
                    assert(!errors.names().contains(k));
                }
            }
            assert(self.errors.map() =~= here.union_prefer_right(there));
            assert(self.view_errors() =~= old(self).view_errors().union_prefer_right(
                errors_view(there),
            ));
        }
    }

    /// Adds an error of a parser after those that the parser has.
    pub fn add_error(&mut self, parser: &str, element: String, err: ForensicError)
        requires
            old(self).errors.wf(),
        ensures
            final(self).data == old(self).data,
            final(self).errors.wf(),
            final(self).view_errors() == old(self).view_errors().insert(
                parser@,
                errors_of(old(self).view_errors(), parser@).push((element@, err@)),
            ),
    {
        let mut error_list = match self.errors.remove(parser) {
            Some(v) => v,
            None => Vec::new(),
        };
        let ghost before = list_view(error_list@);
        assert(before =~= errors_of(old(self).view_errors(), parser@));
        error_list.push((element, err));
        assert(list_view(error_list@) =~= before.push((element@, err@)));
        self.errors.insert(String::from_str(parser), error_list);
        assert(self.view_errors() =~= old(self).view_errors().insert(
            parser@,
            errors_of(old(self).view_errors(), parser@).push((element@, err@)),
        ));
    }

    /// Adds errors of a parser after those that the parser has.
    pub fn add_errors(&mut self, parser: &str, errors: Vec<(String, ForensicError)>)
        requires
            old(self).errors.wf(),
        ensures
            final(self).data == old(self).data,
            final(self).errors.wf(),
            final(self).view_errors() == old(self).view_errors().insert(
                parser@,
                errors_of(old(self).view_errors(), parser@) + list_view(errors@),
            ),
    {
        let mut errors = errors;
        let mut error_list = match self.errors.remove(parser) {
            Some(v) => v,
            None => Vec::new(),
        };
        let ghost before = list_view(error_list@);
        let ghost added = list_view(errors@);
        assert(before =~= errors_of(old(self).view_errors(), parser@));
        error_list.append(&mut errors);
        assert(list_view(error_list@) =~= before + added);
        self.errors.insert(String::from_str(parser), error_list);
        assert(self.view_errors() =~= old(self).view_errors().insert(parser@, before + added));
    }

    /// Adds copies of the errors of `other` after those that are here,
    /// parser by parser.
    pub fn copy(&mut self, other: &Self)
        requires
            old(self).errors.wf(),
            other.errors.wf(),
        ensures
            final(self).data == old(self).data,
            final(self).errors.wf(),
            final(self).view_errors() == merged(old(self).view_errors(), other.view_errors()),
    {
        let ghost here = self.view_errors();
        let ghost there = other.view_errors();
        let ghost names = other.errors.names();
        let mut i: usize = 0;
        proof {
            other.errors.lemma_names();
            assert(self.view_errors() =~= merged_first(here, there, names, 0));
        }
        while i < other.errors.len()
            invariant
                i <= names.len(),
                names == other.errors.names(),
                other.errors.wf(),
                there == other.view_errors(),
                self.data == old(self).data,
                self.errors.wf(),
                self.view_errors() == merged_first(here, there, names, i as int),
            decreases names.len() - i,
        {
            let parser_name = other.errors.name_at(i);
            let error_list = other.errors.value_at(i);
            proof {
                other.errors.lemma_names();
            }
            let ghost was = self.view_errors();
            let mut data = match self.errors.remove(parser_name.as_str()) {
                Some(v) => v,
                None => Vec::new(),
            };
            let ghost before = list_view(data@);
            assert(before =~= errors_of(was, parser_name@));
            let mut copied = clone_list(error_list);
            let ghost added = list_view(copied@);
            data.append(&mut copied);
            assert(list_view(data@) =~= before + added);
            self.errors.insert(parser_name.clone(), data);
            proof {
                assert(self.view_errors() =~= was.insert(parser_name@, before + added));
                lemma_merged_step(here, there, names, i as int);
            }
            i = i + 1;
        }
        proof {
            other.errors.lemma_names();
            lemma_merged_all(here, there, names);
        }
    }

    /// Adds the errors of `other` after those that are here, parser by
    /// parser.
    pub fn join(&mut self, other: Self)
        requires
            old(self).errors.wf(),
            other.errors.wf(),
        ensures
            final(self).data == old(self).data,
            final(self).errors.wf(),
            final(self).view_errors() == merged(old(self).view_errors(), other.view_errors()),
    {
        self.copy(&other);
    }
}

/// The errors of `first` with those that `second` has for the first `count`
/// of `names` after them.
pub open spec fn merged_first(
    first: Map<Seq<char>, Seq<(Seq<char>, ErrorView)>>,
    second: Map<Seq<char>, Seq<(Seq<char>, ErrorView)>>,
    names: Seq<Seq<char>>,
    count: int,
) -> Map<Seq<char>, Seq<(Seq<char>, ErrorView)>> {
    Map::new(
        |k: Seq<char>| first.contains_key(k) || names.take(count).contains(k),
        |k: Seq<char>|
            if names.take(count).contains(k) {
                errors_of(first, k) + errors_of(second, k)
            } else {
                errors_of(first, k)
            },
    )
}

/// Taking the errors of one more parser of `second` gives what is merged
/// from one more of its names.
proof fn lemma_merged_step(
    first: Map<Seq<char>, Seq<(Seq<char>, ErrorView)>>,
    second: Map<Seq<char>, Seq<(Seq<char>, ErrorView)>>,
    names: Seq<Seq<char>>,
    i: int,
)
    requires
        0 <= i < names.len(),
        names.no_duplicates(),
        second.contains_key(names[i]),
    ensures
        merged_first(first, second, names, i).insert(
            names[i],
            errors_of(merged_first(first, second, names, i), names[i]) + second[names[i]],
        ) == merged_first(first, second, names, i + 1),
{
    let before = merged_first(first, second, names, i);
    let after = merged_first(first, second, names, i + 1);
    let name = names[i];
    assert(names.take(i + 1) =~= names.take(i).push(name));
    assert(!names.take(i).contains(name)) by {
        if names.take(i).contains(name) {
            let j = names.take(i).index_of(name);
            assert(names[j] == names[i]);
        }
    }
    assert(names.take(i + 1).contains(name)) by {
        assert(names.take(i + 1)[i] == name);
    }
    assert forall|k: Seq<char>| names.take(i + 1).contains(k) <==> (k == name || names.take(
        i,
    ).contains(k)) by {
        if names.take(i + 1).contains(k) {
            let j = names.take(i + 1).index_of(k);
            if j < i {
                assert(names.take(i)[j] == k);
            }
        }
        if names.take(i).contains(k) {
            let j = names.take(i).index_of(k);
            assert(names.take(i + 1)[j] == k);
        }
    }
    assert(before.insert(name, errors_of(before, name) + second[name]) =~= after);
}

/// What is merged from all the names of `second` is the two merged.
proof fn lemma_merged_all(
    first: Map<Seq<char>, Seq<(Seq<char>, ErrorView)>>,
    second: Map<Seq<char>, Seq<(Seq<char>, ErrorView)>>,
    names: Seq<Seq<char>>,
)
    requires
        forall|k: Seq<char>| names.contains(k) <==> #[trigger] second.contains_key(k),
    ensures
        merged_first(first, second, names, names.len() as int) == merged(first, second),
{
    assert(names.take(names.len() as int) =~= names);
    assert(merged_first(first, second, names, names.len() as int) =~= merged(first, second)) by {
        assert forall|k: Seq<char>| !second.contains_key(k) implies errors_of(first, k) + errors_of(
            second,
            k,
        ) == errors_of(first, k) by {
            assert(errors_of(first, k) + Seq::<(Seq<char>, ErrorView)>::empty() =~= errors_of(
                first,
                k,
            ));
        }
    }
}

impl<T: Default> Default for Bitacora<T> {
    fn default() -> (r: Self)
        ensures
            call_ensures(T::default, (), r.data),
            r.errors.wf(),
            r.view_errors() == Map::<Seq<char>, Seq<(Seq<char>, ErrorView)>>::empty(),
    {
        Bitacora::new(T::default())
    }
}

} // verus!
