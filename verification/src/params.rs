use vstd::prelude::*;
use vstd::string::*;

verus! {

/// A parameter list as contracts see it: names with their values, in the
/// order in which the names were first given.
pub type Entries = Seq<(Seq<char>, Seq<char>)>;

/// Whether `entries` gives a value to `key`.
pub open spec fn has_key(entries: Entries, key: Seq<char>) -> bool {
    exists|i: int| 0 <= i < entries.len() && #[trigger] entries[i].0 == key
}

/// No name is given twice.
pub open spec fn distinct_keys(entries: Entries) -> bool {
    forall|i: int, j: int|
        0 <= i < j < entries.len() ==> #[trigger] entries[i].0 != #[trigger] entries[j].0
}

/// `entries` after `key` is given `value`: a name already there keeps its
/// place and takes the new value, a new name goes to the end.
pub open spec fn with_entry(entries: Entries, key: Seq<char>, value: Seq<char>) -> Entries {
    if has_key(entries, key) {
        let i = choose|i: int| 0 <= i < entries.len() && #[trigger] entries[i].0 == key;
        entries.update(i, (key, value))
    } else {
        entries.push((key, value))
    }
}

/// `entries` and, where `value` is given, `key` with that value after them.
pub open spec fn with_optional(entries: Entries, key: Seq<char>, value: Option<Seq<char>>) -> Entries {
    match value {
        Some(v) => entries.push((key, v)),
        None => entries,
    }
}

/// One parameter as it stands in a query string: `name=value`.
pub open spec fn pair_text(entry: (Seq<char>, Seq<char>)) -> Seq<char> {
    entry.0 + seq!['='] + entry.1
}

/// The query string of `entries`: each as `name=value`, joined by `&`, with
/// nothing escaped.
pub open spec fn query_of(entries: Entries) -> Seq<char>
    decreases entries.len(),
{
    if entries.len() == 0 {
        Seq::<char>::empty()
    } else if entries.len() == 1 {
        pair_text(entries[0])
    } else {
        query_of(entries.drop_last()) + seq!['&'] + pair_text(entries.last())
    }
}

struct Param {
    key: String,
    value: String,
}

/// The query parameters of one call: each name at most once.
pub struct Params {
    entries: Vec<Param>,
}

impl View for Params {
    type V = Entries;

    closed spec fn view(&self) -> Entries {
        Seq::new(self.entries@.len(), |i: int| (self.entries@[i].key@, self.entries@[i].value@))
    }
}

impl Params {
    /// Well-formedness: no name is given twice.
    pub open spec fn wf(&self) -> bool {
        distinct_keys(self@)
    }

    pub fn new() -> (params: Params)
        ensures
            params@ == Entries::empty(),
            params.wf(),
    {
        let params = Params { entries: Vec::new() };
        assert(params@ =~= Entries::empty());
        params
    }

    pub fn is_empty(&self) -> (empty: bool)
        ensures
            empty == (self@.len() == 0),
    {
        self.entries.len() == 0
    }

    /// Adds a name that the list does not hold yet.
    pub(crate) fn add(&mut self, key: &str, value: String)
        requires
            old(self).wf(),
            !has_key(old(self)@, key@),
        ensures
            final(self)@ == old(self)@.push((key@, value@)),
            final(self).wf(),
    {
        self.insert(key, value);
    }

    /// Gives `key` the value `value`.
    pub fn insert(&mut self, key: &str, value: String)
        requires
            old(self).wf(),
        ensures
            final(self)@ == with_entry(old(self)@, key@, value@),
            final(self).wf(),
    {
        let ghost before = self@;
        let mut i: usize = 0;
        while i < self.entries.len()
            invariant
                i <= self.entries.len(),
                self@ == before,
                before == old(self)@,
                distinct_keys(before),
                forall|j: int| 0 <= j < i ==> #[trigger] before[j].0 != key@,
            decreases self.entries.len() - i,
        {
            if self.entries[i].key.as_str().to_owned() == key.to_owned() {
                self.entries.set(i, Param { key: key.to_owned(), value });
                proof {
                    assert(before[i as int].0 == key@);
                    assert(has_key(before, key@));
                    let found = choose|k: int| 0 <= k < before.len() && #[trigger] before[k].0 == key@;
                    assert(found == i) by {
                        if found < i {
                            assert(before[found].0 != key@);
                        } else if found > i {
                            assert(before[i as int].0 != before[found].0);
                        }
                    }
                    assert(self@ =~= before.update(i as int, (key@, value@)));
                    assert(distinct_keys(self@)) by {
                        assert forall|a: int, b: int| 0 <= a < b < self@.len() implies #[trigger] self@[a].0
                            != #[trigger] self@[b].0 by {
                            assert(self@[a].0 == before[a].0);
                            assert(self@[b].0 == before[b].0);
                        }
                    }
                }
                return ;
            }
            i += 1;
        }
        self.entries.push(Param { key: key.to_owned(), value });
        proof {
            assert(!has_key(before, key@));
            assert(self@ =~= before.push((key@, value@)));
            assert(distinct_keys(self@)) by {
                assert forall|a: int, b: int| 0 <= a < b < self@.len() implies #[trigger] self@[a].0
                    != #[trigger] self@[b].0 by {
                    if b < before.len() {
                        assert(self@[a].0 == before[a].0);
                        assert(self@[b].0 == before[b].0);
                    } else {
                        assert(self@[a].0 == before[a].0);
                        assert(before[a].0 != key@);
                    }
                }
            }
        }
    }
}

/// Writes the parameters as a query string.
pub fn convert_map_to_string(params: &Params) -> (query: String)
    ensures
        query@ == query_of(params@),
{
    let mut query = String::new();
    let mut i: usize = 0;
    assert(params@.take(0) =~= Entries::empty());
    while i < params.entries.len()
        invariant
            i <= params.entries.len(),
            params@.len() == params.entries.len(),
            query@ == query_of(params@.take(i as int)),
        decreases params.entries.len() - i,
    {
        let ghost done = params@.take(i as int);
        let ghost next = params@.take(i + 1);
        assert(next.drop_last() =~= done);
        assert(next.last() == (params.entries[i as int].key@, params.entries[i as int].value@));
        if i > 0 {
            query.append("&");
        }
        query.append(params.entries[i].key.as_str());
        query.append("=");
        query.append(params.entries[i].value.as_str());
        proof {
            reveal_strlit("&");
            reveal_strlit("=");
            assert("&"@ =~= seq!['&']);
            assert("="@ =~= seq!['=']);
            assert(query@ =~= query_of(next));
        }
        i += 1;
    }
    assert(params@.take(params@.len() as int) =~= params@);
    query
}

} // verus!
