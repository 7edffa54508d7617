//! Insertion-ordered maps keyed by column name: the values of a request and
//! the declared types of a table's columns.

use crate::json::{member_models, JsonModel, JsonValue};
use crate::text::same_text;
use vstd::prelude::*;

verus! {

/// No key occurs twice.
pub open spec fn distinct_keys<V>(entries: Seq<(Seq<char>, V)>) -> bool {
    forall|i: int, j: int|
        0 <= i < j < entries.len() ==> (#[trigger] entries[i]).0 != (#[trigger] entries[j]).0
}

/// The keys, in order.
pub open spec fn keys_of<V>(entries: Seq<(Seq<char>, V)>) -> Seq<Seq<char>> {
    Seq::new(entries.len(), |i: int| entries[i].0)
}

/// The first place at which `key` stands.
pub open spec fn position<V>(entries: Seq<(Seq<char>, V)>, key: Seq<char>) -> Option<int>
    decreases entries.len(),
{
    if entries.len() == 0 {
        None
    } else {
        match position(entries.drop_last(), key) {
            Some(i) => Some(i),
            None => if entries.last().0 == key {
                Some(entries.len() - 1)
            } else {
                None
            },
        }
    }
}

/// The value that stands under `key`.
pub open spec fn lookup<V>(entries: Seq<(Seq<char>, V)>, key: Seq<char>) -> Option<V> {
    match position(entries, key) {
        Some(i) => Some(entries[i].1),
        None => None,
    }
}

/// The entries after `value` was put under `key`: in the place of the old
/// value where the key was there, at the end where it was not.
pub open spec fn put<V>(entries: Seq<(Seq<char>, V)>, key: Seq<char>, value: V) -> Seq<
    (Seq<char>, V),
> {
    match position(entries, key) {
        Some(i) => entries.update(i, (key, value)),
        None => entries.push((key, value)),
    }
}

/// `position` finds the first entry with the key, and none only where no
/// entry has it.
pub proof fn lemma_position<V>(entries: Seq<(Seq<char>, V)>, key: Seq<char>)
    ensures
        match position(entries, key) {
            Some(i) => 0 <= i < entries.len() && entries[i].0 == key && forall|j: int|
                0 <= j < i ==> (#[trigger] entries[j]).0 != key,
            None => forall|j: int| 0 <= j < entries.len() ==> (#[trigger] entries[j]).0 != key,
        },
    decreases entries.len(),
{
    if entries.len() > 0 {
        lemma_position(entries.drop_last(), key);
        assert(forall|j: int|
            0 <= j < entries.len() - 1 ==> entries.drop_last()[j] == #[trigger] entries[j]);
    }
}

/// An entry that is the first with its key is the one `position` finds.
pub proof fn lemma_position_at<V>(entries: Seq<(Seq<char>, V)>, key: Seq<char>, i: int)
    requires
        0 <= i < entries.len(),
        entries[i].0 == key,
        forall|j: int| 0 <= j < i ==> (#[trigger] entries[j]).0 != key,
    ensures
        position(entries, key) == Some(i),
{
    lemma_position(entries, key);
}

/// A value put under a key that was not there stands at the end.
pub proof fn lemma_put_fresh<V>(entries: Seq<(Seq<char>, V)>, key: Seq<char>, value: V)
    requires
        forall|j: int| 0 <= j < entries.len() ==> (#[trigger] entries[j]).0 != key,
    ensures
        put(entries, key, value) == entries.push((key, value)),
{
    lemma_position(entries, key);
}

/// A value that was put under a key is found under it, and what stands
/// under another key stays.
pub proof fn lemma_lookup_put<V>(
    entries: Seq<(Seq<char>, V)>,
    key: Seq<char>,
    value: V,
    other: Seq<char>,
)
    ensures
        lookup(put(entries, key, value), key) == Some(value),
        other != key ==> lookup(put(entries, key, value), other) == lookup(entries, other),
{
    let after = put(entries, key, value);
    lemma_position(entries, key);
    lemma_position(entries, other);
    match position(entries, key) {
        Some(i) => {
            assert forall|j: int| 0 <= j < i implies (#[trigger] after[j]).0 != key by {
                assert(after[j] == entries[j]);
            }
            lemma_position_at(after, key, i);
            if other != key {
                match position(entries, other) {
                    Some(k) => {
                        assert forall|j: int| 0 <= j < k implies (#[trigger] after[j]).0
                            != other by {
                            assert(after[j].0 == entries[j].0);
                        }
                        assert(after[k] == entries[k]);
                        lemma_position_at(after, other, k);
                    },
                    None => {
                        assert forall|j: int| 0 <= j < after.len() implies (#[trigger] after[j]).0
                            != other by {
                            assert(after[j].0 == entries[j].0);
                        }
                        lemma_position(after, other);
                    },
                }
            }
        },
        None => {
            let n = entries.len() as int;
            assert forall|j: int| 0 <= j < n implies (#[trigger] after[j]).0 != key by {
                assert(after[j] == entries[j]);
            }
            lemma_position_at(after, key, n);
            if other != key {
                match position(entries, other) {
                    Some(k) => {
                        assert forall|j: int| 0 <= j < k implies (#[trigger] after[j]).0
                            != other by {
                            assert(after[j] == entries[j]);
                        }
                        assert(after[k] == entries[k]);
                        lemma_position_at(after, other, k);
                    },
                    None => {
                        assert forall|j: int| 0 <= j < after.len() implies (#[trigger] after[j]).0
                            != other by {
                            if j < n {
                                assert(after[j] == entries[j]);
                            }
                        }
                        lemma_position(after, other);
                    },
                }
            }
        },
    }
}

/// Of two values put under one key the second stays, in the place that the
/// first took.
pub proof fn lemma_put_twice<V>(entries: Seq<(Seq<char>, V)>, key: Seq<char>, first: V, second: V)
    ensures
        put(put(entries, key, first), key, second) == put(entries, key, second),
{
    let once = put(entries, key, first);
    lemma_position(entries, key);
    match position(entries, key) {
        Some(i) => {
            assert forall|j: int| 0 <= j < i implies (#[trigger] once[j]).0 != key by {
                assert(once[j] == entries[j]);
            }
            lemma_position_at(once, key, i);
            assert(once.update(i, (key, second)) =~= entries.update(i, (key, second)));
        },
        None => {
            let n = entries.len() as int;
            assert forall|j: int| 0 <= j < n implies (#[trigger] once[j]).0 != key by {
                assert(once[j] == entries[j]);
            }
            lemma_position_at(once, key, n);
            assert(once.update(n, (key, second)) =~= entries.push((key, second)));
        },
    }
}

/// Putting a value keeps the keys distinct.
pub proof fn lemma_put_distinct<V>(entries: Seq<(Seq<char>, V)>, key: Seq<char>, value: V)
    requires
        distinct_keys(entries),
    ensures
        distinct_keys(put(entries, key, value)),
{
    lemma_position(entries, key);
    let after = put(entries, key, value);
    assert forall|i: int, j: int| 0 <= i < j < after.len() implies (#[trigger] after[i]).0 != (
    #[trigger] after[j]).0 by {
        match position(entries, key) {
            Some(p) => {
                assert(after[i].0 == entries[i].0);
                assert(after[j].0 == entries[j].0);
            },
            None => {
                if j < entries.len() {
                    assert(after[i] == entries[i]);
                    assert(after[j] == entries[j]);
                } else {
                    assert(after[i] == entries[i]);
                }
            },
        }
    }
}

/// The entries put one after the other into an empty map.
pub open spec fn gathered<V>(entries: Seq<(Seq<char>, V)>) -> Seq<(Seq<char>, V)>
    decreases entries.len(),
{
    if entries.len() == 0 {
        Seq::empty()
    } else {
        put(gathered(entries.drop_last()), entries.last().0, entries.last().1)
    }
}

/// The values of a request, by column, in the order in which they were put.
#[derive(Debug, PartialEq, Eq)]
pub struct Values {
    entries: Vec<(String, JsonValue)>,
}

impl View for Values {
    type V = Seq<(Seq<char>, JsonModel)>;

    closed spec fn view(&self) -> Seq<(Seq<char>, JsonModel)> {
        member_models(self.entries@)
    }
}

impl Values {
    /// No column occurs twice. `new` gives such a map and `insert` keeps it
    /// one.
    pub open spec fn well_formed(&self) -> bool {
        distinct_keys(self@)
    }

    pub fn new() -> (r: Self)
        ensures
            r@ == Seq::<(Seq<char>, JsonModel)>::empty(),
            r.well_formed(),
    {
        let r = Values { entries: Vec::new() };
        assert(member_models(r.entries@) =~= Seq::empty());
        r
    }

    /// The members of a JSON object as a map. Of members with the same name
    /// the first gives the place and the last the value.
    pub fn from_members(members: &Vec<(String, JsonValue)>) -> (r: Self)
        ensures
            r@ == gathered(member_models(members@)),
            r.well_formed(),
    {
        let ghost all = member_models(members@);
        let mut out = Values::new();
        let mut i: usize = 0;
        assert(all.take(0) =~= Seq::empty());
        while i < members.len()
            invariant
                i <= members.len(),
                all == member_models(members@),
                out@ == gathered(all.take(i as int)),
                out.well_formed(),
            decreases members.len() - i,
        {
            proof {
                assert(all.take(i + 1).drop_last() =~= all.take(i as int));
                assert(all.take(i + 1).last() == all[i as int]);
            }
            out.insert(members[i].0.clone(), members[i].1.clone());
            i += 1;
        }
        assert(all.take(members.len() as int) =~= all);
        out
    }

    pub fn len(&self) -> (n: usize)
        ensures
            n == self@.len(),
    {
        self.entries.len()
    }

    pub fn is_empty(&self) -> (r: bool)
        ensures
            r == (self@.len() == 0),
    {
        self.entries.len() == 0
    }

    /// The column of the entry at `index`.
    pub fn key_at(&self, index: usize) -> (r: &String)
        requires
            index < self@.len(),
        ensures
            r@ == self@[index as int].0,
    {
        &self.entries[index].0
    }

    /// The value of the entry at `index`.
    pub fn value_at(&self, index: usize) -> (r: &JsonValue)
        requires
            index < self@.len(),
        ensures
            r@ == self@[index as int].1,
    {
        &self.entries[index].1
    }

    /// The place of `key` among the entries.
    pub fn find(&self, key: &str) -> (r: Option<usize>)
        ensures
            match r {
                Some(i) => i < self@.len() && position(self@, key@) == Some(i as int),
                None => position(self@, key@) is None,
            },
    {
        let mut i: usize = 0;
        while i < self.entries.len()
            invariant
                i <= self.entries.len(),
                forall|j: int| 0 <= j < i ==> (#[trigger] self@[j]).0 != key@,
            decreases self.entries.len() - i,
        {
            if same_text(self.entries[i].0.as_str(), key) {
                proof {
                    lemma_position_at(self@, key@, i as int);
                }
                return Some(i);
            }
            i += 1;
        }
        proof {
            lemma_position(self@, key@);
        }
        None
    }

    /// The value under `key`.
    pub fn get(&self, key: &str) -> (r: Option<&JsonValue>)
        ensures
            match r {
                Some(v) => lookup(self@, key@) == Some(v@),
                None => lookup(self@, key@) is None,
            },
    {
        match self.find(key) {
            Some(i) => Some(&self.entries[i].1),
            None => None,
        }
    }

    pub fn contains_key(&self, key: &str) -> (r: bool)
        ensures
            r == (position(self@, key@) is Some),
    {
        self.find(key).is_some()
    }

    /// Puts `value` under `key`. A key that is already there keeps its place
    /// and gets the new value.
    pub fn insert(&mut self, key: String, value: JsonValue)
        ensures
            final(self)@ == put(old(self)@, key@, value@),
            old(self).well_formed() ==> final(self).well_formed(),
    {
        proof {
            if self.well_formed() {
                lemma_put_distinct(self@, key@, value@);
            }
        }
        match self.find(key.as_str()) {
            Some(i) => {
                self.entries.set(i, (key, value));
                assert(member_models(self.entries@) =~= put(old(self)@, key@, value@));
            },
            None => {
                self.entries.push((key, value));
                assert(member_models(self.entries@) =~= put(old(self)@, key@, value@));
            },
        }
    }

    /// The columns, in order.
    pub fn keys(&self) -> (r: Vec<String>)
        ensures
            crate::text::texts(r@) == keys_of(self@),
    {
        let mut out: Vec<String> = Vec::new();
        let mut i: usize = 0;
        while i < self.entries.len()
            invariant
                i <= self.entries.len(),
                out@.len() == i,
                forall|j: int| 0 <= j < i ==> out@[j]@ == self@[j].0,
            decreases self.entries.len() - i,
        {
            out.push(self.entries[i].0.clone());
            i += 1;
        }
        assert(crate::text::texts(out@) =~= keys_of(self@));
        out
    }
}

impl Clone for Values {
    fn clone(&self) -> (r: Self)
        ensures
            r@ == self@,
    {
        let mut out: Vec<(String, JsonValue)> = Vec::new();
        let mut i: usize = 0;
        while i < self.entries.len()
            invariant
                i <= self.entries.len(),
                out@.len() == i,
                forall|j: int|
                    0 <= j < i ==> out@[j].0@ == self.entries@[j].0@ && out@[j].1@
                        == self.entries@[j].1@,
            decreases self.entries.len() - i,
        {
            let name = self.entries[i].0.clone();
            let value = self.entries[i].1.clone();
            out.push((name, value));
            i += 1;
        }
        assert(member_models(out@) =~= member_models(self.entries@));
        Values { entries: out }
    }
}

/// The views of a sequence of named texts.
pub open spec fn column_models(entries: Seq<(String, String)>) -> Seq<(Seq<char>, Seq<char>)> {
    Seq::new(entries.len(), |i: int| (entries[i].0@, entries[i].1@))
}

/// The declared type of each column of a table.
#[derive(Debug, PartialEq, Eq)]
pub struct TableColumns {
    entries: Vec<(String, String)>,
}

impl View for TableColumns {
    type V = Seq<(Seq<char>, Seq<char>)>;

    closed spec fn view(&self) -> Seq<(Seq<char>, Seq<char>)> {
        column_models(self.entries@)
    }
}

impl TableColumns {
    /// No column occurs twice. `new` gives such a map and `insert` keeps it
    /// one.
    pub open spec fn well_formed(&self) -> bool {
        distinct_keys(self@)
    }

    pub fn new() -> (r: Self)
        ensures
            r@ == Seq::<(Seq<char>, Seq<char>)>::empty(),
            r.well_formed(),
    {
        let r = TableColumns { entries: Vec::new() };
        assert(column_models(r.entries@) =~= Seq::empty());
        r
    }

    pub fn len(&self) -> (n: usize)
        ensures
            n == self@.len(),
    {
        self.entries.len()
    }

    pub fn is_empty(&self) -> (r: bool)
        ensures
            r == (self@.len() == 0),
    {
        self.entries.len() == 0
    }

    /// The place of `column` among the entries.
    pub fn find(&self, column: &str) -> (r: Option<usize>)
        ensures
            match r {
                Some(i) => i < self@.len() && position(self@, column@) == Some(i as int),
                None => position(self@, column@) is None,
            },
    {
        let mut i: usize = 0;
        while i < self.entries.len()
            invariant
                i <= self.entries.len(),
                forall|j: int| 0 <= j < i ==> (#[trigger] self@[j]).0 != column@,
            decreases self.entries.len() - i,
        {
            if same_text(self.entries[i].0.as_str(), column) {
                proof {
                    lemma_position_at(self@, column@, i as int);
                }
                return Some(i);
            }
            i += 1;
        }
        proof {
            lemma_position(self@, column@);
        }
        None
    }

    /// The declared type of `column`.
    pub fn get(&self, column: &str) -> (r: Option<&String>)
        ensures
            match r {
                Some(t) => lookup(self@, column@) == Some(t@),
                None => lookup(self@, column@) is None,
            },
    {
        match self.find(column) {
            Some(i) => Some(&self.entries[i].1),
            None => None,
        }
    }

    /// Declares `column` to be of type `declared`. A column that is already
    /// there keeps its place and gets the new type.
    pub fn insert(&mut self, column: String, declared: String)
        ensures
            final(self)@ == put(old(self)@, column@, declared@),
            old(self).well_formed() ==> final(self).well_formed(),
    {
        proof {
            if self.well_formed() {
                lemma_put_distinct(self@, column@, declared@);
            }
        }
        match self.find(column.as_str()) {
            Some(i) => {
                self.entries.set(i, (column, declared));
                assert(column_models(self.entries@) =~= put(old(self)@, column@, declared@));
            },
            None => {
                self.entries.push((column, declared));
                assert(column_models(self.entries@) =~= put(old(self)@, column@, declared@));
            },
        }
    }
}

impl Clone for TableColumns {
    fn clone(&self) -> (r: Self)
        ensures
            r@ == self@,
    {
        let mut out: Vec<(String, String)> = Vec::new();
        let mut i: usize = 0;
        while i < self.entries.len()
            invariant
                i <= self.entries.len(),
                out@.len() == i,
                forall|j: int|
                    0 <= j < i ==> out@[j].0@ == self.entries@[j].0@ && out@[j].1@
                        == self.entries@[j].1@,
            decreases self.entries.len() - i,
        {
            let name = self.entries[i].0.clone();
            let declared = self.entries[i].1.clone();
            out.push((name, declared));
            i += 1;
        }
        assert(column_models(out@) =~= column_models(self.entries@));
        TableColumns { entries: out }
    }
}

} // verus!
