//! The tables whose rows can be made into entities, by name.

use crate::entities::{Rehydrate, RowError, TableModel};
use crate::json::JsonModel;
use crate::text::same_text;
use crate::values::{keys_of, lemma_position, lemma_position_at, lookup, position, put, Values};
use core::marker::PhantomData;
use vstd::prelude::*;

verus! {

/// What makes the entity of a row.
pub trait ModelFactory: Send + Sync {
    /// Whether the row holds an entity of the table of the factory.
    spec fn accepts(&self, row: Seq<(Seq<char>, JsonModel)>) -> bool;

    /// The entity that the row holds, for the rows that hold one and for
    /// no other. Each of its columns is in the row with its value.
    fn make(&self, row: &Values) -> (r: Result<Box<dyn TableModel>, RowError>)
        ensures
            r is Ok <==> self.accepts(row@),
            r matches Ok(entity) ==> forall|i: int|
                0 <= i < entity.columns().len() ==> lookup(
                    row@,
                    (#[trigger] entity.columns()[i]).0,
                ) == Some(entity.columns()[i].1),
    ;
}

/// The factory of the entities of type `T`.
pub struct Maker<T> {
    marker: PhantomData<T>,
}

impl<T> Maker<T> {
    /// The factory of the entities of type `T`.
    pub fn fresh() -> Self {
        Maker { marker: PhantomData }
    }
}

impl<T: Rehydrate + 'static> ModelFactory for Maker<T> {
    open spec fn accepts(&self, row: Seq<(Seq<char>, JsonModel)>) -> bool {
        T::fits(row)
    }

    fn make(&self, row: &Values) -> (r: Result<Box<dyn TableModel>, RowError>) {
        T::rehydrate(row)
    }
}

pub struct ModelEntry {
    pub factory: Box<dyn ModelFactory>,
}

impl ModelEntry {
    /// Whether the factory of the entry makes the entities of `T`: an entity
    /// of the rows that hold one of `T`, and of no other row.
    pub open spec fn makes<T: TableModel>(self) -> bool {
        forall|row: Seq<(Seq<char>, JsonModel)>| #[trigger] self.factory.accepts(row) == T::fits(row)
    }

    /// The entry with the factory of the entities of type `T`.
    pub fn of<T: Rehydrate + 'static>() -> (r: Self)
        ensures
            r.makes::<T>(),
    {
        ModelEntry { factory: Box::new(Maker::<T>::fresh()) }
    }
}

/// The registered tables, each with the factory of its entities.
pub struct ModelRegistry {
    models: Vec<(String, ModelEntry)>,
}

impl ModelRegistry {
    /// The registered tables with their entries, in the order in which the
    /// tables were first registered.
    pub closed spec fn entries(&self) -> Seq<(Seq<char>, ModelEntry)> {
        Seq::new(self.models@.len(), |i: int| (self.models@[i].0@, self.models@[i].1))
    }

    /// The names of the registered tables.
    pub open spec fn tables(&self) -> Seq<Seq<char>> {
        keys_of(self.entries())
    }

    pub fn new() -> (r: Self)
        ensures
            r.entries() == Seq::<(Seq<char>, ModelEntry)>::empty(),
    {
        let r = ModelRegistry { models: Vec::new() };
        assert(r.entries() =~= Seq::empty());
        r
    }

    /// The place of the table among the registered ones.
    fn find(&self, table_name: &str) -> (r: Option<usize>)
        ensures
            match r {
                Some(i) => i < self.entries().len() && position(self.entries(), table_name@)
                    == Some(i as int),
                None => position(self.entries(), table_name@) is None,
            },
    {
        let mut i: usize = 0;
        while i < self.models.len()
            invariant
                i <= self.models.len(),
                forall|j: int| 0 <= j < i ==> (#[trigger] self.entries()[j]).0 != table_name@,
            decreases self.models.len() - i,
        {
            if same_text(self.models[i].0.as_str(), table_name) {
                proof {
                    lemma_position_at(self.entries(), table_name@, i as int);
                }
                return Some(i);
            }
            i += 1;
        }
        proof {
            lemma_position(self.entries(), table_name@);
        }
        None
    }

    /// Puts `entry` under the table. A table that is registered already
    /// keeps its place and gets the new entry.
    pub fn insert(&mut self, table_name: &str, entry: ModelEntry)
        ensures
            final(self).entries() == put(old(self).entries(), table_name@, entry),
    {
        match self.find(table_name) {
            Some(i) => {
                self.models.set(i, (String::from_str(table_name), entry));
                assert(self.entries() =~= put(old(self).entries(), table_name@, entry));
            },
            None => {
                self.models.push((String::from_str(table_name), entry));
                assert(self.entries() =~= put(old(self).entries(), table_name@, entry));
            },
        }
    }

    /// Registers the table of `T` with the factory of its entities. A table
    /// that is registered already keeps its place and gets the new factory.
    pub fn register<T: Rehydrate + 'static>(&mut self)
        ensures
            exists|entry: ModelEntry|
                entry.makes::<T>() && final(self).entries() == #[trigger] put(
                    old(self).entries(),
                    T::table_name_text(),
                    entry,
                ),
    {
        let entry = ModelEntry::of::<T>();
        let ghost made = entry;
        self.insert(T::table_name(), entry);
        assert(self.entries() == put(old(self).entries(), T::table_name_text(), made));
    }

    /// The entry of the table, where it is registered.
    pub fn get(&self, table_name: &str) -> (r: Option<&ModelEntry>)
        ensures
            match r {
                Some(entry) => lookup(self.entries(), table_name@) == Some(*entry),
                None => lookup(self.entries(), table_name@) is None,
            },
    {
        match self.find(table_name) {
            Some(i) => Some(&self.models[i].1),
            None => None,
        }
    }
}

} // verus!
