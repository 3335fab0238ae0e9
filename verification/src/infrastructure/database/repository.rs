//! Generic persistence of one entity type in one table.

use core::marker::PhantomData;
use vstd::prelude::*;
use super::bindable::Value;
use super::crud::CRUD;
use super::entity::Entity;
use super::row::{plain_outcome, DecodeError, DecodeErrorView, Row, RowView};
use super::model::{creation, deleting, fetching, updating};
use super::sql::{bind_values, delete_by_id, insert_into, select_by_id, update_by_id, with_values};
use super::statement::Statement;

verus! {

/// What a fetch returns for the row the store found, if it found one: nothing
/// for no row, the decoded entity for a row that decodes, and the decode
/// failure for one that does not.
pub open spec fn fetched<T: Entity>(row: Option<RowView>) -> Result<Option<T>, DecodeErrorView> {
    match row {
        None => Ok(None),
        Some(found) => match T::decode(found) {
            Ok(entity) => Ok(Some(entity)),
            Err(error) => Err(error),
        },
    }
}

/// The model of an optional row.
pub open spec fn row_view(row: Option<&Row>) -> Option<RowView> {
    match row {
        Some(found) => Some(found@),
        None => None,
    }
}

/// Builds the statements that persist entities of type `T`, and decodes what
/// the store answers. It holds no data of its own: all durable state lives in
/// the store.
pub struct Repository<T: Entity> {
    _phantom: PhantomData<T>,
}

impl<T: Entity> Repository<T> {
    pub fn new() -> (repository: Self) {
        Repository { _phantom: PhantomData }
    }

    /// Binds every encoded value to the next placeholder of `query`, in
    /// encode order.
    pub fn bind_values(&self, query: Statement, values: &Vec<(String, Value)>) -> (bound: Statement)
        ensures
            bound@ == with_values(query@, values.deep_view()),
    {
        bind_values(query, values)
    }

    /// Decodes the answer to a fetch: `row` is the first row the store
    /// returned, if it returned any. No row is an empty result, never an error.
    pub fn fetched(&self, row: Option<&Row>) -> (outcome: Result<Option<T>, DecodeError>)
        ensures
            plain_outcome(outcome) == fetched::<T>(row_view(row)),
    {
        match row {
            None => Ok(None),
            Some(found) => match T::from_row(found) {
                Ok(entity) => Ok(Some(entity)),
                Err(error) => Err(error),
            },
        }
    }
}

impl<T: Entity> CRUD<T> for Repository<T> {
    /// `INSERT INTO <table> (<columns>) VALUES (?1, ..., ?N)`, with the
    /// encoded values bound in encode order.
    fn create(&self, entity: &T) -> (statement: Statement)
        ensures
            statement@ == creation(*entity).statement(),
    {
        let values = entity.to_values();
        insert_into(T::get_table_name(), &values)
    }

    /// `SELECT * FROM <table> WHERE id = ?`, with the id bound.
    fn fetch(&self, id: &str) -> (statement: Statement)
        ensures
            statement@ == fetching::<T>(id@).statement(),
    {
        select_by_id(T::get_table_name(), id)
    }

    /// `UPDATE <table> SET <col1> = ?1, ..., <colN> = ?N WHERE id = ?N+1`,
    /// with the encoded values bound in encode order and the id last.
    fn update(&self, entity: &T) -> (statement: Statement)
        ensures
            statement@ == updating(*entity).statement(),
    {
        let values = entity.to_values();
        update_by_id(T::get_table_name(), &values, entity.id())
    }

    /// `UPDATE <table> SET deleted = 1 WHERE id = ?` when `logical`,
    /// `DELETE FROM <table> WHERE id = ?` otherwise, with the id bound.
    fn delete(&self, id: &str, logical: bool) -> (statement: Statement)
        ensures
            statement@ == deleting::<T>(id@, logical).statement(),
    {
        delete_by_id(T::get_table_name(), id, logical)
    }
}

} // verus!
