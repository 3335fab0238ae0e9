//! The four operations of single-table persistence.

use vstd::prelude::*;
use super::statement::Statement;

verus! {

/// Create, fetch, update and delete for entities of type `T`, each as the
/// statement to execute against the store.
pub trait CRUD<T> {
    /// The statement that stores `entity` as a new row.
    fn create(&self, entity: &T) -> Statement;

    /// The statement that reads the row with the given id.
    fn fetch(&self, id: &str) -> Statement;

    /// The statement that overwrites the row of `entity`.
    fn update(&self, entity: &T) -> Statement;

    /// The statement that deletes the row with the given id, by flagging it
    /// when `logical` and by removing it otherwise.
    fn delete(&self, id: &str, logical: bool) -> Statement;
}

} // verus!
