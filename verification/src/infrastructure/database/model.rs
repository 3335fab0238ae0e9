//! A reference model of the store, and the laws of persistence stated over
//! it. The model says what the statements of this crate mean to a table: it
//! is how the store is expected to behave, not a part of it.

use vstd::prelude::*;
use super::entity::Entity;
use super::migration::ensured;
use super::repository::fetched;
use super::bindable::{saturated, ValueView};
use super::row::{bool_at, integer_at, lookup, CellView, DecodeErrorView, RowView};
use super::sql::{
    delete_statement, insert_statement, select_statement, update_statement, ColumnsView,
};
use super::statement::{ParamView, StatementView};

verus! {

/// The rows of one table, by primary key.
pub type TableView = Map<Seq<char>, RowView>;

/// The tables of a store, by name.
pub type StoreView = Map<Seq<char>, TableView>;

/// The cell a bound parameter is stored as: integers of either width become
/// integers, the other classes stay what they are.
pub open spec fn stored(param: ParamView) -> CellView {
    match param {
        ParamView::Text(text) => CellView::Text(text),
        ParamView::Int(value) => CellView::Integer(value as i64),
        ParamView::Int64(value) => CellView::Integer(value),
        ParamView::Double(bits) => CellView::Real(bits),
    }
}

/// The row an encoded entity is stored as: its columns in order, each value
/// as the store holds it.
pub open spec fn stored_row(values: ColumnsView) -> RowView {
    Seq::new(values.len(), |i: int| (values[i].0, stored(values[i].1.param())))
}

/// The primary key of a stored row: the text of its `id` column.
pub open spec fn row_key(row: RowView) -> Option<Seq<char>> {
    match lookup(row, "id"@) {
        Some(CellView::Text(id)) => Some(id),
        _ => None,
    }
}

/// `row` with every column named `name` holding `cell`.
pub open spec fn with_column(row: RowView, name: Seq<char>, cell: CellView) -> RowView {
    Seq::new(
        row.len(),
        |i: int|
            if row[i].0 == name {
                (name, cell)
            } else {
                row[i]
            },
    )
}

/// Whether the encoded entity names its key as this crate asks: the column
/// `id` holds the key as text.
pub open spec fn keyed<T: Entity>(entity: T) -> bool {
    row_key(stored_row(entity.values())) == Some(entity.key())
}

/// What one of the repository's operations asks of a table.
pub enum Operation {
    /// Store a new row.
    Insert { table: Seq<char>, values: ColumnsView },
    /// Read the row with the given id.
    Select { table: Seq<char>, id: Seq<char> },
    /// Overwrite every column of the row with the given id.
    Update { table: Seq<char>, values: ColumnsView, id: Seq<char> },
    /// Set the `deleted` flag of the row with the given id.
    Flag { table: Seq<char>, id: Seq<char> },
    /// Remove the row with the given id.
    Remove { table: Seq<char>, id: Seq<char> },
}

impl Operation {
    /// The statement that asks for this operation.
    pub open spec fn statement(self) -> StatementView {
        match self {
            Operation::Insert { table, values } => insert_statement(table, values),
            Operation::Select { table, id } => select_statement(table, id),
            Operation::Update { table, values, id } => update_statement(table, values, id),
            Operation::Flag { table, id } => delete_statement(table, id, true),
            Operation::Remove { table, id } => delete_statement(table, id, false),
        }
    }

    /// Whether the store refuses this operation on `rows`: an insert without
    /// a key or with a key that is taken, and a flag on a row that has no
    /// `deleted` column.
    pub open spec fn refused(self, rows: TableView) -> bool {
        match self {
            Operation::Insert { values, .. } => match row_key(stored_row(values)) {
                Some(id) => rows.contains_key(id),
                None => true,
            },
            Operation::Flag { id, .. } => rows.contains_key(id) && lookup(rows[id], "deleted"@)
                is None,
            _ => false,
        }
    }

    /// The rows of the table after this operation. A refused operation, and
    /// one on a row that is not there, leaves them as they are.
    pub open spec fn executed(self, rows: TableView) -> TableView {
        if self.refused(rows) {
            rows
        } else {
            match self {
                Operation::Insert { values, .. } => rows.insert(
                    row_key(stored_row(values))->0,
                    stored_row(values),
                ),
                Operation::Select { .. } => rows,
                Operation::Update { values, id, .. } => if rows.contains_key(id) {
                    rows.insert(id, stored_row(values))
                } else {
                    rows
                },
                Operation::Flag { id, .. } => if rows.contains_key(id) {
                    rows.insert(id, with_column(rows[id], "deleted"@, CellView::Integer(1)))
                } else {
                    rows
                },
                Operation::Remove { id, .. } => rows.remove(id),
            }
        }
    }
}

/// What creating `entity` asks of its table.
pub open spec fn creation<T: Entity>(entity: T) -> Operation {
    Operation::Insert { table: T::table_name(), values: entity.values() }
}

/// What fetching the entity with the given id asks of its table.
pub open spec fn fetching<T: Entity>(id: Seq<char>) -> Operation {
    Operation::Select { table: T::table_name(), id }
}

/// What updating `entity` asks of its table.
pub open spec fn updating<T: Entity>(entity: T) -> Operation {
    Operation::Update { table: T::table_name(), values: entity.values(), id: entity.key() }
}

/// What deleting the entity with the given id asks of its table: to flag the
/// row when `logical`, to remove it otherwise.
pub open spec fn deleting<T: Entity>(id: Seq<char>, logical: bool) -> Operation {
    if logical {
        Operation::Flag { table: T::table_name(), id }
    } else {
        Operation::Remove { table: T::table_name(), id }
    }
}

/// The row a fetch of `id` finds in `rows`, if there is one.
pub open spec fn found(rows: TableView, id: Seq<char>) -> Option<RowView> {
    if rows.contains_key(id) {
        Some(rows[id])
    } else {
        None
    }
}

/// A column that is set holds what it was set to.
pub proof fn lemma_with_column(row: RowView, name: Seq<char>, cell: CellView)
    requires
        lookup(row, name) is Some,
    ensures
        lookup(with_column(row, name, cell), name) == Some(cell),
    decreases row.len(),
{
    let changed = with_column(row, name, cell);
    if row[0].0 != name {
        assert(changed.drop_first() =~= with_column(row.drop_first(), name, cell));
        lemma_with_column(row.drop_first(), name, cell);
    }
}

/// Round trip: after an entity is created in a table that does not hold its
/// key, a fetch of its key finds the row the entity was stored as; and where
/// the entity's decoder reads that row back as the entity, the fetch returns
/// the entity.
pub proof fn lemma_create_then_fetch<T: Entity>(entity: T, rows: TableView)
    requires
        keyed(entity),
        !rows.contains_key(entity.key()),
    ensures
        ({
            let create = creation(entity);
            let after = fetching::<T>(entity.key()).executed(create.executed(rows));
            &&& !create.refused(rows)
            &&& found(after, entity.key()) == Some(stored_row(entity.values()))
            &&& T::decode(stored_row(entity.values())) == Ok::<T, DecodeErrorView>(entity) ==> fetched::<T>(
                found(after, entity.key()),
            ) == Ok::<Option<T>, DecodeErrorView>(Some(entity))
        }),
{
}

/// Update is idempotent: applying the same update twice leaves the table as
/// applying it once does.
pub proof fn lemma_update_twice<T: Entity>(entity: T, rows: TableView)
    ensures
        ({
            let update = updating(entity);
            update.executed(update.executed(rows)) == update.executed(rows)
        }),
{
    let update = updating(entity);
    assert(update.executed(update.executed(rows)) =~= update.executed(rows));
}

/// Logical, then hard delete: after a logical delete of a row that has a
/// `deleted` column, a fetch still finds the row, with the flag reading as
/// `true`; after a hard delete a fetch finds nothing, and returns nothing.
pub proof fn lemma_delete_logical_then_hard<T: Entity>(id: Seq<char>, rows: TableView)
    requires
        rows.contains_key(id),
        lookup(rows[id], "deleted"@) is Some,
    ensures
        ({
            let flagged = deleting::<T>(id, true).executed(rows);
            let removed = deleting::<T>(id, false).executed(flagged);
            &&& found(flagged, id) is Some
            &&& bool_at(found(flagged, id)->0, "deleted"@) == Ok::<bool, DecodeErrorView>(
                true,
            )
            &&& found(removed, id) is None
            &&& fetched::<T>(found(removed, id)) == Ok::<Option<T>, DecodeErrorView>(
                None,
            )
        }),
{
    lemma_with_column(rows[id], "deleted"@, CellView::Integer(1));
}

/// Missing id: a fetch of an id the table does not hold changes nothing,
/// returns nothing, and is no error.
pub proof fn lemma_fetch_missing<T: Entity>(id: Seq<char>, rows: TableView)
    requires
        !rows.contains_key(id),
    ensures
        !fetching::<T>(id).refused(rows),
        fetching::<T>(id).executed(rows) == rows,
        fetched::<T>(found(rows, id)) == Ok::<Option<T>, DecodeErrorView>(None),
{
}

/// Saturating bind: an unsigned 64-bit value is stored as the value clamped
/// to the signed range and reads back as that; the largest unsigned value
/// reads back as the largest signed one.
pub proof fn lemma_unsigned_reads_back_saturated(column: Seq<char>, value: u64)
    ensures
        integer_at(stored_row(seq![(column, ValueView::U64(value))]), column) == Ok::<
            i64,
            DecodeErrorView,
        >(saturated(value)),
        saturated(u64::MAX) == i64::MAX,
        value <= i64::MAX ==> saturated(value) == value,
        value > i64::MAX ==> saturated(value) == i64::MAX,
{
    let row = stored_row(seq![(column, ValueView::U64(value))]);
    assert(row[0] == (column, CellView::Integer(saturated(value))));
}

/// The store after `table` was made sure of: a table that is there keeps its
/// rows, a table that is missing is created empty.
pub open spec fn with_table(store: StoreView, table: Seq<char>) -> StoreView {
    if store.contains_key(table) {
        store
    } else {
        store.insert(table, Map::empty())
    }
}

/// The store after every table of `tables` was made sure of, in order.
pub open spec fn with_tables(store: StoreView, tables: Seq<Seq<char>>) -> StoreView
    decreases tables.len(),
{
    if tables.len() == 0 {
        store
    } else {
        with_table(with_tables(store, tables.drop_last()), tables.last())
    }
}

/// Making sure of tables only adds tables: every table that was there is
/// still there, with the rows it had.
pub proof fn lemma_with_tables_keeps(store: StoreView, tables: Seq<Seq<char>>, table: Seq<char>)
    requires
        store.contains_key(table),
    ensures
        with_tables(store, tables).contains_key(table),
        with_tables(store, tables)[table] == store[table],
    decreases tables.len(),
{
    if tables.len() > 0 {
        lemma_with_tables_keeps(store, tables.drop_last(), table);
    }
}

/// After tables were made sure of, each of them is there.
pub proof fn lemma_with_tables_has(store: StoreView, tables: Seq<Seq<char>>, i: int)
    requires
        0 <= i < tables.len(),
    ensures
        with_tables(store, tables).contains_key(tables[i]),
    decreases tables.len(),
{
    if i < tables.len() - 1 {
        lemma_with_tables_has(store, tables.drop_last(), i);
    }
}

/// Migration is idempotent: making sure of the same tables a second time
/// asks for no statement, changes nothing, and every table that was there
/// before the first time still has the rows it had.
pub proof fn lemma_ensure_database_twice(store: StoreView, tables: Seq<Seq<char>>)
    ensures
        ({
            let once = with_tables(store, tables);
            &&& forall|i: int|
                0 <= i < tables.len() ==> ensured(#[trigger] tables[i], once.contains_key(tables[i]))
                    is None
            &&& with_tables(once, tables) == once
            &&& forall|table: Seq<char>| #[trigger]
                store.contains_key(table) ==> once.contains_key(table) && once[table]
                    == store[table]
        }),
{
    let once = with_tables(store, tables);
    assert forall|i: int| 0 <= i < tables.len() implies once.contains_key(#[trigger] tables[i]) by {
        lemma_with_tables_has(store, tables, i);
    }
    lemma_with_tables_settled(once, tables);
    assert forall|table: Seq<char>| #[trigger] store.contains_key(table) implies once.contains_key(
        table,
    ) && once[table] == store[table] by {
        lemma_with_tables_keeps(store, tables, table);
    }
}

/// Making sure of tables that are all there changes nothing.
proof fn lemma_with_tables_settled(store: StoreView, tables: Seq<Seq<char>>)
    requires
        forall|i: int| 0 <= i < tables.len() ==> store.contains_key(#[trigger] tables[i]),
    ensures
        with_tables(store, tables) == store,
    decreases tables.len(),
{
    if tables.len() > 0 {
        let shorter = tables.drop_last();
        assert forall|i: int| 0 <= i < shorter.len() implies store.contains_key(
            #[trigger] shorter[i],
        ) by {
            assert(shorter[i] == tables[i]);
        }
        lemma_with_tables_settled(store, shorter);
        assert(store.contains_key(tables[tables.len() - 1]));
    }
}

} // verus!
