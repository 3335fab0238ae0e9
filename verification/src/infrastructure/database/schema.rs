//! Looking a table up in the catalog of the store.

use vstd::prelude::*;
use super::row::{Cell, CellView, Row, RowView};
use super::statement::{Param, ParamView, Statement, StatementView};

verus! {

/// The query that asks the catalog for the definition of a table.
pub open spec fn schema_statement(table: Seq<char>) -> StatementView {
    StatementView {
        sql: "SELECT sql FROM sqlite_master WHERE type='table' AND name = ?"@,
        params: seq![ParamView::Text(table)],
    }
}

/// The definition a catalog row holds: the text of its first column.
pub open spec fn schema_text(row: Option<RowView>) -> Option<Seq<char>> {
    match row {
        Some(found) => if found.len() > 0 {
            match found[0].1 {
                CellView::Text(definition) => Some(definition),
                _ => None,
            }
        } else {
            None
        },
        None => None,
    }
}

/// Builds the query that asks the catalog for the definition of `table_name`.
pub fn schema_query(table_name: &str) -> (statement: Statement)
    ensures
        statement@ == schema_statement(table_name@),
{
    let sql = "SELECT sql FROM sqlite_master WHERE type='table' AND name = ?".to_owned();
    let statement = Statement::new(sql).bind(Param::Text(table_name.to_owned()));
    assert(statement@.params =~= seq![ParamView::Text(table_name@)]);
    statement
}

/// Reads the definition of a table off the answer of the catalog: `row` is
/// the row the catalog returned, if it returned one. A table that does not
/// exist has no row, and so no definition.
pub fn get_table_schema(row: Option<&Row>) -> (schema: Option<String>)
    ensures
        match schema {
            Some(definition) => schema_text(super::repository::row_view(row)) == Some(
                definition@,
            ),
            None => schema_text(super::repository::row_view(row)) is None,
        },
{
    match row {
        Some(found) => {
            if found.columns.len() > 0 {
                assert(found@[0].1 == found.columns[0].1@);
                match &found.columns[0].1 {
                    Cell::Text(definition) => Some(definition.clone()),
                    _ => None,
                }
            } else {
                None
            }
        },
        None => None,
    }
}

} // verus!
