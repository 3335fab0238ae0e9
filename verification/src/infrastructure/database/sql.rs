//! The shapes of the statements that single-table persistence issues, and the
//! functions that build them.

use vstd::prelude::*;
use vstd::string::*;
use crate::infrastructure::text::{decimal, decimal_string, join, join_strings};
use super::bindable::{Value, ValueView};
use super::statement::{ParamView, Statement, StatementView};

verus! {

/// The mathematical model of an encoded entity: its columns in order, each a
/// name and a value.
pub type ColumnsView = Seq<(Seq<char>, ValueView)>;

/// The names of the columns, in order.
pub open spec fn column_names(values: ColumnsView) -> Seq<Seq<char>> {
    Seq::new(values.len(), |i: int| values[i].0)
}

/// The parameters the values are stored as, in order.
pub open spec fn bound_params(values: ColumnsView) -> Seq<ParamView> {
    Seq::new(values.len(), |i: int| values[i].1.param())
}

/// The placeholder of the parameter at `position`, counted from 1.
pub open spec fn placeholder(position: nat) -> Seq<char> {
    "?"@ + decimal(position)
}

/// The placeholders `?1` to `?count`.
pub open spec fn placeholders(count: nat) -> Seq<Seq<char>> {
    Seq::new(count, |i: int| placeholder((i + 1) as nat))
}

/// One `column = ?n` assignment per column, numbered from 1 in column order.
pub open spec fn assignments(values: ColumnsView) -> Seq<Seq<char>> {
    Seq::new(values.len(), |i: int| values[i].0 + " = "@ + placeholder((i + 1) as nat))
}

/// `INSERT INTO <table> (<columns>) VALUES (<placeholders>)`.
pub open spec fn insert_sql(table: Seq<char>, values: ColumnsView) -> Seq<char> {
    "INSERT INTO "@ + table + " ("@ + join(column_names(values), ", "@) + ") VALUES ("@ + join(
        placeholders(values.len()),
        ", "@,
    ) + ")"@
}

/// The statement that inserts a row with the given columns: one placeholder
/// per column, and the values bound in column order.
pub open spec fn insert_statement(table: Seq<char>, values: ColumnsView) -> StatementView {
    StatementView { sql: insert_sql(table, values), params: bound_params(values) }
}

/// `SELECT * FROM <table> WHERE id = ?`.
pub open spec fn select_sql(table: Seq<char>) -> Seq<char> {
    "SELECT * FROM "@ + table + " WHERE id = ?"@
}

/// The statement that reads the row with the given id.
pub open spec fn select_statement(table: Seq<char>, id: Seq<char>) -> StatementView {
    StatementView { sql: select_sql(table), params: seq![ParamView::Text(id)] }
}

/// `UPDATE <table> SET <col1> = ?1, ..., <colN> = ?N WHERE id = ?N+1`.
pub open spec fn update_sql(table: Seq<char>, values: ColumnsView) -> Seq<char> {
    "UPDATE "@ + table + " SET "@ + join(assignments(values), ", "@) + " WHERE id = "@
        + placeholder(values.len() + 1)
}

/// The statement that overwrites every column of the row with the given id:
/// the values bound in column order, and the id last.
pub open spec fn update_statement(
    table: Seq<char>,
    values: ColumnsView,
    id: Seq<char>,
) -> StatementView {
    StatementView {
        sql: update_sql(table, values),
        params: bound_params(values).push(ParamView::Text(id)),
    }
}

/// `UPDATE <table> SET deleted = 1 WHERE id = ?` for a logical delete,
/// `DELETE FROM <table> WHERE id = ?` for a hard one.
pub open spec fn delete_sql(table: Seq<char>, logical: bool) -> Seq<char> {
    if logical {
        "UPDATE "@ + table + " SET deleted = 1 WHERE id = ?"@
    } else {
        "DELETE FROM "@ + table + " WHERE id = ?"@
    }
}

/// The statement that deletes the row with the given id, logically or for good.
pub open spec fn delete_statement(table: Seq<char>, id: Seq<char>, logical: bool) -> StatementView {
    StatementView { sql: delete_sql(table, logical), params: seq![ParamView::Text(id)] }
}

/// A statement with `values` bound after what `query` already holds.
pub open spec fn with_values(query: StatementView, values: ColumnsView) -> StatementView {
    StatementView { sql: query.sql, params: query.params + bound_params(values) }
}

/// Columns, placeholders and values are aligned: an insert lists as many
/// placeholders as columns and binds as many values, the value of the n-th
/// column to the n-th placeholder; an update does the same and binds the id
/// to a placeholder of its own, the last.
pub proof fn lemma_placeholders_match_values(table: Seq<char>, values: ColumnsView, id: Seq<char>)
    ensures
        column_names(values).len() == values.len(),
        placeholders(values.len()).len() == values.len(),
        insert_statement(table, values).params.len() == values.len(),
        assignments(values).len() == values.len(),
        update_statement(table, values, id).params.len() == values.len() + 1,
        update_statement(table, values, id).params.last() == ParamView::Text(id),
        forall|i: int|
            0 <= i < values.len() ==> {
                &&& column_names(values)[i] == values[i].0
                &&& placeholders(values.len())[i] == placeholder((i + 1) as nat)
                &&& assignments(values)[i] == values[i].0 + " = "@ + placeholder((i + 1) as nat)
                &&& #[trigger] insert_statement(table, values).params[i] == values[i].1.param()
                &&& update_statement(table, values, id).params[i] == values[i].1.param()
            },
{
}

fn placeholder_text(position: u128) -> (text: String)
    ensures
        text@ == placeholder(position as nat),
{
    let mut text = String::from_str("?");
    let number = decimal_string(position);
    text.append(number.as_str());
    text
}

fn column_list(values: &Vec<(String, Value)>) -> (names: Vec<String>)
    ensures
        names.deep_view() == column_names(values.deep_view()),
{
    let mut names: Vec<String> = Vec::new();
    let mut i: usize = 0;
    while i < values.len()
        invariant
            i <= values.len(),
            names.len() == i,
            forall|j: int| 0 <= j < i ==> names[j]@ == values[j].0@,
        decreases values.len() - i,
    {
        names.push(values[i].0.clone());
        i += 1;
    }
    assert(names.deep_view() =~= column_names(values.deep_view()));
    names
}

fn placeholder_list(count: usize) -> (list: Vec<String>)
    ensures
        list.deep_view() == placeholders(count as nat),
{
    let mut list: Vec<String> = Vec::new();
    let mut i: usize = 0;
    while i < count
        invariant
            i <= count,
            list.len() == i,
            forall|j: int| 0 <= j < i ==> list[j]@ == placeholder((j + 1) as nat),
        decreases count - i,
    {
        list.push(placeholder_text(i as u128 + 1));
        i += 1;
    }
    assert(list.deep_view() =~= placeholders(count as nat));
    list
}

fn assignment_list(values: &Vec<(String, Value)>) -> (list: Vec<String>)
    ensures
        list.deep_view() == assignments(values.deep_view()),
{
    let mut list: Vec<String> = Vec::new();
    let mut i: usize = 0;
    while i < values.len()
        invariant
            i <= values.len(),
            list.len() == i,
            forall|j: int|
                0 <= j < i ==> list[j]@ == values[j].0@ + " = "@ + placeholder((j + 1) as nat),
        decreases values.len() - i,
    {
        let mut assignment = values[i].0.clone();
        assignment.append(" = ");
        let mark = placeholder_text(i as u128 + 1);
        assignment.append(mark.as_str());
        list.push(assignment);
        i += 1;
    }
    assert(list.deep_view() =~= assignments(values.deep_view()));
    list
}

/// Binds every value to the next placeholder of `query`, in order.
pub fn bind_values(query: Statement, values: &Vec<(String, Value)>) -> (bound: Statement)
    ensures
        bound@ == with_values(query@, values.deep_view()),
{
    let ghost columns = values.deep_view();
    let mut bound = query;
    let mut i: usize = 0;
    assert(bound@.params =~= query@.params + bound_params(columns).take(0));
    while i < values.len()
        invariant
            i <= values.len(),
            columns == values.deep_view(),
            bound@.sql == query@.sql,
            bound@.params == query@.params + bound_params(columns).take(i as int),
        decreases values.len() - i,
    {
        let ghost before = bound@.params;
        bound = bound.bind(values[i].1.to_param());
        assert(bound@.params =~= query@.params + bound_params(columns).take(i as int + 1)) by {
            assert(columns[i as int].1 == values[i as int].1@);
            assert(bound@.params == before.push(columns[i as int].1.param()));
            assert(bound_params(columns).take(i as int + 1) =~= bound_params(columns).take(
                i as int,
            ).push(columns[i as int].1.param()));
        }
        i += 1;
    }
    assert(bound_params(columns).take(values.len() as int) =~= bound_params(columns));
    bound
}

/// Builds the statement that inserts a row of `table` with the given columns.
pub fn insert_into(table: &str, values: &Vec<(String, Value)>) -> (statement: Statement)
    ensures
        statement@ == insert_statement(table@, values.deep_view()),
{
    let columns = column_list(values);
    let marks = placeholder_list(values.len());
    let mut sql = String::from_str("INSERT INTO ");
    sql.append(table);
    sql.append(" (");
    sql.append(join_strings(&columns, ", ").as_str());
    sql.append(") VALUES (");
    sql.append(join_strings(&marks, ", ").as_str());
    sql.append(")");
    let statement = bind_values(Statement::new(sql), values);
    assert(statement@.params =~= bound_params(values.deep_view()));
    statement
}

/// Builds the statement that reads the row of `table` with the given id.
pub fn select_by_id(table: &str, id: &str) -> (statement: Statement)
    ensures
        statement@ == select_statement(table@, id@),
{
    let mut sql = String::from_str("SELECT * FROM ");
    sql.append(table);
    sql.append(" WHERE id = ?");
    let statement = Statement::new(sql).bind(super::statement::Param::Text(id.to_owned()));
    assert(statement@.params =~= seq![ParamView::Text(id@)]);
    statement
}

/// Builds the statement that overwrites the row of `table` with the given id.
pub fn update_by_id(table: &str, values: &Vec<(String, Value)>, id: &str) -> (statement: Statement)
    ensures
        statement@ == update_statement(table@, values.deep_view(), id@),
{
    let pairs = assignment_list(values);
    let mut sql = String::from_str("UPDATE ");
    sql.append(table);
    sql.append(" SET ");
    sql.append(join_strings(&pairs, ", ").as_str());
    sql.append(" WHERE id = ");
    sql.append(placeholder_text(values.len() as u128 + 1).as_str());
    let bound = bind_values(Statement::new(sql), values);
    let statement = bound.bind(super::statement::Param::Text(id.to_owned()));
    assert(statement@.params =~= bound_params(values.deep_view()).push(ParamView::Text(id@)));
    statement
}

/// Builds the statement that deletes the row of `table` with the given id:
/// by setting its `deleted` flag when `logical`, by removing it otherwise.
pub fn delete_by_id(table: &str, id: &str, logical: bool) -> (statement: Statement)
    ensures
        statement@ == delete_statement(table@, id@, logical),
{
    let mut sql = if logical {
        String::from_str("UPDATE ")
    } else {
        String::from_str("DELETE FROM ")
    };
    sql.append(table);
    if logical {
        sql.append(" SET deleted = 1 WHERE id = ?");
    } else {
        sql.append(" WHERE id = ?");
    }
    let statement = Statement::new(sql).bind(super::statement::Param::Text(id.to_owned()));
    assert(statement@.params =~= seq![ParamView::Text(id@)]);
    statement
}

} // verus!
