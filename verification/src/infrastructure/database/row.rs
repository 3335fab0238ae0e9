//! Rows as they come back from the store, and the rules for reading typed
//! values off them.

use vstd::prelude::*;
use crate::infrastructure::text::same_text;

verus! {

/// One value of a row, in the storage class the store reports for it.
#[derive(Clone, Debug, PartialEq, Eq)]
pub enum Cell {
    Null,
    Integer(i64),
    /// A double-precision number, as its IEEE 754 bit pattern.
    Real(u64),
    Text(String),
    Blob(Vec<u8>),
}

/// The mathematical model of a [`Cell`].
pub enum CellView {
    Null,
    Integer(i64),
    Real(u64),
    Text(Seq<char>),
    Blob(Seq<u8>),
}

impl DeepView for Cell {
    type V = CellView;

    open spec fn deep_view(&self) -> CellView {
        match self {
            Cell::Null => CellView::Null,
            Cell::Integer(value) => CellView::Integer(*value),
            Cell::Real(bits) => CellView::Real(*bits),
            Cell::Text(text) => CellView::Text(text@),
            Cell::Blob(bytes) => CellView::Blob(bytes@),
        }
    }
}

impl View for Cell {
    type V = CellView;

    open spec fn view(&self) -> CellView {
        self.deep_view()
    }
}

/// Why a typed value could not be read off a row.
#[derive(Clone, Debug, PartialEq, Eq)]
pub enum DecodeError {
    /// The row has no column of this name.
    ColumnNotFound(String),
    /// The column of this name holds no value.
    UnexpectedNull(String),
    /// The column of this name holds a value of another kind than asked for.
    TypeMismatch(String),
}

/// The mathematical model of a [`DecodeError`].
pub enum DecodeErrorView {
    ColumnNotFound(Seq<char>),
    UnexpectedNull(Seq<char>),
    TypeMismatch(Seq<char>),
}

impl DeepView for DecodeError {
    type V = DecodeErrorView;

    open spec fn deep_view(&self) -> DecodeErrorView {
        match self {
            DecodeError::ColumnNotFound(column) => DecodeErrorView::ColumnNotFound(column@),
            DecodeError::UnexpectedNull(column) => DecodeErrorView::UnexpectedNull(column@),
            DecodeError::TypeMismatch(column) => DecodeErrorView::TypeMismatch(column@),
        }
    }
}

impl View for DecodeError {
    type V = DecodeErrorView;

    open spec fn view(&self) -> DecodeErrorView {
        self.deep_view()
    }
}

impl DecodeError {
    /// A sentence that describes this error.
    pub open spec fn message(error: DecodeErrorView) -> Seq<char> {
        match error {
            DecodeErrorView::ColumnNotFound(column) => "no column found for name: "@ + column,
            DecodeErrorView::UnexpectedNull(column) => "unexpected null in column: "@ + column,
            DecodeErrorView::TypeMismatch(column) => "mismatched type in column: "@ + column,
        }
    }

    /// Writes this error as a sentence.
    pub fn to_string(&self) -> (text: String)
        ensures
            text@ == Self::message(self@),
    {
        let (prefix, column) = match self {
            DecodeError::ColumnNotFound(column) => ("no column found for name: ", column),
            DecodeError::UnexpectedNull(column) => ("unexpected null in column: ", column),
            DecodeError::TypeMismatch(column) => ("mismatched type in column: ", column),
        };
        let mut text = prefix.to_owned();
        text.append(column.as_str());
        text
    }
}

/// The mathematical model of a row: its columns in order, each a name and a value.
pub type RowView = Seq<(Seq<char>, CellView)>;

/// The value of the first column of `row` named `name`, if there is one.
pub open spec fn lookup(row: RowView, name: Seq<char>) -> Option<CellView>
    decreases row.len(),
{
    if row.len() == 0 {
        None
    } else if row[0].0 == name {
        Some(row[0].1)
    } else {
        lookup(row.drop_first(), name)
    }
}

/// What reading column `name` of `row` as text gives.
pub open spec fn text_at(row: RowView, name: Seq<char>) -> Result<Seq<char>, DecodeErrorView> {
    match lookup(row, name) {
        None => Err(DecodeErrorView::ColumnNotFound(name)),
        Some(CellView::Null) => Err(DecodeErrorView::UnexpectedNull(name)),
        Some(CellView::Text(text)) => Ok(text),
        Some(_) => Err(DecodeErrorView::TypeMismatch(name)),
    }
}

/// What reading column `name` of `row` as an integer gives.
pub open spec fn integer_at(row: RowView, name: Seq<char>) -> Result<i64, DecodeErrorView> {
    match lookup(row, name) {
        None => Err(DecodeErrorView::ColumnNotFound(name)),
        Some(CellView::Null) => Err(DecodeErrorView::UnexpectedNull(name)),
        Some(CellView::Integer(value)) => Ok(value),
        Some(_) => Err(DecodeErrorView::TypeMismatch(name)),
    }
}

/// What reading column `name` of `row` as a boolean gives: an integer column
/// reads as `true` unless it holds zero.
pub open spec fn bool_at(row: RowView, name: Seq<char>) -> Result<bool, DecodeErrorView> {
    match integer_at(row, name) {
        Ok(value) => Ok(value != 0),
        Err(error) => Err(error),
    }
}

/// What reading column `name` of `row` as a floating-point number gives, as
/// the bit pattern of the number.
pub open spec fn real_at(row: RowView, name: Seq<char>) -> Result<u64, DecodeErrorView> {
    match lookup(row, name) {
        None => Err(DecodeErrorView::ColumnNotFound(name)),
        Some(CellView::Null) => Err(DecodeErrorView::UnexpectedNull(name)),
        Some(CellView::Real(bits)) => Ok(bits),
        Some(_) => Err(DecodeErrorView::TypeMismatch(name)),
    }
}

/// The model of the outcome of reading text.
pub open spec fn text_outcome(outcome: Result<String, DecodeError>) -> Result<
    Seq<char>,
    DecodeErrorView,
> {
    match outcome {
        Ok(text) => Ok(text@),
        Err(error) => Err(error@),
    }
}

/// The model of the outcome of reading a plain value.
pub open spec fn plain_outcome<T>(outcome: Result<T, DecodeError>) -> Result<T, DecodeErrorView> {
    match outcome {
        Ok(value) => Ok(value),
        Err(error) => Err(error@),
    }
}

/// A row of a result set: named columns in the order the store returned them.
#[derive(Clone, Debug, PartialEq, Eq)]
pub struct Row {
    pub columns: Vec<(String, Cell)>,
}

impl View for Row {
    type V = RowView;

    open spec fn view(&self) -> RowView {
        self.columns.deep_view()
    }
}

impl Row {
    /// A row with the given columns.
    pub fn new(columns: Vec<(String, Cell)>) -> (row: Row)
        ensures
            row@ == columns.deep_view(),
    {
        Row { columns }
    }

    /// The value of the first column named `name`.
    pub fn get(&self, name: &str) -> (found: Option<&Cell>)
        ensures
            match found {
                Some(cell) => lookup(self@, name@) == Some(cell@),
                None => lookup(self@, name@) is None,
            },
    {
        let ghost row = self@;
        let mut i: usize = 0;
        assert(row.skip(0) =~= row);
        while i < self.columns.len()
            invariant
                i <= self.columns.len(),
                row == self@,
                lookup(row, name@) == lookup(row.skip(i as int), name@),
            decreases self.columns.len() - i,
        {
            assert(row.skip(i as int)[0] == row[i as int]);
            assert(row[i as int] == (self.columns[i as int].0@, self.columns[i as int].1@));
            if same_text(self.columns[i].0.as_str(), name) {
                return Some(&self.columns[i].1);
            }
            assert(row.skip(i as int).drop_first() =~= row.skip(i as int + 1));
            i += 1;
        }
        assert(row.skip(i as int).len() == 0);
        None
    }

    /// Reads the column named `name` as text.
    pub fn try_get_text(&self, name: &str) -> (outcome: Result<String, DecodeError>)
        ensures
            text_outcome(outcome) == text_at(self@, name@),
    {
        match self.get(name) {
            None => Err(DecodeError::ColumnNotFound(name.to_owned())),
            Some(Cell::Null) => Err(DecodeError::UnexpectedNull(name.to_owned())),
            Some(Cell::Text(text)) => Ok(text.clone()),
            Some(_) => Err(DecodeError::TypeMismatch(name.to_owned())),
        }
    }

    /// Reads the column named `name` as an integer.
    pub fn try_get_i64(&self, name: &str) -> (outcome: Result<i64, DecodeError>)
        ensures
            plain_outcome(outcome) == integer_at(self@, name@),
    {
        match self.get(name) {
            None => Err(DecodeError::ColumnNotFound(name.to_owned())),
            Some(Cell::Null) => Err(DecodeError::UnexpectedNull(name.to_owned())),
            Some(Cell::Integer(value)) => Ok(*value),
            Some(_) => Err(DecodeError::TypeMismatch(name.to_owned())),
        }
    }

    /// Reads the column named `name` as a boolean.
    pub fn try_get_bool(&self, name: &str) -> (outcome: Result<bool, DecodeError>)
        ensures
            plain_outcome(outcome) == bool_at(self@, name@),
    {
        match self.try_get_i64(name) {
            Ok(value) => Ok(value != 0),
            Err(error) => Err(error),
        }
    }

    /// Reads the column named `name` as a floating-point number, returning
    /// the bit pattern of the number.
    pub fn try_get_real(&self, name: &str) -> (outcome: Result<u64, DecodeError>)
        ensures
            plain_outcome(outcome) == real_at(self@, name@),
    {
        match self.get(name) {
            None => Err(DecodeError::ColumnNotFound(name.to_owned())),
            Some(Cell::Null) => Err(DecodeError::UnexpectedNull(name.to_owned())),
            Some(Cell::Real(bits)) => Ok(*bits),
            Some(_) => Err(DecodeError::TypeMismatch(name.to_owned())),
        }
    }
}

} // verus!
