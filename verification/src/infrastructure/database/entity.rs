//! The contract between a domain type and the table that stores it.

use vstd::prelude::*;
use super::bindable::Value;
use super::row::{plain_outcome, DecodeError, DecodeErrorView, Row, RowView};
use super::sql::ColumnsView;

verus! {

/// A domain type stored one-to-one in a table. The primary key is the text
/// column `id`; a type that is deleted logically also has a `deleted` column.
///
/// The four `spec` functions name what the four methods return, so that the
/// statements built for an entity can be stated exactly. An implementation
/// written in Verus defines them and proves its methods against them; for any
/// other implementation they stay unknown.
pub trait Entity: Sized {
    /// The name of the table.
    open spec fn table_name() -> Seq<char> {
        arbitrary()
    }

    /// Every persisted column of this entity, the primary key included, in a
    /// fixed order.
    open spec fn values(&self) -> ColumnsView {
        arbitrary()
    }

    /// The primary key of this entity, as text.
    open spec fn key(&self) -> Seq<char> {
        arbitrary()
    }

    /// The entity a row decodes to, or why it does not decode.
    open spec fn decode(row: RowView) -> Result<Self, DecodeErrorView> {
        arbitrary()
    }

    fn get_table_name() -> (name: &'static str)
        ensures
            name@ == Self::table_name(),
    ;

    fn to_values(&self) -> (values: Vec<(String, Value)>)
        ensures
            values.deep_view() == self.values(),
    ;

    fn from_row(row: &Row) -> (decoded: Result<Self, DecodeError>)
        ensures
            plain_outcome(decoded) == Self::decode(row@),
    ;

    fn id(&self) -> (id: &str)
        ensures
            id@ == self.key(),
    ;
}

} // verus!
