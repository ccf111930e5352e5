//! Values: what the store hands out and what goes into the result.

use vstd::prelude::*;

verus! {

/// A value as the store holds it.
#[derive(Debug, PartialEq, Eq)]
pub enum SqlValue {
    Null,
    Integer(i64),
    /// A floating-point number, as the JSON text that stands for it
    /// (`null` for one that JSON has no numeral for).
    Real(String),
    Text(String),
    Blob(Vec<u8>),
}

/// What [`SqlValue`] holds, in contracts.
pub enum SqlView {
    Null,
    Integer(i64),
    Real(Seq<char>),
    Text(Seq<char>),
    Blob(Seq<u8>),
}

impl View for SqlValue {
    type V = SqlView;

    open spec fn view(&self) -> SqlView {
        match self {
            SqlValue::Null => SqlView::Null,
            SqlValue::Integer(i) => SqlView::Integer(*i),
            SqlValue::Real(text) => SqlView::Real(text@),
            SqlValue::Text(text) => SqlView::Text(text@),
            SqlValue::Blob(bytes) => SqlView::Blob(bytes@),
        }
    }
}

/// A value as the result holds it.
#[derive(Debug, PartialEq, Eq)]
pub enum JsonValue {
    Null,
    Integer(i64),
    /// A number that is no integer, as its JSON text.
    Real(String),
    Text(String),
}

/// What [`JsonValue`] holds, in contracts.
pub enum JsonView {
    Null,
    Integer(i64),
    Real(Seq<char>),
    Text(Seq<char>),
}

impl View for JsonValue {
    type V = JsonView;

    open spec fn view(&self) -> JsonView {
        match self {
            JsonValue::Null => JsonView::Null,
            JsonValue::Integer(i) => JsonView::Integer(*i),
            JsonValue::Real(text) => JsonView::Real(text@),
            JsonValue::Text(text) => JsonView::Text(text@),
        }
    }
}

/// What a stored value becomes in the result: integers and reals become
/// numbers, texts strings, and everything else null.
pub open spec fn json_of(value: SqlView) -> JsonView {
    match value {
        SqlView::Integer(i) => JsonView::Integer(i),
        SqlView::Real(text) => JsonView::Real(text),
        SqlView::Text(text) => JsonView::Text(text),
        SqlView::Null => JsonView::Null,
        SqlView::Blob(_) => JsonView::Null,
    }
}

/// Maps a stored value to a result value. A value of a kind that the result
/// cannot hold becomes null: one such column does not fail a query.
pub fn sql_to_json(value: SqlValue) -> (json: JsonValue)
    ensures
        json@ == json_of(value@),
{
    match value {
        SqlValue::Integer(i) => JsonValue::Integer(i),
        SqlValue::Real(text) => JsonValue::Real(text),
        SqlValue::Text(text) => JsonValue::Text(text),
        SqlValue::Null => JsonValue::Null,
        SqlValue::Blob(_) => JsonValue::Null,
    }
}

/// What a row of result values holds.
pub open spec fn row_view(row: Vec<JsonValue>) -> Seq<JsonView> {
    row@.map_values(|v: JsonValue| v@)
}

/// What the rows of a result hold.
pub open spec fn rows_view(rows: Seq<Vec<JsonValue>>) -> Seq<Seq<JsonView>> {
    rows.map_values(|row: Vec<JsonValue>| row_view(row))
}

} // verus!
