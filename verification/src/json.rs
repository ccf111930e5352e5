//! JSON: the arguments of an invocation and the text of its result.
//!
//! Arguments are parsed, and strings quoted, by `serde_json`. Numerals and
//! the arrays around the cells are written here: an array is its items
//! between brackets, with commas and no spaces.

use crate::text::push_decimal;
use crate::text::push_signed_decimal;
use crate::text::push_str;
use crate::text::decimal;
use crate::text::signed_decimal;
use crate::text::utf8;
use crate::values::row_view;
use crate::values::rows_view;
use crate::values::JsonValue;
use crate::values::JsonView;
use vstd::prelude::*;

verus! {

/// What `serde_json` makes of `text` when asked for an array of strings:
/// the strings, or its complaint.
pub uninterp spec fn parsed_string_array(text: Seq<char>) -> Result<Seq<Seq<char>>, Seq<char>>;

/// The JSON string literal that `serde_json` writes for `text`: quotes
/// around it, and escapes where JSON wants them.
pub uninterp spec fn quoted(text: Seq<char>) -> Seq<char>;

/// What a list of texts holds.
pub open spec fn texts_view(texts: Vec<String>) -> Seq<Seq<char>> {
    texts@.map_values(|t: String| t@)
}

/// What a parse gives, in contracts.
pub open spec fn parse_view(r: Result<Vec<String>, String>) -> Result<Seq<Seq<char>>, Seq<char>> {
    match r {
        Ok(texts) => Ok(texts_view(texts)),
        Err(complaint) => Err(complaint@),
    }
}

/// `serde_json::from_str` at the type `Vec<String>`: the strings of the JSON
/// array that `text` holds, or, where it holds none, the error as its message.
#[verifier::external_body]
pub(crate) fn parse_string_array(text: &str) -> (r: Result<Vec<String>, String>)
    ensures
        parse_view(r) == parsed_string_array(text@),
{
    serde_json::from_str::<Vec<String>>(text).map_err(|error| error.to_string())
}

/// The `Display` of `serde_json::Value::String`: `text` as a JSON string
/// literal.
#[verifier::external_body]
pub(crate) fn quote(text: &str) -> (literal: String)
    ensures
        literal@ == quoted(text@),
{
    serde_json::Value::String(text.to_owned()).to_string()
}

/// The JSON text of one value.
pub open spec fn cell_text(value: JsonView) -> Seq<u8> {
    match value {
        JsonView::Null => utf8("null"@),
        JsonView::Integer(i) => signed_decimal(i as int),
        JsonView::Real(text) => utf8(text),
        JsonView::Text(text) => utf8(quoted(text)),
    }
}

/// Items with a comma between each two.
pub open spec fn joined(items: Seq<Seq<u8>>) -> Seq<u8>
    decreases items.len(),
{
    if items.len() == 0 {
        Seq::empty()
    } else if items.len() == 1 {
        items[0]
    } else {
        joined(items.drop_last()) + seq![44u8] + items.last()
    }
}

/// A JSON array of items that are JSON text already.
pub open spec fn array_text(items: Seq<Seq<u8>>) -> Seq<u8> {
    seq![91u8] + joined(items) + seq![93u8]
}

/// The JSON texts of the values of a row.
pub open spec fn cell_texts(row: Seq<JsonView>) -> Seq<Seq<u8>> {
    row.map_values(|v: JsonView| cell_text(v))
}

/// The JSON text of a row: the array of its values.
pub open spec fn row_text(row: Seq<JsonView>) -> Seq<u8> {
    array_text(cell_texts(row))
}

/// The JSON texts of rows.
pub open spec fn row_texts(rows: Seq<Seq<JsonView>>) -> Seq<Seq<u8>> {
    rows.map_values(|row: Seq<JsonView>| row_text(row))
}

/// The JSON text of a result: the array of its rows.
pub open spec fn rows_text(rows: Seq<Seq<JsonView>>) -> Seq<u8> {
    array_text(row_texts(rows))
}

/// Appends the JSON text of `value` to `out`.
fn put_cell(out: &mut Vec<u8>, value: &JsonValue)
    ensures
        final(out)@ == old(out)@ + cell_text(value@),
{
    match value {
        JsonValue::Null => push_str(out, "null"),
        JsonValue::Integer(i) => push_signed_decimal(out, *i),
        JsonValue::Real(text) => push_str(out, text.as_str()),
        JsonValue::Text(text) => {
            let literal = quote(text.as_str());
            push_str(out, literal.as_str());
        },
    }
}

/// Appends the JSON text of `row` to `out`.
fn put_row(out: &mut Vec<u8>, row: &Vec<JsonValue>)
    ensures
        final(out)@ == old(out)@ + row_text(row_view(*row)),
{
    let ghost texts = cell_texts(row_view(*row));
    out.push(91u8);
    let mut i: usize = 0;
    while i < row.len()
        invariant
            i <= row.len(),
            texts == cell_texts(row_view(*row)),
            out@ == old(out)@ + seq![91u8] + joined(texts.take(i as int)),
        decreases row.len() - i,
    {
        if i > 0 {
            out.push(44u8);
        }
        put_cell(out, &row[i]);
        proof {
            assert(texts.take(i + 1).drop_last() =~= texts.take(i as int));
            assert(texts.take(i + 1).last() == cell_text(row@[i as int]@));
            assert(out@ =~= old(out)@ + seq![91u8] + joined(texts.take(i + 1)));
        }
        i = i + 1;
    }
    out.push(93u8);
    proof {
        assert(texts.take(row.len() as int) =~= texts);
        assert(out@ =~= old(out)@ + row_text(row_view(*row)));
    }
}

/// The JSON text of a query's result: an array with one array per row and,
/// in each, one value per column.
pub fn render_rows(rows: &Vec<Vec<JsonValue>>) -> (text: Vec<u8>)
    ensures
        text@ == rows_text(rows_view(rows@)),
{
    let ghost texts = row_texts(rows_view(rows@));
    let mut out: Vec<u8> = Vec::new();
    out.push(91u8);
    let mut i: usize = 0;
    while i < rows.len()
        invariant
            i <= rows.len(),
            texts == row_texts(rows_view(rows@)),
            out@ == seq![91u8] + joined(texts.take(i as int)),
        decreases rows.len() - i,
    {
        if i > 0 {
            out.push(44u8);
        }
        put_row(&mut out, &rows[i]);
        proof {
            assert(texts.take(i + 1).drop_last() =~= texts.take(i as int));
            assert(texts.take(i + 1).last() == row_text(row_view(rows@[i as int])));
            assert(out@ =~= seq![91u8] + joined(texts.take(i + 1)));
        }
        i = i + 1;
    }
    out.push(93u8);
    proof {
        assert(texts.take(rows.len() as int) =~= texts);
        assert(out@ =~= rows_text(rows_view(rows@)));
    }
    out
}

/// The JSON text of a count: its decimal numeral.
pub fn render_count(count: u64) -> (text: Vec<u8>)
    ensures
        text@ == decimal(count as nat),
{
    let mut out: Vec<u8> = Vec::new();
    push_decimal(&mut out, count);
    out
}

} // verus!
