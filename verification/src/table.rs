//! Text tables, drawn by the `comfy-table` crate with its `UTF8_FULL`
//! preset.
use vstd::prelude::*;

verus! {

/// The text of a `comfy_table::Table` with the `UTF8_FULL` preset, the
/// header row `header` and the body rows `rows`.
pub uninterp spec fn utf8_full_table(header: Seq<Seq<char>>, rows: Seq<Seq<Seq<char>>>) -> Seq<char>;

/// The text of a `comfy_table::Table` with the `UTF8_FULL` preset, no
/// header and the body rows `rows`.
pub uninterp spec fn utf8_full_rows(rows: Seq<Seq<Seq<char>>>) -> Seq<char>;

/// The cells of a row, by view.
pub open spec fn row_view(row: Seq<String>) -> Seq<Seq<char>> {
    Seq::new(row.len(), |j: int| row[j]@)
}

/// The cells of rows, by view.
pub open spec fn rows_view(rows: Seq<Vec<String>>) -> Seq<Seq<Seq<char>>> {
    Seq::new(rows.len(), |i: int| row_view(rows[i]@))
}

/// `Table::new()`, `load_preset(UTF8_FULL)`, `set_header(header)`,
/// `add_rows(rows)` and `to_string()` of `comfy_table`: claimed to give
/// `utf8_full_table(header, rows)`; the drawing itself is left unstated.
#[verifier::external_body]
pub(crate) fn render_table(header: Vec<String>, rows: Vec<Vec<String>>) -> (r: String)
    ensures
        r@ == utf8_full_table(row_view(header@), rows_view(rows@)),
{
    let mut table = comfy_table::Table::new();
    table.load_preset(comfy_table::presets::UTF8_FULL);
    table.set_header(header);
    table.add_rows(rows);
    table.to_string()
}

/// `Table::new()`, `load_preset(UTF8_FULL)`, `add_rows(rows)` and
/// `to_string()` of `comfy_table`: claimed to give `utf8_full_rows(rows)`;
/// the drawing itself is left unstated.
#[verifier::external_body]
pub(crate) fn render_rows(rows: Vec<Vec<String>>) -> (r: String)
    ensures
        r@ == utf8_full_rows(rows_view(rows@)),
{
    let mut table = comfy_table::Table::new();
    table.load_preset(comfy_table::presets::UTF8_FULL);
    table.add_rows(rows);
    table.to_string()
}

} // verus!
