//! Layout of the two-line table that presents a price snapshot.
//!
//! The table has three columns, labelled `Price`, `24h_vol` and
//! `24h_change`. Each column is as wide as the wider of its label and its
//! value, both are set flush left in it, and columns are parted by ` | `.
//! Widths are counted in characters.

use vstd::prelude::*;
use vstd::string::{StrSliceExecFns, StringExecFns};

verus! {

/// `n` spaces.
pub open spec fn blanks(n: nat) -> Seq<char> {
    Seq::new(n, |i: int| ' ')
}

/// Width of a column: that of the wider of its label and its value.
pub open spec fn column_width(label: Seq<char>, value: Seq<char>) -> nat {
    if label.len() >= value.len() {
        label.len()
    } else {
        value.len()
    }
}

/// `cell` followed by the spaces that fill it up to `width`; a cell that is
/// as wide or wider stays as it is.
pub open spec fn padded(cell: Seq<char>, width: nat) -> Seq<char> {
    if cell.len() >= width {
        cell
    } else {
        cell + blanks((width - cell.len()) as nat)
    }
}

/// Three cells in a line, with the column separator between them.
pub open spec fn joined(first: Seq<char>, second: Seq<char>, third: Seq<char>) -> Seq<char> {
    first + " | "@ + second + " | "@ + third
}

/// The header row for the three values given.
pub open spec fn header_line(price: Seq<char>, vol: Seq<char>, change: Seq<char>) -> Seq<char> {
    joined(
        padded("Price"@, column_width("Price"@, price)),
        padded("24h_vol"@, column_width("24h_vol"@, vol)),
        padded("24h_change"@, column_width("24h_change"@, change)),
    )
}

/// The data row for the three values given.
pub open spec fn data_line(price: Seq<char>, vol: Seq<char>, change: Seq<char>) -> Seq<char> {
    joined(
        padded(price, column_width("Price"@, price)),
        padded(vol, column_width("24h_vol"@, vol)),
        padded(change, column_width("24h_change"@, change)),
    )
}

/// Fills `cell` with spaces up to `width` characters.
fn pad(cell: &str, width: usize) -> (out: String)
    ensures
        out@ == padded(cell@, width as nat),
{
    let mut out = cell.to_owned();
    let mut n: usize = cell.unicode_len();
    proof {
        reveal_strlit(" ");
        assert(out@ =~= cell@ + blanks(0));
    }
    while n < width
        invariant
            n >= cell@.len(),
            n <= width || n == cell@.len(),
            out@ == cell@ + blanks((n - cell@.len()) as nat),
            " "@ == seq![' '],
        decreases width - n,
    {
        out.append(" ");
        n += 1;
        assert(out@ =~= cell@ + blanks((n - cell@.len()) as nat));
    }
    assert(out@ =~= padded(cell@, width as nat));
    out
}

/// The two cells of one column, label first, each filled up to the column's
/// width.
fn column(label: &str, value: &str) -> (cells: (String, String))
    ensures
        cells.0@ == padded(label@, column_width(label@, value@)),
        cells.1@ == padded(value@, column_width(label@, value@)),
{
    let label_len: usize = label.unicode_len();
    let value_len: usize = value.unicode_len();
    let width: usize = if label_len >= value_len {
        label_len
    } else {
        value_len
    };
    (pad(label, width), pad(value, width))
}

/// Sets three cells in a line.
fn join(first: String, second: &str, third: &str) -> (line: String)
    ensures
        line@ == joined(first@, second@, third@),
{
    let mut line = first;
    line.append(" | ");
    line.append(second);
    line.append(" | ");
    line.append(third);
    line
}

/// Lays out the table for the three values given, each already formatted:
/// the header row, then the data row.
pub fn render_table(price: &str, vol: &str, change: &str) -> (lines: (String, String))
    ensures
        lines.0@ == header_line(price@, vol@, change@),
        lines.1@ == data_line(price@, vol@, change@),
{
    let (price_label, price_cell) = column("Price", price);
    let (vol_label, vol_cell) = column("24h_vol", vol);
    let (change_label, change_cell) = column("24h_change", change);
    let header = join(price_label, vol_label.as_str(), change_label.as_str());
    let data = join(price_cell, vol_cell.as_str(), change_cell.as_str());
    (header, data)
}

} // verus!
