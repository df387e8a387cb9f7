//! The table of common conversions: whole degrees Celsius from -40 to 100
//! in steps of ten, each with its degrees Fahrenheit.

use crate::present::{align_right, right_aligned, whole_number, whole_text};
use crate::scale::Scale;
use vstd::prelude::*;

verus! {

/// How many rows the table has.
pub const TABLE_ROWS: usize = 15;

/// How wide a number of the table is shown.
pub const COLUMN_WIDTH: usize = 7;

/// Whether `fahrenheit` is exactly what `celsius` converts to, both in whole
/// degrees: the degrees Celsius times nine fifths, plus 32.
pub open spec fn converts_to(celsius: int, fahrenheit: int) -> bool {
    5 * (fahrenheit - 32) == 9 * celsius
}

/// What whole degrees Celsius convert to, where that is a whole number of
/// degrees Fahrenheit.
pub open spec fn fahrenheit_of(celsius: int) -> int {
    celsius * 9 / 5 + 32
}

/// The rows of the table: degrees Celsius from -40 on in steps of ten, each
/// with its degrees Fahrenheit.
pub open spec fn common_rows() -> Seq<(i32, i32)> {
    Seq::new(
        TABLE_ROWS as nat,
        |i: int| ((-40 + 10 * i) as i32, fahrenheit_of(-40 + 10 * i) as i32),
    )
}

/// The line that shows one row of the table.
pub open spec fn row_text(celsius: int, fahrenheit: int) -> Seq<char> {
    right_aligned(whole_text(celsius), COLUMN_WIDTH as nat) + Scale::Celsius.spec_label() + " = "@
        + right_aligned(whole_text(fahrenheit), COLUMN_WIDTH as nat)
        + Scale::Fahrenheit.spec_label() + "\n"@
}

/// The lines that show `rows`, one after the other.
pub open spec fn rows_text(rows: Seq<(i32, i32)>) -> Seq<char>
    decreases rows.len(),
{
    if rows.len() == 0 {
        Seq::empty()
    } else {
        rows_text(rows.drop_last()) + row_text(rows.last().0 as int, rows.last().1 as int)
    }
}

/// Whole degrees convert one to one: what converts to the degrees
/// Fahrenheit that `celsius` converts to is `celsius` itself.
pub proof fn lemma_whole_degrees_convert_back(celsius: int, fahrenheit: int, back: int)
    requires
        converts_to(celsius, fahrenheit),
        converts_to(back, fahrenheit),
    ensures
        back == celsius,
{
}

/// The table of common conversions: degrees Celsius and the degrees
/// Fahrenheit that they convert to, row by row.
pub fn common_table() -> (table: Vec<(i32, i32)>)
    ensures
        table@ == common_rows(),
        table@.len() == TABLE_ROWS,
        table@[0] == (-40i32, -40i32),
        table@[TABLE_ROWS - 1] == (100i32, 212i32),
        forall|i: int| 0 <= i < TABLE_ROWS - 1 ==> table@[i + 1].0 == (#[trigger] table@[i]).0 + 10,
        forall|i: int|
            0 <= i < TABLE_ROWS ==> converts_to(
                (#[trigger] table@[i]).0 as int,
                table@[i].1 as int,
            ),
{
    let mut table: Vec<(i32, i32)> = Vec::new();
    let mut celsius: i32 = -40;
    let mut fahrenheit: i32 = -40;
    while table.len() < TABLE_ROWS
        invariant
            table@.len() <= TABLE_ROWS,
            celsius == -40 + 10 * table@.len(),
            fahrenheit == -40 + 18 * table@.len(),
            forall|i: int| 0 <= i < table@.len() ==> #[trigger] table@[i] == common_rows()[i],
        decreases TABLE_ROWS - table@.len(),
    {
        table.push((celsius, fahrenheit));
        celsius += 10;
        fahrenheit += 18;
    }
    table
}

/// Lays out one row of the table.
pub fn row(celsius: i32, fahrenheit: i32) -> (line: String)
    ensures
        line@ == row_text(celsius as int, fahrenheit as int),
{
    let mut line = align_right(whole_number(celsius).as_str(), COLUMN_WIDTH);
    line.append(Scale::Celsius.label());
    line.append(" = ");
    line.append(align_right(whole_number(fahrenheit).as_str(), COLUMN_WIDTH).as_str());
    line.append(Scale::Fahrenheit.label());
    line.append("\n");
    line
}

/// Lays out the table of common conversions: its rows, and an empty line
/// after them.
pub fn table_text() -> (text: String)
    ensures
        text@ == rows_text(common_rows()) + "\n"@,
{
    let table = common_table();
    let mut text = String::new();
    let mut i: usize = 0;
    while i < table.len()
        invariant
            i <= table.len(),
            text@ == rows_text(table@.take(i as int)),
        decreases table.len() - i,
    {
        let (celsius, fahrenheit) = table[i];
        assert(table@.take(i + 1).drop_last() == table@.take(i as int));
        text.append(row(celsius, fahrenheit).as_str());
        i += 1;
    }
    assert(table@.take(i as int) == table@);
    text.append("\n");
    text
}

} // verus!
