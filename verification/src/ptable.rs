//! Trusted bindings to the prettytable crate: type declarations for its
//! `Table` and `Row`, names for what they hold, and thin wrappers around
//! the calls the layout engine makes. A table's data rows and its title
//! row are modelled as sequences of (text, style-spec) pairs, one pair per
//! cell: exactly the two strings the cell was built from, recorded
//! verbatim. The renderer stores a cell as its line-split content and its
//! parsed attributes, so the verbatim reading is sound only on inputs it
//! can tell apart: `row_add_cell` therefore requires a text without line
//! breaks and one of the canonical style strings this library emits,
//! which the renderer stores injectively. The table's framing is
//! modelled by the `FrameStyle` it was configured with.

use vstd::prelude::*;
use prettytable::format::{FormatBuilder, LinePosition, LineSeparator};
use crate::cell;
use crate::text::line_break_free;

verus! {

#[verifier::external_type_specification]
#[verifier::external_body]
pub struct ExTable(prettytable::Table);

#[verifier::external_type_specification]
#[verifier::external_body]
pub struct ExRow(prettytable::Row);

/// The (text, style-spec) pairs of the cells a row holds, in order.
pub uninterp spec fn row_pairs(r: prettytable::Row) -> Seq<(Seq<char>, Seq<char>)>;

/// The rows of cell pairs a table holds, in order.
pub uninterp spec fn table_rows(t: prettytable::Table) -> Seq<Seq<(Seq<char>, Seq<char>)>>;

/// The table's title row of cell pairs, if one was set.
pub uninterp spec fn table_titles(t: prettytable::Table) -> Option<Seq<(Seq<char>, Seq<char>)>>;

/// The framing the table was configured with.
pub uninterp spec fn table_format(t: prettytable::Table) -> FrameStyle;

/// One line of the table framing: the horizontal rule glyph, the column
/// junction, and the left and right corner glyphs.
#[derive(Clone, Copy, Debug)]
pub struct LineStyle {
    pub line: char,
    pub junction: char,
    pub left: char,
    pub right: char,
}

/// The full visual framing of a table: column and border glyphs, the four
/// horizontal separators, and the cell padding.
#[derive(Clone, Copy, Debug)]
pub struct FrameStyle {
    pub column_separator: char,
    pub borders: char,
    pub top: LineStyle,
    pub bottom: LineStyle,
    pub interior: LineStyle,
    pub title: LineStyle,
    pub padding_left: usize,
    pub padding_right: usize,
}

/// Relies on prettytable::Table::new: a fresh table holds no data rows
/// and no title row. Its framing is the renderer's default until one is
/// set, so nothing is stated of it here.
#[verifier::external_body]
pub(crate) fn new_table() -> (t: prettytable::Table)
    ensures
        table_rows(t) == Seq::<Seq<(Seq<char>, Seq<char>)>>::empty(),
        table_titles(t) == Option::<Seq<(Seq<char>, Seq<char>)>>::None,
{
    prettytable::Table::new()
}

/// Relies on prettytable::format::FormatBuilder and Table::set_format:
/// installs the framing built from exactly these glyphs and padding, each
/// stored in its own field of the format; the data rows and the title row
/// of the table are left unchanged.
#[verifier::external_body]
pub(crate) fn set_box_format(t: &mut prettytable::Table, s: &FrameStyle)
    ensures
        table_format(*final(t)) == *s,
        table_rows(*final(t)) == table_rows(*old(t)),
        table_titles(*final(t)) == table_titles(*old(t)),
{
    let f = FormatBuilder::new()
        .column_separator(s.column_separator)
        .borders(s.borders)
        .separator(LinePosition::Top, LineSeparator::new(s.top.line, s.top.junction, s.top.left, s.top.right))
        .separator(LinePosition::Bottom, LineSeparator::new(s.bottom.line, s.bottom.junction, s.bottom.left, s.bottom.right))
        .separator(LinePosition::Intern, LineSeparator::new(s.interior.line, s.interior.junction, s.interior.left, s.interior.right))
        .separator(LinePosition::Title, LineSeparator::new(s.title.line, s.title.junction, s.title.left, s.title.right))
        .padding(s.padding_left, s.padding_right)
        .build();
    t.set_format(f);
}

/// Relies on prettytable::Row::empty: a fresh row holds no cells.
#[verifier::external_body]
pub(crate) fn empty_row() -> (r: prettytable::Row)
    ensures
        row_pairs(r) == Seq::<(Seq<char>, Seq<char>)>::empty(),
{
    prettytable::Row::empty()
}

/// Relies on prettytable::Cell::new, Cell::style_spec and Row::add_cell:
/// appends to the row one cell built from exactly this text and this
/// style-spec string. The text may hold no line break, since the renderer
/// stores a cell's text line-split; the style string must be one of the
/// canonical strings of `style_chars`, which the renderer parses into
/// distinct attribute lists; and it may not contain 'H', which the
/// renderer reads as a horizontal-span tag and panics on when no digit
/// run follows it.
#[verifier::external_body]
pub(crate) fn row_add_cell(r: &mut prettytable::Row, text: &str, style: &str)
    requires
        line_break_free(text@),
        exists|b: bool, c: cell::Color| style@ == cell::style_chars(b, c),
        forall|i: int| 0 <= i < style@.len() ==> style@[i] != 'H',
    ensures
        row_pairs(*final(r)) == row_pairs(*old(r)).push((text@, style@)),
{
    r.add_cell(prettytable::Cell::new(text).style_spec(style));
}

/// Relies on prettytable::Table::set_titles: replaces the title row and
/// leaves the data rows and the framing unchanged.
#[verifier::external_body]
pub(crate) fn table_set_titles(t: &mut prettytable::Table, titles: prettytable::Row)
    ensures
        table_titles(*final(t)) == Some(row_pairs(titles)),
        table_rows(*final(t)) == table_rows(*old(t)),
        table_format(*final(t)) == table_format(*old(t)),
{
    t.set_titles(titles);
}

/// Relies on prettytable::Table::add_row: appends the row after the
/// existing data rows and leaves the title row and the framing unchanged.
#[verifier::external_body]
pub(crate) fn table_add_row(t: &mut prettytable::Table, row: prettytable::Row)
    ensures
        table_rows(*final(t)) == table_rows(*old(t)).push(row_pairs(row)),
        table_titles(*final(t)) == table_titles(*old(t)),
        table_format(*final(t)) == table_format(*old(t)),
{
    t.add_row(row);
}

} // verus!
