//! The layout engine: owns the header set, the record sequence, the filter
//! set and the target currency, and assembles the styled table.

use vstd::prelude::*;
use vstd::string::StringExecFns;
use crate::cell::{CellModel, Color, StyledCell};
use crate::cell;
use crate::currency::Currency;
use crate::record::Record;
use crate::text::{ascii_upper, dec_seq, dec_string, percent_seq, upper_seq};
use crate::text::{
    lemma_dec_seq_line_break_free, lemma_line_break_free_concat,
    lemma_percent_seq_line_break_free, lemma_upper_seq_line_break_free, line_break_free,
};
use crate::ptable;
use crate::ptable::{row_pairs, table_format, table_rows, table_titles, FrameStyle, LineStyle};

verus! {

/// Whether a record with the given name is rendered under the given filter
/// set: an empty set filters nothing, a non-empty set admits members only.
pub open spec fn included(filter: Set<Seq<char>>, name: Seq<char>) -> bool {
    filter.is_empty() || filter.contains(name)
}

/// The six cells of one record's row, in fixed column order: rank (plain),
/// name (plain), converted price (bold, price accent), 24-hour change
/// (signed styling), 1-hour change (signed styling), converted market cap
/// (plain).
pub open spec fn row_of(r: Record, c: Currency) -> Seq<CellModel> {
    seq![
        CellModel { text: dec_seq(r.rank as int), bold: false, color: Color::Plain },
        CellModel { text: r.name@, bold: false, color: Color::Plain },
        CellModel {
            text: dec_seq(c.spec_convert(r.price as int)),
            bold: true,
            color: Color::Blue,
        },
        CellModel {
            text: percent_seq(r.percent_24 as int),
            bold: true,
            color: cell::sign_color(r.percent_24 as int),
        },
        CellModel {
            text: percent_seq(r.percent_1 as int),
            bold: true,
            color: cell::sign_color(r.percent_1 as int),
        },
        CellModel {
            text: dec_seq(c.spec_convert(r.market_cap as int)),
            bold: false,
            color: Color::Plain,
        },
    ]
}

/// The rows of the table: one row per record that passes the filter, in
/// the records' given order, with no re-sorting.
pub open spec fn rows_of(data: Seq<Record>, filter: Set<Seq<char>>, c: Currency) -> Seq<
    Seq<CellModel>,
>
    decreases data.len(),
{
    if data.len() == 0 {
        Seq::empty()
    } else {
        rows_of(data.drop_last(), filter, c) + (if included(filter, data.last().name@) {
            seq![row_of(data.last(), c)]
        } else {
            Seq::empty()
        })
    }
}

/// The six header texts, derived from the currency symbol: the price and
/// market-cap headers carry the symbol, and all text is upper-cased.
/// Upper-casing is deliberately ASCII, stated exactly: 'a' through 'z'
/// map to 'A' through 'Z', and any other character of the symbol is left
/// unchanged. Currency symbols are short ASCII codes such as USD or EUR;
/// a symbol outside ASCII keeps those characters as given.
pub open spec fn header_texts(symbol: Seq<char>) -> Seq<Seq<char>> {
    seq![
        upper_seq("rank"@),
        upper_seq("coin"@),
        upper_seq("price ("@ + symbol + ")"@),
        upper_seq("change (24h)"@),
        upper_seq("change (1h)"@),
        upper_seq("market cap ("@ + symbol + ")"@),
    ]
}

/// The title row: each header text rendered bold in the header accent.
pub open spec fn title_of(headers: Seq<Seq<char>>) -> Seq<CellModel> {
    headers.map_values(|t: Seq<char>| CellModel { text: t, bold: true, color: Color::Yellow })
}

/// The view of a vector of styled cells.
pub open spec fn cells_view(cells: Seq<StyledCell>) -> Seq<CellModel> {
    cells.map_values(|c: StyledCell| c@)
}

/// Whether every cell text of a row is free of line breaks.
pub open spec fn texts_line_break_free(row: Seq<CellModel>) -> bool {
    forall|k: int| 0 <= k < row.len() ==> line_break_free((#[trigger] row[k]).text)
}

/// Every text of a record's row is free of line breaks, provided the
/// record's name is: the remaining cells hold rendered numbers.
proof fn lemma_row_of_texts(r: Record, c: Currency)
    requires
        line_break_free(r.name@),
    ensures
        texts_line_break_free(row_of(r, c)),
{
    lemma_dec_seq_line_break_free(r.rank as int);
    lemma_dec_seq_line_break_free(c.spec_convert(r.price as int));
    lemma_dec_seq_line_break_free(c.spec_convert(r.market_cap as int));
    lemma_percent_seq_line_break_free(r.percent_24 as int);
    lemma_percent_seq_line_break_free(r.percent_1 as int);
}

/// Every text of every table row is free of line breaks, provided every
/// record name is.
proof fn lemma_rows_of_texts(data: Seq<Record>, filter: Set<Seq<char>>, c: Currency)
    requires
        forall|j: int| 0 <= j < data.len() ==> line_break_free((#[trigger] data[j]).name@),
    ensures
        forall|i: int|
            0 <= i < rows_of(data, filter, c).len() ==> texts_line_break_free(
                #[trigger] rows_of(data, filter, c)[i],
            ),
    decreases data.len(),
{
    if data.len() > 0 {
        let rest = data.drop_last();
        assert forall|j: int| 0 <= j < rest.len() implies line_break_free(
            (#[trigger] rest[j]).name@,
        ) by {
            assert(rest[j] == data[j]);
        }
        lemma_rows_of_texts(rest, filter, c);
        lemma_row_of_texts(data.last(), c);
        assert forall|i: int| 0 <= i < rows_of(data, filter, c).len() implies texts_line_break_free(
            #[trigger] rows_of(data, filter, c)[i],
        ) by {
            if i < rows_of(rest, filter, c).len() {
                assert(rows_of(data, filter, c)[i] == rows_of(rest, filter, c)[i]);
            } else {
                assert(rows_of(data, filter, c)[i] == row_of(data.last(), c));
            }
        }
    }
}

/// Every header text is free of line breaks, provided the symbol is: the
/// fixed label parts are plain words and ASCII upper-casing maps no
/// character to a line break.
proof fn lemma_header_texts_line_break_free(symbol: Seq<char>)
    requires
        line_break_free(symbol),
    ensures
        forall|k: int|
            0 <= k < header_texts(symbol).len() ==> line_break_free(
                #[trigger] header_texts(symbol)[k],
            ),
{
    reveal_strlit("rank");
    reveal_strlit("coin");
    reveal_strlit("price (");
    reveal_strlit("change (24h)");
    reveal_strlit("change (1h)");
    reveal_strlit("market cap (");
    reveal_strlit(")");
    assert(line_break_free("rank"@));
    assert(line_break_free("coin"@));
    assert(line_break_free("price ("@));
    assert(line_break_free("change (24h)"@));
    assert(line_break_free("change (1h)"@));
    assert(line_break_free("market cap ("@));
    assert(line_break_free(")"@));
    lemma_line_break_free_concat("price ("@, symbol);
    lemma_line_break_free_concat("price ("@ + symbol, ")"@);
    lemma_line_break_free_concat("market cap ("@, symbol);
    lemma_line_break_free_concat("market cap ("@ + symbol, ")"@);
    lemma_upper_seq_line_break_free("rank"@);
    lemma_upper_seq_line_break_free("coin"@);
    lemma_upper_seq_line_break_free("price ("@ + symbol + ")"@);
    lemma_upper_seq_line_break_free("change (24h)"@);
    lemma_upper_seq_line_break_free("change (1h)"@);
    lemma_upper_seq_line_break_free("market cap ("@ + symbol + ")"@);
}

/// The aggregate driving one render: headers, records, filter set and
/// currency selection. Constructed once, then read-only. Its record
/// names and header texts hold no line break, per the input contract:
/// records and currency arrive already validated.
pub struct Layout {
    headers: Vec<String>,
    data: Vec<Record>,
    filter_list: Vec<String>,
    currency: Currency,
}

impl Layout {
    #[verifier::type_invariant]
    pub closed spec fn wf(self) -> bool {
        &&& forall|j: int|
            0 <= j < self.data@.len() ==> line_break_free((#[trigger] self.data@[j]).name@)
        &&& forall|k: int|
            0 <= k < self.headers@.len() ==> line_break_free((#[trigger] self.headers@[k])@)
    }

    /// The header texts.
    pub closed spec fn spec_headers(self) -> Seq<Seq<char>> {
        self.headers@.map_values(|h: String| h@)
    }

    /// The record sequence, in the caller's order.
    pub closed spec fn spec_data(self) -> Seq<Record> {
        self.data@
    }

    /// The filter set: the record names admitted for rendering.
    pub closed spec fn spec_filter(self) -> Set<Seq<char>> {
        self.filter_list@.map_values(|s: String| s@).to_set()
    }

    /// The currency selection.
    pub closed spec fn spec_currency(self) -> Currency {
        self.currency
    }

    /// A layout over the given records, filter names and currency. The
    /// filter names are deduplicated into a set; the six headers are
    /// derived from the currency's symbol. Record names and the symbol
    /// hold no line break: the input contract supplies records already
    /// validated, and a cell is one line of the table.
    pub fn new(data: Vec<Record>, filter_list: Vec<&str>, currency: Currency) -> (l: Layout)
        requires
            forall|j: int| 0 <= j < data@.len() ==> line_break_free((#[trigger] data@[j]).name@),
            line_break_free(currency.spec_symbol()),
        ensures
            l.spec_data() == data@,
            l.spec_currency() == currency,
            l.spec_headers() == header_texts(currency.spec_symbol()),
            l.spec_filter() == filter_list@.map_values(|s: &str| s@).to_set(),
    {
        let ghost full = filter_list@.map_values(|s: &str| s@);
        let mut filter: Vec<String> = Vec::new();
        let mut i: usize = 0;
        while i < filter_list.len()
            invariant
                i <= filter_list.len(),
                full == filter_list@.map_values(|s: &str| s@),
                filter@.map_values(|s: String| s@).to_set() == full.take(i as int).to_set(),
            decreases filter_list.len() - i,
        {
            let s: &str = filter_list[i];
            let ghost before = filter@.map_values(|x: String| x@);
            let present = contains_name(&filter, s);
            if !present {
                filter.push(s.to_owned());
            }
            proof {
                Seq::<Seq<char>>::lemma_to_set_insert_commutes(full.take(i as int), full[i as int]);
                assert(full.take(i as int) + seq![full[i as int]] =~= full.take(i + 1));
                if present {
                    assert(before.to_set().contains(s@));
                    assert(before.to_set() =~= before.to_set().insert(s@));
                } else {
                    Seq::<Seq<char>>::lemma_to_set_insert_commutes(before, s@);
                    assert(before + seq![s@] =~= filter@.map_values(|x: String| x@));
                }
            }
            i += 1;
        }
        proof {
            assert(full.take(filter_list@.len() as int) =~= full);
        }

        let mut headers: Vec<String> = Vec::new();
        headers.push(ascii_upper("rank"));
        headers.push(ascii_upper("coin"));
        headers.push(upper_label("price (", currency.get_symbol()));
        headers.push(ascii_upper("change (24h)"));
        headers.push(ascii_upper("change (1h)"));
        headers.push(upper_label("market cap (", currency.get_symbol()));
        proof {
            assert(headers@.map_values(|h: String| h@) =~= header_texts(currency.spec_symbol()));
            lemma_header_texts_line_break_free(currency.spec_symbol());
            assert forall|k: int| 0 <= k < headers@.len() implies line_break_free(
                (#[trigger] headers@[k])@,
            ) by {
                assert(headers@[k]@ == header_texts(currency.spec_symbol())[k]);
            }
        }

        Layout { headers, data, filter_list: filter, currency }
    }

    /// The title row as styled cells: each header bold in the header accent.
    pub fn title_cells(&self) -> (cells: Vec<StyledCell>)
        ensures
            cells_view(cells@) == title_of(self.spec_headers()),
    {
        let mut cells: Vec<StyledCell> = Vec::new();
        let mut i: usize = 0;
        while i < self.headers.len()
            invariant
                i <= self.headers.len(),
                cells_view(cells@) == title_of(self.spec_headers().take(i as int)),
            decreases self.headers.len() - i,
        {
            cells.push(cell::header(self.headers[i].clone()));
            proof {
                let hs = self.spec_headers();
                let lhs = cells_view(cells@);
                let rhs = title_of(hs.take(i + 1));
                assert(i < hs.len());
                assert(title_of(hs.take(i as int)).len() == i as int);
                assert(cells@.len() == i + 1);
                assert(lhs.len() == i + 1);
                assert forall|k: int| 0 <= k < i + 1 implies lhs[k] == rhs[k] by {
                    if k < i {
                        assert(lhs[k] == title_of(hs.take(i as int))[k]);
                    } else {
                        assert(cells@[k]@ == (CellModel {
                            text: self.headers@[k]@,
                            bold: true,
                            color: Color::Yellow,
                        }));
                        assert(hs.take(i + 1)[k] == self.headers@[k]@);
                    }
                }
                assert(lhs =~= rhs);
            }
            i += 1;
        }
        proof {
            assert(self.spec_headers().take(self.headers@.len() as int) =~= self.spec_headers());
        }
        cells
    }

    /// The data rows as styled cells: one row of six cells per record that
    /// passes the filter, in the records' given order.
    pub fn data_cells(&self) -> (rows: Vec<Vec<StyledCell>>)
        ensures
            rows@.map_values(|row: Vec<StyledCell>| cells_view(row@)) == rows_of(
                self.spec_data(),
                self.spec_filter(),
                self.spec_currency(),
            ),
    {
        let mut rows: Vec<Vec<StyledCell>> = Vec::new();
        let mut i: usize = 0;
        while i < self.data.len()
            invariant
                i <= self.data.len(),
                rows@.map_values(|row: Vec<StyledCell>| cells_view(row@)) == rows_of(
                    self.spec_data().take(i as int),
                    self.spec_filter(),
                    self.spec_currency(),
                ),
            decreases self.data.len() - i,
        {
            let item = &self.data[i];
            let keep = if self.filter_list.len() == 0 {
                proof {
                    assert(self.spec_filter() =~= Set::<Seq<char>>::empty());
                }
                true
            } else {
                let found = contains_name(&self.filter_list, item.name.as_str());
                proof {
                    if !found {
                        let m = self.filter_list@.map_values(|s: String| s@);
                        assert(m[0] == self.filter_list@[0]@);
                        assert(m.contains(self.filter_list@[0]@));
                        assert(m.to_set().contains(self.filter_list@[0]@));
                    }
                }
                found
            };
            proof {
                assert(keep == included(self.spec_filter(), item.name@));
            }
            if keep {
                rows.push(row_cells(item, &self.currency));
            }
            proof {
                assert(self.spec_data().take(i + 1).drop_last() =~= self.spec_data().take(
                    i as int,
                ));
                assert(self.spec_data().take(i + 1).last() == self.spec_data()[i as int]);
                assert(rows@.map_values(|row: Vec<StyledCell>| cells_view(row@)) =~= rows_of(
                    self.spec_data().take(i + 1),
                    self.spec_filter(),
                    self.spec_currency(),
                ));
            }
            i += 1;
        }
        proof {
            assert(self.spec_data().take(self.data@.len() as int) =~= self.spec_data());
        }
        rows
    }
}

/// The upper-cased header label built from a prefix, the currency symbol
/// and a closing parenthesis.
fn upper_label(prefix: &str, symbol: &str) -> (r: String)
    ensures
        r@ == upper_seq(prefix@ + symbol@ + ")"@),
{
    let mut s = prefix.to_owned();
    s.append(symbol);
    s.append(")");
    ascii_upper(s.as_str())
}

/// Whether one of the stored names equals the given name.
fn contains_name(v: &Vec<String>, name: &str) -> (r: bool)
    ensures
        r == v@.map_values(|s: String| s@).to_set().contains(name@),
{
    let owned = name.to_owned();
    let mut i: usize = 0;
    while i < v.len()
        invariant
            i <= v.len(),
            owned@ == name@,
            forall|j: int| 0 <= j < i ==> v@[j]@ != name@,
        decreases v.len() - i,
    {
        if v[i] == owned {
            proof {
                assert(v@.map_values(|s: String| s@)[i as int] == name@);
            }
            return true;
        }
        i += 1;
    }
    proof {
        let m = v@.map_values(|s: String| s@);
        assert forall|j: int| 0 <= j < m.len() implies #[trigger] m[j] != name@ by {
            assert(v@[j]@ != name@);
        }
        assert(!m.contains(name@));
    }
    false
}

/// The six styled cells of one record's row, in the fixed column order.
pub fn row_cells(record: &Record, currency: &Currency) -> (cells: Vec<StyledCell>)
    ensures
        cells_view(cells@) == row_of(*record, *currency),
{
    let price = record.get_price(currency);
    let market_cap = record.get_market_cap(currency);
    let mut cells: Vec<StyledCell> = Vec::new();
    cells.push(cell::plain(dec_string(record.rank as u128)));
    cells.push(cell::plain(record.name.clone()));
    cells.push(cell::emphasized(dec_string(price)));
    cells.push(cell::signed(record.get_percent_24()));
    cells.push(cell::signed(record.get_percent_1()));
    cells.push(cell::plain(dec_string(market_cap)));
    proof {
        assert(cells_view(cells@) =~= row_of(*record, *currency));
    }
    cells
}

/// With an empty filter set, every record yields a row: the table rows are
/// exactly the records' rows, once each, in input order.
pub proof fn lemma_empty_filter_keeps_all(data: Seq<Record>, filter: Set<Seq<char>>, c: Currency)
    requires
        filter.is_empty(),
    ensures
        rows_of(data, filter, c) == data.map_values(|r: Record| row_of(r, c)),
    decreases data.len(),
{
    if data.len() == 0 {
        assert(rows_of(data, filter, c) =~= data.map_values(|r: Record| row_of(r, c)));
    } else {
        lemma_empty_filter_keeps_all(data.drop_last(), filter, c);
        assert(rows_of(data, filter, c) =~= data.map_values(|r: Record| row_of(r, c)));
    }
}

/// With a non-empty filter set, the table holds exactly the rows of the
/// records whose name is in the set, in their original relative order; no
/// record whose name is absent appears.
pub proof fn lemma_filter_selects(data: Seq<Record>, filter: Set<Seq<char>>, c: Currency)
    requires
        !filter.is_empty(),
    ensures
        rows_of(data, filter, c) == data.filter(|r: Record| filter.contains(r.name@)).map_values(
            |r: Record| row_of(r, c),
        ),
    decreases data.len(),
{
    reveal(Seq::filter);
    let pred = |r: Record| filter.contains(r.name@);
    if data.len() == 0 {
        assert(rows_of(data, filter, c) =~= data.filter(pred).map_values(
            |r: Record| row_of(r, c),
        ));
    } else {
        lemma_filter_selects(data.drop_last(), filter, c);
        assert(rows_of(data, filter, c) =~= data.filter(pred).map_values(
            |r: Record| row_of(r, c),
        ));
    }
}

/// The (text, style-spec) pair a styled cell hands to the table renderer.
pub open spec fn cell_pair(c: CellModel) -> (Seq<char>, Seq<char>) {
    (c.text, cell::style_chars(c.bold, c.color))
}

/// The cell pairs of one row of cell models.
pub open spec fn pairs_of(row: Seq<CellModel>) -> Seq<(Seq<char>, Seq<char>)> {
    row.map_values(|c: CellModel| cell_pair(c))
}

/// The fixed boxed-line framing: heavy outer borders and title rule, a
/// light interior rule between data rows, and one character of padding on
/// both sides of every cell.
pub open spec fn spec_box_frame() -> FrameStyle {
    FrameStyle {
        column_separator: '\u{2502}',
        borders: '\u{2503}',
        top: LineStyle {
            line: '\u{2501}',
            junction: '\u{252f}',
            left: '\u{250f}',
            right: '\u{2513}',
        },
        bottom: LineStyle {
            line: '\u{2501}',
            junction: '\u{2537}',
            left: '\u{2517}',
            right: '\u{251b}',
        },
        interior: LineStyle {
            line: '\u{2500}',
            junction: '\u{253c}',
            left: '\u{2520}',
            right: '\u{2528}',
        },
        title: LineStyle {
            line: '\u{2501}',
            junction: '\u{253f}',
            left: '\u{2523}',
            right: '\u{252b}',
        },
        padding_left: 1,
        padding_right: 1,
    }
}

/// The fixed boxed-line framing applied to every table.
pub fn box_frame() -> (f: FrameStyle)
    ensures
        f == spec_box_frame(),
{
    FrameStyle {
        column_separator: '\u{2502}',
        borders: '\u{2503}',
        top: LineStyle {
            line: '\u{2501}',
            junction: '\u{252f}',
            left: '\u{250f}',
            right: '\u{2513}',
        },
        bottom: LineStyle {
            line: '\u{2501}',
            junction: '\u{2537}',
            left: '\u{2517}',
            right: '\u{251b}',
        },
        interior: LineStyle {
            line: '\u{2500}',
            junction: '\u{253c}',
            left: '\u{2520}',
            right: '\u{2528}',
        },
        title: LineStyle {
            line: '\u{2501}',
            junction: '\u{253f}',
            left: '\u{2523}',
            right: '\u{252b}',
        },
        padding_left: 1,
        padding_right: 1,
    }
}

/// Push each styled cell of the row, in order, as its text and its
/// style-spec string. The texts may hold no line break: the renderer
/// stores a cell's text line-split.
fn push_cells(row: &mut prettytable::Row, cells: &Vec<StyledCell>)
    requires
        texts_line_break_free(cells_view(cells@)),
    ensures
        row_pairs(*final(row)) == row_pairs(*old(row)) + pairs_of(cells_view(cells@)),
{
    let mut i: usize = 0;
    while i < cells.len()
        invariant
            i <= cells.len(),
            texts_line_break_free(cells_view(cells@)),
            row_pairs(*row) == row_pairs(*old(row)) + pairs_of(cells_view(cells@.take(i as int))),
        decreases cells.len() - i,
    {
        let style = cells[i].style_spec();
        proof {
            cell::lemma_style_chars_no_h(cells@[i as int].bold, cells@[i as int].color);
            assert(style@ == cell::style_chars(cells@[i as int].bold, cells@[i as int].color));
            assert(cells_view(cells@)[i as int].text == cells@[i as int]@.text);
        }
        ptable::row_add_cell(row, cells[i].text.as_str(), style.as_str());
        proof {
            assert(row_pairs(*row) =~= row_pairs(*old(row)) + pairs_of(
                cells_view(cells@.take(i + 1)),
            ));
        }
        i += 1;
    }
    proof {
        assert(cells@.take(cells@.len() as int) =~= cells@);
    }
}

impl Layout {
    /// The assembled table: the title row from the six headers, then one
    /// data row of six cells per record that passes the filter, in the
    /// records' given order, under the fixed boxed-line framing.
    pub fn get_table(&self) -> (t: prettytable::Table)
        ensures
            table_titles(t) == Some(pairs_of(title_of(self.spec_headers()))),
            table_rows(t) == rows_of(
                self.spec_data(),
                self.spec_filter(),
                self.spec_currency(),
            ).map_values(|row: Seq<CellModel>| pairs_of(row)),
            table_format(t) == spec_box_frame(),
    {
        proof {
            use_type_invariant(self);
        }
        let mut t = ptable::new_table();
        let frame = box_frame();
        ptable::set_box_format(&mut t, &frame);

        let title = self.title_cells();
        proof {
            assert forall|k: int| 0 <= k < cells_view(title@).len() implies line_break_free(
                (#[trigger] cells_view(title@)[k]).text,
            ) by {
                assert(cells_view(title@)[k] == title_of(self.spec_headers())[k]);
                assert(self.spec_headers()[k] == self.headers@[k]@);
            }
        }
        let mut trow = ptable::empty_row();
        push_cells(&mut trow, &title);
        proof {
            assert(row_pairs(trow) =~= pairs_of(title_of(self.spec_headers())));
        }
        ptable::table_set_titles(&mut t, trow);

        let rows = self.data_cells();
        let ghost model = rows_of(self.spec_data(), self.spec_filter(), self.spec_currency());
        proof {
            lemma_rows_of_texts(self.spec_data(), self.spec_filter(), self.spec_currency());
        }
        let mut i: usize = 0;
        while i < rows.len()
            invariant
                i <= rows.len(),
                rows@.map_values(|row: Vec<StyledCell>| cells_view(row@)) == model,
                forall|j: int| 0 <= j < model.len() ==> texts_line_break_free(#[trigger] model[j]),
                table_titles(t) == Some(pairs_of(title_of(self.spec_headers()))),
                table_format(t) == spec_box_frame(),
                table_rows(t) == model.take(i as int).map_values(
                    |row: Seq<CellModel>| pairs_of(row),
                ),
            decreases rows.len() - i,
        {
            proof {
                assert(cells_view(rows@[i as int]@) == model[i as int]);
                assert(texts_line_break_free(model[i as int]));
            }
            let mut prow = ptable::empty_row();
            push_cells(&mut prow, &rows[i]);
            ptable::table_add_row(&mut t, prow);
            proof {
                assert(cells_view(rows@[i as int]@) == model[i as int]);
                assert(table_rows(t) =~= model.take(i + 1).map_values(
                    |row: Seq<CellModel>| pairs_of(row),
                ));
            }
            i += 1;
        }
        proof {
            assert(model.take(model.len() as int) =~= model);
        }
        t
    }
}

/// Building twice from the same layout yields identical tables: the same
/// title cells, the same data cells (text and styling alike) and the same
/// framing.
pub proof fn lemma_build_deterministic(
    l: Layout,
    t1: prettytable::Table,
    t2: prettytable::Table,
)
    requires
        table_titles(t1) == Some(pairs_of(title_of(l.spec_headers()))),
        table_rows(t1) == rows_of(l.spec_data(), l.spec_filter(), l.spec_currency()).map_values(
            |row: Seq<CellModel>| pairs_of(row),
        ),
        table_titles(t2) == Some(pairs_of(title_of(l.spec_headers()))),
        table_rows(t2) == rows_of(l.spec_data(), l.spec_filter(), l.spec_currency()).map_values(
            |row: Seq<CellModel>| pairs_of(row),
        ),
        table_format(t1) == spec_box_frame(),
        table_format(t2) == spec_box_frame(),
    ensures
        table_titles(t1) == table_titles(t2),
        table_rows(t1) == table_rows(t2),
        table_format(t1) == table_format(t2),
{
}

/// Every data row has exactly six cells, aligned positionally with the
/// six headers of the title row.
pub proof fn lemma_row_width(r: Record, c: Currency)
    ensures
        row_of(r, c).len() == 6,
{
}

/// Signed-percent styling in a row is a pure function of the value's
/// sign, and the same in both percent columns: positive accent above
/// zero, negative accent below zero, neutral at zero, always bold.
pub proof fn lemma_signed_styling_by_sign(r: Record, c: Currency)
    ensures
        row_of(r, c)[3].color == cell::sign_color(r.percent_24 as int),
        row_of(r, c)[4].color == cell::sign_color(r.percent_1 as int),
        row_of(r, c)[3].bold,
        row_of(r, c)[4].bold,
        r.percent_24 == r.percent_1 ==> row_of(r, c)[3] == row_of(r, c)[4],
{
}

/// The header row always has exactly six cells, and the price and
/// market-cap headers carry the upper-cased currency symbol.
pub proof fn lemma_header_symbol(symbol: Seq<char>)
    ensures
        header_texts(symbol).len() == 6,
        header_texts(symbol)[2] == upper_seq("price ("@) + upper_seq(symbol) + upper_seq(")"@),
        header_texts(symbol)[5] == upper_seq("market cap ("@) + upper_seq(symbol) + upper_seq(
            ")"@,
        ),
{
    assert(upper_seq("price ("@ + symbol + ")"@) =~= upper_seq("price ("@) + upper_seq(symbol)
        + upper_seq(")"@));
    assert(upper_seq("market cap ("@ + symbol + ")"@) =~= upper_seq("market cap ("@) + upper_seq(
        symbol,
    ) + upper_seq(")"@));
}

} // verus!
