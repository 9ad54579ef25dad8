use cointable::cell::Color;
use cointable::currency::Currency;
use cointable::layout::Layout;
use cointable::record::Record;

fn usd() -> Currency {
    Currency::new(String::from("USD"), 1, 1)
}

fn sample_records() -> Vec<Record> {
    vec![
        Record::new(1, String::from("BTC"), 50000, 900000000000, 25, -3),
        Record::new(2, String::from("ETH"), 4000, 480000000000, -12, 7),
        Record::new(3, String::from("XRP"), 1, 50000000000, 0, 0),
    ]
}

#[test]
fn headers_carry_uppercased_symbol() {
    let layout = Layout::new(vec![], vec![], usd());
    let title = layout.title_cells();
    assert_eq!(title.len(), 6);
    assert_eq!(title[0].text, "RANK");
    assert_eq!(title[1].text, "COIN");
    assert_eq!(title[2].text, "PRICE (USD)");
    assert_eq!(title[3].text, "CHANGE (24H)");
    assert_eq!(title[4].text, "CHANGE (1H)");
    assert_eq!(title[5].text, "MARKET CAP (USD)");
    for cell in &title {
        assert!(cell.bold);
        assert_eq!(cell.color, Color::Yellow);
    }
}

#[test]
fn lowercase_symbol_is_uppercased_in_headers() {
    let layout = Layout::new(vec![], vec![], Currency::new(String::from("usd"), 1, 1));
    let title = layout.title_cells();
    assert_eq!(title[2].text, "PRICE (USD)");
    assert_eq!(title[5].text, "MARKET CAP (USD)");
}

#[test]
fn empty_filter_keeps_every_record_in_order() {
    let layout = Layout::new(sample_records(), vec![], usd());
    let rows = layout.data_cells();
    assert_eq!(rows.len(), 3);
    assert_eq!(rows[0][1].text, "BTC");
    assert_eq!(rows[1][1].text, "ETH");
    assert_eq!(rows[2][1].text, "XRP");
}

#[test]
fn nonempty_filter_keeps_members_in_relative_order() {
    let layout = Layout::new(sample_records(), vec!["XRP", "BTC"], usd());
    let rows = layout.data_cells();
    assert_eq!(rows.len(), 2);
    assert_eq!(rows[0][1].text, "BTC");
    assert_eq!(rows[1][1].text, "XRP");
}

#[test]
fn filter_with_unknown_name_yields_no_rows() {
    let layout = Layout::new(sample_records(), vec!["DOGE"], usd());
    assert_eq!(layout.data_cells().len(), 0);
}

#[test]
fn duplicate_filter_names_render_each_record_once() {
    let layout = Layout::new(sample_records(), vec!["ETH", "ETH"], usd());
    let rows = layout.data_cells();
    assert_eq!(rows.len(), 1);
    assert_eq!(rows[0][1].text, "ETH");
}

#[test]
fn signed_styling_is_same_in_both_percent_columns() {
    let records = vec![Record::new(1, String::from("BTC"), 1, 1, 52, 52)];
    let layout = Layout::new(records, vec![], usd());
    let rows = layout.data_cells();
    assert_eq!(rows[0][3], rows[0][4]);
    assert_eq!(rows[0][3].color, Color::Green);
}

#[test]
fn building_twice_yields_identical_cells() {
    let layout = Layout::new(sample_records(), vec!["BTC"], usd());
    assert_eq!(layout.title_cells(), layout.title_cells());
    assert_eq!(layout.data_cells(), layout.data_cells());
    let first = layout.get_table().to_string();
    let second = layout.get_table().to_string();
    assert_eq!(first, second);
}

#[test]
fn empty_records_yield_title_only() {
    let layout = Layout::new(vec![], vec![], usd());
    assert_eq!(layout.data_cells().len(), 0);
    let table = layout.get_table();
    assert_eq!(table.len(), 0);
    assert!(table.to_string().contains("PRICE (USD)"));
}

#[test]
fn end_to_end_single_record() {
    let records = vec![Record::new(
        1,
        String::from("BTC"),
        50000,
        900000000000,
        25,
        -3,
    )];
    let layout = Layout::new(records, vec![], usd());

    let rows = layout.data_cells();
    assert_eq!(rows.len(), 1);
    let row = &rows[0];
    assert_eq!(row[0].text, "1");
    assert_eq!(row[1].text, "BTC");
    assert_eq!(row[2].text, "50000");
    assert_eq!(row[3].text, "+2.5%");
    assert_eq!(row[4].text, "-0.3%");
    assert_eq!(row[5].text, "900000000000");
    assert_eq!(row[3].color, Color::Green);
    assert!(row[3].bold);
    assert_eq!(row[4].color, Color::Red);
    assert!(row[4].bold);
    assert_eq!(row[2].color, Color::Blue);
    assert!(row[2].bold);
    assert_eq!(row[0].color, Color::Plain);
    assert_eq!(row[5].color, Color::Plain);

    let table = layout.get_table();
    assert_eq!(table.len(), 1);
    let trow = table.get_row(0).unwrap();
    assert_eq!(trow.get_cell(0).unwrap().get_content(), "1");
    assert_eq!(trow.get_cell(1).unwrap().get_content(), "BTC");
    assert_eq!(trow.get_cell(2).unwrap().get_content(), "50000");
    assert_eq!(trow.get_cell(3).unwrap().get_content(), "+2.5%");
    assert_eq!(trow.get_cell(4).unwrap().get_content(), "-0.3%");
    assert_eq!(trow.get_cell(5).unwrap().get_content(), "900000000000");

    let rendered = layout.get_table().to_string();
    assert!(rendered.contains("BTC"));
    assert!(rendered.contains("50000"));
    assert!(rendered.contains("+2.5%"));
    assert!(rendered.contains("-0.3%"));
    assert!(rendered.contains("PRICE (USD)"));
    assert!(rendered.contains("MARKET CAP (USD)"));
}

#[test]
fn rendered_table_is_framed_with_box_glyphs() {
    let layout = Layout::new(sample_records(), vec![], usd());
    let rendered = layout.get_table().to_string();
    assert!(rendered.contains('\u{2502}'));
    assert!(rendered.contains('\u{2503}'));
    assert!(rendered.contains('\u{250f}'));
    assert!(rendered.contains('\u{2513}'));
    assert!(rendered.contains('\u{2517}'));
    assert!(rendered.contains('\u{251b}'));
    assert!(rendered.contains('\u{2523}'));
    assert!(rendered.contains('\u{252b}'));
    assert!(rendered.contains('\u{2520}'));
    assert!(rendered.contains('\u{2528}'));
}
