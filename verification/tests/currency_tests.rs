use cointable::currency::Currency;
use cointable::layout::row_cells;
use cointable::record::Record;

#[test]
fn identity_rate_keeps_amount() {
    let c = Currency::new(String::from("USD"), 1, 1);
    assert_eq!(c.convert(50000), 50000);
    assert_eq!(c.get_symbol(), "USD");
}

#[test]
fn halving_rate_converts_reference_price() {
    let c = Currency::new(String::from("BTC"), 1, 2);
    assert_eq!(c.convert(100), 50);
}

#[test]
fn rate_division_floors() {
    let c = Currency::new(String::from("XYZ"), 1, 3);
    assert_eq!(c.convert(100), 33);
}

#[test]
fn rate_can_scale_up_without_overflow() {
    let c = Currency::new(String::from("SAT"), u64::MAX, 1);
    let expected = u64::MAX as u128 * u64::MAX as u128;
    assert_eq!(c.convert(u64::MAX), expected);
}

#[test]
fn converted_price_reaches_rendered_cell() {
    let c = Currency::new(String::from("EUR"), 1, 2);
    let r = Record::new(1, String::from("BTC"), 100, 1000, 0, 0);
    let cells = row_cells(&r, &c);
    assert_eq!(cells[2].text, "50");
    assert_eq!(cells[5].text, "500");
}
