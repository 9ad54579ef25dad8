use cointable::cell::{emphasized, header, plain, signed, Color};

#[test]
fn plain_cell_is_unstyled() {
    let c = plain(String::from("42"));
    assert_eq!(c.text, "42");
    assert!(!c.bold);
    assert_eq!(c.color, Color::Plain);
    assert_eq!(c.style_spec(), "");
}

#[test]
fn emphasized_cell_is_bold_blue() {
    let c = emphasized(String::from("50000"));
    assert_eq!(c.text, "50000");
    assert!(c.bold);
    assert_eq!(c.color, Color::Blue);
    assert_eq!(c.style_spec(), "bFb");
}

#[test]
fn header_cell_is_bold_yellow() {
    let c = header(String::from("RANK"));
    assert!(c.bold);
    assert_eq!(c.color, Color::Yellow);
    assert_eq!(c.style_spec(), "bFy");
}

#[test]
fn signed_positive_styling() {
    let c = signed(52);
    assert_eq!(c.text, "+5.2%");
    assert!(c.bold);
    assert_eq!(c.color, Color::Green);
    assert_eq!(c.style_spec(), "bFg");
}

#[test]
fn signed_negative_styling() {
    let c = signed(-31);
    assert_eq!(c.text, "-3.1%");
    assert!(c.bold);
    assert_eq!(c.color, Color::Red);
    assert_eq!(c.style_spec(), "bFr");
}

#[test]
fn signed_zero_styling() {
    let c = signed(0);
    assert_eq!(c.text, "0.0%");
    assert!(c.bold);
    assert_eq!(c.color, Color::White);
    assert_eq!(c.style_spec(), "bFw");
}
