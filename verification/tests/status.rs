use rustpad::cursor::CursorPosition;
use rustpad::status::{decimal_text, status_labels};
use rustpad::style::{base_size, StyleRole, BUTTON_PADDING};

#[test]
fn decimal_of_single_digits() {
    assert_eq!(decimal_text(0), "0");
    assert_eq!(decimal_text(1), "1");
    assert_eq!(decimal_text(5), "5");
    assert_eq!(decimal_text(9), "9");
}

#[test]
fn decimal_of_longer_numbers() {
    assert_eq!(decimal_text(10), "10");
    assert_eq!(decimal_text(13), "13");
    assert_eq!(decimal_text(100), "100");
    assert_eq!(decimal_text(1234567890), "1234567890");
    assert_eq!(decimal_text(usize::MAX), format!("{}", usize::MAX));
}

#[test]
fn decimal_agrees_with_the_standard_formatting() {
    let mut n: usize = 1;
    for _ in 0..200 {
        assert_eq!(decimal_text(n), format!("{}", n));
        n = n.wrapping_mul(31).wrapping_add(7) % 1_000_000_007;
    }
}

#[test]
fn labels_for_a_position_and_a_zoom() {
    let bar = status_labels(CursorPosition { line: 5, column: 13 }, 110);
    assert_eq!(bar.position, "Ln 5, Col 13");
    assert_eq!(bar.zoom, "110%");
    assert_eq!(bar.line_ending, "Windows (CRLF)");
    assert_eq!(bar.encoding, "UTF-8");
}

#[test]
fn labels_at_home() {
    let bar = status_labels(CursorPosition { line: 1, column: 1 }, 100);
    assert_eq!(bar.position, "Ln 1, Col 1");
    assert_eq!(bar.zoom, "100%");
}

#[test]
fn style_sizes() {
    assert_eq!(base_size(StyleRole::Body), 16);
    assert_eq!(base_size(StyleRole::Monospace), 16);
    assert_eq!(base_size(StyleRole::Button), 16);
    assert_eq!(base_size(StyleRole::Heading), 32);
    assert_eq!(BUTTON_PADDING, 8);
}
