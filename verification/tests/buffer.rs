use rustpad::buffer::DocumentBuffer;

#[test]
fn new_buffer_is_empty() {
    let buffer = DocumentBuffer::new();
    assert!(buffer.is_empty());
    assert_eq!(buffer.get(), "");
}

#[test]
fn replace_puts_the_new_text_in_place() {
    let mut buffer = DocumentBuffer::new();
    buffer.replace(String::from("first\nsecond"));
    assert_eq!(buffer.get(), "first\nsecond");
    assert!(!buffer.is_empty());
    buffer.replace(String::from("x"));
    assert_eq!(buffer.get(), "x");
    assert_eq!(buffer.to_owned_text(), String::from("x"));
}

#[test]
fn replace_with_nothing_empties_the_buffer() {
    let mut buffer = DocumentBuffer::new();
    buffer.replace(String::from("text"));
    buffer.replace(String::new());
    assert!(buffer.is_empty());
    assert_eq!(buffer.get(), "");
}

#[test]
fn buffer_takes_any_text() {
    let mut buffer = DocumentBuffer::new();
    let text = "tab\there \u{0} r\u{e9}sum\u{e9} \u{1F600}\r\n";
    buffer.replace(String::from(text));
    assert_eq!(buffer.get(), text);
    assert!(!buffer.is_empty());
}
