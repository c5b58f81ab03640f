use rustpad::DialogState;

#[test]
fn new_dialog_is_hidden_and_empty() {
    let dialog = DialogState::new();
    assert!(!dialog.is_visible());
    assert_eq!(dialog.path_input(), "");
    let other = DialogState::default();
    assert!(!other.is_visible());
    assert_eq!(other.path_input(), "");
}

#[test]
fn opening_a_dialog_twice_is_opening_it_once() {
    let mut dialog = DialogState::new();
    dialog.set_path_input(String::from("notes.txt"));
    dialog.open();
    assert!(dialog.is_visible());
    assert_eq!(dialog.path_input(), "notes.txt");
    dialog.open();
    assert!(dialog.is_visible());
    assert_eq!(dialog.path_input(), "notes.txt");
}

#[test]
fn closing_a_dialog_keeps_the_path() {
    let mut dialog = DialogState::new();
    dialog.open();
    dialog.set_path_input(String::from("a/b.txt"));
    dialog.close();
    assert!(!dialog.is_visible());
    assert_eq!(dialog.path_input(), "a/b.txt");
    assert_eq!(dialog.path_to_owned(), String::from("a/b.txt"));
    dialog.close();
    assert!(!dialog.is_visible());
}

#[test]
fn path_field_takes_what_was_typed() {
    let mut dialog = DialogState::new();
    dialog.set_path_input(String::from("one"));
    dialog.set_path_input(String::from("two"));
    assert_eq!(dialog.path_input(), "two");
    assert!(!dialog.is_visible());
}
