use jot::pattern::is_note_filename;

#[test]
fn accepts_conventional_names() {
    assert!(is_note_filename("01-01-23.md"));
    assert!(is_note_filename("12-31-99.md"));
    assert!(is_note_filename("00-00-00.md"));
}

#[test]
fn accepts_any_digit_triples() {
    // The convention checks digit shape only, not calendar validity.
    assert!(is_note_filename("99-99-99.md"));
}

#[test]
fn rejects_malformed_names() {
    assert!(!is_note_filename(""));
    assert!(!is_note_filename("1-01-23.md"));
    assert!(!is_note_filename("01-01-23.txt"));
    assert!(!is_note_filename("01-01-2023.md"));
    assert!(!is_note_filename("aa-bb-cc.md"));
    assert!(!is_note_filename("01_01_23.md"));
    assert!(!is_note_filename("01-01-23.md.bak"));
    assert!(!is_note_filename("01-01-23"));
    assert!(!is_note_filename("readme.txt"));
}
