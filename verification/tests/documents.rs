use website::documents::DocumentTable;

#[test]
fn empty_table_holds_nothing() {
    let table = DocumentTable::new();
    assert_eq!(table.get("contact.md"), None);
    assert_eq!(table.get(""), None);
}

#[test]
fn stored_text_is_found_under_its_name() {
    let mut table = DocumentTable::new();
    assert!(table.insert("contact.md", b"# Contact".to_vec()));
    assert!(table.insert("about.md", "# \u{dc}ber mich \u{1f600}".as_bytes().to_vec()));
    assert_eq!(table.get("contact.md"), Some("# Contact"));
    assert_eq!(table.get("about.md"), Some("# \u{dc}ber mich \u{1f600}"));
    assert_eq!(table.get("contact"), None);
    assert_eq!(table.get("Contact.md"), None);
    assert_eq!(table.get("about.md "), None);
}

#[test]
fn later_document_replaces_the_earlier() {
    let mut table = DocumentTable::new();
    assert!(table.insert("contact.md", b"old".to_vec()));
    assert!(table.insert("about.md", b"about".to_vec()));
    assert!(table.insert("contact.md", b"new".to_vec()));
    assert_eq!(table.get("contact.md"), Some("new"));
    assert_eq!(table.get("about.md"), Some("about"));
}

#[test]
fn bytes_that_are_no_utf8_are_refused() {
    let mut table = DocumentTable::new();
    assert!(table.insert("contact.md", b"kept".to_vec()));
    assert!(!table.insert("contact.md", vec![0x66, 0x6f, 0xff]));
    assert!(!table.insert("broken.md", vec![0xc3]));
    assert!(!table.insert("surrogate.md", vec![0xed, 0xa0, 0x80]));
    assert_eq!(table.get("contact.md"), Some("kept"));
    assert_eq!(table.get("broken.md"), None);
    assert!(!table.insert("overlong.md", vec![0xc0, 0x80]));
    assert!(!table.insert("beyond.md", vec![0xf4, 0x90, 0x80, 0x80]));
    assert!(!table.insert("five.md", vec![0xf8, 0x88, 0x80, 0x80, 0x80]));
    assert!(!table.insert("lone.md", vec![0x80]));
    assert!(table.insert("last.md", vec![0xf4, 0x8f, 0xbf, 0xbf]));
    assert_eq!(table.get("last.md"), Some("\u{10ffff}"));
    assert!(table.insert("empty.md", Vec::new()));
    assert_eq!(table.get("empty.md"), Some(""));
}
