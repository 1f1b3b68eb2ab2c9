use rcli::bytes::{bytes_equal, same_text};

#[test]
fn bytes_are_equal_when_every_byte_is() {
    assert!(bytes_equal(b"", b""));
    assert!(bytes_equal(b"abc", b"abc"));
    assert!(!bytes_equal(b"abc", b"abd"));
    assert!(!bytes_equal(b"abc", b"bbc"));
    assert!(!bytes_equal(b"abc", b"ab"));
    assert!(!bytes_equal(b"", b"a"));
    assert!(!bytes_equal(&[0x00, 0xff], &[0xff, 0x00]));
    assert!(!bytes_equal(&[0x80], &[0x00]));
    assert!(bytes_equal(&[0u8; 64], &[0u8; 64]));
}

#[test]
fn texts_are_the_same_character_by_character() {
    assert!(same_text("", ""));
    assert!(same_text("blake3", "blake3"));
    assert!(!same_text("blake3", "Blake3"));
    assert!(!same_text("blake3", "blake"));
    assert!(same_text("\u{e9}t\u{e9}", "\u{e9}t\u{e9}"));
    assert!(!same_text("\u{e9}", "e\u{301}"));
}
