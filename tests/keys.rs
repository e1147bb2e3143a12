use kiro::keys::{decode_escape, key_of_byte};
use kiro::KEY_ACTION;

#[test]
fn control_bytes_map_to_their_keys() {
    assert_eq!(key_of_byte(13), Some(KEY_ACTION::ENTER));
    assert_eq!(key_of_byte(127), Some(KEY_ACTION::BACKSPACE));
    assert_eq!(key_of_byte(17), Some(KEY_ACTION::CTRL_Q));
    assert_eq!(key_of_byte(19), Some(KEY_ACTION::CTRL_S));
    assert_eq!(key_of_byte(27), Some(KEY_ACTION::ESC));
    assert_eq!(key_of_byte(9), Some(KEY_ACTION::TAB));
}

#[test]
fn printable_bytes_are_no_keys() {
    assert_eq!(key_of_byte(b'a'), None);
    assert_eq!(key_of_byte(b' '), None);
    assert_eq!(key_of_byte(1), None);
    for b in 0..=255u8 {
        if let Some(k) = key_of_byte(b) {
            assert_eq!(k.code(), b as u32);
        }
    }
}

#[test]
fn escape_sequences_decode_to_keys() {
    assert_eq!(decode_escape(b"[A"), Some(KEY_ACTION::ARROW_UP));
    assert_eq!(decode_escape(b"[B"), Some(KEY_ACTION::ARROW_DOWN));
    assert_eq!(decode_escape(b"[C"), Some(KEY_ACTION::ARROW_RIGHT));
    assert_eq!(decode_escape(b"[D"), Some(KEY_ACTION::ARROW_LEFT));
    assert_eq!(decode_escape(b"[H"), Some(KEY_ACTION::HOME_KEY));
    assert_eq!(decode_escape(b"OF"), Some(KEY_ACTION::END_KEY));
    assert_eq!(decode_escape(b"[3~"), Some(KEY_ACTION::DEL_KEY));
    assert_eq!(decode_escape(b"[5~"), Some(KEY_ACTION::PAGE_UP));
    assert_eq!(decode_escape(b"[6~"), Some(KEY_ACTION::PAGE_DOWN));
    assert_eq!(decode_escape(b"[7~"), Some(KEY_ACTION::HOME_KEY));
    assert_eq!(decode_escape(b"[4~"), Some(KEY_ACTION::END_KEY));
}

#[test]
fn unknown_escape_sequences_decode_to_nothing() {
    assert_eq!(decode_escape(b""), None);
    assert_eq!(decode_escape(b"["), None);
    assert_eq!(decode_escape(b"[Z"), None);
    assert_eq!(decode_escape(b"[3"), None);
    assert_eq!(decode_escape(b"[9~"), None);
    assert_eq!(decode_escape(b"xA"), None);
}
