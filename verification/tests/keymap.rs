use microtun_telnet::keymap::{
    control_byte, function_key_bytes, is_command_key, key_to_telnet_bytes, utf8_bytes, KeyCode,
    KeyEvent, KeyModifiers, COMMAND_KEY,
};

const NONE: KeyModifiers = KeyModifiers { control: false, alt: false };
const CONTROL: KeyModifiers = KeyModifiers { control: true, alt: false };
const ALT: KeyModifiers = KeyModifiers { control: false, alt: true };

fn sent(code: KeyCode, modifiers: KeyModifiers) -> Option<Vec<u8>> {
    key_to_telnet_bytes(KeyEvent::new(code, modifiers))
}

#[test]
fn terminal_control_key_encoding_matches_ascii() {
    assert_eq!(control_byte('c'), Some(0x03));
    assert_eq!(control_byte('a'), Some(COMMAND_KEY));
    assert_eq!(control_byte(']'), Some(0x1d));
    assert_eq!(control_byte('5'), Some(0x1d));
    assert_eq!(function_key_bytes(1).as_deref(), Some(&b"\x1bOP"[..]));
    assert_eq!(function_key_bytes(12).as_deref(), Some(&b"\x1b[24~"[..]));
}

#[test]
fn uses_ctrl_a_command_prefix() {
    assert!(is_command_key(KeyEvent::new(KeyCode::Char('a'), CONTROL)));
    assert!(is_command_key(KeyEvent::new(KeyCode::Char('A'), CONTROL)));
    assert!(!is_command_key(KeyEvent::new(KeyCode::Char('a'), NONE)));
}

#[test]
fn control_codes_cover_the_whole_table() {
    let table: [(char, u8); 15] = [
        (' ', 0x00),
        ('@', 0x00),
        ('z', 0x1a),
        ('Z', 0x1a),
        ('[', 0x1b),
        ('\\', 0x1c),
        ('4', 0x1c),
        (']', 0x1d),
        ('5', 0x1d),
        ('^', 0x1e),
        ('6', 0x1e),
        ('_', 0x1f),
        ('7', 0x1f),
        ('?', 0x7f),
        ('M', 0x0d),
    ];
    for (character, byte) in table {
        assert_eq!(control_byte(character), Some(byte));
    }
    assert_eq!(control_byte('1'), None);
    assert_eq!(control_byte('\u{e9}'), None);
}

#[test]
fn letters_send_the_same_control_code_in_either_case() {
    for letter in 'a'..='z' {
        assert_eq!(control_byte(letter), control_byte(letter.to_ascii_uppercase()));
    }
}

#[test]
fn special_keys_send_escape_sequences() {
    let table: [(KeyCode, &[u8]); 16] = [
        (KeyCode::Enter, b"\r"),
        (KeyCode::Backspace, b"\x7f"),
        (KeyCode::Tab, b"\t"),
        (KeyCode::BackTab, b"\x1b[Z"),
        (KeyCode::Esc, b"\x1b"),
        (KeyCode::Up, b"\x1b[A"),
        (KeyCode::Down, b"\x1b[B"),
        (KeyCode::Right, b"\x1b[C"),
        (KeyCode::Left, b"\x1b[D"),
        (KeyCode::Home, b"\x1b[H"),
        (KeyCode::End, b"\x1b[F"),
        (KeyCode::Insert, b"\x1b[2~"),
        (KeyCode::Delete, b"\x1b[3~"),
        (KeyCode::PageUp, b"\x1b[5~"),
        (KeyCode::PageDown, b"\x1b[6~"),
        (KeyCode::F(5), b"\x1b[15~"),
    ];
    for (code, bytes) in table {
        assert_eq!(sent(code, NONE).as_deref(), Some(bytes));
    }
}

#[test]
fn keys_without_an_encoding_send_nothing() {
    assert_eq!(sent(KeyCode::Other, NONE), None);
    assert_eq!(sent(KeyCode::F(0), NONE), None);
    assert_eq!(sent(KeyCode::F(13), ALT), None);
    assert_eq!(sent(KeyCode::Char('!'), CONTROL), None);
}

#[test]
fn alt_puts_an_escape_byte_in_front() {
    assert_eq!(sent(KeyCode::Char('x'), ALT).as_deref(), Some(&b"\x1bx"[..]));
    assert_eq!(sent(KeyCode::Up, ALT).as_deref(), Some(&b"\x1b\x1b[A"[..]));
    let both = KeyModifiers { control: true, alt: true };
    assert_eq!(sent(KeyCode::Char('c'), both).as_deref(), Some(&b"\x1b\x03"[..]));
}

#[test]
fn characters_are_sent_in_utf8() {
    for character in [
        'a', '\u{7f}', '\u{80}', '\u{e9}', '\u{7ff}', '\u{800}', '\u{20ac}', '\u{ffff}',
        '\u{10000}', '\u{1f600}', '\u{10ffff}',
    ] {
        assert_eq!(utf8_bytes(character), character.to_string().into_bytes());
    }
    assert_eq!(sent(KeyCode::Char('\u{20ac}'), NONE), Some(vec![0xe2, 0x82, 0xac]));
}
