//! Keyboard events and the bytes they send to the remote terminal.

use vstd::prelude::*;

verus! {

/// What `Ctrl-A`, the command prefix, sends when it is meant for the peer.
pub const COMMAND_KEY: u8 = 0x01;

/// The escape byte.
pub const ESC: u8 = 0x1b;

/// A key.
#[derive(Clone, Copy, Debug, PartialEq, Eq, Structural)]
pub enum KeyCode {
    Char(char),
    Enter,
    Backspace,
    Tab,
    BackTab,
    Esc,
    Up,
    Down,
    Left,
    Right,
    Home,
    End,
    Insert,
    Delete,
    PageUp,
    PageDown,
    F(u8),
    /// Any other key; none of them has a terminal encoding.
    Other,
}

/// The modifiers that matter here.
#[derive(Clone, Copy, Debug, PartialEq, Eq, Structural)]
pub struct KeyModifiers {
    pub control: bool,
    pub alt: bool,
}

/// Whether a key went down, stayed down or came up.
#[derive(Clone, Copy, Debug, PartialEq, Eq, Structural)]
pub enum KeyEventKind {
    Press,
    Repeat,
    Release,
}

/// A keyboard event.
#[derive(Clone, Copy, Debug, PartialEq, Eq, Structural)]
pub struct KeyEvent {
    pub code: KeyCode,
    pub modifiers: KeyModifiers,
    pub kind: KeyEventKind,
}

impl KeyEvent {
    /// A key press.
    pub fn new(code: KeyCode, modifiers: KeyModifiers) -> (key: Self)
        ensures
            key == (KeyEvent { code, modifiers, kind: KeyEventKind::Press }),
    {
        KeyEvent { code, modifiers, kind: KeyEventKind::Press }
    }
}

// ---------------------------------------------------------------------------
// What each key sends
// ---------------------------------------------------------------------------

/// Whether the key is `Ctrl-A`.
pub open spec fn is_prefix(key: KeyEvent) -> bool {
    key.modifiers.control && (key.code == KeyCode::Char('a') || key.code == KeyCode::Char('A'))
}

/// The position of a letter in the alphabet, from one, in either case.
pub open spec fn letter_number(character: char) -> Option<int> {
    if 'a' <= character <= 'z' {
        Some(character as int - 'a' as int + 1)
    } else if 'A' <= character <= 'Z' {
        Some(character as int - 'A' as int + 1)
    } else {
        None
    }
}

/// The ASCII control code of a character typed with `Ctrl`.
pub open spec fn control_code(character: char) -> Option<u8> {
    match letter_number(character) {
        Some(number) => Some(number as u8),
        None => if character == ' ' || character == '@' {
            Some(0x00u8)
        } else if character == '[' {
            Some(0x1bu8)
        } else if character == '\\' || character == '4' {
            Some(0x1cu8)
        } else if character == ']' || character == '5' {
            Some(0x1du8)
        } else if character == '^' || character == '6' {
            Some(0x1eu8)
        } else if character == '_' || character == '7' {
            Some(0x1fu8)
        } else if character == '?' {
            Some(0x7fu8)
        } else {
            None
        },
    }
}

/// The escape sequence `ESC O` and a final byte.
pub open spec fn ss3(last: char) -> Seq<u8> {
    seq![ESC, 'O' as u8, last as u8]
}

/// The escape sequence `ESC [` and a final byte.
pub open spec fn csi(last: char) -> Seq<u8> {
    seq![ESC, '[' as u8, last as u8]
}

/// The escape sequence `ESC [`, one digit and a tilde.
pub open spec fn csi_tilde(digit: char) -> Seq<u8> {
    seq![ESC, '[' as u8, digit as u8, '~' as u8]
}

/// The escape sequence `ESC [`, two digits and a tilde.
pub open spec fn csi_tilde2(tens: char, units: char) -> Seq<u8> {
    seq![ESC, '[' as u8, tens as u8, units as u8, '~' as u8]
}

/// The escape sequence of a function key, from F1 to F12.
pub open spec fn function_sequence(number: u8) -> Option<Seq<u8>> {
    match number {
        1u8 => Some(ss3('P')),
        2u8 => Some(ss3('Q')),
        3u8 => Some(ss3('R')),
        4u8 => Some(ss3('S')),
        5u8 => Some(csi_tilde2('1', '5')),
        6u8 => Some(csi_tilde2('1', '7')),
        7u8 => Some(csi_tilde2('1', '8')),
        8u8 => Some(csi_tilde2('1', '9')),
        9u8 => Some(csi_tilde2('2', '0')),
        10u8 => Some(csi_tilde2('2', '1')),
        11u8 => Some(csi_tilde2('2', '3')),
        12u8 => Some(csi_tilde2('2', '4')),
        _ => None,
    }
}

/// What a key sends when `Alt` is not held.
pub open spec fn plain_bytes(code: KeyCode, control: bool) -> Option<Seq<u8>> {
    match code {
        KeyCode::Char(character) => if control {
            match control_code(character) {
                Some(byte) => Some(seq![byte]),
                None => None,
            }
        } else {
            Some(vstd::utf8::encode_scalar(character as u32))
        },
        KeyCode::Enter => Some(seq!['\r' as u8]),
        KeyCode::Backspace => Some(seq![0x7fu8]),
        KeyCode::Tab => Some(seq!['\t' as u8]),
        KeyCode::BackTab => Some(csi('Z')),
        KeyCode::Esc => Some(seq![ESC]),
        KeyCode::Up => Some(csi('A')),
        KeyCode::Down => Some(csi('B')),
        KeyCode::Right => Some(csi('C')),
        KeyCode::Left => Some(csi('D')),
        KeyCode::Home => Some(csi('H')),
        KeyCode::End => Some(csi('F')),
        KeyCode::Insert => Some(csi_tilde('2')),
        KeyCode::Delete => Some(csi_tilde('3')),
        KeyCode::PageUp => Some(csi_tilde('5')),
        KeyCode::PageDown => Some(csi_tilde('6')),
        KeyCode::F(number) => function_sequence(number),
        KeyCode::Other => None,
    }
}

/// What a key sends: `Alt` puts an escape byte in front.
pub open spec fn key_bytes(key: KeyEvent) -> Option<Seq<u8>> {
    match plain_bytes(key.code, key.modifiers.control) {
        Some(bytes) => Some(
            if key.modifiers.alt {
                seq![ESC] + bytes
            } else {
                bytes
            },
        ),
        None => None,
    }
}

// ---------------------------------------------------------------------------
// The encoder
// ---------------------------------------------------------------------------

/// Whether the key is the command prefix, `Ctrl-A`.
pub fn is_command_key(key: KeyEvent) -> (result: bool)
    ensures
        result == is_prefix(key),
{
    key.modifiers.control && matches!(key.code, KeyCode::Char('a') | KeyCode::Char('A'))
}

/// The bytes that a key sends to the peer, if it sends any.
pub fn key_to_telnet_bytes(key: KeyEvent) -> (result: Option<Vec<u8>>)
    ensures
        match key_bytes(key) {
            Some(bytes) => result matches Some(sent) && sent@ == bytes,
            None => result is None,
        },
{
    let mut bytes: Vec<u8> = match key.code {
        KeyCode::Char(character) if key.modifiers.control => match control_byte(character) {
            Some(byte) => vec![byte],
            None => {
                return None;
            },
        },
        KeyCode::Char(character) => utf8_bytes(character),
        KeyCode::Enter => vec!['\r' as u8],
        KeyCode::Backspace => vec![0x7f],
        KeyCode::Tab => vec!['\t' as u8],
        KeyCode::BackTab => vec![ESC, '[' as u8, 'Z' as u8],
        KeyCode::Esc => vec![ESC],
        KeyCode::Up => vec![ESC, '[' as u8, 'A' as u8],
        KeyCode::Down => vec![ESC, '[' as u8, 'B' as u8],
        KeyCode::Right => vec![ESC, '[' as u8, 'C' as u8],
        KeyCode::Left => vec![ESC, '[' as u8, 'D' as u8],
        KeyCode::Home => vec![ESC, '[' as u8, 'H' as u8],
        KeyCode::End => vec![ESC, '[' as u8, 'F' as u8],
        KeyCode::Insert => vec![ESC, '[' as u8, '2' as u8, '~' as u8],
        KeyCode::Delete => vec![ESC, '[' as u8, '3' as u8, '~' as u8],
        KeyCode::PageUp => vec![ESC, '[' as u8, '5' as u8, '~' as u8],
        KeyCode::PageDown => vec![ESC, '[' as u8, '6' as u8, '~' as u8],
        KeyCode::F(number) => match function_key_bytes(number) {
            Some(bytes) => bytes,
            None => {
                return None;
            },
        },
        KeyCode::Other => {
            return None;
        },
    };
    if key.modifiers.alt {
        let ghost plain = bytes@;
        bytes.insert(0, ESC);
        assert(bytes@ == seq![ESC] + plain);
    }
    Some(bytes)
}

/// The control code of a character, if it has one.
pub fn control_byte(character: char) -> (result: Option<u8>)
    ensures
        result == control_code(character),
{
    match character {
        ' ' | '@' => Some(0x00),
        'a'..='z' => Some((character as u8 - 'a' as u8) + 1),
        'A'..='Z' => Some((character as u8 - 'A' as u8) + 1),
        '[' => Some(0x1b),
        '\\' | '4' => Some(0x1c),
        ']' | '5' => Some(0x1d),
        '^' | '6' => Some(0x1e),
        '_' | '7' => Some(0x1f),
        '?' => Some(0x7f),
        _ => None,
    }
}

/// The escape sequence of a function key, if it has one.
pub fn function_key_bytes(number: u8) -> (result: Option<Vec<u8>>)
    ensures
        match function_sequence(number) {
            Some(bytes) => result matches Some(sent) && sent@ == bytes,
            None => result is None,
        },
{
    match number {
        1 => Some(vec![ESC, 'O' as u8, 'P' as u8]),
        2 => Some(vec![ESC, 'O' as u8, 'Q' as u8]),
        3 => Some(vec![ESC, 'O' as u8, 'R' as u8]),
        4 => Some(vec![ESC, 'O' as u8, 'S' as u8]),
        5 => Some(vec![ESC, '[' as u8, '1' as u8, '5' as u8, '~' as u8]),
        6 => Some(vec![ESC, '[' as u8, '1' as u8, '7' as u8, '~' as u8]),
        7 => Some(vec![ESC, '[' as u8, '1' as u8, '8' as u8, '~' as u8]),
        8 => Some(vec![ESC, '[' as u8, '1' as u8, '9' as u8, '~' as u8]),
        9 => Some(vec![ESC, '[' as u8, '2' as u8, '0' as u8, '~' as u8]),
        10 => Some(vec![ESC, '[' as u8, '2' as u8, '1' as u8, '~' as u8]),
        11 => Some(vec![ESC, '[' as u8, '2' as u8, '3' as u8, '~' as u8]),
        12 => Some(vec![ESC, '[' as u8, '2' as u8, '4' as u8, '~' as u8]),
        _ => None,
    }
}

/// The UTF-8 encoding of one character.
pub fn utf8_bytes(character: char) -> (bytes: Vec<u8>)
    ensures
        bytes@ == vstd::utf8::encode_scalar(character as u32),
{
    let scalar: u32 = character as u32;
    if scalar < 0x80 {
        vec![(scalar & 0x7f) as u8]
    } else if scalar < 0x800 {
        vec![0xc0 | ((scalar >> 6) & 0x1f) as u8, 0x80 | (scalar & 0x3f) as u8]
    } else if scalar < 0x10000 {
        vec![
            0xe0 | ((scalar >> 12) & 0x0f) as u8,
            0x80 | ((scalar >> 6) & 0x3f) as u8,
            0x80 | (scalar & 0x3f) as u8,
        ]
    } else {
        vec![
            0xf0 | ((scalar >> 18) & 0x07) as u8,
            0x80 | ((scalar >> 12) & 0x3f) as u8,
            0x80 | ((scalar >> 6) & 0x3f) as u8,
            0x80 | (scalar & 0x3f) as u8,
        ]
    }
}

// ---------------------------------------------------------------------------
// Laws
// ---------------------------------------------------------------------------

/// Holding `Alt` changes nothing but an escape byte in front, and never makes
/// a key send something that sends nothing without it.
pub proof fn law_alt_prefixes_escape(code: KeyCode, control: bool, kind: KeyEventKind)
    ensures
        ({
            let plain = key_bytes(
                KeyEvent { code, modifiers: KeyModifiers { control, alt: false }, kind },
            );
            let with_alt = key_bytes(
                KeyEvent { code, modifiers: KeyModifiers { control, alt: true }, kind },
            );
            match plain {
                Some(bytes) => with_alt == Some(seq![ESC] + bytes),
                None => with_alt is None,
            }
        }),
{
}

/// `Ctrl` and a letter send the same control code in either case.
pub proof fn law_control_ignores_case(lower: char, upper: char)
    requires
        'a' <= lower <= 'z',
        upper as int == lower as int - 'a' as int + 'A' as int,
    ensures
        control_code(upper) == control_code(lower),
        control_code(lower) == Some((lower as int - 'a' as int + 1) as u8),
{
}

/// What `Ctrl` and a character send is an ASCII control code.
pub proof fn law_control_codes_are_ascii_controls(character: char)
    ensures
        control_code(character) matches Some(byte) ==> byte < 0x20 || byte == 0x7f,
{
}

/// The command prefix, were it sent, is the one byte that stands for it.
pub proof fn law_prefix_encodes_as_command_key(key: KeyEvent)
    requires
        is_prefix(key),
        !key.modifiers.alt,
    ensures
        key_bytes(key) == Some(seq![COMMAND_KEY]),
{
}

/// A character typed without modifiers is sent as itself: what is sent is valid
/// UTF-8 and decodes to that one character.
pub proof fn law_typed_characters_are_sent_in_utf8(character: char, kind: KeyEventKind)
    ensures
        ({
            let key = KeyEvent {
                code: KeyCode::Char(character),
                modifiers: KeyModifiers { control: false, alt: false },
                kind,
            };
            &&& key_bytes(key) matches Some(bytes)
            &&& bytes == vstd::utf8::encode_utf8(seq![character])
            &&& vstd::utf8::valid_utf8(bytes)
            &&& vstd::utf8::decode_utf8(bytes) == seq![character]
        }),
{
    let text = seq![character];
    assert(text.drop_first() == Seq::<char>::empty());
    reveal_with_fuel(vstd::utf8::encode_utf8, 2);
    vstd::utf8::encode_utf8_valid_utf8(text);
    vstd::utf8::encode_utf8_decode_utf8(text);
    assert(vstd::utf8::encode_utf8(text) == vstd::utf8::encode_scalar(character as u32));
}

/// `Ctrl` clears the upper bits of the characters from `@` to `_`, and of the
/// letters in lower case; the digits from `4` to `7` stand for the codes that
/// precede a space, a space for zero and a question mark for delete. No other
/// character has a control code, and none is sent.
pub proof fn law_control_clears_the_upper_bits(character: char, alt: bool, kind: KeyEventKind)
    ensures
        ({
            let code = character as int;
            let sent: Option<int> = if 0x40 <= code <= 0x5f {
                Some(code - 0x40)
            } else if 0x61 <= code <= 0x7a {
                Some(code - 0x60)
            } else if 0x34 <= code <= 0x37 {
                Some(code - 0x18)
            } else if code == 0x20 {
                Some(0)
            } else if code == 0x3f {
                Some(0x7f)
            } else {
                None
            };
            let key = KeyEvent {
                code: KeyCode::Char(character),
                modifiers: KeyModifiers { control: true, alt },
                kind,
            };
            match sent {
                Some(byte) => {
                    &&& control_code(character) == Some(byte as u8)
                    &&& key_bytes(key) == Some(
                        if alt {
                            seq![0x1bu8, byte as u8]
                        } else {
                            seq![byte as u8]
                        },
                    )
                },
                None => control_code(character) is None && key_bytes(key) is None,
            }
        }),
{
    if let Some(byte) = control_code(character) {
        assert(seq![0x1bu8] + seq![byte] == seq![0x1bu8, byte]);
    }
}

/// What the keys of a terminal send, whether or not `Ctrl` is held: arrows,
/// `Home`, `End` and Back Tab a letter behind `ESC [`, the editing keys a
/// digit and a tilde, and the others the control character that is theirs.
pub proof fn law_terminal_keys(control: bool, kind: KeyEventKind)
    ensures
        ({
            let sent = |code: KeyCode|
                key_bytes(
                    KeyEvent { code, modifiers: KeyModifiers { control, alt: false }, kind },
                );
            &&& sent(KeyCode::Up) == Some(seq![0x1bu8, 0x5b, 0x41])
            &&& sent(KeyCode::Down) == Some(seq![0x1bu8, 0x5b, 0x42])
            &&& sent(KeyCode::Right) == Some(seq![0x1bu8, 0x5b, 0x43])
            &&& sent(KeyCode::Left) == Some(seq![0x1bu8, 0x5b, 0x44])
            &&& sent(KeyCode::End) == Some(seq![0x1bu8, 0x5b, 0x46])
            &&& sent(KeyCode::Home) == Some(seq![0x1bu8, 0x5b, 0x48])
            &&& sent(KeyCode::BackTab) == Some(seq![0x1bu8, 0x5b, 0x5a])
            &&& sent(KeyCode::Insert) == Some(seq![0x1bu8, 0x5b, 0x32, 0x7e])
            &&& sent(KeyCode::Delete) == Some(seq![0x1bu8, 0x5b, 0x33, 0x7e])
            &&& sent(KeyCode::PageUp) == Some(seq![0x1bu8, 0x5b, 0x35, 0x7e])
            &&& sent(KeyCode::PageDown) == Some(seq![0x1bu8, 0x5b, 0x36, 0x7e])
            &&& sent(KeyCode::Enter) == Some(seq![0x0du8])
            &&& sent(KeyCode::Tab) == Some(seq![0x09u8])
            &&& sent(KeyCode::Esc) == Some(seq![0x1bu8])
            &&& sent(KeyCode::Backspace) == Some(seq![0x7fu8])
            &&& sent(KeyCode::Other) is None
        }),
{
}

/// F1 to F4 send `ESC O` and the letters from `P` on; F5 to F12 send a number
/// of two digits between `ESC [` and a tilde, which counts on from fifteen and
/// leaves out sixteen and twenty-two; no other function key sends anything.
pub proof fn law_function_keys(number: u8, control: bool, kind: KeyEventKind)
    ensures
        ({
            let key = KeyEvent {
                code: KeyCode::F(number),
                modifiers: KeyModifiers { control, alt: false },
                kind,
            };
            if 1 <= number <= 4 {
                key_bytes(key) == Some(seq![0x1bu8, 0x4f, (0x4f + number) as u8])
            } else if 5 <= number <= 12 {
                &&& key_bytes(key) matches Some(bytes)
                &&& bytes.len() == 5
                &&& bytes[0] == 0x1b
                &&& bytes[1] == 0x5b
                &&& 0x30 <= bytes[2] <= 0x39
                &&& 0x30 <= bytes[3] <= 0x39
                &&& 10 * (bytes[2] - 0x30) + (bytes[3] - 0x30) == (if number == 5 {
                    15
                } else if number <= 10 {
                    number + 11
                } else {
                    number + 12
                })
                &&& bytes[4] == 0x7e
            } else {
                key_bytes(key) is None
            }
        }),
{
}

/// Arrows, Home, End, Page Up, Page Down, Insert, Delete and F1 to F12 all
/// send an escape sequence, whatever modifiers are held.
pub proof fn law_special_keys_send_escape_sequences(key: KeyEvent)
    requires
        match key.code {
            KeyCode::Up | KeyCode::Down | KeyCode::Left | KeyCode::Right => true,
            KeyCode::Home | KeyCode::End | KeyCode::PageUp | KeyCode::PageDown => true,
            KeyCode::Insert | KeyCode::Delete | KeyCode::BackTab => true,
            KeyCode::F(number) => 1 <= number <= 12,
            _ => false,
        },
    ensures
        key_bytes(key) matches Some(bytes) && bytes.len() >= 3 && bytes[0] == ESC,
{
}

} // verus!
