//! Keys and mouse gestures as plain values, and the bytes a key becomes when
//! it is handed to a session's terminal.

use vstd::prelude::*;
use vstd::string::*;
use vstd::utf8::*;

verus! {

/// A key, without its modifiers.
#[derive(Debug, Clone, Copy, PartialEq, Eq, Structural)]
pub enum KeyCode {
    Backspace,
    Enter,
    Left,
    Right,
    Up,
    Down,
    Home,
    End,
    PageUp,
    PageDown,
    Tab,
    BackTab,
    Delete,
    Insert,
    F(u8),
    Char(char),
    Esc,
    /// A key nothing in the application is bound to.
    Other,
}

/// The modifiers held down with a key.
#[derive(Debug, Clone, Copy, PartialEq, Eq, Structural)]
pub struct KeyModifiers {
    pub shift: bool,
    pub control: bool,
    pub alt: bool,
}

impl KeyModifiers {
    pub open spec fn spec_none() -> KeyModifiers {
        KeyModifiers { shift: false, control: false, alt: false }
    }

    pub open spec fn spec_control() -> KeyModifiers {
        KeyModifiers { shift: false, control: true, alt: false }
    }

    pub open spec fn spec_shift() -> KeyModifiers {
        KeyModifiers { shift: true, control: false, alt: false }
    }

    /// No modifier.
    pub fn none() -> (r: KeyModifiers)
        ensures
            r == Self::spec_none(),
    {
        KeyModifiers { shift: false, control: false, alt: false }
    }

    /// Ctrl alone.
    pub fn control() -> (r: KeyModifiers)
        ensures
            r == Self::spec_control(),
    {
        KeyModifiers { shift: false, control: true, alt: false }
    }

    /// Shift alone.
    pub fn shift() -> (r: KeyModifiers)
        ensures
            r == Self::spec_shift(),
    {
        KeyModifiers { shift: true, control: false, alt: false }
    }
}

/// One key press.
#[derive(Debug, Clone, Copy, PartialEq, Eq, Structural)]
pub struct KeyEvent {
    pub code: KeyCode,
    pub modifiers: KeyModifiers,
}

impl KeyEvent {
    pub fn new(code: KeyCode, modifiers: KeyModifiers) -> (r: KeyEvent)
        ensures
            r == (KeyEvent { code, modifiers }),
    {
        KeyEvent { code, modifiers }
    }

    /// The press of `code` with nothing held.
    pub open spec fn spec_plain(code: KeyCode) -> KeyEvent {
        KeyEvent { code, modifiers: KeyModifiers::spec_none() }
    }

    pub fn plain(code: KeyCode) -> (r: KeyEvent)
        ensures
            r == Self::spec_plain(code),
    {
        KeyEvent::new(code, KeyModifiers::none())
    }
}

/// Up, or its letter.
pub open spec fn is_up(code: KeyCode) -> bool {
    code == KeyCode::Up || code == KeyCode::Char('k')
}

pub fn up_key(code: KeyCode) -> (r: bool)
    ensures
        r == is_up(code),
{
    code == KeyCode::Up || code == KeyCode::Char('k')
}

/// Down, or its letter.
pub open spec fn is_down(code: KeyCode) -> bool {
    code == KeyCode::Down || code == KeyCode::Char('j')
}

pub fn down_key(code: KeyCode) -> (r: bool)
    ensures
        r == is_down(code),
{
    code == KeyCode::Down || code == KeyCode::Char('j')
}

/// The keys that leave a dialog.
pub open spec fn is_leave(code: KeyCode) -> bool {
    code == KeyCode::Esc || code == KeyCode::Char('q')
}

pub fn leave_key(code: KeyCode) -> (r: bool)
    ensures
        r == is_leave(code),
{
    code == KeyCode::Esc || code == KeyCode::Char('q')
}

/// What the mouse did.
#[derive(Debug, Clone, Copy, PartialEq, Eq, Structural)]
pub enum MouseEventKind {
    /// The left button went down.
    Click,
    ScrollUp,
    ScrollDown,
    /// Any other gesture; nothing answers it.
    Other,
}

/// A gesture and the cell it landed on.
#[derive(Debug, Clone, Copy, PartialEq, Eq, Structural)]
pub struct MouseEvent {
    pub kind: MouseEventKind,
    pub column: u16,
    pub row: u16,
}

/// The low byte of a character, with an ASCII letter in upper case.
pub open spec fn upper_byte(c: char) -> u8 {
    if 'a' <= c && c <= 'z' {
        (c as u8 - 32) as u8
    } else {
        c as u8
    }
}

/// The control byte behind Ctrl and `c`. A terminal library reports the raw
/// byte 0x00 as Ctrl+Space and 0x1c..=0x1f as Ctrl+4..=Ctrl+7; those come
/// back as themselves.
pub open spec fn control_byte(c: char) -> u8 {
    if c == ' ' {
        0
    } else if '4' <= c && c <= '7' {
        (c as u8 - '4' as u8 + 0x1c) as u8
    } else {
        upper_byte(c) ^ 0x40
    }
}

/// The bytes a key sends to a session, if it sends any.
pub open spec fn key_bytes(key: KeyEvent) -> Option<Seq<u8>> {
    match key.code {
        KeyCode::Char(c) => if key.modifiers.control {
            Some(seq![control_byte(c)])
        } else {
            Some(encode_utf8(seq![c]))
        },
        KeyCode::Enter => Some(seq![0x0du8]),
        KeyCode::Backspace => Some(seq![0x7fu8]),
        KeyCode::Tab => Some(seq![0x09u8]),
        KeyCode::Esc => Some(seq![0x1bu8]),
        KeyCode::Up => Some(seq![0x1bu8, 0x5bu8, 0x41u8]),
        KeyCode::Down => Some(seq![0x1bu8, 0x5bu8, 0x42u8]),
        KeyCode::Right => Some(seq![0x1bu8, 0x5bu8, 0x43u8]),
        KeyCode::Left => Some(seq![0x1bu8, 0x5bu8, 0x44u8]),
        _ => None,
    }
}

/// The view of an optional byte string.
pub open spec fn opt_bytes(b: Option<Vec<u8>>) -> Option<Seq<u8>> {
    match b {
        Some(b) => Some(b@),
        None => None,
    }
}

/// The bytes `key` sends to the session that owns the keyboard, `None` for a
/// key that sends nothing.
pub fn key_to_bytes(key: KeyEvent) -> (r: Option<Vec<u8>>)
    ensures
        opt_bytes(r) == key_bytes(key),
{
    match key.code {
        KeyCode::Char(c) => {
            if key.modifiers.control {
                let byte: u8 = if c == ' ' {
                    0
                } else if '4' <= c && c <= '7' {
                    c as u8 - 0x34 + 0x1c
                } else {
                    let upper: u8 = if 'a' <= c && c <= 'z' {
                        c as u8 - 32
                    } else {
                        #[verifier::truncate]
                        (c as u8)
                    };
                    upper ^ 0x40
                };
                let r: Vec<u8> = vec![byte];
                assert(r@ =~= seq![control_byte(c)]);
                Some(r)
            } else {
                let mut s = String::new();
                s.push(c);
                assert(s@ =~= seq![c]);
                Some(s.as_str().as_bytes_vec())
            }
        },
        KeyCode::Enter => some_bytes1(0x0d),
        KeyCode::Backspace => some_bytes1(0x7f),
        KeyCode::Tab => some_bytes1(0x09),
        KeyCode::Esc => some_bytes1(0x1b),
        KeyCode::Up => some_csi(0x41),
        KeyCode::Down => some_csi(0x42),
        KeyCode::Right => some_csi(0x43),
        KeyCode::Left => some_csi(0x44),
        _ => None,
    }
}

fn some_bytes1(b: u8) -> (r: Option<Vec<u8>>)
    ensures
        opt_bytes(r) == Some(seq![b]),
{
    let v: Vec<u8> = vec![b];
    assert(v@ =~= seq![b]);
    Some(v)
}

fn some_csi(b: u8) -> (r: Option<Vec<u8>>)
    ensures
        opt_bytes(r) == Some(seq![0x1bu8, 0x5bu8, b]),
{
    let v: Vec<u8> = vec![0x1b, 0x5b, b];
    assert(v@ =~= seq![0x1bu8, 0x5bu8, b]);
    Some(v)
}

/// The control bytes a terminal library relabels reach a session as
/// themselves: Ctrl+4..=Ctrl+7 are 0x1c..=0x1f, Ctrl+Space is 0x00.
pub proof fn relabeled_control_bytes_are_restored(key: KeyEvent, c: char)
    requires
        key.modifiers.control,
        key.code == KeyCode::Char(c),
        c == ' ' || '4' <= c && c <= '7',
    ensures
        key_bytes(key) == Some(
            seq![(if c == ' ' { 0 } else { (0x1c + (c as int - '4' as int)) as u8 })],
        ),
{
}

/// Ctrl and a letter send the letter's place in the alphabet, whichever case
/// the letter was reported in.
pub proof fn control_letters_are_their_alphabet_index(n: u8)
    requires
        1 <= n <= 26,
    ensures
        control_byte((n + 0x60) as char) == n,
        control_byte((n + 0x40) as char) == n,
{
    assert(forall|n: u8| 1 <= n <= 26 ==> #[trigger] ((n + 0x40) as u8 ^ 0x40) == n) by (bit_vector);
    assert(((n + 0x40) as u8 ^ 0x40) == n);
}

/// The cursor keys are the ANSI sequences a terminal sends for them: an
/// escape, a bracket, and `A` to `D` for up, down, right and left.
pub proof fn cursor_keys_send_their_sequences(modifiers: KeyModifiers, code: KeyCode)
    requires
        code is Up || code is Down || code is Right || code is Left,
    ensures
        ({
            let sent = key_bytes(KeyEvent { code, modifiers });
            &&& sent is Some
            &&& sent.unwrap().len() == 3
            &&& sent.unwrap()[0] == 27
            &&& sent.unwrap()[1] == '[' as u8
            &&& sent.unwrap()[2] == (if code is Up {
                'A'
            } else if code is Down {
                'B'
            } else if code is Right {
                'C'
            } else {
                'D'
            }) as u8
        }),
{
}

/// The editing keys are one byte each: a carriage return, a delete, a tab, an
/// escape. What is held with them makes no difference.
pub proof fn editing_keys_send_one_byte(modifiers: KeyModifiers, code: KeyCode)
    requires
        code is Enter || code is Backspace || code is Tab || code is Esc,
    ensures
        ({
            let sent = key_bytes(KeyEvent { code, modifiers });
            &&& sent is Some
            &&& sent.unwrap().len() == 1
            &&& code is Enter ==> sent.unwrap()[0] == 13
            &&& code is Backspace ==> sent.unwrap()[0] == 127
            &&& code is Tab ==> sent.unwrap()[0] == 9
            &&& code is Esc ==> sent.unwrap()[0] == 27
        }),
{
}

/// A character without Ctrl is sent as its UTF-8 bytes, which a reader turns
/// back into that character and nothing else.
pub proof fn characters_reach_the_session_as_themselves(key: KeyEvent, c: char)
    requires
        key.code == KeyCode::Char(c),
        !key.modifiers.control,
    ensures
        key_bytes(key) is Some,
        valid_utf8(key_bytes(key).unwrap()),
        decode_utf8(key_bytes(key).unwrap()) == seq![c],
{
    encode_utf8_valid_utf8(seq![c]);
    encode_utf8_decode_utf8(seq![c]);
}

/// Ctrl and a letter reach a session as the letter's place in the alphabet:
/// Ctrl+C is 3, Ctrl+D is 4, in either case.
pub proof fn control_letters_reach_the_session(key: KeyEvent, n: u8)
    requires
        1 <= n <= 26,
        key.modifiers.control,
        key.code == KeyCode::Char((n + 0x60) as char) || key.code == KeyCode::Char(
            (n + 0x40) as char,
        ),
    ensures
        key_bytes(key) == Some(seq![n]),
{
    control_letters_are_their_alphabet_index(n);
}

/// The keys no session reads send nothing.
pub proof fn other_keys_send_nothing(key: KeyEvent)
    ensures
        key_bytes(key) is None <==> {
            ||| key.code is Home
            ||| key.code is End
            ||| key.code is PageUp
            ||| key.code is PageDown
            ||| key.code is BackTab
            ||| key.code is Delete
            ||| key.code is Insert
            ||| key.code is F
            ||| key.code is Other
        },
{
}

/// Different keys are told apart: no two of the named keys send the same
/// bytes.
pub proof fn named_keys_are_told_apart(a: KeyEvent, b: KeyEvent)
    requires
        !(a.code is Char),
        !(b.code is Char),
        a.code != b.code,
        key_bytes(a) is Some,
    ensures
        key_bytes(a) != key_bytes(b),
{
    if key_bytes(b) is Some {
        let x = key_bytes(a).unwrap();
        let y = key_bytes(b).unwrap();
        assert(x.len() != y.len() || x.last() != y.last());
    }
}

/// The letters that stand for the arrows and for leaving are vi's, and only
/// those.
pub proof fn letters_stand_for_the_arrows(code: KeyCode)
    ensures
        is_up(code) <==> code is Up || code == KeyCode::Char('k'),
        is_down(code) <==> code is Down || code == KeyCode::Char('j'),
        is_leave(code) <==> code is Esc || code == KeyCode::Char('q'),
        !(is_up(code) && is_down(code)),
{
}

} // verus!
