//! The key symbol table: which symbolic key names exist, and the platform
//! codes each one stands for.

use vstd::prelude::*;

verus! {

/// Direction of a key event, as the input subsystems number it.
pub enum KeypressType {
    Release,
    Press,
    Repeat,
}

impl KeypressType {
    /// The numeric value that input subsystems use for this direction.
    pub fn value(&self) -> (r: i32)
        ensures
            r == match self {
                KeypressType::Release => 0i32,
                KeypressType::Press => 1i32,
                KeypressType::Repeat => 2i32,
            },
    {
        match self {
            KeypressType::Release => 0,
            KeypressType::Press => 1,
            KeypressType::Repeat => 2,
        }
    }
}

/// A resolved key: the platform code and whether the symbol needs shift held.
#[derive(Debug, Clone, Copy, Eq)]
pub struct Key {
    pub code: u16,
    pub shifted: bool,
}

/// Two keys are the same key when their codes are equal; the shift flag is
/// only a note on how the symbol is typed.
impl PartialEq for Key {
    fn eq(&self, o: &Key) -> (r: bool) {
        self.code == o.code
    }
}

impl vstd::std_specs::cmp::PartialEqSpecImpl for Key {
    open spec fn obeys_eq_spec() -> bool {
        true
    }

    open spec fn eq_spec(&self, o: &Key) -> bool {
        self.code == o.code
    }
}

/// One key transition.
#[derive(Debug, Clone, Copy, PartialEq, Eq)]
pub enum KeyEvent {
    Press(Key),
    Release(Key),
}

pub type KeyEvents = Vec<KeyEvent>;

impl KeyEvent {
    pub open spec fn key(self) -> Key {
        match self {
            KeyEvent::Press(k) => k,
            KeyEvent::Release(k) => k,
        }
    }

    /// The platform code of the key this transition acts on.
    pub fn code(&self) -> (r: u16)
        ensures
            r == self.key().code,
    {
        match self {
            KeyEvent::Press(key) => key.code,
            KeyEvent::Release(key) => key.code,
        }
    }
}

/// Why a key name could not be resolved.
#[derive(Debug, Clone, Copy, PartialEq, Eq)]
pub enum KeyError {
    UnknownKey,
}

/// The codes of one key: `windows` is the scan code (shared by the Linux
/// input subsystem), `mac` the macOS virtual key code.
#[derive(Debug, Clone, Copy)]
pub struct UniversalKeyCode {
    pub windows: u32,
    pub mac: u32,
}

/// The keys whose names are longer than one character.
#[derive(Debug, Clone, Copy, PartialEq, Eq)]
pub enum NamedKey {
    Backspace,
    LeftBrace,
    RightBrace,
    LeftCtrl,
    Semicolon,
    Grave,
    Shift,
    KpAsterisk,
    LeftAlt,
    Space,
    Kp7,
    Kp8,
    Kp9,
    KpMinus,
    Kp4,
    Kp5,
    Kp6,
    KpPlus,
    Kp1,
    Kp2,
    Kp3,
    Kp0,
}

/// Codes of the keys named by a single character.
pub open spec fn char_entry(c: char) -> Option<UniversalKeyCode> {
    match c {
        '1' => Some(UniversalKeyCode { windows: 2, mac: 18 }),
        '2' => Some(UniversalKeyCode { windows: 3, mac: 19 }),
        '3' => Some(UniversalKeyCode { windows: 4, mac: 20 }),
        '4' => Some(UniversalKeyCode { windows: 5, mac: 21 }),
        '5' => Some(UniversalKeyCode { windows: 6, mac: 23 }),
        '6' => Some(UniversalKeyCode { windows: 7, mac: 22 }),
        '7' => Some(UniversalKeyCode { windows: 8, mac: 26 }),
        '8' => Some(UniversalKeyCode { windows: 9, mac: 28 }),
        '9' => Some(UniversalKeyCode { windows: 10, mac: 25 }),
        '0' => Some(UniversalKeyCode { windows: 11, mac: 29 }),
        'q' => Some(UniversalKeyCode { windows: 16, mac: 12 }),
        'w' => Some(UniversalKeyCode { windows: 17, mac: 13 }),
        'e' => Some(UniversalKeyCode { windows: 18, mac: 14 }),
        'r' => Some(UniversalKeyCode { windows: 19, mac: 15 }),
        't' => Some(UniversalKeyCode { windows: 20, mac: 17 }),
        'y' => Some(UniversalKeyCode { windows: 21, mac: 16 }),
        'u' => Some(UniversalKeyCode { windows: 22, mac: 32 }),
        'i' => Some(UniversalKeyCode { windows: 23, mac: 34 }),
        'o' => Some(UniversalKeyCode { windows: 24, mac: 31 }),
        'p' => Some(UniversalKeyCode { windows: 25, mac: 35 }),
        'a' => Some(UniversalKeyCode { windows: 30, mac: 0 }),
        's' => Some(UniversalKeyCode { windows: 31, mac: 1 }),
        'd' => Some(UniversalKeyCode { windows: 32, mac: 2 }),
        'f' => Some(UniversalKeyCode { windows: 33, mac: 3 }),
        'g' => Some(UniversalKeyCode { windows: 34, mac: 5 }),
        'h' => Some(UniversalKeyCode { windows: 35, mac: 4 }),
        'j' => Some(UniversalKeyCode { windows: 36, mac: 38 }),
        'k' => Some(UniversalKeyCode { windows: 37, mac: 40 }),
        'l' => Some(UniversalKeyCode { windows: 38, mac: 37 }),
        'z' => Some(UniversalKeyCode { windows: 44, mac: 6 }),
        'x' => Some(UniversalKeyCode { windows: 45, mac: 7 }),
        'c' => Some(UniversalKeyCode { windows: 46, mac: 8 }),
        'v' => Some(UniversalKeyCode { windows: 47, mac: 9 }),
        'b' => Some(UniversalKeyCode { windows: 48, mac: 11 }),
        'n' => Some(UniversalKeyCode { windows: 49, mac: 45 }),
        'm' => Some(UniversalKeyCode { windows: 50, mac: 46 }),
        _ => None,
    }
}

/// The unshifted character that a shifted symbol is typed with.
pub open spec fn shift_base(c: char) -> Option<char> {
    match c {
        '!' => Some('1'),
        '@' => Some('2'),
        '#' => Some('3'),
        '$' => Some('4'),
        '%' => Some('5'),
        '^' => Some('6'),
        '&' => Some('7'),
        '*' => Some('8'),
        '(' => Some('9'),
        ')' => Some('0'),
        'A' => Some('a'),
        'B' => Some('b'),
        'C' => Some('c'),
        'D' => Some('d'),
        'E' => Some('e'),
        'F' => Some('f'),
        'G' => Some('g'),
        'H' => Some('h'),
        'I' => Some('i'),
        'J' => Some('j'),
        'K' => Some('k'),
        'L' => Some('l'),
        'M' => Some('m'),
        'N' => Some('n'),
        'O' => Some('o'),
        'P' => Some('p'),
        'Q' => Some('q'),
        'R' => Some('r'),
        'S' => Some('s'),
        'T' => Some('t'),
        'U' => Some('u'),
        'V' => Some('v'),
        'W' => Some('w'),
        'X' => Some('x'),
        'Y' => Some('y'),
        'Z' => Some('z'),
        _ => None,
    }
}

/// Codes of the keys with long names.
pub open spec fn named_entry(k: NamedKey) -> UniversalKeyCode {
    match k {
        NamedKey::Backspace => UniversalKeyCode { windows: 14, mac: 42 },
        NamedKey::LeftBrace => UniversalKeyCode { windows: 26, mac: 33 },
        NamedKey::RightBrace => UniversalKeyCode { windows: 27, mac: 30 },
        NamedKey::LeftCtrl => UniversalKeyCode { windows: 29, mac: 59 },
        NamedKey::Semicolon => UniversalKeyCode { windows: 39, mac: 41 },
        NamedKey::Grave => UniversalKeyCode { windows: 41, mac: 50 },
        NamedKey::Shift => UniversalKeyCode { windows: 42, mac: 56 },
        NamedKey::KpAsterisk => UniversalKeyCode { windows: 55, mac: 67 },
        NamedKey::LeftAlt => UniversalKeyCode { windows: 56, mac: 226 },
        NamedKey::Space => UniversalKeyCode { windows: 57, mac: 49 },
        NamedKey::Kp7 => UniversalKeyCode { windows: 71, mac: 89 },
        NamedKey::Kp8 => UniversalKeyCode { windows: 72, mac: 91 },
        NamedKey::Kp9 => UniversalKeyCode { windows: 73, mac: 92 },
        NamedKey::KpMinus => UniversalKeyCode { windows: 74, mac: 78 },
        NamedKey::Kp4 => UniversalKeyCode { windows: 75, mac: 86 },
        NamedKey::Kp5 => UniversalKeyCode { windows: 76, mac: 87 },
        NamedKey::Kp6 => UniversalKeyCode { windows: 77, mac: 88 },
        NamedKey::KpPlus => UniversalKeyCode { windows: 78, mac: 69 },
        NamedKey::Kp1 => UniversalKeyCode { windows: 79, mac: 83 },
        NamedKey::Kp2 => UniversalKeyCode { windows: 80, mac: 84 },
        NamedKey::Kp3 => UniversalKeyCode { windows: 81, mac: 85 },
        NamedKey::Kp0 => UniversalKeyCode { windows: 82, mac: 82 },
    }
}

/// The long-named key that a name denotes, if any.
pub open spec fn named_from_name(name: Seq<char>) -> Option<NamedKey> {
    if name == "backspace"@ {
        Some(NamedKey::Backspace)
    }     else if name == "leftbrace"@ {
        Some(NamedKey::LeftBrace)
    }     else if name == "rightbrace"@ {
        Some(NamedKey::RightBrace)
    }     else if name == "leftctrl"@ {
        Some(NamedKey::LeftCtrl)
    }     else if name == "semicolon"@ {
        Some(NamedKey::Semicolon)
    }     else if name == "grave"@ {
        Some(NamedKey::Grave)
    }     else if name == "shift"@ {
        Some(NamedKey::Shift)
    }     else if name == "kpasterisk"@ {
        Some(NamedKey::KpAsterisk)
    }     else if name == "leftalt"@ {
        Some(NamedKey::LeftAlt)
    }     else if name == "space"@ {
        Some(NamedKey::Space)
    }     else if name == "kp7"@ {
        Some(NamedKey::Kp7)
    }     else if name == "kp8"@ {
        Some(NamedKey::Kp8)
    }     else if name == "kp9"@ {
        Some(NamedKey::Kp9)
    }     else if name == "kpminus"@ {
        Some(NamedKey::KpMinus)
    }     else if name == "kp4"@ {
        Some(NamedKey::Kp4)
    }     else if name == "kp5"@ {
        Some(NamedKey::Kp5)
    }     else if name == "kp6"@ {
        Some(NamedKey::Kp6)
    }     else if name == "kpplus"@ {
        Some(NamedKey::KpPlus)
    }     else if name == "kp1"@ {
        Some(NamedKey::Kp1)
    }     else if name == "kp2"@ {
        Some(NamedKey::Kp2)
    }     else if name == "kp3"@ {
        Some(NamedKey::Kp3)
    }     else if name == "kp0"@ {
        Some(NamedKey::Kp0)
    } else {
        None
    }
}

/// The table entry of a key name, without shift substitution.
pub open spec fn entry_for_name(name: Seq<char>) -> Option<UniversalKeyCode> {
    if name.len() == 1 {
        char_entry(name[0])
    } else {
        match named_from_name(name) {
            Some(k) => Some(named_entry(k)),
            None => None,
        }
    }
}

/// The key of a long-named key.
pub open spec fn named_key(k: NamedKey) -> Key {
    Key { code: named_entry(k).windows as u16, shifted: false }
}

/// The key that types a single-character symbol: a shifted symbol resolves
/// to its base character's key, marked as shifted.
pub open spec fn char_key(c: char) -> Option<Key> {
    match shift_base(c) {
        Some(b) => match char_entry(b) {
            Some(e) => Some(Key { code: e.windows as u16, shifted: true }),
            None => None,
        },
        None => match char_entry(c) {
            Some(e) => Some(Key { code: e.windows as u16, shifted: false }),
            None => None,
        },
    }
}

/// The key that a symbolic name resolves to.
pub open spec fn resolve_name(name: Seq<char>) -> Option<Key> {
    if name.len() == 1 {
        char_key(name[0])
    } else {
        match named_from_name(name) {
            Some(k) => Some(named_key(k)),
            None => None,
        }
    }
}

/// Whether two strings hold the same characters.
fn same_name(a: &str, b: &str) -> (r: bool)
    ensures
        r == (a@ == b@),
{
    let n = a.unicode_len();
    if n != b.unicode_len() {
        return false;
    }
    let mut i: usize = 0;
    while i < n
        invariant
            n == a@.len(),
            n == b@.len(),
            i <= n,
            a@.subrange(0, i as int) == b@.subrange(0, i as int),
        decreases n - i,
    {
        if a.get_char(i) != b.get_char(i) {
            assert(a@.subrange(0, i as int + 1)[i as int] != b@.subrange(0, i as int + 1)[i as int]);
            return false;
        }
        assert(a@.subrange(0, i as int + 1) =~= a@.subrange(0, i as int).push(a@[i as int]));
        assert(b@.subrange(0, i as int + 1) =~= b@.subrange(0, i as int).push(b@[i as int]));
        i = i + 1;
    }
    assert(a@ =~= a@.subrange(0, n as int));
    assert(b@ =~= b@.subrange(0, n as int));
    true
}

impl NamedKey {
    /// The long-named key with this name, if any.
    pub fn from_name(name: &str) -> (r: Option<NamedKey>)
        ensures
            r == named_from_name(name@),
    {
        if same_name(name, "backspace") {
            return Some(NamedKey::Backspace);
        }
        if same_name(name, "leftbrace") {
            return Some(NamedKey::LeftBrace);
        }
        if same_name(name, "rightbrace") {
            return Some(NamedKey::RightBrace);
        }
        if same_name(name, "leftctrl") {
            return Some(NamedKey::LeftCtrl);
        }
        if same_name(name, "semicolon") {
            return Some(NamedKey::Semicolon);
        }
        if same_name(name, "grave") {
            return Some(NamedKey::Grave);
        }
        if same_name(name, "shift") {
            return Some(NamedKey::Shift);
        }
        if same_name(name, "kpasterisk") {
            return Some(NamedKey::KpAsterisk);
        }
        if same_name(name, "leftalt") {
            return Some(NamedKey::LeftAlt);
        }
        if same_name(name, "space") {
            return Some(NamedKey::Space);
        }
        if same_name(name, "kp7") {
            return Some(NamedKey::Kp7);
        }
        if same_name(name, "kp8") {
            return Some(NamedKey::Kp8);
        }
        if same_name(name, "kp9") {
            return Some(NamedKey::Kp9);
        }
        if same_name(name, "kpminus") {
            return Some(NamedKey::KpMinus);
        }
        if same_name(name, "kp4") {
            return Some(NamedKey::Kp4);
        }
        if same_name(name, "kp5") {
            return Some(NamedKey::Kp5);
        }
        if same_name(name, "kp6") {
            return Some(NamedKey::Kp6);
        }
        if same_name(name, "kpplus") {
            return Some(NamedKey::KpPlus);
        }
        if same_name(name, "kp1") {
            return Some(NamedKey::Kp1);
        }
        if same_name(name, "kp2") {
            return Some(NamedKey::Kp2);
        }
        if same_name(name, "kp3") {
            return Some(NamedKey::Kp3);
        }
        if same_name(name, "kp0") {
            return Some(NamedKey::Kp0);
        }
        None
    }

    /// This key's table entry.
    pub fn entry(&self) -> (r: UniversalKeyCode)
        ensures
            r == named_entry(*self),
    {
        match self {
            NamedKey::Backspace => UniversalKeyCode { windows: 14, mac: 42 },
            NamedKey::LeftBrace => UniversalKeyCode { windows: 26, mac: 33 },
            NamedKey::RightBrace => UniversalKeyCode { windows: 27, mac: 30 },
            NamedKey::LeftCtrl => UniversalKeyCode { windows: 29, mac: 59 },
            NamedKey::Semicolon => UniversalKeyCode { windows: 39, mac: 41 },
            NamedKey::Grave => UniversalKeyCode { windows: 41, mac: 50 },
            NamedKey::Shift => UniversalKeyCode { windows: 42, mac: 56 },
            NamedKey::KpAsterisk => UniversalKeyCode { windows: 55, mac: 67 },
            NamedKey::LeftAlt => UniversalKeyCode { windows: 56, mac: 226 },
            NamedKey::Space => UniversalKeyCode { windows: 57, mac: 49 },
            NamedKey::Kp7 => UniversalKeyCode { windows: 71, mac: 89 },
            NamedKey::Kp8 => UniversalKeyCode { windows: 72, mac: 91 },
            NamedKey::Kp9 => UniversalKeyCode { windows: 73, mac: 92 },
            NamedKey::KpMinus => UniversalKeyCode { windows: 74, mac: 78 },
            NamedKey::Kp4 => UniversalKeyCode { windows: 75, mac: 86 },
            NamedKey::Kp5 => UniversalKeyCode { windows: 76, mac: 87 },
            NamedKey::Kp6 => UniversalKeyCode { windows: 77, mac: 88 },
            NamedKey::KpPlus => UniversalKeyCode { windows: 78, mac: 69 },
            NamedKey::Kp1 => UniversalKeyCode { windows: 79, mac: 83 },
            NamedKey::Kp2 => UniversalKeyCode { windows: 80, mac: 84 },
            NamedKey::Kp3 => UniversalKeyCode { windows: 81, mac: 85 },
            NamedKey::Kp0 => UniversalKeyCode { windows: 82, mac: 82 },
        }
    }
}

/// The unshifted character that a shifted symbol is typed with.
pub fn base_of_shifted(c: char) -> (r: Option<char>)
    ensures
        r == shift_base(c),
{
    match c {
        '!' => Some('1'),
        '@' => Some('2'),
        '#' => Some('3'),
        '$' => Some('4'),
        '%' => Some('5'),
        '^' => Some('6'),
        '&' => Some('7'),
        '*' => Some('8'),
        '(' => Some('9'),
        ')' => Some('0'),
        'A' => Some('a'),
        'B' => Some('b'),
        'C' => Some('c'),
        'D' => Some('d'),
        'E' => Some('e'),
        'F' => Some('f'),
        'G' => Some('g'),
        'H' => Some('h'),
        'I' => Some('i'),
        'J' => Some('j'),
        'K' => Some('k'),
        'L' => Some('l'),
        'M' => Some('m'),
        'N' => Some('n'),
        'O' => Some('o'),
        'P' => Some('p'),
        'Q' => Some('q'),
        'R' => Some('r'),
        'S' => Some('s'),
        'T' => Some('t'),
        'U' => Some('u'),
        'V' => Some('v'),
        'W' => Some('w'),
        'X' => Some('x'),
        'Y' => Some('y'),
        'Z' => Some('z'),
        _ => None,
    }
}

impl UniversalKeyCode {
    /// The table entry of a single-character key name.
    pub fn for_char(c: char) -> (r: Option<UniversalKeyCode>)
        ensures
            r == char_entry(c),
    {
        match c {
            '1' => Some(UniversalKeyCode { windows: 2, mac: 18 }),
            '2' => Some(UniversalKeyCode { windows: 3, mac: 19 }),
            '3' => Some(UniversalKeyCode { windows: 4, mac: 20 }),
            '4' => Some(UniversalKeyCode { windows: 5, mac: 21 }),
            '5' => Some(UniversalKeyCode { windows: 6, mac: 23 }),
            '6' => Some(UniversalKeyCode { windows: 7, mac: 22 }),
            '7' => Some(UniversalKeyCode { windows: 8, mac: 26 }),
            '8' => Some(UniversalKeyCode { windows: 9, mac: 28 }),
            '9' => Some(UniversalKeyCode { windows: 10, mac: 25 }),
            '0' => Some(UniversalKeyCode { windows: 11, mac: 29 }),
            'q' => Some(UniversalKeyCode { windows: 16, mac: 12 }),
            'w' => Some(UniversalKeyCode { windows: 17, mac: 13 }),
            'e' => Some(UniversalKeyCode { windows: 18, mac: 14 }),
            'r' => Some(UniversalKeyCode { windows: 19, mac: 15 }),
            't' => Some(UniversalKeyCode { windows: 20, mac: 17 }),
            'y' => Some(UniversalKeyCode { windows: 21, mac: 16 }),
            'u' => Some(UniversalKeyCode { windows: 22, mac: 32 }),
            'i' => Some(UniversalKeyCode { windows: 23, mac: 34 }),
            'o' => Some(UniversalKeyCode { windows: 24, mac: 31 }),
            'p' => Some(UniversalKeyCode { windows: 25, mac: 35 }),
            'a' => Some(UniversalKeyCode { windows: 30, mac: 0 }),
            's' => Some(UniversalKeyCode { windows: 31, mac: 1 }),
            'd' => Some(UniversalKeyCode { windows: 32, mac: 2 }),
            'f' => Some(UniversalKeyCode { windows: 33, mac: 3 }),
            'g' => Some(UniversalKeyCode { windows: 34, mac: 5 }),
            'h' => Some(UniversalKeyCode { windows: 35, mac: 4 }),
            'j' => Some(UniversalKeyCode { windows: 36, mac: 38 }),
            'k' => Some(UniversalKeyCode { windows: 37, mac: 40 }),
            'l' => Some(UniversalKeyCode { windows: 38, mac: 37 }),
            'z' => Some(UniversalKeyCode { windows: 44, mac: 6 }),
            'x' => Some(UniversalKeyCode { windows: 45, mac: 7 }),
            'c' => Some(UniversalKeyCode { windows: 46, mac: 8 }),
            'v' => Some(UniversalKeyCode { windows: 47, mac: 9 }),
            'b' => Some(UniversalKeyCode { windows: 48, mac: 11 }),
            'n' => Some(UniversalKeyCode { windows: 49, mac: 45 }),
            'm' => Some(UniversalKeyCode { windows: 50, mac: 46 }),
            _ => None,
        }
    }

    /// The table entry of a key name, without shift substitution.
    pub fn lookup(s: &str) -> (r: Option<UniversalKeyCode>)
        ensures
            r == entry_for_name(s@),
    {
        if s.unicode_len() == 1 {
            UniversalKeyCode::for_char(s.get_char(0))
        } else {
            match NamedKey::from_name(s) {
                Some(k) => Some(k.entry()),
                None => None,
            }
        }
    }

    /// The scan code of a key name, if the table has it.
    pub fn get(s: &str) -> (r: Option<u32>)
        ensures
            r == match entry_for_name(s@) {
                Some(e) => Some(e.windows),
                None => None::<u32>,
            },
    {
        match UniversalKeyCode::lookup(s) {
            Some(e) => Some(e.windows),
            None => None,
        }
    }

    /// The macOS virtual key code of a key name, if the table has it.
    pub fn get_mac(s: &str) -> (r: Option<u32>)
        ensures
            r == match entry_for_name(s@) {
                Some(e) => Some(e.mac),
                None => None::<u32>,
            },
    {
        match UniversalKeyCode::lookup(s) {
            Some(e) => Some(e.mac),
            None => None,
        }
    }
}

impl Key {
    /// The key of a long-named key.
    pub fn named(k: NamedKey) -> (r: Key)
        ensures
            r == named_key(k),
    {
        let e = k.entry();
        Key { code: e.windows as u16, shifted: false }
    }

    /// The key that types a single-character symbol.
    pub fn for_char(c: char) -> (r: Option<Key>)
        ensures
            r == char_key(c),
    {
        match base_of_shifted(c) {
            Some(b) => match UniversalKeyCode::for_char(b) {
                Some(e) => Some(Key { code: e.windows as u16, shifted: true }),
                None => None,
            },
            None => match UniversalKeyCode::for_char(c) {
                Some(e) => Some(Key { code: e.windows as u16, shifted: false }),
                None => None,
            },
        }
    }

    /// Resolves a symbolic key name; a name with no entry is `UnknownKey`.
    pub fn resolve(name: &str) -> (r: Result<Key, KeyError>)
        ensures
            r == match resolve_name(name@) {
                Some(k) => Ok::<Key, KeyError>(k),
                None => Err(KeyError::UnknownKey),
            },
    {
        if name.unicode_len() == 1 {
            match Key::for_char(name.get_char(0)) {
                Some(k) => Ok(k),
                None => Err(KeyError::UnknownKey),
            }
        } else {
            match NamedKey::from_name(name) {
                Some(k) => Ok(Key::named(k)),
                None => Err(KeyError::UnknownKey),
            }
        }
    }

    /// Resolves a key name that the table is known to hold.
    pub fn new(s: &str) -> (r: Key)
        requires
            resolve_name(s@) is Some,
        ensures
            resolve_name(s@) == Some(r),
    {
        match Key::resolve(s) {
            Ok(k) => k,
            Err(_) => vstd::pervasive::unreached(),
        }
    }
}

/// Number of keys in the table.
pub const TABLE_KEYS: usize = 58;

/// The unshifted key of each table entry, single characters first.
pub open spec fn table_key(i: u8) -> Key {
    match i {
        0 => Key { code: 2, shifted: false },
        1 => Key { code: 3, shifted: false },
        2 => Key { code: 4, shifted: false },
        3 => Key { code: 5, shifted: false },
        4 => Key { code: 6, shifted: false },
        5 => Key { code: 7, shifted: false },
        6 => Key { code: 8, shifted: false },
        7 => Key { code: 9, shifted: false },
        8 => Key { code: 10, shifted: false },
        9 => Key { code: 11, shifted: false },
        10 => Key { code: 16, shifted: false },
        11 => Key { code: 17, shifted: false },
        12 => Key { code: 18, shifted: false },
        13 => Key { code: 19, shifted: false },
        14 => Key { code: 20, shifted: false },
        15 => Key { code: 21, shifted: false },
        16 => Key { code: 22, shifted: false },
        17 => Key { code: 23, shifted: false },
        18 => Key { code: 24, shifted: false },
        19 => Key { code: 25, shifted: false },
        20 => Key { code: 30, shifted: false },
        21 => Key { code: 31, shifted: false },
        22 => Key { code: 32, shifted: false },
        23 => Key { code: 33, shifted: false },
        24 => Key { code: 34, shifted: false },
        25 => Key { code: 35, shifted: false },
        26 => Key { code: 36, shifted: false },
        27 => Key { code: 37, shifted: false },
        28 => Key { code: 38, shifted: false },
        29 => Key { code: 44, shifted: false },
        30 => Key { code: 45, shifted: false },
        31 => Key { code: 46, shifted: false },
        32 => Key { code: 47, shifted: false },
        33 => Key { code: 48, shifted: false },
        34 => Key { code: 49, shifted: false },
        35 => Key { code: 50, shifted: false },
        36 => Key { code: 14, shifted: false },
        37 => Key { code: 26, shifted: false },
        38 => Key { code: 27, shifted: false },
        39 => Key { code: 29, shifted: false },
        40 => Key { code: 39, shifted: false },
        41 => Key { code: 41, shifted: false },
        42 => Key { code: 42, shifted: false },
        43 => Key { code: 55, shifted: false },
        44 => Key { code: 56, shifted: false },
        45 => Key { code: 57, shifted: false },
        46 => Key { code: 71, shifted: false },
        47 => Key { code: 72, shifted: false },
        48 => Key { code: 73, shifted: false },
        49 => Key { code: 74, shifted: false },
        50 => Key { code: 75, shifted: false },
        51 => Key { code: 76, shifted: false },
        52 => Key { code: 77, shifted: false },
        53 => Key { code: 78, shifted: false },
        54 => Key { code: 79, shifted: false },
        55 => Key { code: 80, shifted: false },
        56 => Key { code: 81, shifted: false },
        57 => Key { code: 82, shifted: false },
        _ => Key { code: 0, shifted: false },
    }
}

fn table_key_at(i: u8) -> (r: Key)
    ensures
        r == table_key(i),
{
    match i {
        0 => Key { code: 2, shifted: false },
        1 => Key { code: 3, shifted: false },
        2 => Key { code: 4, shifted: false },
        3 => Key { code: 5, shifted: false },
        4 => Key { code: 6, shifted: false },
        5 => Key { code: 7, shifted: false },
        6 => Key { code: 8, shifted: false },
        7 => Key { code: 9, shifted: false },
        8 => Key { code: 10, shifted: false },
        9 => Key { code: 11, shifted: false },
        10 => Key { code: 16, shifted: false },
        11 => Key { code: 17, shifted: false },
        12 => Key { code: 18, shifted: false },
        13 => Key { code: 19, shifted: false },
        14 => Key { code: 20, shifted: false },
        15 => Key { code: 21, shifted: false },
        16 => Key { code: 22, shifted: false },
        17 => Key { code: 23, shifted: false },
        18 => Key { code: 24, shifted: false },
        19 => Key { code: 25, shifted: false },
        20 => Key { code: 30, shifted: false },
        21 => Key { code: 31, shifted: false },
        22 => Key { code: 32, shifted: false },
        23 => Key { code: 33, shifted: false },
        24 => Key { code: 34, shifted: false },
        25 => Key { code: 35, shifted: false },
        26 => Key { code: 36, shifted: false },
        27 => Key { code: 37, shifted: false },
        28 => Key { code: 38, shifted: false },
        29 => Key { code: 44, shifted: false },
        30 => Key { code: 45, shifted: false },
        31 => Key { code: 46, shifted: false },
        32 => Key { code: 47, shifted: false },
        33 => Key { code: 48, shifted: false },
        34 => Key { code: 49, shifted: false },
        35 => Key { code: 50, shifted: false },
        36 => Key { code: 14, shifted: false },
        37 => Key { code: 26, shifted: false },
        38 => Key { code: 27, shifted: false },
        39 => Key { code: 29, shifted: false },
        40 => Key { code: 39, shifted: false },
        41 => Key { code: 41, shifted: false },
        42 => Key { code: 42, shifted: false },
        43 => Key { code: 55, shifted: false },
        44 => Key { code: 56, shifted: false },
        45 => Key { code: 57, shifted: false },
        46 => Key { code: 71, shifted: false },
        47 => Key { code: 72, shifted: false },
        48 => Key { code: 73, shifted: false },
        49 => Key { code: 74, shifted: false },
        50 => Key { code: 75, shifted: false },
        51 => Key { code: 76, shifted: false },
        52 => Key { code: 77, shifted: false },
        53 => Key { code: 78, shifted: false },
        54 => Key { code: 79, shifted: false },
        55 => Key { code: 80, shifted: false },
        56 => Key { code: 81, shifted: false },
        57 => Key { code: 82, shifted: false },
        _ => Key { code: 0, shifted: false },
    }
}

/// A release of every key in the table, to recover from keys left down.
pub fn all_key_releases() -> (r: KeyEvents)
    ensures
        r@.len() == TABLE_KEYS,
        forall|i: int| 0 <= i < TABLE_KEYS ==> r@[i] == KeyEvent::Release(table_key(i as u8)),
{
    let mut r: KeyEvents = Vec::new();
    let mut i: usize = 0;
    while i < TABLE_KEYS
        invariant
            i <= TABLE_KEYS,
            r@.len() == i,
            forall|j: int| 0 <= j < i ==> r@[j] == KeyEvent::Release(table_key(j as u8)),
        decreases TABLE_KEYS - i,
    {
        r.push(KeyEvent::Release(table_key_at(i as u8)));
        i = i + 1;
    }
    r
}

/// The macOS virtual key code of the key with a given scan code.
pub open spec fn mac_of_scan(code: u16) -> Option<u32> {
    match code {
        2 => Some(18u32),
        3 => Some(19u32),
        4 => Some(20u32),
        5 => Some(21u32),
        6 => Some(23u32),
        7 => Some(22u32),
        8 => Some(26u32),
        9 => Some(28u32),
        10 => Some(25u32),
        11 => Some(29u32),
        14 => Some(42u32),
        16 => Some(12u32),
        17 => Some(13u32),
        18 => Some(14u32),
        19 => Some(15u32),
        20 => Some(17u32),
        21 => Some(16u32),
        22 => Some(32u32),
        23 => Some(34u32),
        24 => Some(31u32),
        25 => Some(35u32),
        26 => Some(33u32),
        27 => Some(30u32),
        29 => Some(59u32),
        30 => Some(0u32),
        31 => Some(1u32),
        32 => Some(2u32),
        33 => Some(3u32),
        34 => Some(5u32),
        35 => Some(4u32),
        36 => Some(38u32),
        37 => Some(40u32),
        38 => Some(37u32),
        39 => Some(41u32),
        41 => Some(50u32),
        42 => Some(56u32),
        44 => Some(6u32),
        45 => Some(7u32),
        46 => Some(8u32),
        47 => Some(9u32),
        48 => Some(11u32),
        49 => Some(45u32),
        50 => Some(46u32),
        55 => Some(67u32),
        56 => Some(226u32),
        57 => Some(49u32),
        71 => Some(89u32),
        72 => Some(91u32),
        73 => Some(92u32),
        74 => Some(78u32),
        75 => Some(86u32),
        76 => Some(87u32),
        77 => Some(88u32),
        78 => Some(69u32),
        79 => Some(83u32),
        80 => Some(84u32),
        81 => Some(85u32),
        82 => Some(82u32),
        _ => None,
    }
}

/// Every table entry's scan code leads back to its macOS code.
pub proof fn lemma_mac_of_scan_matches_table(c: char, k: NamedKey)
    ensures
        char_entry(c) is Some ==> mac_of_scan(char_entry(c).unwrap().windows as u16) == Some(
            char_entry(c).unwrap().mac,
        ),
        mac_of_scan(named_entry(k).windows as u16) == Some(named_entry(k).mac),
{
}

/// The macOS virtual key code of the key with a given scan code.
pub fn mac_code_for_scan(code: u16) -> (r: Option<u32>)
    ensures
        r == mac_of_scan(code),
{
    match code {
        2 => Some(18),
        3 => Some(19),
        4 => Some(20),
        5 => Some(21),
        6 => Some(23),
        7 => Some(22),
        8 => Some(26),
        9 => Some(28),
        10 => Some(25),
        11 => Some(29),
        14 => Some(42),
        16 => Some(12),
        17 => Some(13),
        18 => Some(14),
        19 => Some(15),
        20 => Some(17),
        21 => Some(16),
        22 => Some(32),
        23 => Some(34),
        24 => Some(31),
        25 => Some(35),
        26 => Some(33),
        27 => Some(30),
        29 => Some(59),
        30 => Some(0),
        31 => Some(1),
        32 => Some(2),
        33 => Some(3),
        34 => Some(5),
        35 => Some(4),
        36 => Some(38),
        37 => Some(40),
        38 => Some(37),
        39 => Some(41),
        41 => Some(50),
        42 => Some(56),
        44 => Some(6),
        45 => Some(7),
        46 => Some(8),
        47 => Some(9),
        48 => Some(11),
        49 => Some(45),
        50 => Some(46),
        55 => Some(67),
        56 => Some(226),
        57 => Some(49),
        71 => Some(89),
        72 => Some(91),
        73 => Some(92),
        74 => Some(78),
        75 => Some(86),
        76 => Some(87),
        77 => Some(88),
        78 => Some(69),
        79 => Some(83),
        80 => Some(84),
        81 => Some(85),
        82 => Some(82),
        _ => None,
    }
}

/// Where the key with a given scan code stands in the release-all list.
pub open spec fn table_position(code: u16) -> u8 {
    match code {
        2 => 0,
        3 => 1,
        4 => 2,
        5 => 3,
        6 => 4,
        7 => 5,
        8 => 6,
        9 => 7,
        10 => 8,
        11 => 9,
        16 => 10,
        17 => 11,
        18 => 12,
        19 => 13,
        20 => 14,
        21 => 15,
        22 => 16,
        23 => 17,
        24 => 18,
        25 => 19,
        30 => 20,
        31 => 21,
        32 => 22,
        33 => 23,
        34 => 24,
        35 => 25,
        36 => 26,
        37 => 27,
        38 => 28,
        44 => 29,
        45 => 30,
        46 => 31,
        47 => 32,
        48 => 33,
        49 => 34,
        50 => 35,
        14 => 36,
        26 => 37,
        27 => 38,
        29 => 39,
        39 => 40,
        41 => 41,
        42 => 42,
        55 => 43,
        56 => 44,
        57 => 45,
        71 => 46,
        72 => 47,
        73 => 48,
        74 => 49,
        75 => 50,
        76 => 51,
        77 => 52,
        78 => 53,
        79 => 54,
        80 => 55,
        81 => 56,
        82 => 57,
        _ => 0,
    }
}

/// The release-all list holds exactly the table's keys: each listed key is
/// in the table, and each key of the table is listed.
pub proof fn lemma_table_keys_cover(i: u8, code: u16)
    ensures
        i < TABLE_KEYS ==> mac_of_scan(table_key(i).code) is Some,
        mac_of_scan(code) is Some ==> table_position(code) < TABLE_KEYS && table_key(
            table_position(code),
        ).code == code,
{
}

} // verus!
