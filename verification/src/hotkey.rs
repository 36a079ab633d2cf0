use vstd::prelude::*;
use crate::text::chars_eq_str;
use crate::text::collect_chars;

verus! {

/// The modifier keys held as part of a combination; `meta` is the
/// Super/Win/Cmd key.
#[derive(Debug, Clone, Copy, PartialEq, Eq, Structural)]
pub struct Modifiers {
    pub ctrl: bool,
    pub alt: bool,
    pub shift: bool,
    pub meta: bool,
}

/// The four modifier names a combination may hold.
#[derive(Debug, Clone, Copy, PartialEq, Eq, Structural)]
pub enum ModifierKey {
    Ctrl,
    Alt,
    Shift,
    Meta,
}

/// The concrete (non-modifier) keys a hotkey string may name.
#[derive(Debug, Clone, Copy, PartialEq, Eq, Structural)]
pub enum KeyCode {
    KeyA,
    KeyB,
    KeyC,
    KeyD,
    KeyE,
    KeyF,
    KeyG,
    KeyH,
    KeyI,
    KeyJ,
    KeyK,
    KeyL,
    KeyM,
    KeyN,
    KeyO,
    KeyP,
    KeyQ,
    KeyR,
    KeyS,
    KeyT,
    KeyU,
    KeyV,
    KeyW,
    KeyX,
    KeyY,
    KeyZ,
    F1,
    F2,
    F3,
    F4,
    F5,
    F6,
    F7,
    F8,
    F9,
    F10,
    F11,
    F12,
    Digit0,
    Digit1,
    Digit2,
    Digit3,
    Digit4,
    Digit5,
    Digit6,
    Digit7,
    Digit8,
    Digit9,
    Space,
    Enter,
    Tab,
    Backspace,
    Escape,
}

/// A parsed combination: which modifiers are held, and the key that fires it.
#[derive(Debug, Clone, Copy, PartialEq, Eq, Structural)]
pub struct Hotkey {
    pub mods: Modifiers,
    pub key: KeyCode,
}

/// Why a hotkey string is rejected.
#[derive(Debug, Clone, Copy, PartialEq, Eq, Structural)]
pub enum HotkeyError {
    /// Some part of the string names no known key or modifier.
    UnsupportedKey,
    /// The string names modifiers only, never a concrete key.
    MissingKey,
}

/// No modifier held.
pub open spec fn no_modifiers() -> Modifiers {
    Modifiers { ctrl: false, alt: false, shift: false, meta: false }
}

/// A whitespace character, as the trimming of key names treats it.
pub open spec fn is_space(c: char) -> bool {
    ||| c == ' '
    ||| c == '\t'
    ||| c == '\n'
    ||| c == '\u{b}'
    ||| c == '\u{c}'
    ||| c == '\r'
    ||| c == '\u{85}'
    ||| c == '\u{a0}'
    ||| c == '\u{1680}'
    ||| c == '\u{2000}'
    ||| c == '\u{2001}'
    ||| c == '\u{2002}'
    ||| c == '\u{2003}'
    ||| c == '\u{2004}'
    ||| c == '\u{2005}'
    ||| c == '\u{2006}'
    ||| c == '\u{2007}'
    ||| c == '\u{2008}'
    ||| c == '\u{2009}'
    ||| c == '\u{200a}'
    ||| c == '\u{2028}'
    ||| c == '\u{2029}'
    ||| c == '\u{202f}'
    ||| c == '\u{205f}'
    ||| c == '\u{3000}'
}

/// The upper-case form of an ASCII letter; anything else is left alone.
pub open spec fn upper(c: char) -> char {
    if c == 'a' {
        'A'
    } else if c == 'b' {
        'B'
    } else if c == 'c' {
        'C'
    } else if c == 'd' {
        'D'
    } else if c == 'e' {
        'E'
    } else if c == 'f' {
        'F'
    } else if c == 'g' {
        'G'
    } else if c == 'h' {
        'H'
    } else if c == 'i' {
        'I'
    } else if c == 'j' {
        'J'
    } else if c == 'k' {
        'K'
    } else if c == 'l' {
        'L'
    } else if c == 'm' {
        'M'
    } else if c == 'n' {
        'N'
    } else if c == 'o' {
        'O'
    } else if c == 'p' {
        'P'
    } else if c == 'q' {
        'Q'
    } else if c == 'r' {
        'R'
    } else if c == 's' {
        'S'
    } else if c == 't' {
        'T'
    } else if c == 'u' {
        'U'
    } else if c == 'v' {
        'V'
    } else if c == 'w' {
        'W'
    } else if c == 'x' {
        'X'
    } else if c == 'y' {
        'Y'
    } else if c == 'z' {
        'Z'
    } else {
        c
    }
}

/// `s` with every ASCII letter upper-cased.
pub open spec fn upcase(s: Seq<char>) -> Seq<char> {
    s.map_values(|c: char| upper(c))
}

/// `s` without its leading whitespace.
pub open spec fn trim_front(s: Seq<char>) -> Seq<char>
    decreases s.len(),
{
    if s.len() > 0 && is_space(s[0]) {
        trim_front(s.drop_first())
    } else {
        s
    }
}

/// `s` without its trailing whitespace.
pub open spec fn trim_back(s: Seq<char>) -> Seq<char>
    decreases s.len(),
{
    if s.len() > 0 && is_space(s.last()) {
        trim_back(s.drop_last())
    } else {
        s
    }
}

/// `s` without leading or trailing whitespace.
pub open spec fn trimmed(s: Seq<char>) -> Seq<char> {
    trim_back(trim_front(s))
}

/// The parts of `s` between '+' separators, in order. A string without '+'
/// is a single part, and every separator ends one part and begins another,
/// so there is always at least one part and empty parts are kept.
pub open spec fn split_plus(s: Seq<char>) -> Seq<Seq<char>>
    decreases s.len(),
{
    if s.len() == 0 {
        seq![Seq::<char>::empty()]
    } else if s[0] == '+' {
        seq![Seq::<char>::empty()] + split_plus(s.drop_first())
    } else {
        let rest = split_plus(s.drop_first());
        seq![seq![s[0]] + rest[0]] + rest.drop_first()
    }
}

/// Splitting always yields at least one part.
pub proof fn lemma_split_plus_len(s: Seq<char>)
    ensures
        split_plus(s).len() >= 1,
    decreases s.len(),
{
    if s.len() > 0 {
        lemma_split_plus_len(s.drop_first());
    }
}

/// The modifier a normalized part names, if any.
pub open spec fn modifier_of(t: Seq<char>) -> Option<ModifierKey> {
    if t == "CTRL"@ || t == "CONTROL"@ {
        Some(ModifierKey::Ctrl)
    } else if t == "ALT"@ {
        Some(ModifierKey::Alt)
    } else if t == "SHIFT"@ {
        Some(ModifierKey::Shift)
    } else if t == "SUPER"@ || t == "WIN"@ || t == "CMD"@ {
        Some(ModifierKey::Meta)
    } else {
        None
    }
}

/// `m` with the named modifier switched on.
pub open spec fn with_modifier(m: Modifiers, k: ModifierKey) -> Modifiers {
    match k {
        ModifierKey::Ctrl => Modifiers { ctrl: true, ..m },
        ModifierKey::Alt => Modifiers { alt: true, ..m },
        ModifierKey::Shift => Modifiers { shift: true, ..m },
        ModifierKey::Meta => Modifiers { meta: true, ..m },
    }
}

/// The key an upper-case letter names, if any.
pub open spec fn letter_key(c: char) -> Option<KeyCode> {
    if c == 'A' {
        Some(KeyCode::KeyA)
    } else if c == 'B' {
        Some(KeyCode::KeyB)
    } else if c == 'C' {
        Some(KeyCode::KeyC)
    } else if c == 'D' {
        Some(KeyCode::KeyD)
    } else if c == 'E' {
        Some(KeyCode::KeyE)
    } else if c == 'F' {
        Some(KeyCode::KeyF)
    } else if c == 'G' {
        Some(KeyCode::KeyG)
    } else if c == 'H' {
        Some(KeyCode::KeyH)
    } else if c == 'I' {
        Some(KeyCode::KeyI)
    } else if c == 'J' {
        Some(KeyCode::KeyJ)
    } else if c == 'K' {
        Some(KeyCode::KeyK)
    } else if c == 'L' {
        Some(KeyCode::KeyL)
    } else if c == 'M' {
        Some(KeyCode::KeyM)
    } else if c == 'N' {
        Some(KeyCode::KeyN)
    } else if c == 'O' {
        Some(KeyCode::KeyO)
    } else if c == 'P' {
        Some(KeyCode::KeyP)
    } else if c == 'Q' {
        Some(KeyCode::KeyQ)
    } else if c == 'R' {
        Some(KeyCode::KeyR)
    } else if c == 'S' {
        Some(KeyCode::KeyS)
    } else if c == 'T' {
        Some(KeyCode::KeyT)
    } else if c == 'U' {
        Some(KeyCode::KeyU)
    } else if c == 'V' {
        Some(KeyCode::KeyV)
    } else if c == 'W' {
        Some(KeyCode::KeyW)
    } else if c == 'X' {
        Some(KeyCode::KeyX)
    } else if c == 'Y' {
        Some(KeyCode::KeyY)
    } else if c == 'Z' {
        Some(KeyCode::KeyZ)
    } else {
        None
    }
}

/// The key a digit names, if any.
pub open spec fn digit_key(c: char) -> Option<KeyCode> {
    if c == '0' {
        Some(KeyCode::Digit0)
    } else if c == '1' {
        Some(KeyCode::Digit1)
    } else if c == '2' {
        Some(KeyCode::Digit2)
    } else if c == '3' {
        Some(KeyCode::Digit3)
    } else if c == '4' {
        Some(KeyCode::Digit4)
    } else if c == '5' {
        Some(KeyCode::Digit5)
    } else if c == '6' {
        Some(KeyCode::Digit6)
    } else if c == '7' {
        Some(KeyCode::Digit7)
    } else if c == '8' {
        Some(KeyCode::Digit8)
    } else if c == '9' {
        Some(KeyCode::Digit9)
    } else {
        None
    }
}

/// The function key a normalized part names, if any.
pub open spec fn function_key(t: Seq<char>) -> Option<KeyCode> {
    if t == "F1"@ {
        Some(KeyCode::F1)
    } else if t == "F2"@ {
        Some(KeyCode::F2)
    } else if t == "F3"@ {
        Some(KeyCode::F3)
    } else if t == "F4"@ {
        Some(KeyCode::F4)
    } else if t == "F5"@ {
        Some(KeyCode::F5)
    } else if t == "F6"@ {
        Some(KeyCode::F6)
    } else if t == "F7"@ {
        Some(KeyCode::F7)
    } else if t == "F8"@ {
        Some(KeyCode::F8)
    } else if t == "F9"@ {
        Some(KeyCode::F9)
    } else if t == "F10"@ {
        Some(KeyCode::F10)
    } else if t == "F11"@ {
        Some(KeyCode::F11)
    } else if t == "F12"@ {
        Some(KeyCode::F12)
    } else {
        None
    }
}

/// The named special key a normalized part stands for, if any.
pub open spec fn special_key(t: Seq<char>) -> Option<KeyCode> {
    if t == "SPACE"@ {
        Some(KeyCode::Space)
    } else if t == "ENTER"@ {
        Some(KeyCode::Enter)
    } else if t == "TAB"@ {
        Some(KeyCode::Tab)
    } else if t == "BACKSPACE"@ {
        Some(KeyCode::Backspace)
    } else if t == "ESC"@ || t == "ESCAPE"@ {
        Some(KeyCode::Escape)
    } else {
        None
    }
}

/// The concrete key a normalized part names, if any: a single character is
/// read as a letter or digit, a longer part as a function or special key.
pub open spec fn key_of(t: Seq<char>) -> Option<KeyCode> {
    if t.len() == 1 {
        match letter_key(t[0]) {
            Some(k) => Some(k),
            None => digit_key(t[0]),
        }
    } else {
        match function_key(t) {
            Some(k) => Some(k),
            None => special_key(t),
        }
    }
}

/// Fold the parts of a combination from the left: modifiers accumulate, the
/// most recently named concrete key wins, and a part that names nothing
/// stops everything.
pub open spec fn scan_parts(
    parts: Seq<Seq<char>>,
    mods: Modifiers,
    key: Option<KeyCode>,
) -> Result<Hotkey, HotkeyError>
    decreases parts.len(),
{
    if parts.len() == 0 {
        match key {
            Some(k) => Ok(Hotkey { mods, key: k }),
            None => Err(HotkeyError::MissingKey),
        }
    } else {
        let t = upcase(trimmed(parts[0]));
        match modifier_of(t) {
            Some(m) => scan_parts(parts.drop_first(), with_modifier(mods, m), key),
            None => match key_of(t) {
                Some(k) => scan_parts(parts.drop_first(), mods, Some(k)),
                None => Err(HotkeyError::UnsupportedKey),
            },
        }
    }
}

/// The meaning of a hotkey string.
pub open spec fn parse_spec(s: Seq<char>) -> Result<Hotkey, HotkeyError> {
    scan_parts(split_plus(s), no_modifiers(), None::<KeyCode>)
}

/// Whether `c` counts as whitespace when a key name is trimmed.
fn is_space_char(c: char) -> (r: bool)
    ensures
        r == is_space(c),
{
    match c {
        ' ' | '\t' | '\n' | '\u{b}' | '\u{c}' | '\r' | '\u{85}' | '\u{a0}' | '\u{1680}'
            | '\u{2000}' | '\u{2001}' | '\u{2002}' | '\u{2003}' | '\u{2004}' | '\u{2005}'
            | '\u{2006}' | '\u{2007}' | '\u{2008}' | '\u{2009}' | '\u{200a}' | '\u{2028}'
            | '\u{2029}' | '\u{202f}' | '\u{205f}' | '\u{3000}' => true,
        _ => false,
    }
}

/// The upper-case form of an ASCII letter; anything else passes through.
fn to_upper(c: char) -> (r: char)
    ensures
        r == upper(c),
{
    match c {
        'a' => 'A',
        'b' => 'B',
        'c' => 'C',
        'd' => 'D',
        'e' => 'E',
        'f' => 'F',
        'g' => 'G',
        'h' => 'H',
        'i' => 'I',
        'j' => 'J',
        'k' => 'K',
        'l' => 'L',
        'm' => 'M',
        'n' => 'N',
        'o' => 'O',
        'p' => 'P',
        'q' => 'Q',
        'r' => 'R',
        's' => 'S',
        't' => 'T',
        'u' => 'U',
        'v' => 'V',
        'w' => 'W',
        'x' => 'X',
        'y' => 'Y',
        'z' => 'Z',
        _ => c,
    }
}

/// The modifier this part names, if any.
fn match_modifier(t: &Vec<char>) -> (r: Option<ModifierKey>)
    ensures
        r == modifier_of(t@),
{
    if chars_eq_str(t, "CTRL") || chars_eq_str(t, "CONTROL") {
        Some(ModifierKey::Ctrl)
    } else if chars_eq_str(t, "ALT") {
        Some(ModifierKey::Alt)
    } else if chars_eq_str(t, "SHIFT") {
        Some(ModifierKey::Shift)
    } else if chars_eq_str(t, "SUPER") || chars_eq_str(t, "WIN") || chars_eq_str(t, "CMD") {
        Some(ModifierKey::Meta)
    } else {
        None
    }
}

/// The key an upper-case letter names, if any.
fn match_letter(c: char) -> (r: Option<KeyCode>)
    ensures
        r == letter_key(c),
{
    match c {
        'A' => Some(KeyCode::KeyA),
        'B' => Some(KeyCode::KeyB),
        'C' => Some(KeyCode::KeyC),
        'D' => Some(KeyCode::KeyD),
        'E' => Some(KeyCode::KeyE),
        'F' => Some(KeyCode::KeyF),
        'G' => Some(KeyCode::KeyG),
        'H' => Some(KeyCode::KeyH),
        'I' => Some(KeyCode::KeyI),
        'J' => Some(KeyCode::KeyJ),
        'K' => Some(KeyCode::KeyK),
        'L' => Some(KeyCode::KeyL),
        'M' => Some(KeyCode::KeyM),
        'N' => Some(KeyCode::KeyN),
        'O' => Some(KeyCode::KeyO),
        'P' => Some(KeyCode::KeyP),
        'Q' => Some(KeyCode::KeyQ),
        'R' => Some(KeyCode::KeyR),
        'S' => Some(KeyCode::KeyS),
        'T' => Some(KeyCode::KeyT),
        'U' => Some(KeyCode::KeyU),
        'V' => Some(KeyCode::KeyV),
        'W' => Some(KeyCode::KeyW),
        'X' => Some(KeyCode::KeyX),
        'Y' => Some(KeyCode::KeyY),
        'Z' => Some(KeyCode::KeyZ),
        _ => None,
    }
}

/// The key a digit names, if any.
fn match_digit(c: char) -> (r: Option<KeyCode>)
    ensures
        r == digit_key(c),
{
    match c {
        '0' => Some(KeyCode::Digit0),
        '1' => Some(KeyCode::Digit1),
        '2' => Some(KeyCode::Digit2),
        '3' => Some(KeyCode::Digit3),
        '4' => Some(KeyCode::Digit4),
        '5' => Some(KeyCode::Digit5),
        '6' => Some(KeyCode::Digit6),
        '7' => Some(KeyCode::Digit7),
        '8' => Some(KeyCode::Digit8),
        '9' => Some(KeyCode::Digit9),
        _ => None,
    }
}

/// The function key this part names, if any.
fn match_function(t: &Vec<char>) -> (r: Option<KeyCode>)
    ensures
        r == function_key(t@),
{
    if chars_eq_str(t, "F1") {
        Some(KeyCode::F1)
    } else if chars_eq_str(t, "F2") {
        Some(KeyCode::F2)
    } else if chars_eq_str(t, "F3") {
        Some(KeyCode::F3)
    } else if chars_eq_str(t, "F4") {
        Some(KeyCode::F4)
    } else if chars_eq_str(t, "F5") {
        Some(KeyCode::F5)
    } else if chars_eq_str(t, "F6") {
        Some(KeyCode::F6)
    } else if chars_eq_str(t, "F7") {
        Some(KeyCode::F7)
    } else if chars_eq_str(t, "F8") {
        Some(KeyCode::F8)
    } else if chars_eq_str(t, "F9") {
        Some(KeyCode::F9)
    } else if chars_eq_str(t, "F10") {
        Some(KeyCode::F10)
    } else if chars_eq_str(t, "F11") {
        Some(KeyCode::F11)
    } else if chars_eq_str(t, "F12") {
        Some(KeyCode::F12)
    } else {
        None
    }
}

/// The named special key this part stands for, if any.
fn match_special(t: &Vec<char>) -> (r: Option<KeyCode>)
    ensures
        r == special_key(t@),
{
    if chars_eq_str(t, "SPACE") {
        Some(KeyCode::Space)
    } else if chars_eq_str(t, "ENTER") {
        Some(KeyCode::Enter)
    } else if chars_eq_str(t, "TAB") {
        Some(KeyCode::Tab)
    } else if chars_eq_str(t, "BACKSPACE") {
        Some(KeyCode::Backspace)
    } else if chars_eq_str(t, "ESC") || chars_eq_str(t, "ESCAPE") {
        Some(KeyCode::Escape)
    } else {
        None
    }
}

/// The concrete key this part names, if any.
fn match_key(t: &Vec<char>) -> (r: Option<KeyCode>)
    ensures
        r == key_of(t@),
{
    if t.len() == 1 {
        let c = t[0];
        match match_letter(c) {
            Some(k) => Some(k),
            None => match_digit(c),
        }
    } else {
        match match_function(t) {
            Some(k) => Some(k),
            None => match_special(t),
        }
    }
}

/// `m` with the named modifier switched on.
fn add_modifier(m: Modifiers, k: ModifierKey) -> (r: Modifiers)
    ensures
        r == with_modifier(m, k),
{
    match k {
        ModifierKey::Ctrl => Modifiers { ctrl: true, ..m },
        ModifierKey::Alt => Modifiers { alt: true, ..m },
        ModifierKey::Shift => Modifiers { shift: true, ..m },
        ModifierKey::Meta => Modifiers { meta: true, ..m },
    }
}

/// This part with surrounding whitespace dropped and ASCII letters
/// upper-cased.
fn normalize_part(t: &Vec<char>) -> (r: Vec<char>)
    ensures
        r@ == upcase(trimmed(t@)),
{
    let n = t.len();
    proof {
        assert(t@.skip(0) =~= t@);
    }
    let mut a: usize = 0;
    while a < n && is_space_char(t[a])
        invariant
            n == t@.len(),
            a <= n,
            trim_front(t@) == trim_front(t@.skip(a as int)),
        decreases n - a,
    {
        proof {
            assert(t@.skip(a as int).drop_first() =~= t@.skip(a as int + 1));
        }
        a += 1;
    }
    proof {
        assert(trim_front(t@) == t@.skip(a as int));
        assert(t@.subrange(a as int, n as int) =~= t@.skip(a as int));
    }
    let mut b: usize = n;
    while b > a && is_space_char(t[b - 1])
        invariant
            n == t@.len(),
            a <= b <= n,
            trim_back(t@.skip(a as int)) == trim_back(t@.subrange(a as int, b as int)),
        decreases b,
    {
        proof {
            assert(t@.subrange(a as int, b as int).drop_last() =~= t@.subrange(
                a as int,
                b as int - 1,
            ));
        }
        b -= 1;
    }
    proof {
        assert(trimmed(t@) == t@.subrange(a as int, b as int));
    }
    let mut r: Vec<char> = Vec::new();
    let mut i: usize = a;
    while i < b
        invariant
            n == t@.len(),
            a <= i <= b <= n,
            r@ == upcase(t@.subrange(a as int, i as int)),
        decreases b - i,
    {
        let u = to_upper(t[i]);
        r.push(u);
        i += 1;
        proof {
            assert(upcase(t@.subrange(a as int, i as int)) =~= upcase(
                t@.subrange(a as int, i as int - 1),
            ).push(upper(t@[i - 1])));
        }
    }
    r
}

/// The parts of the character sequence between '+' separators.
fn split_parts(chars: &Vec<char>) -> (r: Vec<Vec<char>>)
    ensures
        r.deep_view() == split_plus(chars@),
{
    let n = chars.len();
    let mut done: Vec<Vec<char>> = Vec::new();
    let mut cur: Vec<char> = Vec::new();
    let mut j: usize = 0;
    proof {
        assert(chars@.skip(0) =~= chars@);
        lemma_split_plus_len(chars@);
        assert(seq![split_plus(chars@)[0]] + split_plus(chars@).drop_first() =~= split_plus(
            chars@,
        ));
        assert(cur@ + split_plus(chars@)[0] =~= split_plus(chars@)[0]);
        assert(done.deep_view() =~= Seq::<Seq<char>>::empty());
    }
    while j < n
        invariant
            n == chars@.len(),
            j <= n,
            split_plus(chars@) == done.deep_view() + seq![
                cur@ + split_plus(chars@.skip(j as int))[0],
            ] + split_plus(chars@.skip(j as int)).drop_first(),
        decreases n - j,
    {
        let c = chars[j];
        proof {
            assert(chars@.skip(j as int).drop_first() =~= chars@.skip(j as int + 1));
            assert(chars@.skip(j as int)[0] == chars@[j as int]);
            lemma_split_plus_len(chars@.skip(j as int + 1));
        }
        let ghost done_pre = done.deep_view();
        let ghost cur_pre = cur@;
        let ghost sp_next = split_plus(chars@.skip(j as int + 1));
        if c == '+' {
            proof {
                assert(split_plus(chars@.skip(j as int)) == seq![Seq::<char>::empty()] + sp_next);
                assert((seq![Seq::<char>::empty()] + sp_next)[0] =~= Seq::<char>::empty());
                assert((seq![Seq::<char>::empty()] + sp_next).drop_first() =~= sp_next);
            }
            done.push(cur);
            cur = Vec::new();
            proof {
                assert(done.deep_view() =~~= done_pre.push(cur_pre));
                assert(cur_pre + Seq::<char>::empty() =~= cur_pre);
                assert(sp_next =~= seq![sp_next[0]] + sp_next.drop_first());
                assert(done_pre + seq![cur_pre + Seq::<char>::empty()] + sp_next
                    =~~= done_pre.push(cur_pre) + seq![Seq::<char>::empty() + sp_next[0]]
                    + sp_next.drop_first());
                assert(split_plus(chars@) == done.deep_view() + seq![
                    cur@ + split_plus(chars@.skip(j as int + 1))[0],
                ] + split_plus(chars@.skip(j as int + 1)).drop_first());
            }
        } else {
            proof {
                assert(split_plus(chars@.skip(j as int)) == seq![
                    seq![chars@[j as int]] + sp_next[0],
                ] + sp_next.drop_first());
            }
            cur.push(c);
            proof {
                assert(cur@ =~= cur_pre.push(c));
                assert(cur_pre + (seq![c] + sp_next[0]) =~= cur_pre.push(c) + sp_next[0]);
                assert((seq![seq![c] + sp_next[0]] + sp_next.drop_first()).drop_first()
                    =~= sp_next.drop_first());
                assert((seq![seq![c] + sp_next[0]] + sp_next.drop_first())[0] == seq![c]
                    + sp_next[0]);
                assert(split_plus(chars@) == done.deep_view() + seq![
                    cur@ + split_plus(chars@.skip(j as int + 1))[0],
                ] + split_plus(chars@.skip(j as int + 1)).drop_first());
            }
        }
        j += 1;
    }
    proof {
        assert(chars@.skip(n as int) =~= Seq::<char>::empty());
        assert(split_plus(Seq::<char>::empty()) == seq![Seq::<char>::empty()]);
        assert(cur@ + Seq::<char>::empty() =~= cur@);
    }
    let ghost done_pre = done.deep_view();
    let ghost cur_pre = cur@;
    done.push(cur);
    proof {
        assert(done.deep_view() =~~= done_pre.push(cur_pre));
        assert(seq![Seq::<char>::empty()].drop_first() =~= Seq::<Seq<char>>::empty());
        assert(done_pre + seq![cur_pre + Seq::<char>::empty()] + seq![
            Seq::<char>::empty(),
        ].drop_first() =~~= done_pre.push(cur_pre));
        assert(done.deep_view() == split_plus(chars@));
    }
    done
}

/// Parse a combination such as "Ctrl+Shift+A". '+' separates the parts,
/// whitespace around a part is ignored, and ASCII letter case does not
/// matter. Modifier names accumulate; of the concrete keys named, the last
/// one wins; a part that names nothing is an error, as is a string that
/// names modifiers only.
pub fn parse_hotkey(s: &str) -> (r: Result<Hotkey, HotkeyError>)
    ensures
        r == parse_spec(s@),
{
    let chars = collect_chars(s);
    let parts = split_parts(&chars);
    let ghost sp = split_plus(s@);
    let mut mods = Modifiers { ctrl: false, alt: false, shift: false, meta: false };
    let mut key: Option<KeyCode> = None;
    let mut idx: usize = 0;
    proof {
        assert(sp.skip(0) =~= sp);
    }
    while idx < parts.len()
        invariant
            parts.deep_view() == sp,
            sp == split_plus(s@),
            idx <= parts@.len(),
            parts@.len() == sp.len(),
            scan_parts(sp.skip(idx as int), mods, key) == parse_spec(s@),
        decreases parts@.len() - idx,
    {
        let norm = normalize_part(&parts[idx]);
        proof {
            assert(parts.deep_view()[idx as int] == parts@[idx as int].deep_view());
            assert(parts@[idx as int].deep_view() =~= parts@[idx as int]@);
            assert(sp.skip(idx as int)[0] == sp[idx as int]);
            assert(sp.skip(idx as int).drop_first() =~= sp.skip(idx as int + 1));
            assert(norm@ == upcase(trimmed(sp.skip(idx as int)[0])));
        }
        match match_modifier(&norm) {
            Some(m) => {
                mods = add_modifier(mods, m);
            },
            None => {
                match match_key(&norm) {
                    Some(k) => {
                        key = Some(k);
                    },
                    None => {
                        return Err(HotkeyError::UnsupportedKey);
                    },
                }
            },
        }
        idx += 1;
    }
    proof {
        assert(sp.skip(idx as int) =~= Seq::<Seq<char>>::empty());
    }
    match key {
        Some(k) => Ok(Hotkey { mods, key: k }),
        None => Err(HotkeyError::MissingKey),
    }
}

} // verus!
