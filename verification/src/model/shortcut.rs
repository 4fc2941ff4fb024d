//! Keyboard shortcuts that pause or resume the transmission, blank the
//! screen, and end the session, as chosen by the user and saved by name.

use vstd::prelude::*;
use vstd::string::*;
use vstd::utf8::is_ascii_chars;
use std::collections::HashMap;

verus! {

/// The named (non-character) keys that a shortcut can be.
#[derive(Clone, Copy, Debug, PartialEq, Eq, Structural)]
pub enum NamedKey {
    Escape,
    Space,
    Enter,
    Backspace,
    Tab,
    Insert,
    Delete,
    Home,
    End,
    PageUp,
    PageDown,
    ArrowUp,
    ArrowDown,
    ArrowLeft,
    ArrowRight,
    F1,
    F2,
    F3,
    F4,
    F5,
    F6,
    F7,
    F8,
    F9,
    F10,
    F11,
    F12,
    /// Any other named key; it cannot be chosen as a shortcut.
    Other,
}

/// A key as the keyboard reports it: a named key, the text that a
/// character key produces, or a key that could not be identified.
#[derive(Debug)]
pub enum ShortcutKey {
    Named(NamedKey),
    Character(String),
    Unidentified,
}

/// Mathematical form of a key.
pub enum KeyModel {
    Named(NamedKey),
    Character(Seq<char>),
    Unidentified,
}

impl View for ShortcutKey {
    type V = KeyModel;

    open spec fn view(&self) -> KeyModel {
        match self {
            ShortcutKey::Named(n) => KeyModel::Named(*n),
            ShortcutKey::Character(s) => KeyModel::Character(s@),
            ShortcutKey::Unidentified => KeyModel::Unidentified,
        }
    }
}

impl ShortcutKey {
    /// A copy of this key.
    pub fn duplicate(&self) -> (k: ShortcutKey)
        ensures
            k@ == self@,
    {
        match self {
            ShortcutKey::Named(n) => ShortcutKey::Named(*n),
            ShortcutKey::Character(s) => ShortcutKey::Character(s.clone()),
            ShortcutKey::Unidentified => ShortcutKey::Unidentified,
        }
    }
}

/// `s` with the ASCII lowercase letters made uppercase.
pub open spec fn ascii_upper(s: Seq<char>) -> Seq<char> {
    Seq::new(s.len(), |i: int| if 'a' <= s[i] && s[i] <= 'z' { ((s[i] as int) - 32) as char } else { s[i] })
}

/// What `str::to_uppercase` gives for `s`, by the Unicode case mapping.
pub uninterp spec fn unicode_uppercase(s: Seq<char>) -> Seq<char>;

/// The uppercase form of `s`: for ASCII text the ASCII case mapping, and
/// otherwise the Unicode one.
pub open spec fn uppercase_of(s: Seq<char>) -> Seq<char> {
    if is_ascii_chars(s) { ascii_upper(s) } else { unicode_uppercase(s) }
}

/// `str::to_uppercase`. The contract names its result, and claims that on
/// ASCII text it maps exactly `a`-`z` to `A`-`Z` and keeps every other
/// character, as std documents for ASCII.
#[verifier::external_body]
fn to_uppercase(s: &str) -> (u: String)
    ensures
        is_ascii_chars(s@) ==> u@ == ascii_upper(s@),
        !is_ascii_chars(s@) ==> u@ == unicode_uppercase(s@),
{
    s.to_uppercase()
}

/// Whether two texts are the same.
fn same_text(a: &str, b: &str) -> (same: bool)
    ensures
        same == (a@ == b@),
{
    let n = a.unicode_len();
    if n != b.unicode_len() {
        return false;
    }
    let mut i: usize = 0;
    while i < n
        invariant
            n == a@.len(),
            n == b@.len(),
            i <= n,
            forall|k: int| 0 <= k < i ==> a@[k] == b@[k],
        decreases n - i,
    {
        if a.get_char(i) != b.get_char(i) {
            return false;
        }
        i = i + 1;
    }
    assert(a@ =~= b@);
    true
}

/// The name under which a named key is shown and saved.
pub open spec fn named_key_text(k: NamedKey) -> Seq<char> {
    match k {
        NamedKey::Escape => "Escape"@,
        NamedKey::Space => "Space"@,
        NamedKey::Enter => "Enter"@,
        NamedKey::Backspace => "Backspace"@,
        NamedKey::Tab => "Tab"@,
        NamedKey::Insert => "Insert"@,
        NamedKey::Delete => "Delete"@,
        NamedKey::Home => "Home"@,
        NamedKey::End => "End"@,
        NamedKey::PageUp => "PageUp"@,
        NamedKey::PageDown => "PageDown"@,
        NamedKey::ArrowUp => "ArrowUp"@,
        NamedKey::ArrowDown => "ArrowDown"@,
        NamedKey::ArrowLeft => "ArrowLeft"@,
        NamedKey::ArrowRight => "ArrowRight"@,
        NamedKey::F1 => "F1"@,
        NamedKey::F2 => "F2"@,
        NamedKey::F3 => "F3"@,
        NamedKey::F4 => "F4"@,
        NamedKey::F5 => "F5"@,
        NamedKey::F6 => "F6"@,
        NamedKey::F7 => "F7"@,
        NamedKey::F8 => "F8"@,
        NamedKey::F9 => "F9"@,
        NamedKey::F10 => "F10"@,
        NamedKey::F11 => "F11"@,
        NamedKey::F12 => "F12"@,
        NamedKey::Other => "Unknown"@,
    }
}

/// The named key that uppercase text `u` names, if any.
pub open spec fn named_key_of_upper(u: Seq<char>) -> Option<NamedKey> {
    if u == "ESCAPE"@ {
        Some(NamedKey::Escape)
    }     else if u == "SPACE"@ {
        Some(NamedKey::Space)
    }     else if u == "ENTER"@ {
        Some(NamedKey::Enter)
    }     else if u == "BACKSPACE"@ {
        Some(NamedKey::Backspace)
    }     else if u == "TAB"@ {
        Some(NamedKey::Tab)
    }     else if u == "INSERT"@ {
        Some(NamedKey::Insert)
    }     else if u == "DELETE"@ {
        Some(NamedKey::Delete)
    }     else if u == "HOME"@ {
        Some(NamedKey::Home)
    }     else if u == "END"@ {
        Some(NamedKey::End)
    }     else if u == "PAGEUP"@ {
        Some(NamedKey::PageUp)
    }     else if u == "PAGEDOWN"@ {
        Some(NamedKey::PageDown)
    }     else if u == "UP"@ || u == "ARROWUP"@ {
        Some(NamedKey::ArrowUp)
    }     else if u == "DOWN"@ || u == "ARROWDOWN"@ {
        Some(NamedKey::ArrowDown)
    }     else if u == "LEFT"@ || u == "ARROWLEFT"@ {
        Some(NamedKey::ArrowLeft)
    }     else if u == "RIGHT"@ || u == "ARROWRIGHT"@ {
        Some(NamedKey::ArrowRight)
    }     else if u == "F1"@ {
        Some(NamedKey::F1)
    }     else if u == "F2"@ {
        Some(NamedKey::F2)
    }     else if u == "F3"@ {
        Some(NamedKey::F3)
    }     else if u == "F4"@ {
        Some(NamedKey::F4)
    }     else if u == "F5"@ {
        Some(NamedKey::F5)
    }     else if u == "F6"@ {
        Some(NamedKey::F6)
    }     else if u == "F7"@ {
        Some(NamedKey::F7)
    }     else if u == "F8"@ {
        Some(NamedKey::F8)
    }     else if u == "F9"@ {
        Some(NamedKey::F9)
    }     else if u == "F10"@ {
        Some(NamedKey::F10)
    }     else if u == "F11"@ {
        Some(NamedKey::F11)
    }     else if u == "F12"@ {
        Some(NamedKey::F12)
    } else {
        None
    }
}

pub open spec fn is_upper_alnum(c: char) -> bool {
    ('A' <= c && c <= 'Z') || ('0' <= c && c <= '9')
}

/// The key that uppercase text `u` names: a single letter or digit names
/// that character key, the other names a named key.
pub open spec fn key_of_upper(u: Seq<char>) -> Option<KeyModel> {
    if u.len() == 1 && is_upper_alnum(u[0]) {
        Some(KeyModel::Character(u))
    } else {
        match named_key_of_upper(u) {
            Some(k) => Some(KeyModel::Named(k)),
            None => None,
        }
    }
}

/// The key that text `s` names, in any letter case.
pub open spec fn key_of_text(s: Seq<char>) -> Option<KeyModel> {
    key_of_upper(uppercase_of(s))
}

/// How a key is shown and saved: a named key by its name, a character key
/// by its text in uppercase, anything else as "Unknown".
pub open spec fn key_text(k: KeyModel) -> Seq<char> {
    match k {
        KeyModel::Named(n) => named_key_text(n),
        KeyModel::Character(s) => uppercase_of(s),
        KeyModel::Unidentified => "Unknown"@,
    }
}

fn named_key_from_upper(u: &str) -> (k: Option<NamedKey>)
    ensures
        k == named_key_of_upper(u@),
{
    if same_text(u, "ESCAPE") {
        Some(NamedKey::Escape)
    }     else if same_text(u, "SPACE") {
        Some(NamedKey::Space)
    }     else if same_text(u, "ENTER") {
        Some(NamedKey::Enter)
    }     else if same_text(u, "BACKSPACE") {
        Some(NamedKey::Backspace)
    }     else if same_text(u, "TAB") {
        Some(NamedKey::Tab)
    }     else if same_text(u, "INSERT") {
        Some(NamedKey::Insert)
    }     else if same_text(u, "DELETE") {
        Some(NamedKey::Delete)
    }     else if same_text(u, "HOME") {
        Some(NamedKey::Home)
    }     else if same_text(u, "END") {
        Some(NamedKey::End)
    }     else if same_text(u, "PAGEUP") {
        Some(NamedKey::PageUp)
    }     else if same_text(u, "PAGEDOWN") {
        Some(NamedKey::PageDown)
    }     else if same_text(u, "UP") || same_text(u, "ARROWUP") {
        Some(NamedKey::ArrowUp)
    }     else if same_text(u, "DOWN") || same_text(u, "ARROWDOWN") {
        Some(NamedKey::ArrowDown)
    }     else if same_text(u, "LEFT") || same_text(u, "ARROWLEFT") {
        Some(NamedKey::ArrowLeft)
    }     else if same_text(u, "RIGHT") || same_text(u, "ARROWRIGHT") {
        Some(NamedKey::ArrowRight)
    }     else if same_text(u, "F1") {
        Some(NamedKey::F1)
    }     else if same_text(u, "F2") {
        Some(NamedKey::F2)
    }     else if same_text(u, "F3") {
        Some(NamedKey::F3)
    }     else if same_text(u, "F4") {
        Some(NamedKey::F4)
    }     else if same_text(u, "F5") {
        Some(NamedKey::F5)
    }     else if same_text(u, "F6") {
        Some(NamedKey::F6)
    }     else if same_text(u, "F7") {
        Some(NamedKey::F7)
    }     else if same_text(u, "F8") {
        Some(NamedKey::F8)
    }     else if same_text(u, "F9") {
        Some(NamedKey::F9)
    }     else if same_text(u, "F10") {
        Some(NamedKey::F10)
    }     else if same_text(u, "F11") {
        Some(NamedKey::F11)
    }     else if same_text(u, "F12") {
        Some(NamedKey::F12)
    } else {
        None
    }
}

/// The key that an uppercase text names, if it names one.
pub fn key_from_upper(upper: &str) -> (k: Option<ShortcutKey>)
    ensures
        match k {
            Some(key) => key_of_upper(upper@) == Some(key@),
            None => key_of_upper(upper@) is None,
        },
{
    if upper.unicode_len() == 1 {
        let c = upper.get_char(0);
        if ('A' <= c && c <= 'Z') || ('0' <= c && c <= '9') {
            return Some(ShortcutKey::Character(String::from_str(upper)));
        }
    }
    match named_key_from_upper(upper) {
        Some(n) => Some(ShortcutKey::Named(n)),
        None => None,
    }
}

/// Reads a key from its name, in any letter case; the error says which
/// text did not name a key.
pub fn from_str_to_key(string: &str) -> (r: Result<ShortcutKey, String>)
    ensures
        match r {
            Ok(key) => key_of_text(string@) == Some(key@),
            Err(message) => key_of_text(string@) is None && message@ == "Invalid Key: "@ + string@,
        },
{
    let upper = to_uppercase(string);
    match key_from_upper(upper.as_str()) {
        Some(key) => Ok(key),
        None => Err(String::from_str("Invalid Key: ").concat(string)),
    }
}

fn named_key_name(k: NamedKey) -> (name: &'static str)
    ensures
        name@ == named_key_text(k),
{
    match k {
        NamedKey::Escape => "Escape",
        NamedKey::Space => "Space",
        NamedKey::Enter => "Enter",
        NamedKey::Backspace => "Backspace",
        NamedKey::Tab => "Tab",
        NamedKey::Insert => "Insert",
        NamedKey::Delete => "Delete",
        NamedKey::Home => "Home",
        NamedKey::End => "End",
        NamedKey::PageUp => "PageUp",
        NamedKey::PageDown => "PageDown",
        NamedKey::ArrowUp => "ArrowUp",
        NamedKey::ArrowDown => "ArrowDown",
        NamedKey::ArrowLeft => "ArrowLeft",
        NamedKey::ArrowRight => "ArrowRight",
        NamedKey::F1 => "F1",
        NamedKey::F2 => "F2",
        NamedKey::F3 => "F3",
        NamedKey::F4 => "F4",
        NamedKey::F5 => "F5",
        NamedKey::F6 => "F6",
        NamedKey::F7 => "F7",
        NamedKey::F8 => "F8",
        NamedKey::F9 => "F9",
        NamedKey::F10 => "F10",
        NamedKey::F11 => "F11",
        NamedKey::F12 => "F12",
        NamedKey::Other => "Unknown",
    }
}

/// The text under which a key is shown and saved.
pub fn from_key_to_string(key: ShortcutKey) -> (text: String)
    ensures
        text@ == key_text(key@),
{
    match key {
        ShortcutKey::Named(n) => String::from_str(named_key_name(n)),
        ShortcutKey::Character(letter) => to_uppercase(letter.as_str()),
        ShortcutKey::Unidentified => String::from_str("Unknown"),
    }
}

/// Keys that a shortcut can be set to: a named key other than `Other`, or
/// a single uppercase letter or digit.
pub open spec fn choosable(k: KeyModel) -> bool {
    match k {
        KeyModel::Named(n) => n != NamedKey::Other,
        KeyModel::Character(s) => s.len() == 1 && is_upper_alnum(s[0]),
        KeyModel::Unidentified => false,
    }
}

/// Uppercase text as a key shows it: the arrows' short names ("UP",
/// "DOWN", "LEFT", "RIGHT") completed to their full names.
pub open spec fn shown_upper(u: Seq<char>) -> Seq<char> {
    if u == "UP"@ || u == "DOWN"@ || u == "LEFT"@ || u == "RIGHT"@ {
        "ARROW"@ + u
    } else {
        u
    }
}

/// The uppercase name of a named key, as reading accepts it.
pub open spec fn upper_name(k: NamedKey) -> Seq<char> {
    match k {
        NamedKey::Escape => "ESCAPE"@,
        NamedKey::Space => "SPACE"@,
        NamedKey::Enter => "ENTER"@,
        NamedKey::Backspace => "BACKSPACE"@,
        NamedKey::Tab => "TAB"@,
        NamedKey::Insert => "INSERT"@,
        NamedKey::Delete => "DELETE"@,
        NamedKey::Home => "HOME"@,
        NamedKey::End => "END"@,
        NamedKey::PageUp => "PAGEUP"@,
        NamedKey::PageDown => "PAGEDOWN"@,
        NamedKey::ArrowUp => "ARROWUP"@,
        NamedKey::ArrowDown => "ARROWDOWN"@,
        NamedKey::ArrowLeft => "ARROWLEFT"@,
        NamedKey::ArrowRight => "ARROWRIGHT"@,
        NamedKey::F1 => "F1"@,
        NamedKey::F2 => "F2"@,
        NamedKey::F3 => "F3"@,
        NamedKey::F4 => "F4"@,
        NamedKey::F5 => "F5"@,
        NamedKey::F6 => "F6"@,
        NamedKey::F7 => "F7"@,
        NamedKey::F8 => "F8"@,
        NamedKey::F9 => "F9"@,
        NamedKey::F10 => "F10"@,
        NamedKey::F11 => "F11"@,
        NamedKey::F12 => "F12"@,
        NamedKey::Other => "UNKNOWN"@,
    }
}

/// The name of every named key but `Other` is ASCII, reads back as that
/// key, and is its uppercase name in uppercase; every uppercase text that
/// names the key is that name once the arrows' short names are completed.
#[verifier::spinoff_prover]
proof fn lemma_named_key_name(k: NamedKey, u: Seq<char>)
    requires
        k != NamedKey::Other,
    ensures
        named_key_of_upper(u) == Some(k) ==> shown_upper(u) == upper_name(k),
        is_ascii_chars(named_key_text(k)),
        ascii_upper(named_key_text(k)) == upper_name(k),
        named_key_of_upper(upper_name(k)) == Some(k),
        upper_name(k).len() >= 2,
{
    reveal_strlit("Escape");
    reveal_strlit("ESCAPE");
    reveal_strlit("Space");
    reveal_strlit("SPACE");
    reveal_strlit("Enter");
    reveal_strlit("ENTER");
    reveal_strlit("Backspace");
    reveal_strlit("BACKSPACE");
    reveal_strlit("Tab");
    reveal_strlit("TAB");
    reveal_strlit("Insert");
    reveal_strlit("INSERT");
    reveal_strlit("Delete");
    reveal_strlit("DELETE");
    reveal_strlit("Home");
    reveal_strlit("HOME");
    reveal_strlit("End");
    reveal_strlit("END");
    reveal_strlit("PageUp");
    reveal_strlit("PAGEUP");
    reveal_strlit("PageDown");
    reveal_strlit("PAGEDOWN");
    reveal_strlit("ArrowUp");
    reveal_strlit("ARROWUP");
    reveal_strlit("ArrowDown");
    reveal_strlit("ARROWDOWN");
    reveal_strlit("ArrowLeft");
    reveal_strlit("ARROWLEFT");
    reveal_strlit("ArrowRight");
    reveal_strlit("ARROWRIGHT");
    reveal_strlit("F1");
    reveal_strlit("F2");
    reveal_strlit("F3");
    reveal_strlit("F4");
    reveal_strlit("F5");
    reveal_strlit("F6");
    reveal_strlit("F7");
    reveal_strlit("F8");
    reveal_strlit("F9");
    reveal_strlit("F10");
    reveal_strlit("F11");
    reveal_strlit("F12");
    reveal_strlit("UP");
    reveal_strlit("ARROW");
    reveal_strlit("DOWN");
    reveal_strlit("LEFT");
    reveal_strlit("RIGHT");
    match k {
        NamedKey::Escape => {
            assert(ascii_upper("Escape"@) =~= "ESCAPE"@);
            assert("ESCAPE"@[0] != "INSERT"@[0]);
            assert("ESCAPE"@[0] != "DELETE"@[0]);
            assert("ESCAPE"@[0] != "PAGEUP"@[0]);
        },
        NamedKey::Space => {
            assert(ascii_upper("Space"@) =~= "SPACE"@);
            assert("SPACE"@[0] != "ENTER"@[0]);
            assert("SPACE"@[0] != "RIGHT"@[0]);
        },
        NamedKey::Enter => {
            assert(ascii_upper("Enter"@) =~= "ENTER"@);
            assert("ENTER"@[0] != "SPACE"@[0]);
            assert("ENTER"@[0] != "RIGHT"@[0]);
        },
        NamedKey::Backspace => {
            assert(ascii_upper("Backspace"@) =~= "BACKSPACE"@);
            assert("BACKSPACE"@[0] != "ARROWDOWN"@[0]);
            assert("BACKSPACE"@[0] != "ARROWLEFT"@[0]);
        },
        NamedKey::Tab => {
            assert(ascii_upper("Tab"@) =~= "TAB"@);
            assert("TAB"@[0] != "END"@[0]);
            assert("TAB"@[0] != "F10"@[0]);
            assert("TAB"@[0] != "F11"@[0]);
            assert("TAB"@[0] != "F12"@[0]);
        },
        NamedKey::Insert => {
            assert(ascii_upper("Insert"@) =~= "INSERT"@);
            assert("INSERT"@[0] != "ESCAPE"@[0]);
            assert("INSERT"@[0] != "DELETE"@[0]);
            assert("INSERT"@[0] != "PAGEUP"@[0]);
        },
        NamedKey::Delete => {
            assert(ascii_upper("Delete"@) =~= "DELETE"@);
            assert("DELETE"@[0] != "ESCAPE"@[0]);
            assert("DELETE"@[0] != "INSERT"@[0]);
            assert("DELETE"@[0] != "PAGEUP"@[0]);
        },
        NamedKey::Home => {
            assert(ascii_upper("Home"@) =~= "HOME"@);
            assert("HOME"@[0] != "DOWN"@[0]);
            assert("HOME"@[0] != "LEFT"@[0]);
        },
        NamedKey::End => {
            assert(ascii_upper("End"@) =~= "END"@);
            assert("END"@[0] != "TAB"@[0]);
            assert("END"@[0] != "F10"@[0]);
            assert("END"@[0] != "F11"@[0]);
            assert("END"@[0] != "F12"@[0]);
        },
        NamedKey::PageUp => {
            assert(ascii_upper("PageUp"@) =~= "PAGEUP"@);
            assert("PAGEUP"@[0] != "ESCAPE"@[0]);
            assert("PAGEUP"@[0] != "INSERT"@[0]);
            assert("PAGEUP"@[0] != "DELETE"@[0]);
        },
        NamedKey::PageDown => {
            assert(ascii_upper("PageDown"@) =~= "PAGEDOWN"@);
        },
        NamedKey::ArrowUp => {
            assert(ascii_upper("ArrowUp"@) =~= "ARROWUP"@);
        },
        NamedKey::ArrowDown => {
            assert(ascii_upper("ArrowDown"@) =~= "ARROWDOWN"@);
            assert("ARROWDOWN"@[0] != "BACKSPACE"@[0]);
            assert("ARROWDOWN"@[5] != "ARROWLEFT"@[5]);
        },
        NamedKey::ArrowLeft => {
            assert(ascii_upper("ArrowLeft"@) =~= "ARROWLEFT"@);
            assert("ARROWLEFT"@[0] != "BACKSPACE"@[0]);
            assert("ARROWLEFT"@[5] != "ARROWDOWN"@[5]);
        },
        NamedKey::ArrowRight => {
            assert(ascii_upper("ArrowRight"@) =~= "ARROWRIGHT"@);
        },
        NamedKey::F1 => {
            assert(ascii_upper("F1"@) =~= "F1"@);
            assert("F1"@[0] != "UP"@[0]);
            assert("F1"@[1] != "F2"@[1]);
            assert("F1"@[1] != "F3"@[1]);
            assert("F1"@[1] != "F4"@[1]);
            assert("F1"@[1] != "F5"@[1]);
            assert("F1"@[1] != "F6"@[1]);
            assert("F1"@[1] != "F7"@[1]);
            assert("F1"@[1] != "F8"@[1]);
            assert("F1"@[1] != "F9"@[1]);
        },
        NamedKey::F2 => {
            assert(ascii_upper("F2"@) =~= "F2"@);
            assert("F2"@[0] != "UP"@[0]);
            assert("F2"@[1] != "F1"@[1]);
            assert("F2"@[1] != "F3"@[1]);
            assert("F2"@[1] != "F4"@[1]);
            assert("F2"@[1] != "F5"@[1]);
            assert("F2"@[1] != "F6"@[1]);
            assert("F2"@[1] != "F7"@[1]);
            assert("F2"@[1] != "F8"@[1]);
            assert("F2"@[1] != "F9"@[1]);
        },
        NamedKey::F3 => {
            assert(ascii_upper("F3"@) =~= "F3"@);
            assert("F3"@[0] != "UP"@[0]);
            assert("F3"@[1] != "F1"@[1]);
            assert("F3"@[1] != "F2"@[1]);
            assert("F3"@[1] != "F4"@[1]);
            assert("F3"@[1] != "F5"@[1]);
            assert("F3"@[1] != "F6"@[1]);
            assert("F3"@[1] != "F7"@[1]);
            assert("F3"@[1] != "F8"@[1]);
            assert("F3"@[1] != "F9"@[1]);
        },
        NamedKey::F4 => {
            assert(ascii_upper("F4"@) =~= "F4"@);
            assert("F4"@[0] != "UP"@[0]);
            assert("F4"@[1] != "F1"@[1]);
            assert("F4"@[1] != "F2"@[1]);
            assert("F4"@[1] != "F3"@[1]);
            assert("F4"@[1] != "F5"@[1]);
            assert("F4"@[1] != "F6"@[1]);
            assert("F4"@[1] != "F7"@[1]);
            assert("F4"@[1] != "F8"@[1]);
            assert("F4"@[1] != "F9"@[1]);
        },
        NamedKey::F5 => {
            assert(ascii_upper("F5"@) =~= "F5"@);
            assert("F5"@[0] != "UP"@[0]);
            assert("F5"@[1] != "F1"@[1]);
            assert("F5"@[1] != "F2"@[1]);
            assert("F5"@[1] != "F3"@[1]);
            assert("F5"@[1] != "F4"@[1]);
            assert("F5"@[1] != "F6"@[1]);
            assert("F5"@[1] != "F7"@[1]);
            assert("F5"@[1] != "F8"@[1]);
            assert("F5"@[1] != "F9"@[1]);
        },
        NamedKey::F6 => {
            assert(ascii_upper("F6"@) =~= "F6"@);
            assert("F6"@[0] != "UP"@[0]);
            assert("F6"@[1] != "F1"@[1]);
            assert("F6"@[1] != "F2"@[1]);
            assert("F6"@[1] != "F3"@[1]);
            assert("F6"@[1] != "F4"@[1]);
            assert("F6"@[1] != "F5"@[1]);
            assert("F6"@[1] != "F7"@[1]);
            assert("F6"@[1] != "F8"@[1]);
            assert("F6"@[1] != "F9"@[1]);
        },
        NamedKey::F7 => {
            assert(ascii_upper("F7"@) =~= "F7"@);
            assert("F7"@[0] != "UP"@[0]);
            assert("F7"@[1] != "F1"@[1]);
            assert("F7"@[1] != "F2"@[1]);
            assert("F7"@[1] != "F3"@[1]);
            assert("F7"@[1] != "F4"@[1]);
            assert("F7"@[1] != "F5"@[1]);
            assert("F7"@[1] != "F6"@[1]);
            assert("F7"@[1] != "F8"@[1]);
            assert("F7"@[1] != "F9"@[1]);
        },
        NamedKey::F8 => {
            assert(ascii_upper("F8"@) =~= "F8"@);
            assert("F8"@[0] != "UP"@[0]);
            assert("F8"@[1] != "F1"@[1]);
            assert("F8"@[1] != "F2"@[1]);
            assert("F8"@[1] != "F3"@[1]);
            assert("F8"@[1] != "F4"@[1]);
            assert("F8"@[1] != "F5"@[1]);
            assert("F8"@[1] != "F6"@[1]);
            assert("F8"@[1] != "F7"@[1]);
            assert("F8"@[1] != "F9"@[1]);
        },
        NamedKey::F9 => {
            assert(ascii_upper("F9"@) =~= "F9"@);
            assert("F9"@[0] != "UP"@[0]);
            assert("F9"@[1] != "F1"@[1]);
            assert("F9"@[1] != "F2"@[1]);
            assert("F9"@[1] != "F3"@[1]);
            assert("F9"@[1] != "F4"@[1]);
            assert("F9"@[1] != "F5"@[1]);
            assert("F9"@[1] != "F6"@[1]);
            assert("F9"@[1] != "F7"@[1]);
            assert("F9"@[1] != "F8"@[1]);
        },
        NamedKey::F10 => {
            assert(ascii_upper("F10"@) =~= "F10"@);
            assert("F10"@[0] != "TAB"@[0]);
            assert("F10"@[0] != "END"@[0]);
            assert("F10"@[2] != "F11"@[2]);
            assert("F10"@[2] != "F12"@[2]);
        },
        NamedKey::F11 => {
            assert(ascii_upper("F11"@) =~= "F11"@);
            assert("F11"@[0] != "TAB"@[0]);
            assert("F11"@[0] != "END"@[0]);
            assert("F11"@[2] != "F10"@[2]);
            assert("F11"@[2] != "F12"@[2]);
        },
        NamedKey::F12 => {
            assert(ascii_upper("F12"@) =~= "F12"@);
            assert("F12"@[0] != "TAB"@[0]);
            assert("F12"@[0] != "END"@[0]);
            assert("F12"@[2] != "F10"@[2]);
            assert("F12"@[2] != "F11"@[2]);
        },
        NamedKey::Other => {},
    }
}

/// Every key that reading a name gives can be chosen.
pub proof fn lemma_read_keys_choosable(s: Seq<char>)
    ensures
        key_of_text(s) matches Some(k) ==> choosable(k),
{
}

/// Saving a key by its text and reading the text back gives the same key,
/// for every key that a shortcut can be set to.
pub proof fn lemma_key_text_roundtrip(k: KeyModel)
    requires
        choosable(k),
    ensures
        key_of_text(key_text(k)) == Some(k),
{
    match k {
        KeyModel::Named(n) => {
            if n != NamedKey::Other {
                lemma_named_key_name(n, upper_name(n));
            }
        },
        KeyModel::Character(c) => {
            assert(is_ascii_chars(c));
            assert(ascii_upper(c) =~= c);
        },
        KeyModel::Unidentified => {},
    }
}

/// The text under which a key read from `s` is shown is, in uppercase, `s`
/// in uppercase, with the arrows' short names completed ("up" reads as the
/// key shown as "ArrowUp").
pub proof fn lemma_shown_text_matches_input(s: Seq<char>, k: KeyModel)
    requires
        key_of_text(s) == Some(k),
    ensures
        uppercase_of(key_text(k)) == shown_upper(uppercase_of(s)),
{
    let u = uppercase_of(s);
    reveal_strlit("UP");
    reveal_strlit("DOWN");
    reveal_strlit("LEFT");
    reveal_strlit("RIGHT");
    match k {
        KeyModel::Named(n) => {
            assert(named_key_of_upper(u) == Some(n));
            assert(n != NamedKey::Other);
            lemma_named_key_name(n, u);
        },
        KeyModel::Character(c) => {
            assert(c == u);
            assert(is_ascii_chars(c));
            assert(ascii_upper(c) =~= c);
            assert(ascii_upper(ascii_upper(c)) =~= c);
        },
        KeyModel::Unidentified => {},
    }
}

/// The key that a saved entry gives: the key it names, or F1 when it names
/// none or is missing (a missing entry reads as "No Shortcut selected").
pub open spec fn loaded_key(entry: Option<Seq<char>>) -> KeyModel {
    let text = match entry {
        Some(t) => t,
        None => "No Shortcut selected"@,
    };
    match key_of_text(text) {
        Some(k) => k,
        None => KeyModel::Named(NamedKey::F1),
    }
}

/// The three shortcuts: pause/resume the transmission, blank the screen,
/// end the session.
#[derive(Debug)]
pub struct ShortcutController {
    manage_trasmition: ShortcutKey,
    blanking_screen: ShortcutKey,
    terminate_session: ShortcutKey,
}

impl View for ShortcutController {
    type V = (KeyModel, KeyModel, KeyModel);

    closed spec fn view(&self) -> (KeyModel, KeyModel, KeyModel) {
        (self.manage_trasmition@, self.blanking_screen@, self.terminate_session@)
    }
}

/// Every shortcut is a key that a shortcut can be set to.
pub open spec fn shortcuts_choosable(c: (KeyModel, KeyModel, KeyModel)) -> bool {
    choosable(c.0) && choosable(c.1) && choosable(c.2)
}

fn load_key(entry: Option<&str>) -> (k: ShortcutKey)
    ensures
        k@ == loaded_key(match entry {
            Some(t) => Some(t@),
            None => None,
        }),
{
    let text = match entry {
        Some(t) => t,
        None => "No Shortcut selected",
    };
    match from_str_to_key(text) {
        Ok(k) => k,
        Err(_) => ShortcutKey::Named(NamedKey::F1),
    }
}

impl ShortcutController {
    /// The shortcuts that saved entries give, each found under its own name
    /// (`manage_trasmition`, `blanking_screen`, `terminate_session`).
    pub fn from_saved_entries(
        manage_trasmition: Option<&str>,
        blanking_screen: Option<&str>,
        terminate_session: Option<&str>,
    ) -> (c: Self)
        ensures
            c@.0 == loaded_key(match manage_trasmition {
                Some(t) => Some(t@),
                None => None,
            }),
            c@.1 == loaded_key(match blanking_screen {
                Some(t) => Some(t@),
                None => None,
            }),
            c@.2 == loaded_key(match terminate_session {
                Some(t) => Some(t@),
                None => None,
            }),
            shortcuts_choosable(c@),
    {
        let c = ShortcutController {
            manage_trasmition: load_key(manage_trasmition),
            blanking_screen: load_key(blanking_screen),
            terminate_session: load_key(terminate_session),
        };
        proof {
            lemma_loaded_choosable(match manage_trasmition {
                Some(t) => Some(t@),
                None => None,
            });
            lemma_loaded_choosable(match blanking_screen {
                Some(t) => Some(t@),
                None => None,
            });
            lemma_loaded_choosable(match terminate_session {
                Some(t) => Some(t@),
                None => None,
            });
        }
        c
    }

    /// Sets the pause/resume shortcut to the key that `manage_trasmition`
    /// names; the text must name a key.
    pub fn set_manage_trasmition(&mut self, manage_trasmition: &str)
        requires
            key_of_text(manage_trasmition@) is Some,
        ensures
            final(self)@ == (key_of_text(manage_trasmition@)->0, old(self)@.1, old(self)@.2),
            shortcuts_choosable(old(self)@) ==> shortcuts_choosable(final(self)@),
    {
        proof {
            lemma_read_keys_choosable(manage_trasmition@);
        }
        match from_str_to_key(manage_trasmition) {
            Ok(k) => {
                self.manage_trasmition = k;
            },
            Err(_) => {},
        }
    }

    /// Sets the blanking shortcut to the key that `blanking_screen` names;
    /// the text must name a key.
    pub fn set_blanking_screen(&mut self, blanking_screen: &str)
        requires
            key_of_text(blanking_screen@) is Some,
        ensures
            final(self)@ == (old(self)@.0, key_of_text(blanking_screen@)->0, old(self)@.2),
            shortcuts_choosable(old(self)@) ==> shortcuts_choosable(final(self)@),
    {
        proof {
            lemma_read_keys_choosable(blanking_screen@);
        }
        match from_str_to_key(blanking_screen) {
            Ok(k) => {
                self.blanking_screen = k;
            },
            Err(_) => {},
        }
    }

    /// Sets the end-of-session shortcut to the key that `terminate_session`
    /// names; the text must name a key.
    pub fn set_terminate_session(&mut self, terminate_session: &str)
        requires
            key_of_text(terminate_session@) is Some,
        ensures
            final(self)@ == (old(self)@.0, old(self)@.1, key_of_text(terminate_session@)->0),
            shortcuts_choosable(old(self)@) ==> shortcuts_choosable(final(self)@),
    {
        proof {
            lemma_read_keys_choosable(terminate_session@);
        }
        match from_str_to_key(terminate_session) {
            Ok(k) => {
                self.terminate_session = k;
            },
            Err(_) => {},
        }
    }

    pub fn get_manage_trasmition_shortcut(&self) -> (k: ShortcutKey)
        ensures
            k@ == self@.0,
    {
        self.manage_trasmition.duplicate()
    }

    pub fn get_blanking_screen_shortcut(&self) -> (k: ShortcutKey)
        ensures
            k@ == self@.1,
    {
        self.blanking_screen.duplicate()
    }

    pub fn get_terminate_session_shortcut(&self) -> (k: ShortcutKey)
        ensures
            k@ == self@.2,
    {
        self.terminate_session.duplicate()
    }

    /// The entries to save: each shortcut's text under its name.
    pub fn saved_entries(&self) -> (entries: Vec<(String, String)>)
        ensures
            entries@.len() == 3,
            entries@[0].0@ == "manage_trasmition"@,
            entries@[0].1@ == key_text(self@.0),
            entries@[1].0@ == "blanking_screen"@,
            entries@[1].1@ == key_text(self@.1),
            entries@[2].0@ == "terminate_session"@,
            entries@[2].1@ == key_text(self@.2),
    {
        let mut entries: Vec<(String, String)> = Vec::new();
        entries.push((String::from_str("manage_trasmition"), from_key_to_string(self.manage_trasmition.duplicate())));
        entries.push((String::from_str("blanking_screen"), from_key_to_string(self.blanking_screen.duplicate())));
        entries.push((String::from_str("terminate_session"), from_key_to_string(self.terminate_session.duplicate())));
        entries
    }
}

proof fn lemma_loaded_choosable(entry: Option<Seq<char>>)
    ensures
        choosable(loaded_key(entry)),
{
    let text = match entry {
        Some(t) => t,
        None => "No Shortcut selected"@,
    };
    lemma_read_keys_choosable(text);
}

/// Saving the shortcuts and loading what was saved gives them back.
pub proof fn lemma_saved_shortcuts_reload(c: (KeyModel, KeyModel, KeyModel))
    requires
        shortcuts_choosable(c),
    ensures
        loaded_key(Some(key_text(c.0))) == c.0,
        loaded_key(Some(key_text(c.1))) == c.1,
        loaded_key(Some(key_text(c.2))) == c.2,
{
    lemma_key_text_roundtrip(c.0);
    lemma_key_text_roundtrip(c.1);
    lemma_key_text_roundtrip(c.2);
}


// ------------------------------------------------------------ the file

/// What `serde_json::from_slice` makes of the bytes `text` read as a JSON
/// object of strings, looked up at `name`: `None` when the text is not such
/// an object, `Some(None)` when it has no entry `name`, and the entry's
/// text otherwise.
pub uninterp spec fn json_entry(text: Seq<u8>, name: Seq<char>) -> Option<Option<Seq<char>>>;

/// The saved text that a looked-up entry gives: none when the file could
/// not be read as an object or has no such entry.
pub open spec fn saved_text(e: Option<Option<Seq<char>>>) -> Option<Seq<char>> {
    match e {
        Some(Some(t)) => Some(t),
        _ => None,
    }
}

/// `serde_json::from_slice` into a `HashMap<String, String>`, then the entry
/// at `name`. The contract names the result: `json_entry(text, name)`, the
/// outer `None` standing for a text that is not a JSON object of strings.
#[verifier::external_body]
fn json_string_entry(text: &[u8], name: &str) -> (r: Option<Option<String>>)
    ensures
        match r {
            None => json_entry(text@, name@) is None,
            Some(None) => json_entry(text@, name@) == Some(None::<Seq<char>>),
            Some(Some(t)) => json_entry(text@, name@) == Some(Some(t@)),
        },
{
    serde_json::from_slice::<HashMap<String, String>>(text).ok().map(|m| m.get(name).cloned())
}

/// `serde_json::to_vec_pretty` of the entries, as a `HashMap<String, String>`
/// (names must differ). The order of the entries in the text follows the
/// map's and is not stated; the contract claims that serializing succeeds,
/// and that reading the text back as a JSON object of strings gives each
/// name its text.
#[verifier::external_body]
fn json_pretty(entries: &Vec<(String, String)>) -> (bytes: Option<Vec<u8>>)
    requires
        forall|i: int, j: int| 0 <= i < j < entries@.len() ==> entries@[i].0@ != entries@[j].0@,
    ensures
        bytes is Some,
        bytes matches Some(b) ==> forall|i: int| 0 <= i < entries@.len()
            ==> #[trigger] json_entry(b@, entries@[i].0@) == Some(Some(entries@[i].1@)),
{
    serde_json::to_vec_pretty(&entries.iter().cloned().collect::<HashMap<String, String>>()).ok()
}

fn saved_entry(text: &[u8], name: &str) -> (e: Option<String>)
    ensures
        match e {
            Some(t) => saved_text(json_entry(text@, name@)) == Some(t@),
            None => saved_text(json_entry(text@, name@)) is None,
        },
{
    match json_string_entry(text, name) {
        Some(Some(t)) => Some(t),
        _ => None,
    }
}

fn as_text(e: &Option<String>) -> (t: Option<&str>)
    ensures
        match e {
            Some(s) => t matches Some(x) && x@ == s@,
            None => t is None,
        },
{
    match e {
        Some(s) => Some(s.as_str()),
        None => None,
    }
}

/// The shortcuts that the text of the shortcuts file gives: each entry is
/// looked up under its name; a text that is not a JSON object of strings,
/// or a missing entry, reads as no entry.
pub fn shortcuts_from_json(text: &[u8]) -> (c: ShortcutController)
    ensures
        c@.0 == loaded_key(saved_text(json_entry(text@, "manage_trasmition"@))),
        c@.1 == loaded_key(saved_text(json_entry(text@, "blanking_screen"@))),
        c@.2 == loaded_key(saved_text(json_entry(text@, "terminate_session"@))),
        shortcuts_choosable(c@),
{
    let m = saved_entry(text, "manage_trasmition");
    let b = saved_entry(text, "blanking_screen");
    let t = saved_entry(text, "terminate_session");
    ShortcutController::from_saved_entries(as_text(&m), as_text(&b), as_text(&t))
}

/// The text of the shortcuts file for `c`: a JSON object in which each
/// shortcut's name reads back as the text of its key.
pub fn shortcuts_json(c: &ShortcutController) -> (bytes: Vec<u8>)
    ensures
        json_entry(bytes@, "manage_trasmition"@) == Some(Some(key_text(c@.0))),
        json_entry(bytes@, "blanking_screen"@) == Some(Some(key_text(c@.1))),
        json_entry(bytes@, "terminate_session"@) == Some(Some(key_text(c@.2))),
{
    let entries = c.saved_entries();
    proof {
        reveal_strlit("manage_trasmition");
        reveal_strlit("blanking_screen");
        reveal_strlit("terminate_session");
        assert(entries@[0].0@[0] != entries@[1].0@[0]);
        assert(entries@[0].0@[0] != entries@[2].0@[0]);
        assert(entries@[1].0@[0] != entries@[2].0@[0]);
    }
    let out = json_pretty(&entries);
    match out {
        Some(b) => {
            assert(json_entry(b@, entries@[0].0@) == Some(Some(entries@[0].1@)));
            assert(json_entry(b@, entries@[1].0@) == Some(Some(entries@[1].1@)));
            assert(json_entry(b@, entries@[2].0@) == Some(Some(entries@[2].1@)));
            b
        },
        None => Vec::new(),
    }
}

/// The shortcuts written to the file read back as the same shortcuts.
pub proof fn lemma_file_reload(c: (KeyModel, KeyModel, KeyModel), text: Seq<u8>)
    requires
        shortcuts_choosable(c),
        json_entry(text, "manage_trasmition"@) == Some(Some(key_text(c.0))),
        json_entry(text, "blanking_screen"@) == Some(Some(key_text(c.1))),
        json_entry(text, "terminate_session"@) == Some(Some(key_text(c.2))),
    ensures
        loaded_key(saved_text(json_entry(text, "manage_trasmition"@))) == c.0,
        loaded_key(saved_text(json_entry(text, "blanking_screen"@))) == c.1,
        loaded_key(saved_text(json_entry(text, "terminate_session"@))) == c.2,
{
    lemma_saved_shortcuts_reload(c);
}

} // verus!
