//! Key bindings and the text they are written as.
//!
//! A binding is written as its key, after up to two modifiers and a `+` each: `g`,
//! `enter`, `f1`, `ctrl+a`, `ctrl+shift+up`. Keys and modifiers go by their names; a
//! single ASCII character names itself.

use vstd::prelude::*;
use vstd::string::*;
use crate::keys::{Key, KeyModifiers};
use crate::text::{
    lemma_split_first, lemma_split_one, lowercased, split, split_at_marks, to_lowercase, trim,
    trimmed,
};

verus! {

/// A key together with the modifiers it is pressed with.
#[derive(Clone, Copy, Debug, PartialEq, Eq, Hash, Structural)]
pub struct KeyBinding {
    pub key: Key,
    pub modifiers: KeyModifiers,
}

impl KeyBinding {
    /// `key` without a modifier.
    pub open spec fn spec_simple(key: Key) -> KeyBinding {
        KeyBinding { key, modifiers: KeyModifiers::none() }
    }

    /// `key` with Control.
    pub open spec fn spec_ctrl(key: Key) -> KeyBinding {
        KeyBinding { key, modifiers: KeyModifiers::control() }
    }

    /// `key` with Alt.
    pub open spec fn spec_alt(key: Key) -> KeyBinding {
        KeyBinding { key, modifiers: KeyModifiers::alt() }
    }

    /// `key` with Shift.
    pub open spec fn spec_shift(key: Key) -> KeyBinding {
        KeyBinding { key, modifiers: KeyModifiers::shift() }
    }

    pub fn new(key: Key, modifiers: KeyModifiers) -> (r: KeyBinding)
        ensures
            r == (KeyBinding { key, modifiers }),
    {
        KeyBinding { key, modifiers }
    }

    /// `key` without a modifier.
    #[verifier::when_used_as_spec(spec_simple)]
    pub fn simple(key: Key) -> (r: KeyBinding)
        ensures
            r == Self::spec_simple(key),
    {
        KeyBinding { key, modifiers: KeyModifiers::none() }
    }

    /// `key` with Control.
    #[verifier::when_used_as_spec(spec_ctrl)]
    pub fn ctrl(key: Key) -> (r: KeyBinding)
        ensures
            r == Self::spec_ctrl(key),
    {
        KeyBinding { key, modifiers: KeyModifiers::control() }
    }

    /// `key` with Alt.
    #[verifier::when_used_as_spec(spec_alt)]
    pub fn alt(key: Key) -> (r: KeyBinding)
        ensures
            r == Self::spec_alt(key),
    {
        KeyBinding { key, modifiers: KeyModifiers::alt() }
    }

    /// `key` with Shift.
    #[verifier::when_used_as_spec(spec_shift)]
    pub fn shift(key: Key) -> (r: KeyBinding)
        ensures
            r == Self::spec_shift(key),
    {
        KeyBinding { key, modifiers: KeyModifiers::shift() }
    }

    /// Check if this keybinding matches the given key event
    pub fn matches(&self, key: Key, modifiers: KeyModifiers) -> (r: bool)
        ensures
            r == (self.key == key && self.modifiers == modifiers),
    {
        self.key == key && self.modifiers == modifiers
    }
}

impl Default for KeyBinding {
    fn default() -> (r: Self)
        ensures
            r == KeyBinding::simple(Key::Null),
    {
        KeyBinding { key: Key::Null, modifiers: KeyModifiers::none() }
    }
}

/// Why a text is not a key binding.
#[derive(Clone, Debug, PartialEq, Eq)]
pub enum KeyBindingError {
    /// The payload stands where a modifier must, and names none.
    UnknownModifier(String),
    /// The text, which is the payload, has more than two `+`.
    InvalidFormat(String),
    /// The payload stands where the key must, and names none.
    UnknownKey(String),
}

/// Mathematical value of [`KeyBindingError`].
pub enum KeyBindingErrorView {
    UnknownModifier(Seq<char>),
    InvalidFormat(Seq<char>),
    UnknownKey(Seq<char>),
}

impl View for KeyBindingError {
    type V = KeyBindingErrorView;

    open spec fn view(&self) -> KeyBindingErrorView {
        match self {
            KeyBindingError::UnknownModifier(word) => KeyBindingErrorView::UnknownModifier(word@),
            KeyBindingError::InvalidFormat(text) => KeyBindingErrorView::InvalidFormat(text@),
            KeyBindingError::UnknownKey(word) => KeyBindingErrorView::UnknownKey(word@),
        }
    }
}

impl KeyBindingErrorView {
    /// The text shown to the user.
    pub open spec fn message(self) -> Seq<char> {
        match self {
            KeyBindingErrorView::UnknownModifier(word) => "Unknown modifier: "@ + word,
            KeyBindingErrorView::InvalidFormat(text) => "Invalid key binding format: "@ + text,
            KeyBindingErrorView::UnknownKey(word) => "Unknown key: "@ + word,
        }
    }
}

impl KeyBindingError {
    /// The text shown to the user.
    pub fn message(&self) -> (r: String)
        ensures
            r@ == self@.message(),
    {
        match self {
            KeyBindingError::UnknownModifier(word) => {
                "Unknown modifier: ".to_string().concat(word.as_str())
            },
            KeyBindingError::InvalidFormat(text) => {
                "Invalid key binding format: ".to_string().concat(text.as_str())
            },
            KeyBindingError::UnknownKey(word) => "Unknown key: ".to_string().concat(word.as_str()),
        }
    }
}

/// Mathematical value of the outcome of reading a binding.
pub open spec fn reading_view(outcome: Result<KeyBinding, KeyBindingError>) -> Result<
    KeyBinding,
    KeyBindingErrorView,
> {
    match outcome {
        Ok(binding) => Ok(binding),
        Err(error) => Err(error@),
    }
}

/// The modifier that `word` names.
pub open spec fn modifier_named(word: Seq<char>) -> Option<KeyModifiers> {
    if word == "ctrl"@ || word == "control"@ || word == "c"@ {
        Some(KeyModifiers::control())
    } else if word == "alt"@ || word == "a"@ || word == "meta"@ || word == "m"@ {
        Some(KeyModifiers::alt())
    } else if word == "shift"@ || word == "s"@ {
        Some(KeyModifiers::shift())
    } else {
        None
    }
}

/// Whether `word` is one ASCII character.
pub open spec fn is_ascii_char(word: Seq<char>) -> bool {
    word.len() == 1 && (word[0] as u32) < 128
}

/// The key that `word` names.
pub open spec fn key_named(word: Seq<char>) -> Option<Key> {
    if word == "esc"@ || word == "escape"@ {
        Some(Key::Esc)
    } else if word == "enter"@ || word == "return"@ || word == "cr"@ {
        Some(Key::Enter)
    } else if word == "space"@ || word == "spc"@ {
        Some(Key::Char(' '))
    } else if word == "tab"@ {
        Some(Key::Tab)
    } else if word == "backtab"@ || word == "btab"@ {
        Some(Key::BackTab)
    } else if word == "backspace"@ || word == "bs"@ {
        Some(Key::Backspace)
    } else if word == "delete"@ || word == "del"@ {
        Some(Key::Delete)
    } else if word == "insert"@ || word == "ins"@ {
        Some(Key::Insert)
    } else if word == "home"@ {
        Some(Key::Home)
    } else if word == "end"@ {
        Some(Key::End)
    } else if word == "pageup"@ || word == "pgup"@ {
        Some(Key::PageUp)
    } else if word == "pagedown"@ || word == "pgdn"@ {
        Some(Key::PageDown)
    } else if word == "up"@ {
        Some(Key::Up)
    } else if word == "down"@ {
        Some(Key::Down)
    } else if word == "left"@ {
        Some(Key::Left)
    } else if word == "right"@ {
        Some(Key::Right)
    } else if word == "f1"@ {
        Some(Key::Function(1))
    } else if word == "f2"@ {
        Some(Key::Function(2))
    } else if word == "f3"@ {
        Some(Key::Function(3))
    } else if word == "f4"@ {
        Some(Key::Function(4))
    } else if word == "f5"@ {
        Some(Key::Function(5))
    } else if word == "f6"@ {
        Some(Key::Function(6))
    } else if word == "f7"@ {
        Some(Key::Function(7))
    } else if word == "f8"@ {
        Some(Key::Function(8))
    } else if word == "f9"@ {
        Some(Key::Function(9))
    } else if word == "f10"@ {
        Some(Key::Function(10))
    } else if word == "f11"@ {
        Some(Key::Function(11))
    } else if word == "f12"@ {
        Some(Key::Function(12))
    } else if is_ascii_char(word) {
        Some(Key::Char(word[0]))
    } else {
        None
    }
}

/// The binding of the key that `word` names, with `modifiers`.
pub open spec fn bound_key(modifiers: KeyModifiers, word: Seq<char>) -> Result<
    KeyBinding,
    KeyBindingErrorView,
> {
    match key_named(word) {
        Some(key) => Ok(KeyBinding { key, modifiers }),
        None => Err(KeyBindingErrorView::UnknownKey(word)),
    }
}

/// The binding that `text` is written for.
///
/// The text is cut at every `+`. The last piece names the key; the one or two pieces
/// before it name modifiers, which add up. More than three pieces are no binding. A
/// piece that names no modifier is reported before one that names no key, and the
/// first of two before the second.
pub open spec fn binding_of(text: Seq<char>) -> Result<KeyBinding, KeyBindingErrorView> {
    let pieces = split(text, '+');
    if pieces.len() == 1 {
        bound_key(KeyModifiers::none(), pieces[0])
    } else if pieces.len() == 2 {
        match modifier_named(pieces[0]) {
            Some(modifiers) => bound_key(modifiers, pieces[1]),
            None => Err(KeyBindingErrorView::UnknownModifier(pieces[0])),
        }
    } else if pieces.len() == 3 {
        match modifier_named(pieces[0]) {
            Some(first) => match modifier_named(pieces[1]) {
                Some(second) => bound_key(first.union(second), pieces[2]),
                None => Err(KeyBindingErrorView::UnknownModifier(pieces[1])),
            },
            None => Err(KeyBindingErrorView::UnknownModifier(pieces[0])),
        }
    } else {
        Err(KeyBindingErrorView::InvalidFormat(text))
    }
}

/// Whether `word` is spelled `name`.
fn spelled(word: &String, name: &str) -> (r: bool)
    ensures
        r == (word@ == name@),
{
    *word == name.to_string()
}

/// The modifier that `word` names.
pub fn parse_modifier(word: &String) -> (r: Option<KeyModifiers>)
    ensures
        r == modifier_named(word@),
{
    if spelled(word, "ctrl") || spelled(word, "control") || spelled(word, "c") {
        Some(KeyModifiers::control())
    } else if spelled(word, "alt") || spelled(word, "a") || spelled(word, "meta") || spelled(
        word,
        "m",
    ) {
        Some(KeyModifiers::alt())
    } else if spelled(word, "shift") || spelled(word, "s") {
        Some(KeyModifiers::shift())
    } else {
        None
    }
}

/// The key that `word` names.
pub fn parse_key(word: &String) -> (r: Option<Key>)
    ensures
        r == key_named(word@),
{
    if spelled(word, "esc") || spelled(word, "escape") {
        Some(Key::Esc)
    } else if spelled(word, "enter") || spelled(word, "return") || spelled(word, "cr") {
        Some(Key::Enter)
    } else if spelled(word, "space") || spelled(word, "spc") {
        Some(Key::Char(' '))
    } else if spelled(word, "tab") {
        Some(Key::Tab)
    } else if spelled(word, "backtab") || spelled(word, "btab") {
        Some(Key::BackTab)
    } else if spelled(word, "backspace") || spelled(word, "bs") {
        Some(Key::Backspace)
    } else if spelled(word, "delete") || spelled(word, "del") {
        Some(Key::Delete)
    } else if spelled(word, "insert") || spelled(word, "ins") {
        Some(Key::Insert)
    } else if spelled(word, "home") {
        Some(Key::Home)
    } else if spelled(word, "end") {
        Some(Key::End)
    } else if spelled(word, "pageup") || spelled(word, "pgup") {
        Some(Key::PageUp)
    } else if spelled(word, "pagedown") || spelled(word, "pgdn") {
        Some(Key::PageDown)
    } else if spelled(word, "up") {
        Some(Key::Up)
    } else if spelled(word, "down") {
        Some(Key::Down)
    } else if spelled(word, "left") {
        Some(Key::Left)
    } else if spelled(word, "right") {
        Some(Key::Right)
    } else if spelled(word, "f1") {
        Some(Key::Function(1))
    } else if spelled(word, "f2") {
        Some(Key::Function(2))
    } else if spelled(word, "f3") {
        Some(Key::Function(3))
    } else if spelled(word, "f4") {
        Some(Key::Function(4))
    } else if spelled(word, "f5") {
        Some(Key::Function(5))
    } else if spelled(word, "f6") {
        Some(Key::Function(6))
    } else if spelled(word, "f7") {
        Some(Key::Function(7))
    } else if spelled(word, "f8") {
        Some(Key::Function(8))
    } else if spelled(word, "f9") {
        Some(Key::Function(9))
    } else if spelled(word, "f10") {
        Some(Key::Function(10))
    } else if spelled(word, "f11") {
        Some(Key::Function(11))
    } else if spelled(word, "f12") {
        Some(Key::Function(12))
    } else if word.as_str().unicode_len() == 1 {
        let only = word.as_str().get_char(0);
        if (only as u32) < 128 {
            Some(Key::Char(only))
        } else {
            None
        }
    } else {
        None
    }
}

/// The binding of the key that `word` names, with `modifiers`.
fn bind_key(modifiers: KeyModifiers, word: &String) -> (r: Result<KeyBinding, KeyBindingError>)
    ensures
        reading_view(r) == bound_key(modifiers, word@),
{
    match parse_key(word) {
        Some(key) => Ok(KeyBinding { key, modifiers }),
        None => Err(KeyBindingError::UnknownKey(word.clone())),
    }
}

impl KeyBinding {
    /// Reads the binding that `text` is written for, as it stands: in lower case, with
    /// no space around it.
    pub fn parse_normalized(text: &str) -> (r: Result<KeyBinding, KeyBindingError>)
        ensures
            reading_view(r) == binding_of(text@),
    {
        let pieces = split_at_marks(text, '+');
        assert(pieces.deep_view().len() == pieces.len());
        if pieces.len() == 1 {
            assert(pieces.deep_view()[0] == pieces[0]@);
            bind_key(KeyModifiers::none(), &pieces[0])
        } else if pieces.len() == 2 {
            assert(pieces.deep_view()[0] == pieces[0]@);
            assert(pieces.deep_view()[1] == pieces[1]@);
            match parse_modifier(&pieces[0]) {
                Some(modifiers) => bind_key(modifiers, &pieces[1]),
                None => Err(KeyBindingError::UnknownModifier(pieces[0].clone())),
            }
        } else if pieces.len() == 3 {
            assert(pieces.deep_view()[0] == pieces[0]@);
            assert(pieces.deep_view()[1] == pieces[1]@);
            assert(pieces.deep_view()[2] == pieces[2]@);
            match parse_modifier(&pieces[0]) {
                Some(first) => match parse_modifier(&pieces[1]) {
                    Some(second) => bind_key(first.union(second), &pieces[2]),
                    None => Err(KeyBindingError::UnknownModifier(pieces[1].clone())),
                },
                None => Err(KeyBindingError::UnknownModifier(pieces[0].clone())),
            }
        } else {
            Err(KeyBindingError::InvalidFormat(text.to_string()))
        }
    }
}

impl KeyBinding {
    /// Reads the binding that `text` is written for. Capitals count as small letters,
    /// and white space around the text is passed over.
    pub fn parse(text: &str) -> (r: Result<KeyBinding, KeyBindingError>)
        ensures
            reading_view(r) == binding_of(lowercased(trimmed(text@))),
    {
        let normalized = to_lowercase(trim(text));
        KeyBinding::parse_normalized(normalized.as_str())
    }
}

impl std::str::FromStr for KeyBinding {
    type Err = String;

    fn from_str(text: &str) -> (r: Result<Self, Self::Err>)
        ensures
            match binding_of(lowercased(trimmed(text@))) {
                Ok(binding) => r == Ok::<KeyBinding, String>(binding),
                Err(error) => r matches Err(message) && message@ == error.message(),
            },
    {
        match KeyBinding::parse(text) {
            Ok(binding) => Ok(binding),
            Err(error) => Err(error.message()),
        }
    }
}

/// The character of the digit `d`.
pub open spec fn digit(d: u8) -> char {
    (48 + d) as u8 as char
}

/// `n` in decimal digits.
pub open spec fn decimal(n: u8) -> Seq<char> {
    if n < 10 {
        seq![digit(n)]
    } else if n < 100 {
        seq![digit(n / 10), digit(n % 10)]
    } else {
        seq![digit(n / 100), digit(n / 10 % 10), digit(n % 10)]
    }
}

/// What `key` is written as. A key without a name is written `unknown`.
pub open spec fn key_text(key: Key) -> Seq<char> {
    match key {
        Key::Esc => "esc"@,
        Key::Enter => "enter"@,
        Key::Char(c) => if c == ' ' {
            "space"@
        } else {
            seq![c]
        },
        Key::Tab => "tab"@,
        Key::BackTab => "backtab"@,
        Key::Backspace => "backspace"@,
        Key::Delete => "delete"@,
        Key::Insert => "insert"@,
        Key::Home => "home"@,
        Key::End => "end"@,
        Key::PageUp => "pageup"@,
        Key::PageDown => "pagedown"@,
        Key::Up => "up"@,
        Key::Down => "down"@,
        Key::Left => "left"@,
        Key::Right => "right"@,
        Key::Function(n) => "f"@ + decimal(n),
        _ => "unknown"@,
    }
}

/// What `modifiers` are written as: each one that is held with a `+` after it, Control
/// before Alt before Shift.
pub open spec fn modifiers_text(modifiers: KeyModifiers) -> Seq<char> {
    (if modifiers.control {
        "ctrl+"@
    } else {
        Seq::empty()
    }) + (if modifiers.alt {
        "alt+"@
    } else {
        Seq::empty()
    }) + (if modifiers.shift {
        "shift+"@
    } else {
        Seq::empty()
    })
}

/// What `binding` is written as: its modifiers, then its key.
pub open spec fn binding_text(binding: KeyBinding) -> Seq<char> {
    modifiers_text(binding.modifiers) + key_text(binding.key)
}

/// Adds the digit `d` to `text`.
fn push_digit(text: &mut String, d: u8)
    requires
        d < 10,
    ensures
        final(text)@ == old(text)@.push(digit(d)),
{
    text.push((48 + d) as char);
}

/// `key` as it is written.
pub fn key_to_string(key: &Key) -> (r: String)
    ensures
        r@ == key_text(*key),
{
    match key {
        Key::Esc => "esc".to_string(),
        Key::Enter => "enter".to_string(),
        Key::Char(c) => {
            if *c == ' ' {
                "space".to_string()
            } else {
                let mut text = String::new();
                text.push(*c);
                assert(text@ =~= seq![*c]);
                text
            }
        },
        Key::Tab => "tab".to_string(),
        Key::BackTab => "backtab".to_string(),
        Key::Backspace => "backspace".to_string(),
        Key::Delete => "delete".to_string(),
        Key::Insert => "insert".to_string(),
        Key::Home => "home".to_string(),
        Key::End => "end".to_string(),
        Key::PageUp => "pageup".to_string(),
        Key::PageDown => "pagedown".to_string(),
        Key::Up => "up".to_string(),
        Key::Down => "down".to_string(),
        Key::Left => "left".to_string(),
        Key::Right => "right".to_string(),
        Key::Function(n) => {
            let n = *n;
            let mut text = "f".to_string();
            if n >= 100 {
                push_digit(&mut text, n / 100);
            }
            if n >= 10 {
                push_digit(&mut text, n / 10 % 10);
            }
            push_digit(&mut text, n % 10);
            assert(text@ =~= "f"@ + decimal(n));
            text
        },
        _ => "unknown".to_string(),
    }
}

impl KeyBinding {
    /// The binding as it is written: `ctrl+a`, `shift+up`, `enter`.
    pub fn to_string(&self) -> (r: String)
        ensures
            r@ == binding_text(*self),
    {
        let mut text = String::new();
        if self.modifiers.control {
            text.append("ctrl+");
        }
        if self.modifiers.alt {
            text.append("alt+");
        }
        if self.modifiers.shift {
            text.append("shift+");
        }
        assert(text@ =~= modifiers_text(self.modifiers));
        text.append(key_to_string(&self.key).as_str());
        text
    }
}

/// Whether `key` can be told from what it is written as: it has a name of its own, or
/// is a function key from F1 to F12, or an ASCII character other than `+`.
pub open spec fn is_writable(key: Key) -> bool {
    match key {
        Key::Esc | Key::Enter | Key::Tab | Key::BackTab | Key::Backspace | Key::Delete
        | Key::Insert | Key::Home | Key::End | Key::PageUp | Key::PageDown | Key::Up | Key::Down
        | Key::Left | Key::Right => true,
        Key::Function(n) => 1 <= n <= 12,
        Key::Char(c) => (c as u32) < 128 && c != '+',
        _ => false,
    }
}

/// Makes known what the names of keys and modifiers are spelled as.
proof fn reveal_names()
    ensures
        "esc"@ =~= seq!['e', 's', 'c'],
        "escape"@ =~= seq!['e', 's', 'c', 'a', 'p', 'e'],
        "enter"@ =~= seq!['e', 'n', 't', 'e', 'r'],
        "return"@ =~= seq!['r', 'e', 't', 'u', 'r', 'n'],
        "cr"@ =~= seq!['c', 'r'],
        "space"@ =~= seq!['s', 'p', 'a', 'c', 'e'],
        "spc"@ =~= seq!['s', 'p', 'c'],
        "tab"@ =~= seq!['t', 'a', 'b'],
        "backtab"@ =~= seq!['b', 'a', 'c', 'k', 't', 'a', 'b'],
        "btab"@ =~= seq!['b', 't', 'a', 'b'],
        "backspace"@ =~= seq!['b', 'a', 'c', 'k', 's', 'p', 'a', 'c', 'e'],
        "bs"@ =~= seq!['b', 's'],
        "delete"@ =~= seq!['d', 'e', 'l', 'e', 't', 'e'],
        "del"@ =~= seq!['d', 'e', 'l'],
        "insert"@ =~= seq!['i', 'n', 's', 'e', 'r', 't'],
        "ins"@ =~= seq!['i', 'n', 's'],
        "home"@ =~= seq!['h', 'o', 'm', 'e'],
        "end"@ =~= seq!['e', 'n', 'd'],
        "pageup"@ =~= seq!['p', 'a', 'g', 'e', 'u', 'p'],
        "pgup"@ =~= seq!['p', 'g', 'u', 'p'],
        "pagedown"@ =~= seq!['p', 'a', 'g', 'e', 'd', 'o', 'w', 'n'],
        "pgdn"@ =~= seq!['p', 'g', 'd', 'n'],
        "up"@ =~= seq!['u', 'p'],
        "down"@ =~= seq!['d', 'o', 'w', 'n'],
        "left"@ =~= seq!['l', 'e', 'f', 't'],
        "right"@ =~= seq!['r', 'i', 'g', 'h', 't'],
        "f"@ =~= seq!['f'],
        "f1"@ =~= seq!['f', '1'],
        "f2"@ =~= seq!['f', '2'],
        "f3"@ =~= seq!['f', '3'],
        "f4"@ =~= seq!['f', '4'],
        "f5"@ =~= seq!['f', '5'],
        "f6"@ =~= seq!['f', '6'],
        "f7"@ =~= seq!['f', '7'],
        "f8"@ =~= seq!['f', '8'],
        "f9"@ =~= seq!['f', '9'],
        "f10"@ =~= seq!['f', '1', '0'],
        "f11"@ =~= seq!['f', '1', '1'],
        "f12"@ =~= seq!['f', '1', '2'],
        "ctrl"@ =~= seq!['c', 't', 'r', 'l'],
        "control"@ =~= seq!['c', 'o', 'n', 't', 'r', 'o', 'l'],
        "c"@ =~= seq!['c'],
        "alt"@ =~= seq!['a', 'l', 't'],
        "a"@ =~= seq!['a'],
        "meta"@ =~= seq!['m', 'e', 't', 'a'],
        "m"@ =~= seq!['m'],
        "shift"@ =~= seq!['s', 'h', 'i', 'f', 't'],
        "s"@ =~= seq!['s'],
        "ctrl+"@ =~= seq!['c', 't', 'r', 'l', '+'],
        "alt+"@ =~= seq!['a', 'l', 't', '+'],
        "shift+"@ =~= seq!['s', 'h', 'i', 'f', 't', '+'],
{
    reveal_strlit("esc");
    reveal_strlit("escape");
    reveal_strlit("enter");
    reveal_strlit("return");
    reveal_strlit("cr");
    reveal_strlit("space");
    reveal_strlit("spc");
    reveal_strlit("tab");
    reveal_strlit("backtab");
    reveal_strlit("btab");
    reveal_strlit("backspace");
    reveal_strlit("bs");
    reveal_strlit("delete");
    reveal_strlit("del");
    reveal_strlit("insert");
    reveal_strlit("ins");
    reveal_strlit("home");
    reveal_strlit("end");
    reveal_strlit("pageup");
    reveal_strlit("pgup");
    reveal_strlit("pagedown");
    reveal_strlit("pgdn");
    reveal_strlit("up");
    reveal_strlit("down");
    reveal_strlit("left");
    reveal_strlit("right");
    reveal_strlit("f");
    reveal_strlit("f1");
    reveal_strlit("f2");
    reveal_strlit("f3");
    reveal_strlit("f4");
    reveal_strlit("f5");
    reveal_strlit("f6");
    reveal_strlit("f7");
    reveal_strlit("f8");
    reveal_strlit("f9");
    reveal_strlit("f10");
    reveal_strlit("f11");
    reveal_strlit("f12");
    reveal_strlit("ctrl");
    reveal_strlit("control");
    reveal_strlit("c");
    reveal_strlit("alt");
    reveal_strlit("a");
    reveal_strlit("meta");
    reveal_strlit("m");
    reveal_strlit("shift");
    reveal_strlit("s");
    reveal_strlit("ctrl+");
    reveal_strlit("alt+");
    reveal_strlit("shift+");
}

/// A writable key is read back from what it is written as, and that holds no `+`.
pub proof fn lemma_key_read_back(key: Key)
    requires
        is_writable(key),
    ensures
        key_named(key_text(key)) == Some(key),
        forall|j: int| 0 <= j < key_text(key).len() ==> key_text(key)[j] != '+',
{
    reveal_names();
    let text = key_text(key);
    match key {
        Key::Function(n) => {
            assert(digit(0) == '0' && digit(1) == '1' && digit(2) == '2' && digit(3) == '3'
                && digit(4) == '4' && digit(5) == '5' && digit(6) == '6' && digit(7) == '7'
                && digit(8) == '8' && digit(9) == '9');
            if n < 10 {
                assert(text =~= seq!['f', digit(n)]);
            } else {
                assert(text =~= seq!['f', '1', digit((n % 10) as u8)]);
            }
        },
        Key::Char(c) => {
            if c != ' ' {
                assert(text.len() == 1);
            }
        },
        _ => {},
    }
}

/// What is written is read back: a binding of a writable key with at most two
/// modifiers is the binding that its own text is written for.
pub proof fn law_written_binding_is_read_back(binding: KeyBinding)
    requires
        is_writable(binding.key),
        !(binding.modifiers.control && binding.modifiers.alt && binding.modifiers.shift),
    ensures
        binding_of(binding_text(binding)) == Ok::<KeyBinding, KeyBindingErrorView>(binding),
{
    reveal_names();
    lemma_key_read_back(binding.key);
    let key = key_text(binding.key);
    let held = binding.modifiers;
    let none = Seq::<char>::empty();
    lemma_split_one(key, '+');
    if held.control {
        if held.alt {
            lemma_split_first("alt"@, key, '+');
            lemma_split_first("ctrl"@, "alt"@ + seq!['+'] + key, '+');
            assert(binding_text(binding) =~= "ctrl"@ + seq!['+'] + ("alt"@ + seq!['+'] + key));
            assert(split(binding_text(binding), '+') =~= seq!["ctrl"@, "alt"@, key]);
        } else if held.shift {
            lemma_split_first("shift"@, key, '+');
            lemma_split_first("ctrl"@, "shift"@ + seq!['+'] + key, '+');
            assert(binding_text(binding) =~= "ctrl"@ + seq!['+'] + ("shift"@ + seq!['+'] + key));
            assert(split(binding_text(binding), '+') =~= seq!["ctrl"@, "shift"@, key]);
        } else {
            lemma_split_first("ctrl"@, key, '+');
            assert(binding_text(binding) =~= "ctrl"@ + seq!['+'] + key);
            assert(split(binding_text(binding), '+') =~= seq!["ctrl"@, key]);
        }
    } else if held.alt {
        if held.shift {
            lemma_split_first("shift"@, key, '+');
            lemma_split_first("alt"@, "shift"@ + seq!['+'] + key, '+');
            assert(binding_text(binding) =~= "alt"@ + seq!['+'] + ("shift"@ + seq!['+'] + key));
            assert(split(binding_text(binding), '+') =~= seq!["alt"@, "shift"@, key]);
        } else {
            lemma_split_first("alt"@, key, '+');
            assert(binding_text(binding) =~= "alt"@ + seq!['+'] + key);
            assert(split(binding_text(binding), '+') =~= seq!["alt"@, key]);
        }
    } else if held.shift {
        lemma_split_first("shift"@, key, '+');
        assert(binding_text(binding) =~= "shift"@ + seq!['+'] + key);
        assert(split(binding_text(binding), '+') =~= seq!["shift"@, key]);
    } else {
        assert(binding_text(binding) =~= key);
    }
}

} // verus!
