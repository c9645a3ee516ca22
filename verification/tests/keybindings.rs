//! Key bindings: what they are written as, and what they match.

use std::str::FromStr;

use termscp_core::keybinding::{key_to_string, parse_key, parse_modifier, KeyBinding, KeyBindingError};
use termscp_core::keys::{Key, KeyEvent, KeyModifiers, MediaKeyCode};

#[test]
fn test_key_binding_from_str() {
    assert_eq!(
        KeyBinding::from_str("j").unwrap(),
        KeyBinding::simple(Key::Char('j'))
    );
    assert_eq!(
        KeyBinding::from_str("ctrl+a").unwrap(),
        KeyBinding::ctrl(Key::Char('a'))
    );
    assert_eq!(
        KeyBinding::from_str("alt+j").unwrap(),
        KeyBinding::alt(Key::Char('j'))
    );
    assert_eq!(
        KeyBinding::from_str("shift+up").unwrap(),
        KeyBinding::shift(Key::Up)
    );
    assert_eq!(
        KeyBinding::from_str("enter").unwrap(),
        KeyBinding::simple(Key::Enter)
    );
    assert_eq!(
        KeyBinding::from_str("f1").unwrap(),
        KeyBinding::simple(Key::Function(1))
    );
    assert_eq!(
        KeyBinding::from_str("space").unwrap(),
        KeyBinding::simple(Key::Char(' '))
    );
}

#[test]
fn test_key_binding_to_string() {
    assert_eq!(KeyBinding::simple(Key::Char('j')).to_string(), "j");
    assert_eq!(KeyBinding::ctrl(Key::Char('a')).to_string(), "ctrl+a");
    assert_eq!(KeyBinding::alt(Key::Char('j')).to_string(), "alt+j");
    assert_eq!(KeyBinding::shift(Key::Up).to_string(), "shift+up");
    assert_eq!(KeyBinding::simple(Key::Enter).to_string(), "enter");
    assert_eq!(KeyBinding::simple(Key::Function(1)).to_string(), "f1");
}

#[test]
fn test_key_binding_matches() {
    let kb = KeyBinding::ctrl(Key::Char('a'));
    assert!(kb.matches(Key::Char('a'), KeyModifiers::control()));
    assert!(!kb.matches(Key::Char('a'), KeyModifiers::none()));
    assert!(!kb.matches(Key::Char('b'), KeyModifiers::control()));
}

#[test]
fn constructors_set_key_and_modifiers() {
    let all = KeyModifiers { shift: true, control: true, alt: true };
    assert_eq!(KeyBinding::new(Key::Tab, all), KeyBinding { key: Key::Tab, modifiers: all });
    assert_eq!(
        KeyBinding::simple(Key::Tab),
        KeyBinding { key: Key::Tab, modifiers: KeyModifiers::none() }
    );
    assert_eq!(
        KeyBinding::ctrl(Key::Tab),
        KeyBinding { key: Key::Tab, modifiers: KeyModifiers::control() }
    );
    assert_eq!(
        KeyBinding::alt(Key::Tab),
        KeyBinding { key: Key::Tab, modifiers: KeyModifiers::alt() }
    );
    assert_eq!(
        KeyBinding::shift(Key::Tab),
        KeyBinding { key: Key::Tab, modifiers: KeyModifiers::shift() }
    );
    assert_eq!(KeyBinding::default(), KeyBinding::simple(Key::Null));
    assert_eq!(
        KeyEvent::new(Key::Tab, all),
        KeyEvent { code: Key::Tab, modifiers: all }
    );
}

#[test]
fn modifiers_add_up() {
    let none = KeyModifiers::none();
    assert_eq!(none, KeyModifiers { shift: false, control: false, alt: false });
    assert_eq!(KeyModifiers::shift(), KeyModifiers { shift: true, control: false, alt: false });
    assert_eq!(KeyModifiers::control(), KeyModifiers { shift: false, control: true, alt: false });
    assert_eq!(KeyModifiers::alt(), KeyModifiers { shift: false, control: false, alt: true });
    let both = KeyModifiers::control().union(KeyModifiers::shift());
    assert_eq!(both, KeyModifiers { shift: true, control: true, alt: false });
    assert_eq!(both.union(both), both);
    assert_eq!(none.union(KeyModifiers::alt()), KeyModifiers::alt());
    assert!(both.contains(KeyModifiers::control()));
    assert!(both.contains(KeyModifiers::shift()));
    assert!(both.contains(none));
    assert!(both.contains(both));
    assert!(!both.contains(KeyModifiers::alt()));
    assert!(!KeyModifiers::control().contains(both));
    assert!(none.contains(none));
}

#[test]
fn every_named_key_is_read() {
    let named = [
        ("esc", Key::Esc),
        ("escape", Key::Esc),
        ("enter", Key::Enter),
        ("return", Key::Enter),
        ("cr", Key::Enter),
        ("space", Key::Char(' ')),
        ("spc", Key::Char(' ')),
        ("tab", Key::Tab),
        ("backtab", Key::BackTab),
        ("btab", Key::BackTab),
        ("backspace", Key::Backspace),
        ("bs", Key::Backspace),
        ("delete", Key::Delete),
        ("del", Key::Delete),
        ("insert", Key::Insert),
        ("ins", Key::Insert),
        ("home", Key::Home),
        ("end", Key::End),
        ("pageup", Key::PageUp),
        ("pgup", Key::PageUp),
        ("pagedown", Key::PageDown),
        ("pgdn", Key::PageDown),
        ("up", Key::Up),
        ("down", Key::Down),
        ("left", Key::Left),
        ("right", Key::Right),
        ("f1", Key::Function(1)),
        ("f2", Key::Function(2)),
        ("f3", Key::Function(3)),
        ("f4", Key::Function(4)),
        ("f5", Key::Function(5)),
        ("f6", Key::Function(6)),
        ("f7", Key::Function(7)),
        ("f8", Key::Function(8)),
        ("f9", Key::Function(9)),
        ("f10", Key::Function(10)),
        ("f11", Key::Function(11)),
        ("f12", Key::Function(12)),
        ("g", Key::Char('g')),
        ("G", Key::Char('G')),
        ("/", Key::Char('/')),
        (" ", Key::Char(' ')),
        ("\u{7f}", Key::Char('\u{7f}')),
    ];
    for (word, key) in named {
        assert_eq!(parse_key(&word.to_string()), Some(key), "{word}");
    }
}

#[test]
fn what_names_no_key_is_not_read() {
    for word in ["", "f0", "f13", "f01", "Enter", "ab", "é", "\u{80}", "unknown", "ctrl"] {
        assert_eq!(parse_key(&word.to_string()), None, "{word}");
    }
}

#[test]
fn every_named_modifier_is_read() {
    for word in ["ctrl", "control", "c"] {
        assert_eq!(parse_modifier(&word.to_string()), Some(KeyModifiers::control()));
    }
    for word in ["alt", "a", "meta", "m"] {
        assert_eq!(parse_modifier(&word.to_string()), Some(KeyModifiers::alt()));
    }
    for word in ["shift", "s"] {
        assert_eq!(parse_modifier(&word.to_string()), Some(KeyModifiers::shift()));
    }
    for word in ["", "super", "Ctrl", "ctl", "cs"] {
        assert_eq!(parse_modifier(&word.to_string()), None);
    }
}

#[test]
fn binding_is_read_with_up_to_two_modifiers() {
    assert_eq!(KeyBinding::parse("pgdn"), Ok(KeyBinding::simple(Key::PageDown)));
    assert_eq!(KeyBinding::parse("c+c"), Ok(KeyBinding::ctrl(Key::Char('c'))));
    assert_eq!(KeyBinding::parse("meta+f12"), Ok(KeyBinding::alt(Key::Function(12))));
    assert_eq!(
        KeyBinding::parse("ctrl+shift+a"),
        Ok(KeyBinding::new(
            Key::Char('a'),
            KeyModifiers { shift: true, control: true, alt: false }
        ))
    );
    assert_eq!(
        KeyBinding::parse("s+m+del"),
        Ok(KeyBinding::new(Key::Delete, KeyModifiers { shift: true, control: false, alt: true }))
    );
    assert_eq!(KeyBinding::parse("ctrl+control+x"), Ok(KeyBinding::ctrl(Key::Char('x'))));
}

#[test]
fn binding_is_read_whatever_its_case_and_the_space_around_it() {
    assert_eq!(KeyBinding::parse("  Ctrl+A\t\n"), Ok(KeyBinding::ctrl(Key::Char('a'))));
    assert_eq!(KeyBinding::parse("ENTER"), Ok(KeyBinding::simple(Key::Enter)));
    assert_eq!(KeyBinding::parse("\u{a0}Shift+UP\u{3000}"), Ok(KeyBinding::shift(Key::Up)));
    assert_eq!(KeyBinding::parse("G"), Ok(KeyBinding::simple(Key::Char('g'))));
    // Without normalising, capitals and spaces stand for themselves.
    assert_eq!(KeyBinding::parse_normalized("G"), Ok(KeyBinding::simple(Key::Char('G'))));
    assert_eq!(KeyBinding::parse_normalized(" "), Ok(KeyBinding::simple(Key::Char(' '))));
    assert_eq!(
        KeyBinding::parse_normalized("Ctrl+a"),
        Err(KeyBindingError::UnknownModifier("Ctrl".to_string()))
    );
    // Space inside the text is not passed over.
    assert_eq!(
        KeyBinding::parse("ctrl + a"),
        Err(KeyBindingError::UnknownModifier("ctrl ".to_string()))
    );
}

#[test]
fn text_that_is_no_binding_is_refused() {
    let error = KeyBinding::parse("hyper+a").unwrap_err();
    assert_eq!(error, KeyBindingError::UnknownModifier("hyper".to_string()));
    assert_eq!(error.message(), "Unknown modifier: hyper");

    let error = KeyBinding::parse("ctrl+hyper+a").unwrap_err();
    assert_eq!(error, KeyBindingError::UnknownModifier("hyper".to_string()));

    // The first piece is looked at first, and modifiers before the key.
    let error = KeyBinding::parse("super+hyper+nokey").unwrap_err();
    assert_eq!(error, KeyBindingError::UnknownModifier("super".to_string()));

    let error = KeyBinding::parse("ctrl+nokey").unwrap_err();
    assert_eq!(error, KeyBindingError::UnknownKey("nokey".to_string()));
    assert_eq!(error.message(), "Unknown key: nokey");

    let error = KeyBinding::parse("").unwrap_err();
    assert_eq!(error, KeyBindingError::UnknownKey(String::new()));
    assert_eq!(KeyBinding::parse("   "), Err(KeyBindingError::UnknownKey(String::new())));

    let error = KeyBinding::parse("Ctrl+Alt+Shift+A").unwrap_err();
    assert_eq!(error, KeyBindingError::InvalidFormat("ctrl+alt+shift+a".to_string()));
    assert_eq!(error.message(), "Invalid key binding format: ctrl+alt+shift+a");

    // "+" cannot be bound: it is taken for the mark between two empty pieces.
    assert_eq!(KeyBinding::parse("+"), Err(KeyBindingError::UnknownModifier(String::new())));
    assert_eq!(KeyBinding::parse("ctrl++"), Err(KeyBindingError::UnknownModifier(String::new())));
    assert_eq!(KeyBinding::parse("ctrl+"), Err(KeyBindingError::UnknownKey(String::new())));

    assert_eq!(KeyBinding::from_str("hyper+a"), Err("Unknown modifier: hyper".to_string()));
    assert_eq!(KeyBinding::from_str("a+b+c+d"), Err("Invalid key binding format: a+b+c+d".to_string()));
    assert_eq!(KeyBinding::from_str("nokey"), Err("Unknown key: nokey".to_string()));
}

#[test]
fn every_key_is_written() {
    let written = [
        (Key::Esc, "esc"),
        (Key::Enter, "enter"),
        (Key::Char(' '), "space"),
        (Key::Char('x'), "x"),
        (Key::Char('X'), "X"),
        (Key::Char('é'), "é"),
        (Key::Tab, "tab"),
        (Key::BackTab, "backtab"),
        (Key::Backspace, "backspace"),
        (Key::Delete, "delete"),
        (Key::Insert, "insert"),
        (Key::Home, "home"),
        (Key::End, "end"),
        (Key::PageUp, "pageup"),
        (Key::PageDown, "pagedown"),
        (Key::Up, "up"),
        (Key::Down, "down"),
        (Key::Left, "left"),
        (Key::Right, "right"),
        (Key::Function(0), "f0"),
        (Key::Function(7), "f7"),
        (Key::Function(10), "f10"),
        (Key::Function(12), "f12"),
        (Key::Function(99), "f99"),
        (Key::Function(100), "f100"),
        (Key::Function(109), "f109"),
        (Key::Function(255), "f255"),
        (Key::Null, "unknown"),
        (Key::CapsLock, "unknown"),
        (Key::Media(MediaKeyCode::Play), "unknown"),
        (Key::CtrlEnd, "unknown"),
    ];
    for (key, text) in written {
        assert_eq!(key_to_string(&key), text);
    }
}

#[test]
fn modifiers_are_written_control_alt_shift() {
    let all = KeyModifiers { shift: true, control: true, alt: true };
    assert_eq!(KeyBinding::new(Key::Char('a'), all).to_string(), "ctrl+alt+shift+a");
    let two = KeyModifiers { shift: true, control: false, alt: true };
    assert_eq!(KeyBinding::new(Key::Function(5), two).to_string(), "alt+shift+f5");
    assert_eq!(KeyBinding::simple(Key::Char(' ')).to_string(), "space");
    assert_eq!(KeyBinding::default().to_string(), "unknown");
}

#[test]
fn what_is_written_is_read_back() {
    let keys = [
        Key::Esc,
        Key::Enter,
        Key::Char(' '),
        Key::Char('x'),
        Key::Char('/'),
        Key::Tab,
        Key::BackTab,
        Key::Backspace,
        Key::Delete,
        Key::Insert,
        Key::Home,
        Key::End,
        Key::PageUp,
        Key::PageDown,
        Key::Up,
        Key::Down,
        Key::Left,
        Key::Right,
        Key::Function(1),
        Key::Function(9),
        Key::Function(12),
    ];
    let modifiers = [
        KeyModifiers::none(),
        KeyModifiers::control(),
        KeyModifiers::alt(),
        KeyModifiers::shift(),
        KeyModifiers::control().union(KeyModifiers::alt()),
        KeyModifiers::control().union(KeyModifiers::shift()),
        KeyModifiers::alt().union(KeyModifiers::shift()),
    ];
    for key in keys {
        for modifiers in modifiers {
            let binding = KeyBinding::new(key, modifiers);
            assert_eq!(KeyBinding::parse_normalized(&binding.to_string()), Ok(binding));
            assert_eq!(KeyBinding::parse(&binding.to_string()), Ok(binding));
        }
    }
    // Three modifiers are written, but not read back.
    let all = KeyModifiers { shift: true, control: true, alt: true };
    let written = KeyBinding::new(Key::Up, all).to_string();
    assert_eq!(KeyBinding::parse(&written), Err(KeyBindingError::InvalidFormat(written)));
}

#[test]
fn from_str_reads_as_parse_does_and_says_why_in_words() {
    for text in [
        "j", "ctrl+a", "  Alt+J ", "SHIFT+UP", "enter", "f12", "space", "c+s+del", "", "+",
        "hyper+a", "ctrl+hyper+a", "ctrl+nokey", "a+b+c+d", "ctrl+", "é", "\u{a0}g\u{3000}",
    ] {
        let expected = KeyBinding::parse(text).map_err(|error| error.message());
        assert_eq!(KeyBinding::from_str(text), expected, "{text:?}");
        assert_eq!(text.parse::<KeyBinding>(), expected, "{text:?}");
    }
    assert_eq!("Ctrl+A".parse::<KeyBinding>(), Ok(KeyBinding::ctrl(Key::Char('a'))));
    assert_eq!("ctrl+nokey".parse::<KeyBinding>(), Err("Unknown key: nokey".to_string()));
}
