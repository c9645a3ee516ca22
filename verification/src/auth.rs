//! What the authentication screen as a whole does about an event.

use vstd::prelude::*;
use crate::keybindings::{AuthKeyBindings, KeyBindings};
use crate::keys::Event;
use crate::matcher::key_matches;

verus! {

/// A message about what is shown.
#[derive(Clone, Copy, Debug, PartialEq, Eq, Structural)]
pub enum UiMsg {
    /// Ask whether to quit.
    ShowQuitPopup,
    /// Show the key bindings.
    ShowKeybindingsPopup,
    /// Show the release notes.
    ShowReleaseNotes,
    /// Ask for the name to save the connection under.
    ShowSaveBookmarkPopup,
    /// The window has a new size.
    WindowResized,
}

/// A message about the form.
#[derive(Clone, Copy, Debug, PartialEq, Eq, Structural)]
pub enum FormMsg {
    /// Go over to the setup screen.
    EnterSetup,
}

/// A message to the authentication screen.
#[derive(Clone, Copy, Debug, PartialEq, Eq, Structural)]
pub enum Msg {
    Ui(UiMsg),
    Form(FormMsg),
}

/// The message that `ev` asks for, if it asks for one: for a key, the first of these
/// that it is bound to.
pub open spec fn global_reaction(keys: AuthKeyBindings, ev: Event) -> Option<Msg> {
    match ev {
        Event::Keyboard(key_ev) => if key_matches(&key_ev, &keys.quit) || key_matches(
            &key_ev,
            &keys.quit_alt,
        ) {
            Some(Msg::Ui(UiMsg::ShowQuitPopup))
        } else if key_matches(&key_ev, &keys.setup) {
            Some(Msg::Form(FormMsg::EnterSetup))
        } else if key_matches(&key_ev, &keys.help) || key_matches(&key_ev, &keys.help_alt) {
            Some(Msg::Ui(UiMsg::ShowKeybindingsPopup))
        } else if key_matches(&key_ev, &keys.release_notes) {
            Some(Msg::Ui(UiMsg::ShowReleaseNotes))
        } else if key_matches(&key_ev, &keys.save_bookmark) {
            Some(Msg::Ui(UiMsg::ShowSaveBookmarkPopup))
        } else {
            None
        },
        Event::WindowResize(_, _) => Some(Msg::Ui(UiMsg::WindowResized)),
        _ => None,
    }
}

/// Listens to what the screen as a whole is asked for.
#[derive(Clone, Copy, Debug, PartialEq, Eq, Structural)]
pub struct GlobalListener {
    pub auth_keys: AuthKeyBindings,
}

impl Default for GlobalListener {
    fn default() -> (r: Self)
        ensures
            r.auth_keys == AuthKeyBindings::spec_default(),
    {
        GlobalListener { auth_keys: AuthKeyBindings::default() }
    }
}

impl GlobalListener {
    /// The listener with the bindings that `keybindings` has for this screen, or with
    /// the default ones where there are none.
    pub fn new(keybindings: Option<&KeyBindings>) -> (r: Self)
        ensures
            r.auth_keys == match keybindings {
                Some(k) => k.auth,
                None => AuthKeyBindings::spec_default(),
            },
    {
        GlobalListener {
            auth_keys: match keybindings {
                Some(k) => k.auth,
                None => AuthKeyBindings::default(),
            },
        }
    }

    /// The message that `ev` asks for, if it asks for one.
    pub fn on(&self, ev: &Event) -> (r: Option<Msg>)
        ensures
            r == global_reaction(self.auth_keys, *ev),
    {
        match ev {
            Event::Keyboard(key_ev) => {
                // Quit
                if key_matches(key_ev, &self.auth_keys.quit) || key_matches(
                    key_ev,
                    &self.auth_keys.quit_alt,
                ) {
                    return Some(Msg::Ui(UiMsg::ShowQuitPopup));
                }
                // Enter setup
                if key_matches(key_ev, &self.auth_keys.setup) {
                    return Some(Msg::Form(FormMsg::EnterSetup));
                }
                // Show help
                if key_matches(key_ev, &self.auth_keys.help) || key_matches(
                    key_ev,
                    &self.auth_keys.help_alt,
                ) {
                    return Some(Msg::Ui(UiMsg::ShowKeybindingsPopup));
                }
                // Show release notes
                if key_matches(key_ev, &self.auth_keys.release_notes) {
                    return Some(Msg::Ui(UiMsg::ShowReleaseNotes));
                }
                // Save bookmark
                if key_matches(key_ev, &self.auth_keys.save_bookmark) {
                    return Some(Msg::Ui(UiMsg::ShowSaveBookmarkPopup));
                }
                None
            },
            Event::WindowResize(_, _) => Some(Msg::Ui(UiMsg::WindowResized)),
            _ => None,
        }
    }
}

} // verus!
