//! What the setup screen as a whole does about an event.

use vstd::prelude::*;
use crate::keybindings::{KeyBindings, SetupKeyBindings};
use crate::keys::Event;
use crate::matcher::key_matches;

verus! {

/// A message that concerns every tab of the setup screen.
#[derive(Clone, Copy, Debug, PartialEq, Eq, Structural)]
pub enum CommonMsg {
    /// Ask whether to quit.
    ShowQuitPopup,
    /// Go over to the next tab.
    ChangeLayout,
    /// Show the key bindings.
    ShowKeybindings,
    /// Put back what was there before the changes.
    RevertChanges,
    /// Ask whether to save the changes.
    ShowSavePopup,
    /// The window has a new size.
    WindowResized,
}

/// A message to the setup screen.
#[derive(Clone, Copy, Debug, PartialEq, Eq, Structural)]
pub enum Msg {
    Common(CommonMsg),
}

/// The message that `ev` asks for, if it asks for one: for a key, the first of these
/// that it is bound to.
pub open spec fn global_reaction(keys: SetupKeyBindings, ev: Event) -> Option<Msg> {
    match ev {
        Event::Keyboard(key_ev) => if key_matches(&key_ev, &keys.quit) || key_matches(
            &key_ev,
            &keys.quit_alt,
        ) {
            Some(Msg::Common(CommonMsg::ShowQuitPopup))
        } else if key_matches(&key_ev, &keys.change_tab) {
            Some(Msg::Common(CommonMsg::ChangeLayout))
        } else if key_matches(&key_ev, &keys.help) || key_matches(&key_ev, &keys.help_alt) {
            Some(Msg::Common(CommonMsg::ShowKeybindings))
        } else if key_matches(&key_ev, &keys.revert) {
            Some(Msg::Common(CommonMsg::RevertChanges))
        } else if key_matches(&key_ev, &keys.save) || key_matches(&key_ev, &keys.save_alt) {
            Some(Msg::Common(CommonMsg::ShowSavePopup))
        } else {
            None
        },
        Event::WindowResize(_, _) => Some(Msg::Common(CommonMsg::WindowResized)),
        _ => None,
    }
}

/// Listens to what the screen as a whole is asked for.
#[derive(Clone, Copy, Debug, PartialEq, Eq, Structural)]
pub struct GlobalListener {
    pub setup_keys: SetupKeyBindings,
}

impl Default for GlobalListener {
    fn default() -> (r: Self)
        ensures
            r.setup_keys == SetupKeyBindings::spec_default(),
    {
        GlobalListener { setup_keys: SetupKeyBindings::default() }
    }
}

impl GlobalListener {
    /// The listener with the bindings that `keybindings` has for this screen, or with
    /// the default ones where there are none.
    pub fn new(keybindings: Option<&KeyBindings>) -> (r: Self)
        ensures
            r.setup_keys == match keybindings {
                Some(k) => k.setup,
                None => SetupKeyBindings::spec_default(),
            },
    {
        GlobalListener {
            setup_keys: match keybindings {
                Some(k) => k.setup,
                None => SetupKeyBindings::default(),
            },
        }
    }

    /// The message that `ev` asks for, if it asks for one.
    pub fn on(&self, ev: &Event) -> (r: Option<Msg>)
        ensures
            r == global_reaction(self.setup_keys, *ev),
    {
        match ev {
            Event::Keyboard(key_ev) => {
                // Quit
                if key_matches(key_ev, &self.setup_keys.quit) || key_matches(
                    key_ev,
                    &self.setup_keys.quit_alt,
                ) {
                    return Some(Msg::Common(CommonMsg::ShowQuitPopup));
                }
                // Change tab
                if key_matches(key_ev, &self.setup_keys.change_tab) {
                    return Some(Msg::Common(CommonMsg::ChangeLayout));
                }
                // Show help
                if key_matches(key_ev, &self.setup_keys.help) || key_matches(
                    key_ev,
                    &self.setup_keys.help_alt,
                ) {
                    return Some(Msg::Common(CommonMsg::ShowKeybindings));
                }
                // Revert changes
                if key_matches(key_ev, &self.setup_keys.revert) {
                    return Some(Msg::Common(CommonMsg::RevertChanges));
                }
                // Save
                if key_matches(key_ev, &self.setup_keys.save) || key_matches(
                    key_ev,
                    &self.setup_keys.save_alt,
                ) {
                    return Some(Msg::Common(CommonMsg::ShowSavePopup));
                }
                None
            },
            Event::WindowResize(_, _) => Some(Msg::Common(CommonMsg::WindowResized)),
            _ => None,
        }
    }
}

} // verus!
