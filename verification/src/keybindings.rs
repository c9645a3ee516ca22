//! The key bindings of every activity, and the two sets they come in.

use vstd::prelude::*;
use crate::keybinding::KeyBinding;
use crate::keys::Key;

verus! {

/// Keybindings for file explorer actions
#[derive(Clone, Copy, Debug, PartialEq, Eq, Structural)]
pub struct ExplorerKeyBindings {
    // Navigation
    pub move_up: KeyBinding,
    pub move_down: KeyBinding,
    pub move_up_page: KeyBinding,
    pub move_down_page: KeyBinding,
    pub move_to_top: KeyBinding,
    pub move_to_bottom: KeyBinding,
    pub go_to_parent: KeyBinding,
    pub go_back: KeyBinding,
    pub enter_dir: KeyBinding,
    pub enter_dir_alt: KeyBinding,
    pub change_panel: KeyBinding,

    // File operations
    pub transfer_file: KeyBinding,
    pub copy_file: KeyBinding,
    pub rename_file: KeyBinding,
    pub delete_file: KeyBinding,
    pub mkdir: KeyBinding,
    pub new_file: KeyBinding,
    pub edit_file: KeyBinding,
    pub open_file: KeyBinding,
    pub open_with: KeyBinding,
    pub save_as: KeyBinding,
    pub chmod: KeyBinding,
    pub symlink: KeyBinding,
    pub reload_dir: KeyBinding,

    // Selection
    pub mark_file: KeyBinding,
    pub mark_all: KeyBinding,
    pub unmark_all: KeyBinding,

    // View
    pub toggle_hidden: KeyBinding,
    pub file_info: KeyBinding,
    pub file_size: KeyBinding,
    pub sorting: KeyBinding,
    pub filter: KeyBinding,

    // Search
    pub fuzzy_search: KeyBinding,
    pub goto_path: KeyBinding,

    // Misc
    pub terminal: KeyBinding,
    pub sync_browsing: KeyBinding,
    pub watcher: KeyBinding,
    pub watched_paths: KeyBinding,
    pub pending_queue: KeyBinding,
}

impl ExplorerKeyBindings {
    /// The bindings that a configuration starts with.
    pub open spec fn spec_default() -> ExplorerKeyBindings {
        ExplorerKeyBindings {
            // Navigation
            move_up: KeyBinding::simple(Key::Up),
            move_down: KeyBinding::simple(Key::Down),
            move_up_page: KeyBinding::simple(Key::PageUp),
            move_down_page: KeyBinding::simple(Key::PageDown),
            move_to_top: KeyBinding::simple(Key::Home),
            move_to_bottom: KeyBinding::simple(Key::End),
            go_to_parent: KeyBinding::simple(Key::Char('u')),
            go_back: KeyBinding::simple(Key::Backspace),
            enter_dir: KeyBinding::simple(Key::Enter),
            enter_dir_alt: KeyBinding::simple(Key::Char('l')),
            change_panel: KeyBinding::simple(Key::Tab),

            // File operations
            transfer_file: KeyBinding::simple(Key::Char(' ')),
            copy_file: KeyBinding::simple(Key::Char('c')),
            rename_file: KeyBinding::simple(Key::Char('r')),
            delete_file: KeyBinding::simple(Key::Char('e')),
            mkdir: KeyBinding::simple(Key::Char('d')),
            new_file: KeyBinding::simple(Key::Char('n')),
            edit_file: KeyBinding::simple(Key::Char('o')),
            open_file: KeyBinding::simple(Key::Char('v')),
            open_with: KeyBinding::simple(Key::Char('w')),
            save_as: KeyBinding::simple(Key::Char('s')),
            chmod: KeyBinding::simple(Key::Char('z')),
            symlink: KeyBinding::simple(Key::Char('k')),
            reload_dir: KeyBinding::simple(Key::Char('l')),

            // Selection
            mark_file: KeyBinding::simple(Key::Char('m')),
            mark_all: KeyBinding::ctrl(Key::Char('a')),
            unmark_all: KeyBinding::alt(Key::Char('a')),

            // View
            toggle_hidden: KeyBinding::simple(Key::Char('a')),
            file_info: KeyBinding::simple(Key::Char('i')),
            file_size: KeyBinding::ctrl(Key::Char('s')),
            sorting: KeyBinding::simple(Key::Char('b')),
            filter: KeyBinding::simple(Key::Char('/')),

            // Search
            fuzzy_search: KeyBinding::simple(Key::Char('f')),
            goto_path: KeyBinding::simple(Key::Char('g')),

            // Misc
            terminal: KeyBinding::simple(Key::Char('x')),
            sync_browsing: KeyBinding::simple(Key::Char('y')),
            watcher: KeyBinding::simple(Key::Char('t')),
            watched_paths: KeyBinding::ctrl(Key::Char('t')),
            pending_queue: KeyBinding::simple(Key::Char('p')),
        }
    }

    /// The bindings in the style of vim and of the file managers that follow it.
    pub open spec fn spec_vim_style() -> ExplorerKeyBindings {
        ExplorerKeyBindings {
            // Navigation
            move_up: KeyBinding::simple(Key::Char('k')),
            move_down: KeyBinding::simple(Key::Char('j')),
            move_up_page: KeyBinding::ctrl(Key::Char('u')),
            move_down_page: KeyBinding::ctrl(Key::Char('d')),
            move_to_top: KeyBinding::simple(Key::Char('g')),
            move_to_bottom: KeyBinding::simple(Key::Char('G')),
            go_to_parent: KeyBinding::simple(Key::Char('h')),
            go_back: KeyBinding::simple(Key::Char('-')),
            enter_dir: KeyBinding::simple(Key::Char('l')),
            enter_dir_alt: KeyBinding::simple(Key::Enter),
            change_panel: KeyBinding::simple(Key::Tab),

            // File operations
            transfer_file: KeyBinding::simple(Key::Char('p')),
            copy_file: KeyBinding::simple(Key::Char('c')),
            rename_file: KeyBinding::simple(Key::Char('r')),
            delete_file: KeyBinding::simple(Key::Char('d')),
            mkdir: KeyBinding::simple(Key::Char('a')),
            new_file: KeyBinding::simple(Key::Char('A')),
            edit_file: KeyBinding::simple(Key::Char('e')),
            open_file: KeyBinding::simple(Key::Char('o')),
            open_with: KeyBinding::simple(Key::Char('O')),
            save_as: KeyBinding::simple(Key::Char('S')),
            chmod: KeyBinding::simple(Key::Char('z')),
            symlink: KeyBinding::simple(Key::Char('K')),
            reload_dir: KeyBinding::ctrl(Key::Char('r')),

            // Selection
            mark_file: KeyBinding::simple(Key::Char(' ')),
            mark_all: KeyBinding::simple(Key::Char('V')),
            unmark_all: KeyBinding::simple(Key::Char('u')),

            // View
            toggle_hidden: KeyBinding::simple(Key::Char('.')),
            file_info: KeyBinding::simple(Key::Char('i')),
            file_size: KeyBinding::simple(Key::Char('I')),
            sorting: KeyBinding::simple(Key::Char('s')),
            filter: KeyBinding::simple(Key::Char('F')),

            // Search
            fuzzy_search: KeyBinding::simple(Key::Char('/')),
            goto_path: KeyBinding::simple(Key::Char(':')),

            // Misc
            terminal: KeyBinding::simple(Key::Char('!')),
            sync_browsing: KeyBinding::simple(Key::Char('y')),
            watcher: KeyBinding::simple(Key::Char('w')),
            watched_paths: KeyBinding::simple(Key::Char('W')),
            pending_queue: KeyBinding::simple(Key::Char('p')),
        }
    }

    /// The bindings in the style of vim and of the file managers that follow it.
    #[verifier::when_used_as_spec(spec_vim_style)]
    pub fn vim_style() -> (r: Self)
        ensures
            r == Self::spec_vim_style(),
    {
        ExplorerKeyBindings {
            // Navigation
            move_up: KeyBinding::simple(Key::Char('k')),
            move_down: KeyBinding::simple(Key::Char('j')),
            move_up_page: KeyBinding::ctrl(Key::Char('u')),
            move_down_page: KeyBinding::ctrl(Key::Char('d')),
            move_to_top: KeyBinding::simple(Key::Char('g')),
            move_to_bottom: KeyBinding::simple(Key::Char('G')),
            go_to_parent: KeyBinding::simple(Key::Char('h')),
            go_back: KeyBinding::simple(Key::Char('-')),
            enter_dir: KeyBinding::simple(Key::Char('l')),
            enter_dir_alt: KeyBinding::simple(Key::Enter),
            change_panel: KeyBinding::simple(Key::Tab),

            // File operations
            transfer_file: KeyBinding::simple(Key::Char('p')),
            copy_file: KeyBinding::simple(Key::Char('c')),
            rename_file: KeyBinding::simple(Key::Char('r')),
            delete_file: KeyBinding::simple(Key::Char('d')),
            mkdir: KeyBinding::simple(Key::Char('a')),
            new_file: KeyBinding::simple(Key::Char('A')),
            edit_file: KeyBinding::simple(Key::Char('e')),
            open_file: KeyBinding::simple(Key::Char('o')),
            open_with: KeyBinding::simple(Key::Char('O')),
            save_as: KeyBinding::simple(Key::Char('S')),
            chmod: KeyBinding::simple(Key::Char('z')),
            symlink: KeyBinding::simple(Key::Char('K')),
            reload_dir: KeyBinding::ctrl(Key::Char('r')),

            // Selection
            mark_file: KeyBinding::simple(Key::Char(' ')),
            mark_all: KeyBinding::simple(Key::Char('V')),
            unmark_all: KeyBinding::simple(Key::Char('u')),

            // View
            toggle_hidden: KeyBinding::simple(Key::Char('.')),
            file_info: KeyBinding::simple(Key::Char('i')),
            file_size: KeyBinding::simple(Key::Char('I')),
            sorting: KeyBinding::simple(Key::Char('s')),
            filter: KeyBinding::simple(Key::Char('F')),

            // Search
            fuzzy_search: KeyBinding::simple(Key::Char('/')),
            goto_path: KeyBinding::simple(Key::Char(':')),

            // Misc
            terminal: KeyBinding::simple(Key::Char('!')),
            sync_browsing: KeyBinding::simple(Key::Char('y')),
            watcher: KeyBinding::simple(Key::Char('w')),
            watched_paths: KeyBinding::simple(Key::Char('W')),
            pending_queue: KeyBinding::simple(Key::Char('p')),
        }
    }
}

impl Default for ExplorerKeyBindings {
    fn default() -> (r: Self)
        ensures
            r == Self::spec_default(),
    {
        ExplorerKeyBindings {
            // Navigation
            move_up: KeyBinding::simple(Key::Up),
            move_down: KeyBinding::simple(Key::Down),
            move_up_page: KeyBinding::simple(Key::PageUp),
            move_down_page: KeyBinding::simple(Key::PageDown),
            move_to_top: KeyBinding::simple(Key::Home),
            move_to_bottom: KeyBinding::simple(Key::End),
            go_to_parent: KeyBinding::simple(Key::Char('u')),
            go_back: KeyBinding::simple(Key::Backspace),
            enter_dir: KeyBinding::simple(Key::Enter),
            enter_dir_alt: KeyBinding::simple(Key::Char('l')),
            change_panel: KeyBinding::simple(Key::Tab),

            // File operations
            transfer_file: KeyBinding::simple(Key::Char(' ')),
            copy_file: KeyBinding::simple(Key::Char('c')),
            rename_file: KeyBinding::simple(Key::Char('r')),
            delete_file: KeyBinding::simple(Key::Char('e')),
            mkdir: KeyBinding::simple(Key::Char('d')),
            new_file: KeyBinding::simple(Key::Char('n')),
            edit_file: KeyBinding::simple(Key::Char('o')),
            open_file: KeyBinding::simple(Key::Char('v')),
            open_with: KeyBinding::simple(Key::Char('w')),
            save_as: KeyBinding::simple(Key::Char('s')),
            chmod: KeyBinding::simple(Key::Char('z')),
            symlink: KeyBinding::simple(Key::Char('k')),
            reload_dir: KeyBinding::simple(Key::Char('l')),

            // Selection
            mark_file: KeyBinding::simple(Key::Char('m')),
            mark_all: KeyBinding::ctrl(Key::Char('a')),
            unmark_all: KeyBinding::alt(Key::Char('a')),

            // View
            toggle_hidden: KeyBinding::simple(Key::Char('a')),
            file_info: KeyBinding::simple(Key::Char('i')),
            file_size: KeyBinding::ctrl(Key::Char('s')),
            sorting: KeyBinding::simple(Key::Char('b')),
            filter: KeyBinding::simple(Key::Char('/')),

            // Search
            fuzzy_search: KeyBinding::simple(Key::Char('f')),
            goto_path: KeyBinding::simple(Key::Char('g')),

            // Misc
            terminal: KeyBinding::simple(Key::Char('x')),
            sync_browsing: KeyBinding::simple(Key::Char('y')),
            watcher: KeyBinding::simple(Key::Char('t')),
            watched_paths: KeyBinding::ctrl(Key::Char('t')),
            pending_queue: KeyBinding::simple(Key::Char('p')),
        }
    }
}

/// Global keybindings that work across all activities
#[derive(Clone, Copy, Debug, PartialEq, Eq, Structural)]
pub struct GlobalKeyBindings {
    pub quit: KeyBinding,
    pub quit_alt: KeyBinding,
    pub disconnect: KeyBinding,
    pub help: KeyBinding,
    pub help_alt: KeyBinding,
}

impl GlobalKeyBindings {
    /// The bindings that a configuration starts with.
    pub open spec fn spec_default() -> GlobalKeyBindings {
        GlobalKeyBindings {
            quit: KeyBinding::simple(Key::Char('q')),
            quit_alt: KeyBinding::simple(Key::Function(10)),
            disconnect: KeyBinding::simple(Key::Esc),
            help: KeyBinding::simple(Key::Char('h')),
            help_alt: KeyBinding::simple(Key::Function(1)),
        }
    }

    /// The bindings in the style of vim and of the file managers that follow it.
    pub open spec fn spec_vim_style() -> GlobalKeyBindings {
        GlobalKeyBindings {
            quit: KeyBinding::simple(Key::Char('q')),
            quit_alt: KeyBinding::simple(Key::Char('Q')),
            disconnect: KeyBinding::simple(Key::Esc),
            help: KeyBinding::simple(Key::Char('?')),
            help_alt: KeyBinding::simple(Key::Function(1)),
        }
    }

    /// The bindings in the style of vim and of the file managers that follow it.
    #[verifier::when_used_as_spec(spec_vim_style)]
    pub fn vim_style() -> (r: Self)
        ensures
            r == Self::spec_vim_style(),
    {
        GlobalKeyBindings {
            quit: KeyBinding::simple(Key::Char('q')),
            quit_alt: KeyBinding::simple(Key::Char('Q')),
            disconnect: KeyBinding::simple(Key::Esc),
            help: KeyBinding::simple(Key::Char('?')),
            help_alt: KeyBinding::simple(Key::Function(1)),
        }
    }
}

impl Default for GlobalKeyBindings {
    fn default() -> (r: Self)
        ensures
            r == Self::spec_default(),
    {
        GlobalKeyBindings {
            quit: KeyBinding::simple(Key::Char('q')),
            quit_alt: KeyBinding::simple(Key::Function(10)),
            disconnect: KeyBinding::simple(Key::Esc),
            help: KeyBinding::simple(Key::Char('h')),
            help_alt: KeyBinding::simple(Key::Function(1)),
        }
    }
}

/// Keybindings for the authentication activity
#[derive(Clone, Copy, Debug, PartialEq, Eq, Structural)]
pub struct AuthKeyBindings {
    pub quit: KeyBinding,
    pub quit_alt: KeyBinding,
    pub setup: KeyBinding,
    pub help: KeyBinding,
    pub help_alt: KeyBinding,
    pub release_notes: KeyBinding,
    pub save_bookmark: KeyBinding,
}

impl AuthKeyBindings {
    /// The bindings that a configuration starts with.
    pub open spec fn spec_default() -> AuthKeyBindings {
        AuthKeyBindings {
            quit: KeyBinding::simple(Key::Esc),
            quit_alt: KeyBinding::simple(Key::Function(10)),
            setup: KeyBinding::ctrl(Key::Char('c')),
            help: KeyBinding::ctrl(Key::Char('h')),
            help_alt: KeyBinding::simple(Key::Function(1)),
            release_notes: KeyBinding::ctrl(Key::Char('r')),
            save_bookmark: KeyBinding::ctrl(Key::Char('s')),
        }
    }

    /// The bindings in the style of vim and of the file managers that follow it.
    pub open spec fn spec_vim_style() -> AuthKeyBindings {
        AuthKeyBindings {
            quit: KeyBinding::simple(Key::Esc),
            quit_alt: KeyBinding::ctrl(Key::Char('q')),
            setup: KeyBinding::ctrl(Key::Char('c')),
            help: KeyBinding::simple(Key::Char('?')),
            help_alt: KeyBinding::simple(Key::Function(1)),
            release_notes: KeyBinding::ctrl(Key::Char('n')),
            save_bookmark: KeyBinding::ctrl(Key::Char('s')),
        }
    }

    /// The bindings in the style of vim and of the file managers that follow it.
    #[verifier::when_used_as_spec(spec_vim_style)]
    pub fn vim_style() -> (r: Self)
        ensures
            r == Self::spec_vim_style(),
    {
        AuthKeyBindings {
            quit: KeyBinding::simple(Key::Esc),
            quit_alt: KeyBinding::ctrl(Key::Char('q')),
            setup: KeyBinding::ctrl(Key::Char('c')),
            help: KeyBinding::simple(Key::Char('?')),
            help_alt: KeyBinding::simple(Key::Function(1)),
            release_notes: KeyBinding::ctrl(Key::Char('n')),
            save_bookmark: KeyBinding::ctrl(Key::Char('s')),
        }
    }
}

impl Default for AuthKeyBindings {
    fn default() -> (r: Self)
        ensures
            r == Self::spec_default(),
    {
        AuthKeyBindings {
            quit: KeyBinding::simple(Key::Esc),
            quit_alt: KeyBinding::simple(Key::Function(10)),
            setup: KeyBinding::ctrl(Key::Char('c')),
            help: KeyBinding::ctrl(Key::Char('h')),
            help_alt: KeyBinding::simple(Key::Function(1)),
            release_notes: KeyBinding::ctrl(Key::Char('r')),
            save_bookmark: KeyBinding::ctrl(Key::Char('s')),
        }
    }
}

/// Keybindings for the setup activity
#[derive(Clone, Copy, Debug, PartialEq, Eq, Structural)]
pub struct SetupKeyBindings {
    pub quit: KeyBinding,
    pub quit_alt: KeyBinding,
    pub change_tab: KeyBinding,
    pub help: KeyBinding,
    pub help_alt: KeyBinding,
    pub revert: KeyBinding,
    pub save: KeyBinding,
    pub save_alt: KeyBinding,
}

impl SetupKeyBindings {
    /// The bindings that a configuration starts with.
    pub open spec fn spec_default() -> SetupKeyBindings {
        SetupKeyBindings {
            quit: KeyBinding::simple(Key::Esc),
            quit_alt: KeyBinding::simple(Key::Function(10)),
            change_tab: KeyBinding::simple(Key::Tab),
            help: KeyBinding::ctrl(Key::Char('h')),
            help_alt: KeyBinding::simple(Key::Function(1)),
            revert: KeyBinding::ctrl(Key::Char('r')),
            save: KeyBinding::ctrl(Key::Char('s')),
            save_alt: KeyBinding::simple(Key::Function(4)),
        }
    }

    /// The bindings in the style of vim and of the file managers that follow it.
    pub open spec fn spec_vim_style() -> SetupKeyBindings {
        SetupKeyBindings {
            quit: KeyBinding::simple(Key::Esc),
            quit_alt: KeyBinding::ctrl(Key::Char('q')),
            change_tab: KeyBinding::simple(Key::Tab),
            help: KeyBinding::simple(Key::Char('?')),
            help_alt: KeyBinding::simple(Key::Function(1)),
            revert: KeyBinding::ctrl(Key::Char('r')),
            save: KeyBinding::ctrl(Key::Char('s')),
            save_alt: KeyBinding::ctrl(Key::Char('w')),
        }
    }

    /// The bindings in the style of vim and of the file managers that follow it.
    #[verifier::when_used_as_spec(spec_vim_style)]
    pub fn vim_style() -> (r: Self)
        ensures
            r == Self::spec_vim_style(),
    {
        SetupKeyBindings {
            quit: KeyBinding::simple(Key::Esc),
            quit_alt: KeyBinding::ctrl(Key::Char('q')),
            change_tab: KeyBinding::simple(Key::Tab),
            help: KeyBinding::simple(Key::Char('?')),
            help_alt: KeyBinding::simple(Key::Function(1)),
            revert: KeyBinding::ctrl(Key::Char('r')),
            save: KeyBinding::ctrl(Key::Char('s')),
            save_alt: KeyBinding::ctrl(Key::Char('w')),
        }
    }
}

impl Default for SetupKeyBindings {
    fn default() -> (r: Self)
        ensures
            r == Self::spec_default(),
    {
        SetupKeyBindings {
            quit: KeyBinding::simple(Key::Esc),
            quit_alt: KeyBinding::simple(Key::Function(10)),
            change_tab: KeyBinding::simple(Key::Tab),
            help: KeyBinding::ctrl(Key::Char('h')),
            help_alt: KeyBinding::simple(Key::Function(1)),
            revert: KeyBinding::ctrl(Key::Char('r')),
            save: KeyBinding::ctrl(Key::Char('s')),
            save_alt: KeyBinding::simple(Key::Function(4)),
        }
    }
}

/// Default value for enter_dir_alt (used when field is missing in config)
pub fn default_enter_dir_alt() -> (r: KeyBinding)
    ensures
        r == KeyBinding::simple(Key::Char('l')),
{
    // Default to 'l' as vim-style alternative, but Enter is the primary
    KeyBinding::simple(Key::Char('l'))
}

/// Complete keybindings configuration
#[derive(Clone, Copy, Debug, PartialEq, Eq, Structural)]
pub struct KeyBindings {
    pub global: GlobalKeyBindings,
    pub explorer: ExplorerKeyBindings,
    pub auth: AuthKeyBindings,
    pub setup: SetupKeyBindings,
}

impl KeyBindings {
    /// The bindings that a configuration starts with.
    pub open spec fn spec_default() -> KeyBindings {
        KeyBindings {
            global: GlobalKeyBindings::spec_default(),
            explorer: ExplorerKeyBindings::spec_default(),
            auth: AuthKeyBindings::spec_default(),
            setup: SetupKeyBindings::spec_default(),
        }
    }

    /// The bindings in the style of vim and of the file managers that follow it.
    pub open spec fn spec_vim_style() -> KeyBindings {
        KeyBindings {
            global: GlobalKeyBindings::spec_vim_style(),
            explorer: ExplorerKeyBindings::spec_vim_style(),
            auth: AuthKeyBindings::spec_vim_style(),
            setup: SetupKeyBindings::spec_vim_style(),
        }
    }

    /// Create vim-style keybindings inspired by yazi, ranger, and other file managers
    #[verifier::when_used_as_spec(spec_vim_style)]
    pub fn vim_style() -> (r: Self)
        ensures
            r == Self::spec_vim_style(),
    {
        KeyBindings {
            global: GlobalKeyBindings::vim_style(),
            explorer: ExplorerKeyBindings::vim_style(),
            auth: AuthKeyBindings::vim_style(),
            setup: SetupKeyBindings::vim_style(),
        }
    }
}

impl Default for KeyBindings {
    fn default() -> (r: Self)
        ensures
            r == Self::spec_default(),
    {
        KeyBindings {
            global: GlobalKeyBindings::default(),
            explorer: ExplorerKeyBindings::default(),
            auth: AuthKeyBindings::default(),
            setup: SetupKeyBindings::default(),
        }
    }
}

} // verus!
