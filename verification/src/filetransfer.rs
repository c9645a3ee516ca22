//! What the components of the file transfer screen do about an event.
//!
//! A component looks at an event and decides: a command for the list it shows, a
//! message for the screen, both, or nothing. The decision goes by the key bindings, and
//! where several say something of one key, by a fixed order. Carrying out the command
//! is left to whoever holds the list.

use vstd::prelude::*;
use crate::keybindings::{ExplorerKeyBindings, GlobalKeyBindings, KeyBindings};
use crate::keys::{Event, Key, KeyEvent};
use crate::matcher::{key_matches, ExplorerKeyMatcher};

verus! {

/// A way to move in a list.
#[derive(Clone, Copy, Debug, PartialEq, Eq, Structural)]
pub enum Direction {
    Down,
    Left,
    Right,
    Up,
}

/// An end of a list.
#[derive(Clone, Copy, Debug, PartialEq, Eq, Structural)]
pub enum Position {
    Begin,
    End,
}

/// What a list, or the search field above it, is told to do.
#[derive(Clone, Copy, Debug, PartialEq, Eq, Structural)]
pub enum Cmd {
    /// Move the selection by one.
    Move(Direction),
    /// Move the selection by a page.
    Scroll(Direction),
    /// Move the selection to an end.
    GoTo(Position),
    /// Mark every file.
    SelectAll,
    /// Clear every mark.
    DeselectAll,
    /// Mark the selected file, or clear its mark.
    Toggle,
    /// Give the focus to the other part of the component.
    Change,
    /// Delete the character after the cursor.
    Cancel,
    /// Delete the character before the cursor.
    Delete,
    /// Type the character.
    Type(char),
}

/// A message about what is shown.
#[derive(Clone, Copy, Debug, PartialEq, Eq, Structural)]
pub enum UiMsg {
    /// Every file was marked.
    MarkAll,
    /// Every mark was cleared.
    MarkClear,
    /// The file at this place in the list was marked, or its mark cleared.
    MarkFile(usize),
    /// Ask whether to disconnect.
    ShowDisconnectPopup,
    /// Go over to the other panel.
    ChangeTransferWindow,
    /// Show hidden files, or hide them.
    ToggleHiddenFiles,
    /// Ask how files are to be sorted.
    ShowFileSortingPopup,
    /// Ask where the file is to be copied to.
    ShowCopyPopup,
    /// Ask for the name of the directory to make.
    ShowMkdirPopup,
    /// Ask whether the file is to be deleted.
    ShowDeletePopup,
    /// Ask for the path to go to.
    ShowGotoPopup,
    /// Show what is known of the file.
    ShowFileInfoPopup,
    /// Ask for the name of the link to make.
    ShowSymlinkPopup,
    /// Ask for the name of the file to make.
    ShowNewFilePopup,
    /// Show the transfers that wait.
    GoToTransferQueue,
    /// Ask for the new name of the file.
    ShowRenamePopup,
    /// Ask for the name to save the file under.
    ShowSaveAsPopup,
    /// Ask whether the file is to be watched.
    ShowWatcherPopup,
    /// List the watched paths.
    ShowWatchedPathsList,
    /// Open the terminal.
    ShowTerminal,
    /// Turn synchronized browsing on or off.
    ToggleSyncBrowsing,
    /// Ask for the program to open the file with.
    ShowOpenWithPopup,
    /// Ask for the mode of the file.
    ShowChmodPopup,
    /// Ask for the filter.
    ShowFilterPopup,
    /// Close the list of files found.
    CloseFindExplorer,
    /// Ask whether to quit.
    ShowQuitPopup,
    /// Show the key bindings.
    ShowKeybindingsPopup,
    /// The window has a new size.
    WindowResized,
}

/// A message about files and directories.
#[derive(Clone, Copy, Debug, PartialEq, Eq, Structural)]
pub enum TransferMsg {
    /// Go back to the directory left last.
    GoToPreviousDirectory,
    /// Go to the parent directory.
    GoToParentDirectory,
    /// Enter the selected directory.
    EnterDirectory,
    /// Transfer the selected file.
    TransferFile,
    /// Start a fuzzy search.
    InitFuzzySearch,
    /// Read the directory anew.
    ReloadDir,
    /// Open the selected file in the text editor.
    OpenTextFile,
    /// Find out the size of the selected file.
    GetFileSize,
    /// Open the selected file.
    OpenFile,
}

/// A message to the file transfer screen.
#[derive(Clone, Copy, Debug, PartialEq, Eq, Structural)]
pub enum Msg {
    /// The event was dealt with; there is nothing to do.
    Nothing,
    Ui(UiMsg),
    Transfer(TransferMsg),
}

/// What a component does about an event.
#[derive(Clone, Copy, Debug, PartialEq, Eq, Structural)]
pub enum Reaction {
    /// Carry out the command; there is nothing to report.
    Perform(Cmd),
    /// Carry out the command, then send the message.
    PerformAndSend(Cmd, Msg),
    /// Carry out [`Cmd::Toggle`], then send what [`mark_toggled`] makes of the outcome.
    ToggleMark,
    /// Carry out [`Cmd::Type`] with the character, then send the search that the
    /// search field holds, if it has changed.
    TypeSearch(char),
    /// Send the message.
    Send(Msg),
}

/// The message after the mark of a file was toggled: which file it was, where the list
/// tells; else nothing.
pub fn mark_toggled(index: Option<usize>) -> (r: Msg)
    ensures
        r == match index {
            Some(index) => Msg::Ui(UiMsg::MarkFile(index)),
            None => Msg::Nothing,
        },
{
    match index {
        Some(index) => Msg::Ui(UiMsg::MarkFile(index)),
        None => Msg::Nothing,
    }
}

/// The key bindings that a component works with: the explorer's and the global ones of
/// `keybindings`, or the default ones where there are none.
pub open spec fn chosen_keys(keybindings: Option<&KeyBindings>) -> (
    ExplorerKeyBindings,
    GlobalKeyBindings,
) {
    match keybindings {
        Some(k) => (k.explorer, k.global),
        None => (ExplorerKeyBindings::spec_default(), GlobalKeyBindings::spec_default()),
    }
}

/// The key bindings that a component works with.
fn choose_keys(keybindings: Option<&KeyBindings>) -> (r: (ExplorerKeyBindings, GlobalKeyBindings))
    ensures
        r == chosen_keys(keybindings),
{
    match keybindings {
        Some(k) => (k.explorer, k.global),
        None => (ExplorerKeyBindings::default(), GlobalKeyBindings::default()),
    }
}

/// What the list of a fuzzy search does about the key `ev`: the first of these that
/// `ev` asks for.
pub open spec fn fuzzy_list_reaction(
    matcher: ExplorerKeyMatcher,
    ev: &KeyEvent,
) -> Option<Reaction> {
    if matcher.is_move_down(ev) {
        Some(Reaction::Perform(Cmd::Move(Direction::Down)))
    } else if matcher.is_move_up(ev) {
        Some(Reaction::Perform(Cmd::Move(Direction::Up)))
    } else if matcher.is_move_down_page(ev) {
        Some(Reaction::Perform(Cmd::Scroll(Direction::Down)))
    } else if matcher.is_move_up_page(ev) {
        Some(Reaction::Perform(Cmd::Scroll(Direction::Up)))
    } else if matcher.is_move_to_top(ev) {
        Some(Reaction::Perform(Cmd::GoTo(Position::Begin)))
    } else if matcher.is_move_to_bottom(ev) {
        Some(Reaction::Perform(Cmd::GoTo(Position::End)))
    } else if matcher.is_mark_all(ev) {
        Some(Reaction::PerformAndSend(Cmd::SelectAll, Msg::Ui(UiMsg::MarkAll)))
    } else if matcher.is_unmark_all(ev) {
        Some(Reaction::PerformAndSend(Cmd::DeselectAll, Msg::Ui(UiMsg::MarkClear)))
    } else if matcher.is_mark_file(ev) {
        Some(Reaction::ToggleMark)
    } else if ev.code == Key::Tab {
        Some(Reaction::Perform(Cmd::Change))
    } else if ev.code == Key::Esc {
        Some(Reaction::Send(Msg::Ui(UiMsg::CloseFindExplorer)))
    } else if ev.code == Key::Left || ev.code == Key::Right {
        Some(Reaction::Send(Msg::Ui(UiMsg::ChangeTransferWindow)))
    } else if matcher.is_enter_dir(ev) {
        Some(Reaction::Send(Msg::Transfer(TransferMsg::EnterDirectory)))
    } else if matcher.is_transfer_file(ev) {
        Some(Reaction::Send(Msg::Transfer(TransferMsg::TransferFile)))
    } else if matcher.is_go_back(ev) {
        Some(Reaction::Send(Msg::Transfer(TransferMsg::GoToPreviousDirectory)))
    } else if matcher.is_toggle_hidden(ev) {
        Some(Reaction::Send(Msg::Ui(UiMsg::ToggleHiddenFiles)))
    } else if matcher.is_sorting(ev) {
        Some(Reaction::Send(Msg::Ui(UiMsg::ShowFileSortingPopup)))
    } else if matcher.is_delete_file(ev) {
        Some(Reaction::Send(Msg::Ui(UiMsg::ShowDeletePopup)))
    } else if matcher.is_file_info(ev) {
        Some(Reaction::Send(Msg::Ui(UiMsg::ShowFileInfoPopup)))
    } else if matcher.is_file_size(ev) {
        Some(Reaction::Send(Msg::Transfer(TransferMsg::GetFileSize)))
    } else if matcher.is_save_as(ev) {
        Some(Reaction::Send(Msg::Ui(UiMsg::ShowSaveAsPopup)))
    } else if matcher.is_open_file(ev) {
        Some(Reaction::Send(Msg::Transfer(TransferMsg::OpenFile)))
    } else if matcher.is_open_with(ev) {
        Some(Reaction::Send(Msg::Ui(UiMsg::ShowOpenWithPopup)))
    } else if matcher.is_chmod(ev) {
        Some(Reaction::Send(Msg::Ui(UiMsg::ShowChmodPopup)))
    } else {
        None
    }
}

/// The list of files that a fuzzy search finds, with its search field.
#[derive(Clone, Copy, Debug, PartialEq, Eq, Structural)]
pub struct ExplorerFuzzy {
    pub explorer_keys: ExplorerKeyBindings,
    pub global_keys: GlobalKeyBindings,
}

impl ExplorerFuzzy {
    /// The component with the explorer's and the global bindings of `keybindings`, or
    /// with the default ones where there are none.
    pub fn new(keybindings: Option<&KeyBindings>) -> (r: Self)
        ensures
            (r.explorer_keys, r.global_keys) == chosen_keys(keybindings),
    {
        let (explorer_keys, global_keys) = choose_keys(keybindings);
        ExplorerFuzzy { explorer_keys, global_keys }
    }

    /// The matcher for the component's key bindings.
    pub open spec fn spec_matcher(&self) -> ExplorerKeyMatcher<'_> {
        ExplorerKeyMatcher { explorer: &self.explorer_keys, global: &self.global_keys }
    }

    /// The matcher for the component's key bindings.
    #[verifier::when_used_as_spec(spec_matcher)]
    pub fn matcher(&self) -> (r: ExplorerKeyMatcher<'_>)
        ensures
            r == self.spec_matcher(),
    {
        ExplorerKeyMatcher::new(&self.explorer_keys, &self.global_keys)
    }

    /// What the search field does about `ev`.
    pub fn on_search(&self, ev: &Event) -> (r: Option<Reaction>)
        ensures
            r == search_reaction(*ev),
    {
        match ev {
            Event::Keyboard(key_ev) => match key_ev.code {
                Key::Left => Some(Reaction::Perform(Cmd::Move(Direction::Left))),
                Key::Right => Some(Reaction::Perform(Cmd::Move(Direction::Right))),
                Key::Home => Some(Reaction::Perform(Cmd::GoTo(Position::Begin))),
                Key::End => Some(Reaction::Perform(Cmd::GoTo(Position::End))),
                Key::Delete => Some(Reaction::Perform(Cmd::Cancel)),
                Key::Backspace => Some(Reaction::Perform(Cmd::Delete)),
                Key::Tab | Key::Up | Key::Down => Some(Reaction::Perform(Cmd::Change)),
                Key::Char(ch) => Some(Reaction::TypeSearch(ch)),
                Key::Esc => Some(Reaction::Send(Msg::Ui(UiMsg::CloseFindExplorer))),
                _ => None,
            },
            _ => None,
        }
    }

    /// What the list does about `ev`.
    pub fn on_file_list(&self, ev: &Event) -> (r: Option<Reaction>)
        ensures
            r == match ev {
                Event::Keyboard(key_ev) => fuzzy_list_reaction(self.matcher(), key_ev),
                _ => None,
            },
    {
        let ev = match ev {
            Event::Keyboard(k) => k,
            _ => return None,
        };
        let matcher = self.matcher();

        // Navigation
        if matcher.is_move_down(ev) {
            return Some(Reaction::Perform(Cmd::Move(Direction::Down)));
        }
        if matcher.is_move_up(ev) {
            return Some(Reaction::Perform(Cmd::Move(Direction::Up)));
        }
        if matcher.is_move_down_page(ev) {
            return Some(Reaction::Perform(Cmd::Scroll(Direction::Down)));
        }
        if matcher.is_move_up_page(ev) {
            return Some(Reaction::Perform(Cmd::Scroll(Direction::Up)));
        }
        if matcher.is_move_to_top(ev) {
            return Some(Reaction::Perform(Cmd::GoTo(Position::Begin)));
        }
        if matcher.is_move_to_bottom(ev) {
            return Some(Reaction::Perform(Cmd::GoTo(Position::End)));
        }
        // Selection
        if matcher.is_mark_all(ev) {
            return Some(Reaction::PerformAndSend(Cmd::SelectAll, Msg::Ui(UiMsg::MarkAll)));
        }
        if matcher.is_unmark_all(ev) {
            return Some(Reaction::PerformAndSend(Cmd::DeselectAll, Msg::Ui(UiMsg::MarkClear)));
        }
        if matcher.is_mark_file(ev) {
            return Some(Reaction::ToggleMark);
        }
        // Tab to switch focus
        if ev.code == Key::Tab {
            return Some(Reaction::Perform(Cmd::Change));
        }
        // ESC to close
        if ev.code == Key::Esc {
            return Some(Reaction::Send(Msg::Ui(UiMsg::CloseFindExplorer)));
        }
        // Change panel
        if ev.code == Key::Left || ev.code == Key::Right {
            return Some(Reaction::Send(Msg::Ui(UiMsg::ChangeTransferWindow)));
        }
        // Enter directory
        if matcher.is_enter_dir(ev) {
            return Some(Reaction::Send(Msg::Transfer(TransferMsg::EnterDirectory)));
        }
        // Transfer file
        if matcher.is_transfer_file(ev) {
            return Some(Reaction::Send(Msg::Transfer(TransferMsg::TransferFile)));
        }
        // Go back
        if matcher.is_go_back(ev) {
            return Some(Reaction::Send(Msg::Transfer(TransferMsg::GoToPreviousDirectory)));
        }
        // View operations
        if matcher.is_toggle_hidden(ev) {
            return Some(Reaction::Send(Msg::Ui(UiMsg::ToggleHiddenFiles)));
        }
        if matcher.is_sorting(ev) {
            return Some(Reaction::Send(Msg::Ui(UiMsg::ShowFileSortingPopup)));
        }
        if matcher.is_delete_file(ev) {
            return Some(Reaction::Send(Msg::Ui(UiMsg::ShowDeletePopup)));
        }
        if matcher.is_file_info(ev) {
            return Some(Reaction::Send(Msg::Ui(UiMsg::ShowFileInfoPopup)));
        }
        if matcher.is_file_size(ev) {
            return Some(Reaction::Send(Msg::Transfer(TransferMsg::GetFileSize)));
        }
        if matcher.is_save_as(ev) {
            return Some(Reaction::Send(Msg::Ui(UiMsg::ShowSaveAsPopup)));
        }
        if matcher.is_open_file(ev) {
            return Some(Reaction::Send(Msg::Transfer(TransferMsg::OpenFile)));
        }
        if matcher.is_open_with(ev) {
            return Some(Reaction::Send(Msg::Ui(UiMsg::ShowOpenWithPopup)));
        }
        if matcher.is_chmod(ev) {
            return Some(Reaction::Send(Msg::Ui(UiMsg::ShowChmodPopup)));
        }
        None
    }

    /// What the component does about `ev`: what the part of it that has the focus does.
    pub fn on(&self, focus: Focus, ev: &Event) -> (r: Option<Reaction>)
        ensures
            r == match focus {
                Focus::List => match ev {
                    Event::Keyboard(key_ev) => fuzzy_list_reaction(self.matcher(), key_ev),
                    _ => None,
                },
                Focus::Search => search_reaction(*ev),
            },
    {
        match focus {
            Focus::List => self.on_file_list(ev),
            Focus::Search => self.on_search(ev),
        }
    }
}

/// The part of a fuzzy search that has the focus.
#[derive(Clone, Copy, Debug, PartialEq, Eq, Structural)]
pub enum Focus {
    List,
    Search,
}

/// What the search field of a fuzzy search does about `ev`. The modifiers held with a
/// key do not count.
pub open spec fn search_reaction(ev: Event) -> Option<Reaction> {
    match ev {
        Event::Keyboard(key_ev) => match key_ev.code {
            Key::Left => Some(Reaction::Perform(Cmd::Move(Direction::Left))),
            Key::Right => Some(Reaction::Perform(Cmd::Move(Direction::Right))),
            Key::Home => Some(Reaction::Perform(Cmd::GoTo(Position::Begin))),
            Key::End => Some(Reaction::Perform(Cmd::GoTo(Position::End))),
            Key::Delete => Some(Reaction::Perform(Cmd::Cancel)),
            Key::Backspace => Some(Reaction::Perform(Cmd::Delete)),
            Key::Tab | Key::Up | Key::Down => Some(Reaction::Perform(Cmd::Change)),
            Key::Char(ch) => Some(Reaction::TypeSearch(ch)),
            Key::Esc => Some(Reaction::Send(Msg::Ui(UiMsg::CloseFindExplorer))),
            _ => None,
        },
        _ => None,
    }
}

/// What the list of files found does about the key `ev`: the first of these that `ev`
/// asks for.
pub open spec fn find_reaction(
    matcher: ExplorerKeyMatcher,
    ev: &KeyEvent,
) -> Option<Reaction> {
    if matcher.is_move_down(ev) {
        Some(Reaction::Perform(Cmd::Move(Direction::Down)))
    } else if matcher.is_move_up(ev) {
        Some(Reaction::Perform(Cmd::Move(Direction::Up)))
    } else if matcher.is_move_down_page(ev) {
        Some(Reaction::Perform(Cmd::Scroll(Direction::Down)))
    } else if matcher.is_move_up_page(ev) {
        Some(Reaction::Perform(Cmd::Scroll(Direction::Up)))
    } else if matcher.is_move_to_top(ev) {
        Some(Reaction::Perform(Cmd::GoTo(Position::Begin)))
    } else if matcher.is_move_to_bottom(ev) {
        Some(Reaction::Perform(Cmd::GoTo(Position::End)))
    } else if matcher.is_mark_all(ev) {
        Some(Reaction::PerformAndSend(Cmd::SelectAll, Msg::Ui(UiMsg::MarkAll)))
    } else if matcher.is_unmark_all(ev) {
        Some(Reaction::PerformAndSend(Cmd::DeselectAll, Msg::Ui(UiMsg::MarkClear)))
    } else if matcher.is_mark_file(ev) {
        Some(Reaction::ToggleMark)
    } else if ev.code == Key::Esc {
        Some(Reaction::Send(Msg::Ui(UiMsg::CloseFindExplorer)))
    } else if matcher.is_change_panel(ev) {
        Some(Reaction::Send(Msg::Ui(UiMsg::ChangeTransferWindow)))
    } else if matcher.is_enter_dir(ev) {
        Some(Reaction::Send(Msg::Transfer(TransferMsg::EnterDirectory)))
    } else if matcher.is_transfer_file(ev) {
        Some(Reaction::Send(Msg::Transfer(TransferMsg::TransferFile)))
    } else if matcher.is_go_back(ev) {
        Some(Reaction::Send(Msg::Transfer(TransferMsg::GoToPreviousDirectory)))
    } else if matcher.is_toggle_hidden(ev) {
        Some(Reaction::Send(Msg::Ui(UiMsg::ToggleHiddenFiles)))
    } else if matcher.is_sorting(ev) {
        Some(Reaction::Send(Msg::Ui(UiMsg::ShowFileSortingPopup)))
    } else if matcher.is_delete_file(ev) {
        Some(Reaction::Send(Msg::Ui(UiMsg::ShowDeletePopup)))
    } else if matcher.is_file_info(ev) {
        Some(Reaction::Send(Msg::Ui(UiMsg::ShowFileInfoPopup)))
    } else if matcher.is_file_size(ev) {
        Some(Reaction::Send(Msg::Transfer(TransferMsg::GetFileSize)))
    } else if matcher.is_save_as(ev) {
        Some(Reaction::Send(Msg::Ui(UiMsg::ShowSaveAsPopup)))
    } else if matcher.is_open_file(ev) {
        Some(Reaction::Send(Msg::Transfer(TransferMsg::OpenFile)))
    } else if matcher.is_open_with(ev) {
        Some(Reaction::Send(Msg::Ui(UiMsg::ShowOpenWithPopup)))
    } else if matcher.is_chmod(ev) {
        Some(Reaction::Send(Msg::Ui(UiMsg::ShowChmodPopup)))
    } else {
        None
    }
}

/// The list of files that a search finds.
#[derive(Clone, Copy, Debug, PartialEq, Eq, Structural)]
pub struct ExplorerFind {
    pub explorer_keys: ExplorerKeyBindings,
    pub global_keys: GlobalKeyBindings,
}

impl ExplorerFind {
    /// The component with the explorer's and the global bindings of `keybindings`, or
    /// with the default ones where there are none.
    pub fn new(keybindings: Option<&KeyBindings>) -> (r: Self)
        ensures
            (r.explorer_keys, r.global_keys) == chosen_keys(keybindings),
    {
        let (explorer_keys, global_keys) = choose_keys(keybindings);
        ExplorerFind { explorer_keys, global_keys }
    }

    /// The matcher for the component's key bindings.
    pub open spec fn spec_matcher(&self) -> ExplorerKeyMatcher<'_> {
        ExplorerKeyMatcher { explorer: &self.explorer_keys, global: &self.global_keys }
    }

    /// The matcher for the component's key bindings.
    #[verifier::when_used_as_spec(spec_matcher)]
    pub fn matcher(&self) -> (r: ExplorerKeyMatcher<'_>)
        ensures
            r == self.spec_matcher(),
    {
        ExplorerKeyMatcher::new(&self.explorer_keys, &self.global_keys)
    }

    /// What the component does about `ev`.
    pub fn on(&self, ev: &Event) -> (r: Option<Reaction>)
        ensures
            r == match ev {
                Event::Keyboard(key_ev) => find_reaction(self.matcher(), key_ev),
                _ => None,
            },
    {
        let ev = match ev {
            Event::Keyboard(k) => k,
            _ => return None,
        };
        let matcher = self.matcher();

        // Navigation
        if matcher.is_move_down(ev) {
            return Some(Reaction::Perform(Cmd::Move(Direction::Down)));
        }
        if matcher.is_move_up(ev) {
            return Some(Reaction::Perform(Cmd::Move(Direction::Up)));
        }
        if matcher.is_move_down_page(ev) {
            return Some(Reaction::Perform(Cmd::Scroll(Direction::Down)));
        }
        if matcher.is_move_up_page(ev) {
            return Some(Reaction::Perform(Cmd::Scroll(Direction::Up)));
        }
        if matcher.is_move_to_top(ev) {
            return Some(Reaction::Perform(Cmd::GoTo(Position::Begin)));
        }
        if matcher.is_move_to_bottom(ev) {
            return Some(Reaction::Perform(Cmd::GoTo(Position::End)));
        }
        // Selection
        if matcher.is_mark_all(ev) {
            return Some(Reaction::PerformAndSend(Cmd::SelectAll, Msg::Ui(UiMsg::MarkAll)));
        }
        if matcher.is_unmark_all(ev) {
            return Some(Reaction::PerformAndSend(Cmd::DeselectAll, Msg::Ui(UiMsg::MarkClear)));
        }
        if matcher.is_mark_file(ev) {
            return Some(Reaction::ToggleMark);
        }
        // ESC to close
        if ev.code == Key::Esc {
            return Some(Reaction::Send(Msg::Ui(UiMsg::CloseFindExplorer)));
        }
        // Change panel
        if matcher.is_change_panel(ev) {
            return Some(Reaction::Send(Msg::Ui(UiMsg::ChangeTransferWindow)));
        }
        // Enter directory
        if matcher.is_enter_dir(ev) {
            return Some(Reaction::Send(Msg::Transfer(TransferMsg::EnterDirectory)));
        }
        // Transfer file
        if matcher.is_transfer_file(ev) {
            return Some(Reaction::Send(Msg::Transfer(TransferMsg::TransferFile)));
        }
        // Go back
        if matcher.is_go_back(ev) {
            return Some(Reaction::Send(Msg::Transfer(TransferMsg::GoToPreviousDirectory)));
        }
        // View operations
        if matcher.is_toggle_hidden(ev) {
            return Some(Reaction::Send(Msg::Ui(UiMsg::ToggleHiddenFiles)));
        }
        if matcher.is_sorting(ev) {
            return Some(Reaction::Send(Msg::Ui(UiMsg::ShowFileSortingPopup)));
        }
        if matcher.is_delete_file(ev) {
            return Some(Reaction::Send(Msg::Ui(UiMsg::ShowDeletePopup)));
        }
        if matcher.is_file_info(ev) {
            return Some(Reaction::Send(Msg::Ui(UiMsg::ShowFileInfoPopup)));
        }
        if matcher.is_file_size(ev) {
            return Some(Reaction::Send(Msg::Transfer(TransferMsg::GetFileSize)));
        }
        if matcher.is_save_as(ev) {
            return Some(Reaction::Send(Msg::Ui(UiMsg::ShowSaveAsPopup)));
        }
        if matcher.is_open_file(ev) {
            return Some(Reaction::Send(Msg::Transfer(TransferMsg::OpenFile)));
        }
        if matcher.is_open_with(ev) {
            return Some(Reaction::Send(Msg::Ui(UiMsg::ShowOpenWithPopup)));
        }
        if matcher.is_chmod(ev) {
            return Some(Reaction::Send(Msg::Ui(UiMsg::ShowChmodPopup)));
        }
        None
    }
}

/// What a panel of the explorer does about the key `ev`: the first of these that `ev`
/// asks for. Where the entry for the parent directory is selected, entering goes to
/// the parent, and there is nothing to transfer.
pub open spec fn explorer_reaction(
    matcher: ExplorerKeyMatcher,
    ev: &KeyEvent,
    parent_selected: bool,
) -> Option<Reaction> {
    if matcher.is_move_down(ev) {
        Some(Reaction::Perform(Cmd::Move(Direction::Down)))
    } else if matcher.is_move_up(ev) {
        Some(Reaction::Perform(Cmd::Move(Direction::Up)))
    } else if matcher.is_move_down_page(ev) {
        Some(Reaction::Perform(Cmd::Scroll(Direction::Down)))
    } else if matcher.is_move_up_page(ev) {
        Some(Reaction::Perform(Cmd::Scroll(Direction::Up)))
    } else if matcher.is_move_to_top(ev) {
        Some(Reaction::Perform(Cmd::GoTo(Position::Begin)))
    } else if matcher.is_move_to_bottom(ev) {
        Some(Reaction::Perform(Cmd::GoTo(Position::End)))
    } else if matcher.is_mark_all(ev) {
        Some(Reaction::PerformAndSend(Cmd::SelectAll, Msg::Ui(UiMsg::MarkAll)))
    } else if matcher.is_unmark_all(ev) {
        Some(Reaction::PerformAndSend(Cmd::DeselectAll, Msg::Ui(UiMsg::MarkClear)))
    } else if matcher.is_mark_file(ev) {
        Some(Reaction::ToggleMark)
    } else if matcher.is_disconnect(ev) {
        Some(Reaction::Send(Msg::Ui(UiMsg::ShowDisconnectPopup)))
    } else if matcher.is_change_panel(ev) {
        Some(Reaction::Send(Msg::Ui(UiMsg::ChangeTransferWindow)))
    } else if matcher.is_go_back(ev) {
        Some(Reaction::Send(Msg::Transfer(TransferMsg::GoToPreviousDirectory)))
    } else if matcher.is_enter_dir(ev) {
        Some(
            if parent_selected {
                Reaction::Send(Msg::Transfer(TransferMsg::GoToParentDirectory))
            } else {
                Reaction::Send(Msg::Transfer(TransferMsg::EnterDirectory))
            },
        )
    } else if matcher.is_transfer_file(ev) {
        Some(
            if parent_selected {
                Reaction::Send(Msg::Nothing)
            } else {
                Reaction::Send(Msg::Transfer(TransferMsg::TransferFile))
            },
        )
    } else if matcher.is_toggle_hidden(ev) {
        Some(Reaction::Send(Msg::Ui(UiMsg::ToggleHiddenFiles)))
    } else if matcher.is_sorting(ev) {
        Some(Reaction::Send(Msg::Ui(UiMsg::ShowFileSortingPopup)))
    } else if matcher.is_copy_file(ev) {
        Some(Reaction::Send(Msg::Ui(UiMsg::ShowCopyPopup)))
    } else if matcher.is_mkdir(ev) {
        Some(Reaction::Send(Msg::Ui(UiMsg::ShowMkdirPopup)))
    } else if matcher.is_delete_file(ev) {
        Some(Reaction::Send(Msg::Ui(UiMsg::ShowDeletePopup)))
    } else if matcher.is_fuzzy_search(ev) {
        Some(Reaction::Send(Msg::Transfer(TransferMsg::InitFuzzySearch)))
    } else if matcher.is_goto_path(ev) {
        Some(Reaction::Send(Msg::Ui(UiMsg::ShowGotoPopup)))
    } else if matcher.is_file_info(ev) {
        Some(Reaction::Send(Msg::Ui(UiMsg::ShowFileInfoPopup)))
    } else if matcher.is_symlink(ev) {
        Some(Reaction::Send(Msg::Ui(UiMsg::ShowSymlinkPopup)))
    } else if matcher.is_reload_dir(ev) {
        Some(Reaction::Send(Msg::Transfer(TransferMsg::ReloadDir)))
    } else if matcher.is_new_file(ev) {
        Some(Reaction::Send(Msg::Ui(UiMsg::ShowNewFilePopup)))
    } else if matcher.is_edit_file(ev) {
        Some(Reaction::Send(Msg::Transfer(TransferMsg::OpenTextFile)))
    } else if matcher.is_pending_queue(ev) {
        Some(Reaction::Send(Msg::Ui(UiMsg::GoToTransferQueue)))
    } else if matcher.is_rename_file(ev) {
        Some(Reaction::Send(Msg::Ui(UiMsg::ShowRenamePopup)))
    } else if matcher.is_file_size(ev) {
        Some(Reaction::Send(Msg::Transfer(TransferMsg::GetFileSize)))
    } else if matcher.is_save_as(ev) {
        Some(Reaction::Send(Msg::Ui(UiMsg::ShowSaveAsPopup)))
    } else if matcher.is_watcher(ev) {
        Some(Reaction::Send(Msg::Ui(UiMsg::ShowWatcherPopup)))
    } else if matcher.is_watched_paths(ev) {
        Some(Reaction::Send(Msg::Ui(UiMsg::ShowWatchedPathsList)))
    } else if matcher.is_go_to_parent(ev) {
        Some(Reaction::Send(Msg::Transfer(TransferMsg::GoToParentDirectory)))
    } else if matcher.is_terminal(ev) {
        Some(Reaction::Send(Msg::Ui(UiMsg::ShowTerminal)))
    } else if matcher.is_sync_browsing(ev) {
        Some(Reaction::Send(Msg::Ui(UiMsg::ToggleSyncBrowsing)))
    } else if matcher.is_open_file(ev) {
        Some(Reaction::Send(Msg::Transfer(TransferMsg::OpenFile)))
    } else if matcher.is_open_with(ev) {
        Some(Reaction::Send(Msg::Ui(UiMsg::ShowOpenWithPopup)))
    } else if matcher.is_chmod(ev) {
        Some(Reaction::Send(Msg::Ui(UiMsg::ShowChmodPopup)))
    } else if matcher.is_filter(ev) {
        Some(Reaction::Send(Msg::Ui(UiMsg::ShowFilterPopup)))
    } else {
        None
    }
}

/// What a panel of the explorer does about the key `ev`.
fn react(matcher: ExplorerKeyMatcher, ev: &KeyEvent, parent_selected: bool) -> (r: Option<Reaction>)
    ensures
        r == explorer_reaction(matcher, ev, parent_selected),
{
    // Navigation
    if matcher.is_move_down(ev) {
        return Some(Reaction::Perform(Cmd::Move(Direction::Down)));
    }
    if matcher.is_move_up(ev) {
        return Some(Reaction::Perform(Cmd::Move(Direction::Up)));
    }
    if matcher.is_move_down_page(ev) {
        return Some(Reaction::Perform(Cmd::Scroll(Direction::Down)));
    }
    if matcher.is_move_up_page(ev) {
        return Some(Reaction::Perform(Cmd::Scroll(Direction::Up)));
    }
    if matcher.is_move_to_top(ev) {
        return Some(Reaction::Perform(Cmd::GoTo(Position::Begin)));
    }
    if matcher.is_move_to_bottom(ev) {
        return Some(Reaction::Perform(Cmd::GoTo(Position::End)));
    }
    // Selection
    if matcher.is_mark_all(ev) {
        return Some(Reaction::PerformAndSend(Cmd::SelectAll, Msg::Ui(UiMsg::MarkAll)));
    }
    if matcher.is_unmark_all(ev) {
        return Some(Reaction::PerformAndSend(Cmd::DeselectAll, Msg::Ui(UiMsg::MarkClear)));
    }
    if matcher.is_mark_file(ev) {
        return Some(Reaction::ToggleMark);
    }
    // ESC to disconnect
    if matcher.is_disconnect(ev) {
        return Some(Reaction::Send(Msg::Ui(UiMsg::ShowDisconnectPopup)));
    }
    // Change panel
    if matcher.is_change_panel(ev) {
        return Some(Reaction::Send(Msg::Ui(UiMsg::ChangeTransferWindow)));
    }
    // Go back
    if matcher.is_go_back(ev) {
        return Some(Reaction::Send(Msg::Transfer(TransferMsg::GoToPreviousDirectory)));
    }
    // Enter directory or go to parent
    if matcher.is_enter_dir(ev) {
        if parent_selected {
            return Some(Reaction::Send(Msg::Transfer(TransferMsg::GoToParentDirectory)));
        } else {
            return Some(Reaction::Send(Msg::Transfer(TransferMsg::EnterDirectory)));
        }
    }
    // Transfer file (space by default)
    if matcher.is_transfer_file(ev) {
        if parent_selected {
            return Some(Reaction::Send(Msg::Nothing));
        } else {
            return Some(Reaction::Send(Msg::Transfer(TransferMsg::TransferFile)));
        }
    }
    // View operations
    if matcher.is_toggle_hidden(ev) {
        return Some(Reaction::Send(Msg::Ui(UiMsg::ToggleHiddenFiles)));
    }
    if matcher.is_sorting(ev) {
        return Some(Reaction::Send(Msg::Ui(UiMsg::ShowFileSortingPopup)));
    }
    // File operations
    if matcher.is_copy_file(ev) {
        return Some(Reaction::Send(Msg::Ui(UiMsg::ShowCopyPopup)));
    }
    if matcher.is_mkdir(ev) {
        return Some(Reaction::Send(Msg::Ui(UiMsg::ShowMkdirPopup)));
    }
    if matcher.is_delete_file(ev) {
        return Some(Reaction::Send(Msg::Ui(UiMsg::ShowDeletePopup)));
    }
    if matcher.is_fuzzy_search(ev) {
        return Some(Reaction::Send(Msg::Transfer(TransferMsg::InitFuzzySearch)));
    }
    if matcher.is_goto_path(ev) {
        return Some(Reaction::Send(Msg::Ui(UiMsg::ShowGotoPopup)));
    }
    if matcher.is_file_info(ev) {
        return Some(Reaction::Send(Msg::Ui(UiMsg::ShowFileInfoPopup)));
    }
    if matcher.is_symlink(ev) {
        return Some(Reaction::Send(Msg::Ui(UiMsg::ShowSymlinkPopup)));
    }
    if matcher.is_reload_dir(ev) {
        return Some(Reaction::Send(Msg::Transfer(TransferMsg::ReloadDir)));
    }
    if matcher.is_new_file(ev) {
        return Some(Reaction::Send(Msg::Ui(UiMsg::ShowNewFilePopup)));
    }
    if matcher.is_edit_file(ev) {
        return Some(Reaction::Send(Msg::Transfer(TransferMsg::OpenTextFile)));
    }
    if matcher.is_pending_queue(ev) {
        return Some(Reaction::Send(Msg::Ui(UiMsg::GoToTransferQueue)));
    }
    if matcher.is_rename_file(ev) {
        return Some(Reaction::Send(Msg::Ui(UiMsg::ShowRenamePopup)));
    }
    if matcher.is_file_size(ev) {
        return Some(Reaction::Send(Msg::Transfer(TransferMsg::GetFileSize)));
    }
    if matcher.is_save_as(ev) {
        return Some(Reaction::Send(Msg::Ui(UiMsg::ShowSaveAsPopup)));
    }
    if matcher.is_watcher(ev) {
        return Some(Reaction::Send(Msg::Ui(UiMsg::ShowWatcherPopup)));
    }
    if matcher.is_watched_paths(ev) {
        return Some(Reaction::Send(Msg::Ui(UiMsg::ShowWatchedPathsList)));
    }
    if matcher.is_go_to_parent(ev) {
        return Some(Reaction::Send(Msg::Transfer(TransferMsg::GoToParentDirectory)));
    }
    if matcher.is_terminal(ev) {
        return Some(Reaction::Send(Msg::Ui(UiMsg::ShowTerminal)));
    }
    if matcher.is_sync_browsing(ev) {
        return Some(Reaction::Send(Msg::Ui(UiMsg::ToggleSyncBrowsing)));
    }
    if matcher.is_open_file(ev) {
        return Some(Reaction::Send(Msg::Transfer(TransferMsg::OpenFile)));
    }
    if matcher.is_open_with(ev) {
        return Some(Reaction::Send(Msg::Ui(UiMsg::ShowOpenWithPopup)));
    }
    if matcher.is_chmod(ev) {
        return Some(Reaction::Send(Msg::Ui(UiMsg::ShowChmodPopup)));
    }
    if matcher.is_filter(ev) {
        return Some(Reaction::Send(Msg::Ui(UiMsg::ShowFilterPopup)));
    }
    None
}

/// The panel with the files of the local host.
#[derive(Clone, Copy, Debug, PartialEq, Eq, Structural)]
pub struct ExplorerLocal {
    pub explorer_keys: ExplorerKeyBindings,
    pub global_keys: GlobalKeyBindings,
}

impl ExplorerLocal {
    /// The component with the explorer's and the global bindings of `keybindings`, or
    /// with the default ones where there are none.
    pub fn new(keybindings: Option<&KeyBindings>) -> (r: Self)
        ensures
            (r.explorer_keys, r.global_keys) == chosen_keys(keybindings),
    {
        let (explorer_keys, global_keys) = choose_keys(keybindings);
        ExplorerLocal { explorer_keys, global_keys }
    }

    /// The matcher for the component's key bindings.
    pub open spec fn spec_matcher(&self) -> ExplorerKeyMatcher<'_> {
        ExplorerKeyMatcher { explorer: &self.explorer_keys, global: &self.global_keys }
    }

    /// The matcher for the component's key bindings.
    #[verifier::when_used_as_spec(spec_matcher)]
    pub fn matcher(&self) -> (r: ExplorerKeyMatcher<'_>)
        ensures
            r == self.spec_matcher(),
    {
        ExplorerKeyMatcher::new(&self.explorer_keys, &self.global_keys)
    }

    /// What the component does about `ev`. `parent_selected` tells whether the entry
    /// for the parent directory is the one selected.
    pub fn on(&self, ev: &Event, parent_selected: bool) -> (r: Option<Reaction>)
        ensures
            r == match ev {
                Event::Keyboard(key_ev) => explorer_reaction(
                    self.matcher(),
                    key_ev,
                    parent_selected,
                ),
                _ => None,
            },
    {
        match ev {
            Event::Keyboard(key_ev) => react(self.matcher(), key_ev, parent_selected),
            _ => None,
        }
    }
}

/// The panel with the files of the remote host.
#[derive(Clone, Copy, Debug, PartialEq, Eq, Structural)]
pub struct ExplorerRemote {
    pub explorer_keys: ExplorerKeyBindings,
    pub global_keys: GlobalKeyBindings,
}

impl ExplorerRemote {
    /// The component with the explorer's and the global bindings of `keybindings`, or
    /// with the default ones where there are none.
    pub fn new(keybindings: Option<&KeyBindings>) -> (r: Self)
        ensures
            (r.explorer_keys, r.global_keys) == chosen_keys(keybindings),
    {
        let (explorer_keys, global_keys) = choose_keys(keybindings);
        ExplorerRemote { explorer_keys, global_keys }
    }

    /// The matcher for the component's key bindings.
    pub open spec fn spec_matcher(&self) -> ExplorerKeyMatcher<'_> {
        ExplorerKeyMatcher { explorer: &self.explorer_keys, global: &self.global_keys }
    }

    /// The matcher for the component's key bindings.
    #[verifier::when_used_as_spec(spec_matcher)]
    pub fn matcher(&self) -> (r: ExplorerKeyMatcher<'_>)
        ensures
            r == self.spec_matcher(),
    {
        ExplorerKeyMatcher::new(&self.explorer_keys, &self.global_keys)
    }

    /// What the component does about `ev`. `parent_selected` tells whether the entry
    /// for the parent directory is the one selected.
    pub fn on(&self, ev: &Event, parent_selected: bool) -> (r: Option<Reaction>)
        ensures
            r == match ev {
                Event::Keyboard(key_ev) => explorer_reaction(
                    self.matcher(),
                    key_ev,
                    parent_selected,
                ),
                _ => None,
            },
    {
        match ev {
            Event::Keyboard(key_ev) => react(self.matcher(), key_ev, parent_selected),
            _ => None,
        }
    }
}

/// What the screen as a whole does about `ev`, whichever component has the focus: the
/// first of these that `ev` asks for.
pub open spec fn global_reaction(keys: GlobalKeyBindings, ev: Event) -> Option<Msg> {
    match ev {
        Event::Keyboard(key_ev) => if key_matches(&key_ev, &keys.disconnect) {
            Some(Msg::Ui(UiMsg::ShowDisconnectPopup))
        } else if key_matches(&key_ev, &keys.quit) || key_matches(&key_ev, &keys.quit_alt) {
            Some(Msg::Ui(UiMsg::ShowQuitPopup))
        } else if key_matches(&key_ev, &keys.help) || key_matches(&key_ev, &keys.help_alt) {
            Some(Msg::Ui(UiMsg::ShowKeybindingsPopup))
        } else {
            None
        },
        Event::WindowResize(_, _) => Some(Msg::Ui(UiMsg::WindowResized)),
        _ => None,
    }
}

/// Listens to what the screen as a whole is asked for.
#[derive(Clone, Copy, Debug, PartialEq, Eq, Structural)]
pub struct GlobalListener {
    pub global_keys: GlobalKeyBindings,
}

impl Default for GlobalListener {
    fn default() -> (r: Self)
        ensures
            r.global_keys == GlobalKeyBindings::spec_default(),
    {
        GlobalListener { global_keys: GlobalKeyBindings::default() }
    }
}

impl GlobalListener {
    /// The listener with the global bindings of `keybindings`, or with the default
    /// ones where there are none.
    pub fn new(keybindings: Option<&KeyBindings>) -> (r: Self)
        ensures
            r.global_keys == match keybindings {
                Some(k) => k.global,
                None => GlobalKeyBindings::spec_default(),
            },
    {
        GlobalListener {
            global_keys: match keybindings {
                Some(k) => k.global,
                None => GlobalKeyBindings::default(),
            },
        }
    }

    /// The message that `ev` asks for, if it asks for one.
    pub fn on(&self, ev: &Event) -> (r: Option<Msg>)
        ensures
            r == global_reaction(self.global_keys, *ev),
    {
        match ev {
            Event::Keyboard(key_ev) => {
                // Check disconnect
                if key_matches(key_ev, &self.global_keys.disconnect) {
                    return Some(Msg::Ui(UiMsg::ShowDisconnectPopup));
                }
                // Check quit
                if key_matches(key_ev, &self.global_keys.quit) || key_matches(
                    key_ev,
                    &self.global_keys.quit_alt,
                ) {
                    return Some(Msg::Ui(UiMsg::ShowQuitPopup));
                }
                // Check help
                if key_matches(key_ev, &self.global_keys.help) || key_matches(
                    key_ev,
                    &self.global_keys.help_alt,
                ) {
                    return Some(Msg::Ui(UiMsg::ShowKeybindingsPopup));
                }
                None
            },
            Event::WindowResize(_, _) => Some(Msg::Ui(UiMsg::WindowResized)),
            _ => None,
        }
    }
}

} // verus!
