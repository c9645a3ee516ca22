//! Which action a key event asks for.
//!
//! An action is asked for by the key bound to it. Some actions also have keys of their
//! own that no configuration takes away: the arrows move, F5 copies. For those, the
//! modifiers held do not count.

use vstd::prelude::*;
use crate::keybinding::KeyBinding;
use crate::keybindings::{ExplorerKeyBindings, GlobalKeyBindings};
use crate::keys::{Key, KeyEvent};

verus! {

/// Check if a key event matches a keybinding
pub open spec fn spec_key_matches(event: &KeyEvent, binding: &KeyBinding) -> bool {
    event.code == binding.key && event.modifiers == binding.modifiers
}

/// Check if a key event matches a keybinding
#[verifier::when_used_as_spec(spec_key_matches)]
pub fn key_matches(event: &KeyEvent, binding: &KeyBinding) -> (r: bool)
    ensures
        r == spec_key_matches(event, binding),
{
    event.code == binding.key && event.modifiers == binding.modifiers
}

/// Explorer keybinding matcher for file transfer activity
#[derive(Clone, Copy, Debug)]
pub struct ExplorerKeyMatcher<'a> {
    pub explorer: &'a ExplorerKeyBindings,
    pub global: &'a GlobalKeyBindings,
}

impl<'a> ExplorerKeyMatcher<'a> {
    pub fn new(explorer: &'a ExplorerKeyBindings, global: &'a GlobalKeyBindings) -> (r: Self)
        ensures
            r.explorer == explorer,
            r.global == global,
    {
        ExplorerKeyMatcher { explorer, global }
    }

    // Navigation
    /// Whether `ev` moves the selection up.
    pub open spec fn spec_is_move_up(&self, ev: &KeyEvent) -> bool {
        key_matches(ev, &self.explorer.move_up) || ev.code == Key::Up
    }

    /// Whether `ev` moves the selection up.
    #[verifier::when_used_as_spec(spec_is_move_up)]
    pub fn is_move_up(&self, ev: &KeyEvent) -> (r: bool)
        ensures
            r == self.spec_is_move_up(ev),
    {
        key_matches(ev, &self.explorer.move_up) || ev.code == Key::Up
    }

    /// Whether `ev` moves the selection down.
    pub open spec fn spec_is_move_down(&self, ev: &KeyEvent) -> bool {
        key_matches(ev, &self.explorer.move_down) || ev.code == Key::Down
    }

    /// Whether `ev` moves the selection down.
    #[verifier::when_used_as_spec(spec_is_move_down)]
    pub fn is_move_down(&self, ev: &KeyEvent) -> (r: bool)
        ensures
            r == self.spec_is_move_down(ev),
    {
        key_matches(ev, &self.explorer.move_down) || ev.code == Key::Down
    }

    /// Whether `ev` moves the selection up by a page.
    pub open spec fn spec_is_move_up_page(&self, ev: &KeyEvent) -> bool {
        key_matches(ev, &self.explorer.move_up_page) || ev.code == Key::PageUp
    }

    /// Whether `ev` moves the selection up by a page.
    #[verifier::when_used_as_spec(spec_is_move_up_page)]
    pub fn is_move_up_page(&self, ev: &KeyEvent) -> (r: bool)
        ensures
            r == self.spec_is_move_up_page(ev),
    {
        key_matches(ev, &self.explorer.move_up_page) || ev.code == Key::PageUp
    }

    /// Whether `ev` moves the selection down by a page.
    pub open spec fn spec_is_move_down_page(&self, ev: &KeyEvent) -> bool {
        key_matches(ev, &self.explorer.move_down_page) || ev.code == Key::PageDown
    }

    /// Whether `ev` moves the selection down by a page.
    #[verifier::when_used_as_spec(spec_is_move_down_page)]
    pub fn is_move_down_page(&self, ev: &KeyEvent) -> (r: bool)
        ensures
            r == self.spec_is_move_down_page(ev),
    {
        key_matches(ev, &self.explorer.move_down_page) || ev.code == Key::PageDown
    }

    /// Whether `ev` moves the selection to the top.
    pub open spec fn spec_is_move_to_top(&self, ev: &KeyEvent) -> bool {
        key_matches(ev, &self.explorer.move_to_top) || ev.code == Key::Home
    }

    /// Whether `ev` moves the selection to the top.
    #[verifier::when_used_as_spec(spec_is_move_to_top)]
    pub fn is_move_to_top(&self, ev: &KeyEvent) -> (r: bool)
        ensures
            r == self.spec_is_move_to_top(ev),
    {
        key_matches(ev, &self.explorer.move_to_top) || ev.code == Key::Home
    }

    /// Whether `ev` moves the selection to the bottom.
    pub open spec fn spec_is_move_to_bottom(&self, ev: &KeyEvent) -> bool {
        key_matches(ev, &self.explorer.move_to_bottom) || ev.code == Key::End
    }

    /// Whether `ev` moves the selection to the bottom.
    #[verifier::when_used_as_spec(spec_is_move_to_bottom)]
    pub fn is_move_to_bottom(&self, ev: &KeyEvent) -> (r: bool)
        ensures
            r == self.spec_is_move_to_bottom(ev),
    {
        key_matches(ev, &self.explorer.move_to_bottom) || ev.code == Key::End
    }

    /// Whether `ev` goes to the parent directory.
    pub open spec fn spec_is_go_to_parent(&self, ev: &KeyEvent) -> bool {
        key_matches(ev, &self.explorer.go_to_parent)
    }

    /// Whether `ev` goes to the parent directory.
    #[verifier::when_used_as_spec(spec_is_go_to_parent)]
    pub fn is_go_to_parent(&self, ev: &KeyEvent) -> (r: bool)
        ensures
            r == self.spec_is_go_to_parent(ev),
    {
        key_matches(ev, &self.explorer.go_to_parent)
    }

    /// Whether `ev` goes back to the previous directory.
    pub open spec fn spec_is_go_back(&self, ev: &KeyEvent) -> bool {
        key_matches(ev, &self.explorer.go_back) || ev.code == Key::Backspace
    }

    /// Whether `ev` goes back to the previous directory.
    #[verifier::when_used_as_spec(spec_is_go_back)]
    pub fn is_go_back(&self, ev: &KeyEvent) -> (r: bool)
        ensures
            r == self.spec_is_go_back(ev),
    {
        key_matches(ev, &self.explorer.go_back) || ev.code == Key::Backspace
    }

    /// Whether `ev` enters the selected directory.
    pub open spec fn spec_is_enter_dir(&self, ev: &KeyEvent) -> bool {
        key_matches(ev, &self.explorer.enter_dir) || ev.code == Key::Enter
    }

    /// Whether `ev` enters the selected directory.
    #[verifier::when_used_as_spec(spec_is_enter_dir)]
    pub fn is_enter_dir(&self, ev: &KeyEvent) -> (r: bool)
        ensures
            r == self.spec_is_enter_dir(ev),
    {
        key_matches(ev, &self.explorer.enter_dir) || ev.code == Key::Enter
    }

    /// Whether `ev` changes to the other panel.
    pub open spec fn spec_is_change_panel(&self, ev: &KeyEvent) -> bool {
        key_matches(ev, &self.explorer.change_panel)
            || ev.code == Key::Tab
            || ev.code == Key::BackTab
            || ev.code == Key::Left
            || ev.code == Key::Right
    }

    /// Whether `ev` changes to the other panel.
    #[verifier::when_used_as_spec(spec_is_change_panel)]
    pub fn is_change_panel(&self, ev: &KeyEvent) -> (r: bool)
        ensures
            r == self.spec_is_change_panel(ev),
    {
        key_matches(ev, &self.explorer.change_panel)
            || ev.code == Key::Tab
            || ev.code == Key::BackTab
            || ev.code == Key::Left
            || ev.code == Key::Right
    }

    // File operations
    /// Whether `ev` transfers the selected file.
    pub open spec fn spec_is_transfer_file(&self, ev: &KeyEvent) -> bool {
        key_matches(ev, &self.explorer.transfer_file)
    }

    /// Whether `ev` transfers the selected file.
    #[verifier::when_used_as_spec(spec_is_transfer_file)]
    pub fn is_transfer_file(&self, ev: &KeyEvent) -> (r: bool)
        ensures
            r == self.spec_is_transfer_file(ev),
    {
        key_matches(ev, &self.explorer.transfer_file)
    }

    /// Whether `ev` copies the selected file.
    pub open spec fn spec_is_copy_file(&self, ev: &KeyEvent) -> bool {
        key_matches(ev, &self.explorer.copy_file) || ev.code == Key::Function(5)
    }

    /// Whether `ev` copies the selected file.
    #[verifier::when_used_as_spec(spec_is_copy_file)]
    pub fn is_copy_file(&self, ev: &KeyEvent) -> (r: bool)
        ensures
            r == self.spec_is_copy_file(ev),
    {
        key_matches(ev, &self.explorer.copy_file) || ev.code == Key::Function(5)
    }

    /// Whether `ev` renames the selected file.
    pub open spec fn spec_is_rename_file(&self, ev: &KeyEvent) -> bool {
        key_matches(ev, &self.explorer.rename_file) || ev.code == Key::Function(6)
    }

    /// Whether `ev` renames the selected file.
    #[verifier::when_used_as_spec(spec_is_rename_file)]
    pub fn is_rename_file(&self, ev: &KeyEvent) -> (r: bool)
        ensures
            r == self.spec_is_rename_file(ev),
    {
        key_matches(ev, &self.explorer.rename_file) || ev.code == Key::Function(6)
    }

    /// Whether `ev` deletes the selected file.
    pub open spec fn spec_is_delete_file(&self, ev: &KeyEvent) -> bool {
        key_matches(ev, &self.explorer.delete_file)
            || ev.code == Key::Delete
            || ev.code == Key::Function(8)
    }

    /// Whether `ev` deletes the selected file.
    #[verifier::when_used_as_spec(spec_is_delete_file)]
    pub fn is_delete_file(&self, ev: &KeyEvent) -> (r: bool)
        ensures
            r == self.spec_is_delete_file(ev),
    {
        key_matches(ev, &self.explorer.delete_file)
            || ev.code == Key::Delete
            || ev.code == Key::Function(8)
    }

    /// Whether `ev` makes a directory.
    pub open spec fn spec_is_mkdir(&self, ev: &KeyEvent) -> bool {
        key_matches(ev, &self.explorer.mkdir) || ev.code == Key::Function(7)
    }

    /// Whether `ev` makes a directory.
    #[verifier::when_used_as_spec(spec_is_mkdir)]
    pub fn is_mkdir(&self, ev: &KeyEvent) -> (r: bool)
        ensures
            r == self.spec_is_mkdir(ev),
    {
        key_matches(ev, &self.explorer.mkdir) || ev.code == Key::Function(7)
    }

    /// Whether `ev` makes a file.
    pub open spec fn spec_is_new_file(&self, ev: &KeyEvent) -> bool {
        key_matches(ev, &self.explorer.new_file)
    }

    /// Whether `ev` makes a file.
    #[verifier::when_used_as_spec(spec_is_new_file)]
    pub fn is_new_file(&self, ev: &KeyEvent) -> (r: bool)
        ensures
            r == self.spec_is_new_file(ev),
    {
        key_matches(ev, &self.explorer.new_file)
    }

    /// Whether `ev` edits the selected file.
    pub open spec fn spec_is_edit_file(&self, ev: &KeyEvent) -> bool {
        key_matches(ev, &self.explorer.edit_file) || ev.code == Key::Function(4)
    }

    /// Whether `ev` edits the selected file.
    #[verifier::when_used_as_spec(spec_is_edit_file)]
    pub fn is_edit_file(&self, ev: &KeyEvent) -> (r: bool)
        ensures
            r == self.spec_is_edit_file(ev),
    {
        key_matches(ev, &self.explorer.edit_file) || ev.code == Key::Function(4)
    }

    /// Whether `ev` opens the selected file.
    pub open spec fn spec_is_open_file(&self, ev: &KeyEvent) -> bool {
        key_matches(ev, &self.explorer.open_file) || ev.code == Key::Function(3)
    }

    /// Whether `ev` opens the selected file.
    #[verifier::when_used_as_spec(spec_is_open_file)]
    pub fn is_open_file(&self, ev: &KeyEvent) -> (r: bool)
        ensures
            r == self.spec_is_open_file(ev),
    {
        key_matches(ev, &self.explorer.open_file) || ev.code == Key::Function(3)
    }

    /// Whether `ev` opens the selected file with a program to be named.
    pub open spec fn spec_is_open_with(&self, ev: &KeyEvent) -> bool {
        key_matches(ev, &self.explorer.open_with)
    }

    /// Whether `ev` opens the selected file with a program to be named.
    #[verifier::when_used_as_spec(spec_is_open_with)]
    pub fn is_open_with(&self, ev: &KeyEvent) -> (r: bool)
        ensures
            r == self.spec_is_open_with(ev),
    {
        key_matches(ev, &self.explorer.open_with)
    }

    /// Whether `ev` saves the selected file under another name.
    pub open spec fn spec_is_save_as(&self, ev: &KeyEvent) -> bool {
        key_matches(ev, &self.explorer.save_as) || ev.code == Key::Function(2)
    }

    /// Whether `ev` saves the selected file under another name.
    #[verifier::when_used_as_spec(spec_is_save_as)]
    pub fn is_save_as(&self, ev: &KeyEvent) -> (r: bool)
        ensures
            r == self.spec_is_save_as(ev),
    {
        key_matches(ev, &self.explorer.save_as) || ev.code == Key::Function(2)
    }

    /// Whether `ev` changes the mode of the selected file.
    pub open spec fn spec_is_chmod(&self, ev: &KeyEvent) -> bool {
        key_matches(ev, &self.explorer.chmod)
    }

    /// Whether `ev` changes the mode of the selected file.
    #[verifier::when_used_as_spec(spec_is_chmod)]
    pub fn is_chmod(&self, ev: &KeyEvent) -> (r: bool)
        ensures
            r == self.spec_is_chmod(ev),
    {
        key_matches(ev, &self.explorer.chmod)
    }

    /// Whether `ev` makes a symbolic link.
    pub open spec fn spec_is_symlink(&self, ev: &KeyEvent) -> bool {
        key_matches(ev, &self.explorer.symlink)
    }

    /// Whether `ev` makes a symbolic link.
    #[verifier::when_used_as_spec(spec_is_symlink)]
    pub fn is_symlink(&self, ev: &KeyEvent) -> (r: bool)
        ensures
            r == self.spec_is_symlink(ev),
    {
        key_matches(ev, &self.explorer.symlink)
    }

    /// Whether `ev` reloads the directory.
    pub open spec fn spec_is_reload_dir(&self, ev: &KeyEvent) -> bool {
        key_matches(ev, &self.explorer.reload_dir)
    }

    /// Whether `ev` reloads the directory.
    #[verifier::when_used_as_spec(spec_is_reload_dir)]
    pub fn is_reload_dir(&self, ev: &KeyEvent) -> (r: bool)
        ensures
            r == self.spec_is_reload_dir(ev),
    {
        key_matches(ev, &self.explorer.reload_dir)
    }

    // Selection
    /// Whether `ev` marks the selected file.
    pub open spec fn spec_is_mark_file(&self, ev: &KeyEvent) -> bool {
        key_matches(ev, &self.explorer.mark_file)
    }

    /// Whether `ev` marks the selected file.
    #[verifier::when_used_as_spec(spec_is_mark_file)]
    pub fn is_mark_file(&self, ev: &KeyEvent) -> (r: bool)
        ensures
            r == self.spec_is_mark_file(ev),
    {
        key_matches(ev, &self.explorer.mark_file)
    }

    /// Whether `ev` marks all files.
    pub open spec fn spec_is_mark_all(&self, ev: &KeyEvent) -> bool {
        key_matches(ev, &self.explorer.mark_all)
    }

    /// Whether `ev` marks all files.
    #[verifier::when_used_as_spec(spec_is_mark_all)]
    pub fn is_mark_all(&self, ev: &KeyEvent) -> (r: bool)
        ensures
            r == self.spec_is_mark_all(ev),
    {
        key_matches(ev, &self.explorer.mark_all)
    }

    /// Whether `ev` clears all marks.
    pub open spec fn spec_is_unmark_all(&self, ev: &KeyEvent) -> bool {
        key_matches(ev, &self.explorer.unmark_all)
    }

    /// Whether `ev` clears all marks.
    #[verifier::when_used_as_spec(spec_is_unmark_all)]
    pub fn is_unmark_all(&self, ev: &KeyEvent) -> (r: bool)
        ensures
            r == self.spec_is_unmark_all(ev),
    {
        key_matches(ev, &self.explorer.unmark_all)
    }

    // View
    /// Whether `ev` shows or hides hidden files.
    pub open spec fn spec_is_toggle_hidden(&self, ev: &KeyEvent) -> bool {
        key_matches(ev, &self.explorer.toggle_hidden)
    }

    /// Whether `ev` shows or hides hidden files.
    #[verifier::when_used_as_spec(spec_is_toggle_hidden)]
    pub fn is_toggle_hidden(&self, ev: &KeyEvent) -> (r: bool)
        ensures
            r == self.spec_is_toggle_hidden(ev),
    {
        key_matches(ev, &self.explorer.toggle_hidden)
    }

    /// Whether `ev` shows what is known of the selected file.
    pub open spec fn spec_is_file_info(&self, ev: &KeyEvent) -> bool {
        key_matches(ev, &self.explorer.file_info)
    }

    /// Whether `ev` shows what is known of the selected file.
    #[verifier::when_used_as_spec(spec_is_file_info)]
    pub fn is_file_info(&self, ev: &KeyEvent) -> (r: bool)
        ensures
            r == self.spec_is_file_info(ev),
    {
        key_matches(ev, &self.explorer.file_info)
    }

    /// Whether `ev` asks for the size of the selected file.
    pub open spec fn spec_is_file_size(&self, ev: &KeyEvent) -> bool {
        key_matches(ev, &self.explorer.file_size)
    }

    /// Whether `ev` asks for the size of the selected file.
    #[verifier::when_used_as_spec(spec_is_file_size)]
    pub fn is_file_size(&self, ev: &KeyEvent) -> (r: bool)
        ensures
            r == self.spec_is_file_size(ev),
    {
        key_matches(ev, &self.explorer.file_size)
    }

    /// Whether `ev` chooses how files are sorted.
    pub open spec fn spec_is_sorting(&self, ev: &KeyEvent) -> bool {
        key_matches(ev, &self.explorer.sorting)
    }

    /// Whether `ev` chooses how files are sorted.
    #[verifier::when_used_as_spec(spec_is_sorting)]
    pub fn is_sorting(&self, ev: &KeyEvent) -> (r: bool)
        ensures
            r == self.spec_is_sorting(ev),
    {
        key_matches(ev, &self.explorer.sorting)
    }

    /// Whether `ev` filters the files.
    pub open spec fn spec_is_filter(&self, ev: &KeyEvent) -> bool {
        key_matches(ev, &self.explorer.filter)
    }

    /// Whether `ev` filters the files.
    #[verifier::when_used_as_spec(spec_is_filter)]
    pub fn is_filter(&self, ev: &KeyEvent) -> (r: bool)
        ensures
            r == self.spec_is_filter(ev),
    {
        key_matches(ev, &self.explorer.filter)
    }

    // Search
    /// Whether `ev` starts a fuzzy search.
    pub open spec fn spec_is_fuzzy_search(&self, ev: &KeyEvent) -> bool {
        key_matches(ev, &self.explorer.fuzzy_search)
    }

    /// Whether `ev` starts a fuzzy search.
    #[verifier::when_used_as_spec(spec_is_fuzzy_search)]
    pub fn is_fuzzy_search(&self, ev: &KeyEvent) -> (r: bool)
        ensures
            r == self.spec_is_fuzzy_search(ev),
    {
        key_matches(ev, &self.explorer.fuzzy_search)
    }

    /// Whether `ev` goes to a path to be named.
    pub open spec fn spec_is_goto_path(&self, ev: &KeyEvent) -> bool {
        key_matches(ev, &self.explorer.goto_path)
    }

    /// Whether `ev` goes to a path to be named.
    #[verifier::when_used_as_spec(spec_is_goto_path)]
    pub fn is_goto_path(&self, ev: &KeyEvent) -> (r: bool)
        ensures
            r == self.spec_is_goto_path(ev),
    {
        key_matches(ev, &self.explorer.goto_path)
    }

    // Misc
    /// Whether `ev` opens the terminal.
    pub open spec fn spec_is_terminal(&self, ev: &KeyEvent) -> bool {
        key_matches(ev, &self.explorer.terminal)
    }

    /// Whether `ev` opens the terminal.
    #[verifier::when_used_as_spec(spec_is_terminal)]
    pub fn is_terminal(&self, ev: &KeyEvent) -> (r: bool)
        ensures
            r == self.spec_is_terminal(ev),
    {
        key_matches(ev, &self.explorer.terminal)
    }

    /// Whether `ev` turns synchronized browsing on or off.
    pub open spec fn spec_is_sync_browsing(&self, ev: &KeyEvent) -> bool {
        key_matches(ev, &self.explorer.sync_browsing)
    }

    /// Whether `ev` turns synchronized browsing on or off.
    #[verifier::when_used_as_spec(spec_is_sync_browsing)]
    pub fn is_sync_browsing(&self, ev: &KeyEvent) -> (r: bool)
        ensures
            r == self.spec_is_sync_browsing(ev),
    {
        key_matches(ev, &self.explorer.sync_browsing)
    }

    /// Whether `ev` watches the selected file.
    pub open spec fn spec_is_watcher(&self, ev: &KeyEvent) -> bool {
        key_matches(ev, &self.explorer.watcher)
    }

    /// Whether `ev` watches the selected file.
    #[verifier::when_used_as_spec(spec_is_watcher)]
    pub fn is_watcher(&self, ev: &KeyEvent) -> (r: bool)
        ensures
            r == self.spec_is_watcher(ev),
    {
        key_matches(ev, &self.explorer.watcher)
    }

    /// Whether `ev` lists the watched paths.
    pub open spec fn spec_is_watched_paths(&self, ev: &KeyEvent) -> bool {
        key_matches(ev, &self.explorer.watched_paths)
    }

    /// Whether `ev` lists the watched paths.
    #[verifier::when_used_as_spec(spec_is_watched_paths)]
    pub fn is_watched_paths(&self, ev: &KeyEvent) -> (r: bool)
        ensures
            r == self.spec_is_watched_paths(ev),
    {
        key_matches(ev, &self.explorer.watched_paths)
    }

    /// Whether `ev` shows the transfers that wait.
    pub open spec fn spec_is_pending_queue(&self, ev: &KeyEvent) -> bool {
        key_matches(ev, &self.explorer.pending_queue)
    }

    /// Whether `ev` shows the transfers that wait.
    #[verifier::when_used_as_spec(spec_is_pending_queue)]
    pub fn is_pending_queue(&self, ev: &KeyEvent) -> (r: bool)
        ensures
            r == self.spec_is_pending_queue(ev),
    {
        key_matches(ev, &self.explorer.pending_queue)
    }

    // Global
    /// Whether `ev` disconnects.
    pub open spec fn spec_is_disconnect(&self, ev: &KeyEvent) -> bool {
        key_matches(ev, &self.global.disconnect)
    }

    /// Whether `ev` disconnects.
    #[verifier::when_used_as_spec(spec_is_disconnect)]
    pub fn is_disconnect(&self, ev: &KeyEvent) -> (r: bool)
        ensures
            r == self.spec_is_disconnect(ev),
    {
        key_matches(ev, &self.global.disconnect)
    }
}

} // verus!
