//! What the components do about events.

use termscp_core::auth;
use termscp_core::filetransfer::{
    mark_toggled, Cmd, Direction, ExplorerFind, ExplorerFuzzy, ExplorerLocal, ExplorerRemote,
    Focus, GlobalListener, Msg, Position, Reaction, TransferMsg, UiMsg,
};
use termscp_core::keybinding::KeyBinding;
use termscp_core::keybindings::{
    AuthKeyBindings, ExplorerKeyBindings, GlobalKeyBindings, KeyBindings, SetupKeyBindings,
};
use termscp_core::keys::{Event, Key, KeyEvent, KeyModifiers};
use termscp_core::setup;

fn key(code: Key) -> Event {
    Event::Keyboard(KeyEvent::new(code, KeyModifiers::none()))
}

fn ch(c: char) -> Event {
    key(Key::Char(c))
}

fn ctrl(c: char) -> Event {
    Event::Keyboard(KeyEvent::new(Key::Char(c), KeyModifiers::control()))
}

fn alt(c: char) -> Event {
    Event::Keyboard(KeyEvent::new(Key::Char(c), KeyModifiers::alt()))
}

fn perform(cmd: Cmd) -> Option<Reaction> {
    Some(Reaction::Perform(cmd))
}

fn ui(msg: UiMsg) -> Option<Reaction> {
    Some(Reaction::Send(Msg::Ui(msg)))
}

fn transfer(msg: TransferMsg) -> Option<Reaction> {
    Some(Reaction::Send(Msg::Transfer(msg)))
}

#[test]
fn components_take_the_given_bindings_or_the_default_ones() {
    let vim = KeyBindings::vim_style();
    let local = ExplorerLocal::new(Some(&vim));
    assert_eq!(local.explorer_keys, vim.explorer);
    assert_eq!(local.global_keys, vim.global);
    let local = ExplorerLocal::new(None);
    assert_eq!(local.explorer_keys, ExplorerKeyBindings::default());
    assert_eq!(local.global_keys, GlobalKeyBindings::default());
    assert_eq!(ExplorerRemote::new(Some(&vim)).explorer_keys, vim.explorer);
    assert_eq!(ExplorerRemote::new(None).global_keys, GlobalKeyBindings::default());
    assert_eq!(ExplorerFind::new(Some(&vim)).global_keys, vim.global);
    assert_eq!(ExplorerFind::new(None).explorer_keys, ExplorerKeyBindings::default());
    assert_eq!(ExplorerFuzzy::new(Some(&vim)).explorer_keys, vim.explorer);
    assert_eq!(ExplorerFuzzy::new(None).explorer_keys, ExplorerKeyBindings::default());
    let matcher = local.matcher();
    assert_eq!(matcher.explorer, &local.explorer_keys);
    assert_eq!(matcher.global, &local.global_keys);

    assert_eq!(GlobalListener::new(Some(&vim)).global_keys, vim.global);
    assert_eq!(GlobalListener::new(None).global_keys, GlobalKeyBindings::default());
    assert_eq!(GlobalListener::default().global_keys, GlobalKeyBindings::default());
    assert_eq!(auth::GlobalListener::new(Some(&vim)).auth_keys, vim.auth);
    assert_eq!(auth::GlobalListener::new(None).auth_keys, AuthKeyBindings::default());
    assert_eq!(auth::GlobalListener::default().auth_keys, AuthKeyBindings::default());
    assert_eq!(setup::GlobalListener::new(Some(&vim)).setup_keys, vim.setup);
    assert_eq!(setup::GlobalListener::new(None).setup_keys, SetupKeyBindings::default());
    assert_eq!(setup::GlobalListener::default().setup_keys, SetupKeyBindings::default());
}

#[test]
fn explorer_reacts_to_every_default_key() {
    let local = ExplorerLocal::new(None);
    let remote = ExplorerRemote::new(None);
    let expected = [
        (key(Key::Down), perform(Cmd::Move(Direction::Down))),
        (key(Key::Up), perform(Cmd::Move(Direction::Up))),
        (key(Key::PageDown), perform(Cmd::Scroll(Direction::Down))),
        (key(Key::PageUp), perform(Cmd::Scroll(Direction::Up))),
        (key(Key::Home), perform(Cmd::GoTo(Position::Begin))),
        (key(Key::End), perform(Cmd::GoTo(Position::End))),
        (
            ctrl('a'),
            Some(Reaction::PerformAndSend(Cmd::SelectAll, Msg::Ui(UiMsg::MarkAll))),
        ),
        (
            alt('a'),
            Some(Reaction::PerformAndSend(Cmd::DeselectAll, Msg::Ui(UiMsg::MarkClear))),
        ),
        (ch('m'), Some(Reaction::ToggleMark)),
        (key(Key::Esc), ui(UiMsg::ShowDisconnectPopup)),
        (key(Key::Tab), ui(UiMsg::ChangeTransferWindow)),
        (key(Key::BackTab), ui(UiMsg::ChangeTransferWindow)),
        (key(Key::Left), ui(UiMsg::ChangeTransferWindow)),
        (key(Key::Right), ui(UiMsg::ChangeTransferWindow)),
        (key(Key::Backspace), transfer(TransferMsg::GoToPreviousDirectory)),
        (key(Key::Enter), transfer(TransferMsg::EnterDirectory)),
        (ch(' '), transfer(TransferMsg::TransferFile)),
        (ch('a'), ui(UiMsg::ToggleHiddenFiles)),
        (ch('b'), ui(UiMsg::ShowFileSortingPopup)),
        (ch('c'), ui(UiMsg::ShowCopyPopup)),
        (key(Key::Function(5)), ui(UiMsg::ShowCopyPopup)),
        (ch('d'), ui(UiMsg::ShowMkdirPopup)),
        (key(Key::Function(7)), ui(UiMsg::ShowMkdirPopup)),
        (ch('e'), ui(UiMsg::ShowDeletePopup)),
        (key(Key::Delete), ui(UiMsg::ShowDeletePopup)),
        (key(Key::Function(8)), ui(UiMsg::ShowDeletePopup)),
        (ch('f'), transfer(TransferMsg::InitFuzzySearch)),
        (ch('g'), ui(UiMsg::ShowGotoPopup)),
        (ch('i'), ui(UiMsg::ShowFileInfoPopup)),
        (ch('k'), ui(UiMsg::ShowSymlinkPopup)),
        (ch('l'), transfer(TransferMsg::ReloadDir)),
        (ch('n'), ui(UiMsg::ShowNewFilePopup)),
        (ch('o'), transfer(TransferMsg::OpenTextFile)),
        (key(Key::Function(4)), transfer(TransferMsg::OpenTextFile)),
        (ch('p'), ui(UiMsg::GoToTransferQueue)),
        (ch('r'), ui(UiMsg::ShowRenamePopup)),
        (key(Key::Function(6)), ui(UiMsg::ShowRenamePopup)),
        (ctrl('s'), transfer(TransferMsg::GetFileSize)),
        (ch('s'), ui(UiMsg::ShowSaveAsPopup)),
        (key(Key::Function(2)), ui(UiMsg::ShowSaveAsPopup)),
        (ch('t'), ui(UiMsg::ShowWatcherPopup)),
        (ctrl('t'), ui(UiMsg::ShowWatchedPathsList)),
        (ch('u'), transfer(TransferMsg::GoToParentDirectory)),
        (ch('x'), ui(UiMsg::ShowTerminal)),
        (ch('y'), ui(UiMsg::ToggleSyncBrowsing)),
        (ch('v'), transfer(TransferMsg::OpenFile)),
        (key(Key::Function(3)), transfer(TransferMsg::OpenFile)),
        (ch('w'), ui(UiMsg::ShowOpenWithPopup)),
        (ch('z'), ui(UiMsg::ShowChmodPopup)),
        (ch('/'), ui(UiMsg::ShowFilterPopup)),
        (ch('q'), None),
        (ch('h'), None),
        (key(Key::Function(1)), None),
        (key(Key::Function(10)), None),
        (key(Key::Insert), None),
        (ctrl('x'), None),
    ];
    for (ev, reaction) in expected {
        assert_eq!(local.on(&ev, false), reaction, "{ev:?}");
        assert_eq!(remote.on(&ev, false), reaction, "{ev:?}");
    }
}

#[test]
fn explorer_on_the_parent_entry_goes_up_and_transfers_nothing() {
    for keybindings in [KeyBindings::default(), KeyBindings::vim_style()] {
        let local = ExplorerLocal::new(Some(&keybindings));
        let enter = Event::Keyboard(KeyEvent::new(
            keybindings.explorer.enter_dir.key,
            keybindings.explorer.enter_dir.modifiers,
        ));
        let send = Event::Keyboard(KeyEvent::new(
            keybindings.explorer.transfer_file.key,
            keybindings.explorer.transfer_file.modifiers,
        ));
        assert_eq!(local.on(&enter, false), transfer(TransferMsg::EnterDirectory));
        assert_eq!(local.on(&enter, true), transfer(TransferMsg::GoToParentDirectory));
        assert_eq!(local.on(&key(Key::Enter), true), transfer(TransferMsg::GoToParentDirectory));
        assert_eq!(local.on(&send, false), transfer(TransferMsg::TransferFile));
        assert_eq!(local.on(&send, true), Some(Reaction::Send(Msg::Nothing)));
        // Nothing else depends on what is selected.
        assert_eq!(local.on(&key(Key::Down), true), perform(Cmd::Move(Direction::Down)));
        assert_eq!(local.on(&key(Key::Esc), true), ui(UiMsg::ShowDisconnectPopup));
    }
}

#[test]
fn explorer_goes_by_the_first_rule_where_bindings_meet() {
    // In the vim style `p` transfers and shows the queue: transferring comes first.
    let vim = KeyBindings::vim_style();
    let local = ExplorerLocal::new(Some(&vim));
    assert_eq!(local.on(&ch('p'), false), transfer(TransferMsg::TransferFile));
    assert_eq!(local.on(&ch('d'), false), ui(UiMsg::ShowDeletePopup));
    assert_eq!(local.on(&ctrl('d'), false), perform(Cmd::Scroll(Direction::Down)));
    assert_eq!(local.on(&ch('u'), false), Some(Reaction::PerformAndSend(Cmd::DeselectAll, Msg::Ui(UiMsg::MarkClear))));
    assert_eq!(local.on(&ch('h'), false), transfer(TransferMsg::GoToParentDirectory));
    assert_eq!(local.on(&ch(' '), false), Some(Reaction::ToggleMark));

    // A key bound to moving down and to everything else moves down.
    let mut all = KeyBindings::default();
    all.explorer.move_down = KeyBinding::simple(Key::Char('x'));
    all.explorer.move_up = KeyBinding::simple(Key::Char('x'));
    all.explorer.mark_all = KeyBinding::simple(Key::Char('x'));
    all.explorer.filter = KeyBinding::simple(Key::Char('x'));
    all.global.disconnect = KeyBinding::simple(Key::Char('x'));
    let local = ExplorerLocal::new(Some(&all));
    assert_eq!(local.on(&ch('x'), false), perform(Cmd::Move(Direction::Down)));
    // The arrows keep moving whatever they are bound to, and before anything else.
    all.explorer.filter = KeyBinding::simple(Key::Up);
    let local = ExplorerLocal::new(Some(&all));
    assert_eq!(local.on(&key(Key::Up), false), perform(Cmd::Move(Direction::Up)));
    // Marking comes before disconnecting.
    let mut marks = KeyBindings::default();
    marks.explorer.mark_file = KeyBinding::simple(Key::Esc);
    assert_eq!(
        ExplorerRemote::new(Some(&marks)).on(&key(Key::Esc), false),
        Some(Reaction::ToggleMark)
    );
}

#[test]
fn components_react_to_keys_only() {
    let events = [Event::WindowResize(80, 24), Event::Other];
    for ev in events {
        assert_eq!(ExplorerLocal::new(None).on(&ev, false), None);
        assert_eq!(ExplorerRemote::new(None).on(&ev, true), None);
        assert_eq!(ExplorerFind::new(None).on(&ev), None);
        assert_eq!(ExplorerFuzzy::new(None).on(Focus::List, &ev), None);
        assert_eq!(ExplorerFuzzy::new(None).on(Focus::Search, &ev), None);
        assert_eq!(ExplorerFuzzy::new(None).on_file_list(&ev), None);
        assert_eq!(ExplorerFuzzy::new(None).on_search(&ev), None);
    }
}

#[test]
fn find_list_reacts_to_every_default_key() {
    let find = ExplorerFind::new(None);
    let expected = [
        (key(Key::Down), perform(Cmd::Move(Direction::Down))),
        (key(Key::Up), perform(Cmd::Move(Direction::Up))),
        (key(Key::PageDown), perform(Cmd::Scroll(Direction::Down))),
        (key(Key::PageUp), perform(Cmd::Scroll(Direction::Up))),
        (key(Key::Home), perform(Cmd::GoTo(Position::Begin))),
        (key(Key::End), perform(Cmd::GoTo(Position::End))),
        (
            ctrl('a'),
            Some(Reaction::PerformAndSend(Cmd::SelectAll, Msg::Ui(UiMsg::MarkAll))),
        ),
        (
            alt('a'),
            Some(Reaction::PerformAndSend(Cmd::DeselectAll, Msg::Ui(UiMsg::MarkClear))),
        ),
        (ch('m'), Some(Reaction::ToggleMark)),
        (key(Key::Esc), ui(UiMsg::CloseFindExplorer)),
        (key(Key::Tab), ui(UiMsg::ChangeTransferWindow)),
        (key(Key::Left), ui(UiMsg::ChangeTransferWindow)),
        (key(Key::Enter), transfer(TransferMsg::EnterDirectory)),
        (ch(' '), transfer(TransferMsg::TransferFile)),
        (key(Key::Backspace), transfer(TransferMsg::GoToPreviousDirectory)),
        (ch('a'), ui(UiMsg::ToggleHiddenFiles)),
        (ch('b'), ui(UiMsg::ShowFileSortingPopup)),
        (ch('e'), ui(UiMsg::ShowDeletePopup)),
        (ch('i'), ui(UiMsg::ShowFileInfoPopup)),
        (ctrl('s'), transfer(TransferMsg::GetFileSize)),
        (ch('s'), ui(UiMsg::ShowSaveAsPopup)),
        (ch('v'), transfer(TransferMsg::OpenFile)),
        (ch('w'), ui(UiMsg::ShowOpenWithPopup)),
        (ch('z'), ui(UiMsg::ShowChmodPopup)),
        // What the explorer panels do besides is not for a list of files found.
        (ch('c'), None),
        (ch('d'), None),
        (ch('f'), None),
        (ch('g'), None),
        (ch('r'), None),
        (ch('u'), None),
        (ch('/'), None),
    ];
    for (ev, reaction) in expected {
        assert_eq!(find.on(&ev), reaction, "{ev:?}");
    }
}

#[test]
fn fuzzy_list_reacts_to_every_default_key() {
    let fuzzy = ExplorerFuzzy::new(None);
    let expected = [
        (key(Key::Down), perform(Cmd::Move(Direction::Down))),
        (key(Key::Up), perform(Cmd::Move(Direction::Up))),
        (key(Key::PageDown), perform(Cmd::Scroll(Direction::Down))),
        (key(Key::PageUp), perform(Cmd::Scroll(Direction::Up))),
        (key(Key::Home), perform(Cmd::GoTo(Position::Begin))),
        (key(Key::End), perform(Cmd::GoTo(Position::End))),
        (
            ctrl('a'),
            Some(Reaction::PerformAndSend(Cmd::SelectAll, Msg::Ui(UiMsg::MarkAll))),
        ),
        (
            alt('a'),
            Some(Reaction::PerformAndSend(Cmd::DeselectAll, Msg::Ui(UiMsg::MarkClear))),
        ),
        (ch('m'), Some(Reaction::ToggleMark)),
        (key(Key::Tab), perform(Cmd::Change)),
        (key(Key::Esc), ui(UiMsg::CloseFindExplorer)),
        (key(Key::Left), ui(UiMsg::ChangeTransferWindow)),
        (key(Key::Right), ui(UiMsg::ChangeTransferWindow)),
        (key(Key::Enter), transfer(TransferMsg::EnterDirectory)),
        (ch(' '), transfer(TransferMsg::TransferFile)),
        (key(Key::Backspace), transfer(TransferMsg::GoToPreviousDirectory)),
        (ch('a'), ui(UiMsg::ToggleHiddenFiles)),
        (ch('b'), ui(UiMsg::ShowFileSortingPopup)),
        (ch('e'), ui(UiMsg::ShowDeletePopup)),
        (ch('i'), ui(UiMsg::ShowFileInfoPopup)),
        (ctrl('s'), transfer(TransferMsg::GetFileSize)),
        (ch('s'), ui(UiMsg::ShowSaveAsPopup)),
        (ch('v'), transfer(TransferMsg::OpenFile)),
        (ch('w'), ui(UiMsg::ShowOpenWithPopup)),
        (ch('z'), ui(UiMsg::ShowChmodPopup)),
        (key(Key::BackTab), None),
        (ch('c'), None),
    ];
    for (ev, reaction) in expected {
        assert_eq!(fuzzy.on_file_list(&ev), reaction, "{ev:?}");
        assert_eq!(fuzzy.on(Focus::List, &ev), reaction, "{ev:?}");
    }
}

#[test]
fn fuzzy_search_field_takes_what_is_typed() {
    let fuzzy = ExplorerFuzzy::new(Some(&KeyBindings::vim_style()));
    let shifted = |code: Key| Event::Keyboard(KeyEvent::new(code, KeyModifiers::shift()));
    let expected = [
        (key(Key::Left), perform(Cmd::Move(Direction::Left))),
        (key(Key::Right), perform(Cmd::Move(Direction::Right))),
        (key(Key::Home), perform(Cmd::GoTo(Position::Begin))),
        (key(Key::End), perform(Cmd::GoTo(Position::End))),
        (key(Key::Delete), perform(Cmd::Cancel)),
        (key(Key::Backspace), perform(Cmd::Delete)),
        (key(Key::Tab), perform(Cmd::Change)),
        (key(Key::Up), perform(Cmd::Change)),
        (key(Key::Down), perform(Cmd::Change)),
        (ch('k'), Some(Reaction::TypeSearch('k'))),
        (ch(' '), Some(Reaction::TypeSearch(' '))),
        (ctrl('a'), Some(Reaction::TypeSearch('a'))),
        (shifted(Key::Char('A')), Some(Reaction::TypeSearch('A'))),
        (shifted(Key::Left), perform(Cmd::Move(Direction::Left))),
        (key(Key::Esc), ui(UiMsg::CloseFindExplorer)),
        (key(Key::Enter), None),
        (key(Key::PageUp), None),
        (key(Key::Function(1)), None),
        (key(Key::BackTab), None),
    ];
    for (ev, reaction) in expected {
        assert_eq!(fuzzy.on_search(&ev), reaction, "{ev:?}");
        assert_eq!(fuzzy.on(Focus::Search, &ev), reaction, "{ev:?}");
    }
}

#[test]
fn toggled_mark_is_reported_where_the_list_tells_which() {
    assert_eq!(mark_toggled(Some(7)), Msg::Ui(UiMsg::MarkFile(7)));
    assert_eq!(mark_toggled(Some(0)), Msg::Ui(UiMsg::MarkFile(0)));
    assert_eq!(mark_toggled(None), Msg::Nothing);
}

#[test]
fn file_transfer_screen_listens_for_disconnect_quit_and_help() {
    let listener = GlobalListener::default();
    assert_eq!(listener.on(&key(Key::Esc)), Some(Msg::Ui(UiMsg::ShowDisconnectPopup)));
    assert_eq!(listener.on(&ch('q')), Some(Msg::Ui(UiMsg::ShowQuitPopup)));
    assert_eq!(listener.on(&key(Key::Function(10))), Some(Msg::Ui(UiMsg::ShowQuitPopup)));
    assert_eq!(listener.on(&ch('h')), Some(Msg::Ui(UiMsg::ShowKeybindingsPopup)));
    assert_eq!(listener.on(&key(Key::Function(1))), Some(Msg::Ui(UiMsg::ShowKeybindingsPopup)));
    assert_eq!(listener.on(&Event::WindowResize(120, 40)), Some(Msg::Ui(UiMsg::WindowResized)));
    assert_eq!(listener.on(&ch('x')), None);
    assert_eq!(listener.on(&ctrl('q')), None);
    assert_eq!(listener.on(&Event::Other), None);

    let vim = GlobalListener::new(Some(&KeyBindings::vim_style()));
    assert_eq!(vim.on(&ch('Q')), Some(Msg::Ui(UiMsg::ShowQuitPopup)));
    assert_eq!(vim.on(&ch('?')), Some(Msg::Ui(UiMsg::ShowKeybindingsPopup)));
    assert_eq!(vim.on(&ch('h')), None);

    // Disconnecting comes before quitting, and quitting before help.
    let mut keys = KeyBindings::default();
    keys.global.quit = KeyBinding::simple(Key::Esc);
    keys.global.help = KeyBinding::simple(Key::Function(10));
    let listener = GlobalListener::new(Some(&keys));
    assert_eq!(listener.on(&key(Key::Esc)), Some(Msg::Ui(UiMsg::ShowDisconnectPopup)));
    assert_eq!(listener.on(&key(Key::Function(10))), Some(Msg::Ui(UiMsg::ShowQuitPopup)));
}

#[test]
fn authentication_screen_listens_for_its_keys() {
    let listener = auth::GlobalListener::default();
    assert_eq!(listener.on(&key(Key::Esc)), Some(auth::Msg::Ui(auth::UiMsg::ShowQuitPopup)));
    assert_eq!(listener.on(&key(Key::Function(10))), Some(auth::Msg::Ui(auth::UiMsg::ShowQuitPopup)));
    assert_eq!(listener.on(&ctrl('c')), Some(auth::Msg::Form(auth::FormMsg::EnterSetup)));
    assert_eq!(listener.on(&ctrl('h')), Some(auth::Msg::Ui(auth::UiMsg::ShowKeybindingsPopup)));
    assert_eq!(listener.on(&key(Key::Function(1))), Some(auth::Msg::Ui(auth::UiMsg::ShowKeybindingsPopup)));
    assert_eq!(listener.on(&ctrl('r')), Some(auth::Msg::Ui(auth::UiMsg::ShowReleaseNotes)));
    assert_eq!(listener.on(&ctrl('s')), Some(auth::Msg::Ui(auth::UiMsg::ShowSaveBookmarkPopup)));
    assert_eq!(listener.on(&Event::WindowResize(80, 24)), Some(auth::Msg::Ui(auth::UiMsg::WindowResized)));
    assert_eq!(listener.on(&ch('c')), None);
    assert_eq!(listener.on(&ch('q')), None);
    assert_eq!(listener.on(&Event::Other), None);

    let vim = auth::GlobalListener::new(Some(&KeyBindings::vim_style()));
    assert_eq!(vim.on(&ctrl('q')), Some(auth::Msg::Ui(auth::UiMsg::ShowQuitPopup)));
    assert_eq!(vim.on(&ch('?')), Some(auth::Msg::Ui(auth::UiMsg::ShowKeybindingsPopup)));
    assert_eq!(vim.on(&ctrl('n')), Some(auth::Msg::Ui(auth::UiMsg::ShowReleaseNotes)));
    assert_eq!(vim.on(&ctrl('r')), None);

    // The order: quit, setup, help, release notes, save bookmark.
    let same = KeyBinding::simple(Key::Char('x'));
    let mut keys = KeyBindings::default();
    keys.auth.save_bookmark = same;
    keys.auth.release_notes = same;
    assert_eq!(
        auth::GlobalListener::new(Some(&keys)).on(&ch('x')),
        Some(auth::Msg::Ui(auth::UiMsg::ShowReleaseNotes))
    );
    keys.auth.help_alt = same;
    assert_eq!(
        auth::GlobalListener::new(Some(&keys)).on(&ch('x')),
        Some(auth::Msg::Ui(auth::UiMsg::ShowKeybindingsPopup))
    );
    keys.auth.setup = same;
    assert_eq!(
        auth::GlobalListener::new(Some(&keys)).on(&ch('x')),
        Some(auth::Msg::Form(auth::FormMsg::EnterSetup))
    );
    keys.auth.quit_alt = same;
    assert_eq!(
        auth::GlobalListener::new(Some(&keys)).on(&ch('x')),
        Some(auth::Msg::Ui(auth::UiMsg::ShowQuitPopup))
    );
}

#[test]
fn setup_screen_listens_for_its_keys() {
    let listener = setup::GlobalListener::default();
    assert_eq!(listener.on(&key(Key::Esc)), Some(setup::Msg::Common(setup::CommonMsg::ShowQuitPopup)));
    assert_eq!(listener.on(&key(Key::Function(10))), Some(setup::Msg::Common(setup::CommonMsg::ShowQuitPopup)));
    assert_eq!(listener.on(&key(Key::Tab)), Some(setup::Msg::Common(setup::CommonMsg::ChangeLayout)));
    assert_eq!(listener.on(&ctrl('h')), Some(setup::Msg::Common(setup::CommonMsg::ShowKeybindings)));
    assert_eq!(listener.on(&key(Key::Function(1))), Some(setup::Msg::Common(setup::CommonMsg::ShowKeybindings)));
    assert_eq!(listener.on(&ctrl('r')), Some(setup::Msg::Common(setup::CommonMsg::RevertChanges)));
    assert_eq!(listener.on(&ctrl('s')), Some(setup::Msg::Common(setup::CommonMsg::ShowSavePopup)));
    assert_eq!(listener.on(&key(Key::Function(4))), Some(setup::Msg::Common(setup::CommonMsg::ShowSavePopup)));
    assert_eq!(
        listener.on(&Event::WindowResize(80, 24)),
        Some(setup::Msg::Common(setup::CommonMsg::WindowResized))
    );
    assert_eq!(listener.on(&ch('s')), None);
    assert_eq!(listener.on(&key(Key::BackTab)), None);
    assert_eq!(listener.on(&Event::Other), None);

    let vim = setup::GlobalListener::new(Some(&KeyBindings::vim_style()));
    assert_eq!(vim.on(&ctrl('q')), Some(setup::Msg::Common(setup::CommonMsg::ShowQuitPopup)));
    assert_eq!(vim.on(&ctrl('w')), Some(setup::Msg::Common(setup::CommonMsg::ShowSavePopup)));
    assert_eq!(vim.on(&key(Key::Function(4))), None);

    // The order: quit, change tab, help, revert, save.
    let same = KeyBinding::simple(Key::Char('x'));
    let mut keys = KeyBindings::default();
    keys.setup.save = same;
    keys.setup.revert = same;
    assert_eq!(
        setup::GlobalListener::new(Some(&keys)).on(&ch('x')),
        Some(setup::Msg::Common(setup::CommonMsg::RevertChanges))
    );
    keys.setup.help = same;
    assert_eq!(
        setup::GlobalListener::new(Some(&keys)).on(&ch('x')),
        Some(setup::Msg::Common(setup::CommonMsg::ShowKeybindings))
    );
    keys.setup.change_tab = same;
    assert_eq!(
        setup::GlobalListener::new(Some(&keys)).on(&ch('x')),
        Some(setup::Msg::Common(setup::CommonMsg::ChangeLayout))
    );
    keys.setup.quit = same;
    assert_eq!(
        setup::GlobalListener::new(Some(&keys)).on(&ch('x')),
        Some(setup::Msg::Common(setup::CommonMsg::ShowQuitPopup))
    );
}
