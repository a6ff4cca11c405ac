use xplorer::command_palette::{all_commands, filtered_commands, fuzzy_match, CommandPaletteState, PaletteAction};
use xplorer::commands::{cycle_tab, may_close_tab, next_pane, palette_command, sidebar_command, viewer_command, AppCommand, SidebarAction, ViewerAction};
use xplorer::context_menu::{
    begin_new_item, begin_rename_at, empty_area_menu, favorite_name, file_action_label, file_menu, open_target, terminal_dir,
    EmptyAreaAction, FileContextAction, OpenTarget,
};
use xplorer::shortcuts::{key_down, process_keyboard_shortcuts, FrameInput, Key, Modifiers, ShortcutOverlayState};
use xplorer::state::{NewItemMode, Tab};
use xplorer::tab_bar::{truncate_tab_name, TabAction};
use xplorer::types::FileEntry;

fn frame(keys: Vec<Key>, ctrl: bool, shift: bool, alt: bool, text_focused: bool) -> FrameInput {
    FrameInput { pressed: keys, modifiers: Modifiers { ctrl, shift, alt }, typed_question_mark: false, text_focused }
}

fn names(cmds: &[AppCommand]) -> Vec<String> {
    cmds.iter()
        .map(|c| match c {
            AppCommand::TogglePalette => "palette",
            AppCommand::CloseShortcutOverlay => "close-overlay",
            AppCommand::ShowShortcutOverlay => "overlay",
            AppCommand::NewTab => "new-tab",
            AppCommand::CloseTab => "close-tab",
            AppCommand::FocusNextPane => "next-pane",
            AppCommand::NextTab => "next-tab",
            AppCommand::PreviousTab => "previous-tab",
            AppCommand::GoBack => "back",
            AppCommand::GoForward => "forward",
            AppCommand::GoUp => "up",
            AppCommand::Copy => "copy",
            AppCommand::Paste => "paste",
            AppCommand::MoveToTrash => "trash",
            AppCommand::ConfirmPermanentDelete => "delete",
            AppCommand::SelectPrevious => "select-previous",
            AppCommand::Refresh => "refresh",
            AppCommand::ToggleSidebar => "sidebar",
            _ => "other",
        }
        .to_string())
        .collect()
}

#[test]
fn ctrl_k_toggles_the_palette_and_nothing_else() {
    let f = frame(vec![Key::K, Key::T, Key::C], true, false, false, false);
    assert_eq!(names(&process_keyboard_shortcuts(&f, true, true)), vec!["palette"]);
}

#[test]
fn an_open_palette_or_overlay_takes_the_keys() {
    let f = frame(vec![Key::T, Key::Escape], true, false, false, false);
    assert!(process_keyboard_shortcuts(&f, true, false).is_empty());
    assert_eq!(names(&process_keyboard_shortcuts(&f, false, true)), vec!["close-overlay"]);
    let g = frame(vec![Key::T], true, false, false, false);
    assert!(process_keyboard_shortcuts(&g, false, true).is_empty());
}

#[test]
fn shortcuts_in_order() {
    let f = frame(vec![Key::T, Key::C, Key::F5], true, false, false, false);
    assert_eq!(names(&process_keyboard_shortcuts(&f, false, false)), vec!["new-tab", "refresh", "copy"]);
    let f = frame(vec![Key::Tab], true, true, false, false);
    assert_eq!(names(&process_keyboard_shortcuts(&f, false, false)), vec!["previous-tab"]);
    let f = frame(vec![Key::Tab], false, false, false, false);
    assert_eq!(names(&process_keyboard_shortcuts(&f, false, false)), vec!["next-pane"]);
    let f = frame(vec![Key::ArrowUp], false, false, true, false);
    assert_eq!(names(&process_keyboard_shortcuts(&f, false, false)), vec!["up"]);
    let f = frame(vec![Key::ArrowUp], false, false, false, false);
    assert_eq!(names(&process_keyboard_shortcuts(&f, false, false)), vec!["select-previous"]);
    let f = frame(vec![Key::Delete], false, true, false, false);
    assert_eq!(names(&process_keyboard_shortcuts(&f, false, false)), vec!["delete"]);
    let f = frame(vec![Key::Delete], false, false, false, false);
    assert_eq!(names(&process_keyboard_shortcuts(&f, false, false)), vec!["trash"]);
    let mut q = frame(vec![], false, false, false, false);
    q.typed_question_mark = true;
    assert_eq!(names(&process_keyboard_shortcuts(&q, false, false)), vec!["overlay"]);
}

#[test]
fn typing_keeps_file_shortcuts_away() {
    let f = frame(vec![Key::C, Key::V, Key::Backspace, Key::Tab, Key::Delete, Key::B], true, false, false, true);
    assert_eq!(names(&process_keyboard_shortcuts(&f, false, false)), vec!["next-tab", "sidebar"]);
    let f = frame(vec![Key::Backspace], false, false, false, false);
    assert_eq!(names(&process_keyboard_shortcuts(&f, false, false)), vec!["up"]);
}

#[test]
fn key_lookup() {
    assert!(key_down(&vec![Key::A, Key::F2], Key::F2));
    assert!(!key_down(&vec![Key::A], Key::F2));
}

#[test]
fn cycling_tabs_wraps_around() {
    assert_eq!(cycle_tab(2, 3, false), Some(0));
    assert_eq!(cycle_tab(0, 3, true), Some(2));
    assert_eq!(cycle_tab(1, 3, true), Some(0));
    assert_eq!(cycle_tab(0, 1, false), None);
    for a in 0..5 {
        let f = cycle_tab(a, 5, false).unwrap();
        assert_eq!(cycle_tab(f, 5, true), Some(a));
    }
}

#[test]
fn focus_moves_to_the_next_pane() {
    let leaves = vec![1, 4, 7];
    assert_eq!(next_pane(&leaves, Some(4)), Some(7));
    assert_eq!(next_pane(&leaves, Some(7)), Some(1));
    assert_eq!(next_pane(&leaves, Some(9)), Some(1));
    assert_eq!(next_pane(&leaves, None), Some(1));
    assert_eq!(next_pane(&vec![3], Some(3)), None);
}

#[test]
fn the_last_tab_stays_open() {
    assert!(!may_close_tab(1, 1));
    assert!(may_close_tab(1, 2));
    assert!(may_close_tab(2, 2));
}

#[test]
fn palette_sidebar_and_pane_requests_become_commands() {
    assert!(matches!(palette_command(PaletteAction::DeletePermanently), AppCommand::ConfirmPermanentDelete));
    assert!(matches!(palette_command(PaletteAction::NavigateTo("/x".to_string())), AppCommand::NavigateTo(p) if p == "/x"));
    assert!(matches!(viewer_command(ViewerAction::RequestLoad { tab_id: 3, path: "/y".to_string() }), AppCommand::Load { tab_id: 3, path } if path == "/y"));
    assert!(matches!(viewer_command(ViewerAction::SplitRight { path: "/z".to_string() }), AppCommand::SplitRightAt(p) if p == "/z"));
    assert!(sidebar_command(SidebarAction::Nothing).is_none());
    assert!(matches!(sidebar_command(SidebarAction::RemoveBookmark("/b".to_string())), Some(AppCommand::RemoveBookmark(p)) if p == "/b"));
}

#[test]
fn the_palette_lists_and_filters_commands() {
    let all = all_commands();
    assert_eq!(all.len(), 21);
    assert_eq!(all[0].label, "Toggle Sidebar");
    assert_eq!(all[0].shortcut, Some("Ctrl+B".to_string()));
    assert!(fuzzy_match("tgsb", "Toggle Sidebar"));
    assert!(fuzzy_match("", "Anything"));
    assert!(!fuzzy_match("xyz", "Toggle Sidebar"));
    assert!(fuzzy_match("NEW", "New Tab"));
    let f = filtered_commands("trash");
    assert_eq!(f.len(), 1);
    assert_eq!(f[0].action, PaletteAction::MoveToTrash);
    let mut st = CommandPaletteState::default();
    st.toggle();
    assert!(st.open && st.focus_requested && st.query.is_empty());
    st.query = "x".to_string();
    st.toggle();
    assert!(!st.open);
    assert_eq!(st.query, "x");
    st.close();
    assert!(st.query.is_empty());
}

#[test]
fn context_menus_offer_what_applies() {
    assert_eq!(
        file_menu(true, true),
        vec![
            FileContextAction::Open,
            FileContextAction::OpenInTerminal,
            FileContextAction::Copy,
            FileContextAction::Cut,
            FileContextAction::Paste,
            FileContextAction::Rename,
            FileContextAction::MoveToTrash,
            FileContextAction::Delete,
            FileContextAction::CopyPath,
            FileContextAction::ShowInFolder,
            FileContextAction::AddToFavorites,
        ]
    );
    assert_eq!(file_menu(false, false).len(), 8);
    assert_eq!(empty_area_menu(false), vec![EmptyAreaAction::NewFolder, EmptyAreaAction::NewFile, EmptyAreaAction::Refresh, EmptyAreaAction::OpenInTerminal]);
    assert_eq!(file_action_label(FileContextAction::Delete), ("Delete permanently", Some("Shift+Del")));
    assert!(matches!(open_target("/d", true), OpenTarget::Navigate(p) if p == "/d"));
    assert!(matches!(open_target("/f.txt", false), OpenTarget::OpenFile(p) if p == "/f.txt"));
    assert_eq!(favorite_name("/home/user/Projects"), "Projects");
    assert_eq!(favorite_name("/"), "/");
    assert_eq!(terminal_dir("/a/b.txt", false), "/a");
    assert_eq!(terminal_dir("/a/b", true), "/a/b");
}

fn entry(name: &str, path: &str) -> FileEntry {
    FileEntry { name: name.to_string(), path: path.to_string(), is_dir: false, size: 0, modified: 0, file_type: String::new(), mime_type: None, is_readonly: false }
}

#[test]
fn inline_rename_and_new_items_start_from_the_menu() {
    let mut tab = Tab::new(1, "/d".to_string(), "d".to_string());
    tab.entries = vec![entry("a.txt", "/d/a.txt"), entry("b.txt", "/d/b.txt")];
    begin_rename_at(&mut tab, "/d/zzz");
    assert!(tab.rename_state.is_none());
    begin_rename_at(&mut tab, "/d/b.txt");
    let rs = tab.rename_state.as_ref().unwrap();
    assert_eq!(rs.entry_index, 1);
    assert_eq!(rs.new_name, "b.txt");
    begin_new_item(&mut tab, NewItemMode::File);
    assert_eq!(tab.new_item_mode, Some(NewItemMode::File));
    assert_eq!(tab.new_item_name, "New File.txt");
    begin_new_item(&mut tab, NewItemMode::Folder);
    assert_eq!(tab.new_item_name, "New Folder");
}

#[test]
fn tab_names_are_shortened_with_an_ellipsis() {
    assert_eq!(truncate_tab_name("short", 20), "short");
    assert_eq!(truncate_tab_name("abcdefghijklmnopqrstuvwxyz", 20), "abcdefghijklmnopqrs…");
    assert_eq!(truncate_tab_name("abcdefghijklmnopqrstuvwxyz", 20).chars().count(), 20);
    assert_eq!(truncate_tab_name("ab", 0), "…");
    assert!(matches!(TabAction::Nothing, TabAction::Nothing));
}

#[test]
fn the_shortcut_overlay_closes_on_escape_or_a_click() {
    let mut o = ShortcutOverlayState::default();
    assert!(!o.open);
    o.open = true;
    o.dismiss_on(false, false);
    assert!(o.open);
    o.dismiss_on(false, true);
    assert!(!o.open);
    o.open = true;
    o.dismiss_on(true, false);
    assert!(!o.open);
}

#[test]
fn palette_focus_and_selection_bounds() {
    let mut st = CommandPaletteState::default();
    st.toggle();
    assert!(st.take_focus_request());
    assert!(!st.take_focus_request());
    st.selected_index = 9;
    st.clamp_selection(0);
    assert_eq!(st.selected_index, 9);
    st.clamp_selection(4);
    assert_eq!(st.selected_index, 3);
    st.clamp_selection(10);
    assert_eq!(st.selected_index, 3);
}
