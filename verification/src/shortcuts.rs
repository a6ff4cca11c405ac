//! Keyboard shortcuts: which commands the keys pressed in one frame ask for,
//! given what holds the keyboard.
use vstd::prelude::*;
use crate::commands::AppCommand;

verus! {

/// The keys that have a shortcut.
#[derive(Debug, Clone, Copy, PartialEq, Eq, Structural)]
pub enum Key {
    A,
    B,
    C,
    F,
    H,
    K,
    L,
    P,
    T,
    V,
    W,
    X,
    Num1,
    Num2,
    Tab,
    ArrowLeft,
    ArrowRight,
    ArrowUp,
    ArrowDown,
    Backspace,
    Delete,
    Enter,
    Escape,
    F2,
    F5,
}

/// The modifier keys held.
#[derive(Debug, Clone, Copy, PartialEq, Eq, Structural)]
pub struct Modifiers {
    pub ctrl: bool,
    pub shift: bool,
    pub alt: bool,
}

/// What one frame brought from the keyboard, and who has it.
pub struct FrameInput {
    /// The keys pressed during the frame.
    pub pressed: Vec<Key>,
    pub modifiers: Modifiers,
    /// Whether a '?' was typed.
    pub typed_question_mark: bool,
    /// Whether a text field has the keyboard.
    pub text_focused: bool,
}

/// Whether the keyboard shortcut overlay is shown.
pub struct ShortcutOverlayState {
    pub open: bool,
}

impl Default for ShortcutOverlayState {
    /// The overlay starts hidden.
    fn default() -> (r: ShortcutOverlayState)
        ensures
            !r.open,
    {
        ShortcutOverlayState { open: false }
    }
}

impl ShortcutOverlayState {
    /// The shown overlay closes when its backdrop is clicked or Escape is
    /// pressed; a hidden one stays hidden.
    pub fn dismiss_on(&mut self, backdrop_clicked: bool, escape: bool)
        ensures
            final(self).open == (old(self).open && !backdrop_clicked && !escape),
    {
        if self.open && (backdrop_clicked || escape) {
            self.open = false;
        }
    }
}

/// The command, when the condition holds.
pub open spec fn when(cond: bool, c: AppCommand) -> Seq<AppCommand> {
    if cond { seq![c] } else { Seq::empty() }
}

/// Tab and pane commands: new tab (Ctrl+T), close tab (Ctrl+W), next
/// pane (Tab, unless typing), next or previous tab (Ctrl+Tab, with Shift
/// backwards).
pub open spec fn tab_commands(pressed: Seq<Key>, m: Modifiers, text_focused: bool) -> Seq<AppCommand> {
    when(pressed.contains(Key::T) && m.ctrl, AppCommand::NewTab)
        + when(pressed.contains(Key::W) && m.ctrl, AppCommand::CloseTab)
        + when(!text_focused && pressed.contains(Key::Tab) && !m.ctrl, AppCommand::FocusNextPane)
        + when(pressed.contains(Key::Tab) && m.ctrl, if m.shift { AppCommand::PreviousTab } else { AppCommand::NextTab })
}

/// Navigation commands: back, forward and up (Alt+arrows), the address bar
/// (Ctrl+L), and up again with Backspace unless typing.
pub open spec fn nav_commands(pressed: Seq<Key>, m: Modifiers, text_focused: bool) -> Seq<AppCommand> {
    when(pressed.contains(Key::ArrowLeft) && m.alt, AppCommand::GoBack)
        + when(pressed.contains(Key::ArrowRight) && m.alt, AppCommand::GoForward)
        + when(pressed.contains(Key::ArrowUp) && m.alt, AppCommand::GoUp)
        + when(pressed.contains(Key::L) && m.ctrl, AppCommand::EditAddressBar)
        + when(!text_focused && pressed.contains(Key::Backspace), AppCommand::GoUp)
}

/// Panel and view commands: sidebar (Ctrl+B), filter (Ctrl+F), hidden files
/// (Ctrl+H), preview (Ctrl+P), details and grid views (Ctrl+1, Ctrl+2) and
/// reload (F5).
pub open spec fn panel_commands(pressed: Seq<Key>, m: Modifiers) -> Seq<AppCommand> {
    when(pressed.contains(Key::B) && m.ctrl, AppCommand::ToggleSidebar)
        + when(pressed.contains(Key::F) && m.ctrl, AppCommand::FocusFilter)
        + when(pressed.contains(Key::H) && m.ctrl, AppCommand::ToggleHiddenFiles)
        + when(pressed.contains(Key::P) && m.ctrl, AppCommand::TogglePreview)
        + when(pressed.contains(Key::Num1) && m.ctrl, AppCommand::DetailsView)
        + when(pressed.contains(Key::Num2) && m.ctrl, AppCommand::GridView)
        + when(pressed.contains(Key::F5), AppCommand::Refresh)
}

/// Commands that act on the window, whoever has the keyboard.
pub open spec fn window_commands(pressed: Seq<Key>, m: Modifiers, text_focused: bool) -> Seq<AppCommand> {
    tab_commands(pressed, m, text_focused) + nav_commands(pressed, m, text_focused) + panel_commands(pressed, m)
}

/// Commands that act on files and the selection, only taken when no text
/// field has the keyboard.
pub open spec fn file_commands(pressed: Seq<Key>, m: Modifiers, question: bool) -> Seq<AppCommand> {
    when(pressed.contains(Key::C) && m.ctrl, AppCommand::Copy)
        + when(pressed.contains(Key::X) && m.ctrl, AppCommand::Cut)
        + when(pressed.contains(Key::V) && m.ctrl, AppCommand::Paste)
        + when(pressed.contains(Key::Delete) && !m.shift, AppCommand::MoveToTrash)
        + when(pressed.contains(Key::Delete) && m.shift, AppCommand::ConfirmPermanentDelete)
        + when(pressed.contains(Key::F2), AppCommand::Rename)
        + when(pressed.contains(Key::Enter), AppCommand::OpenSelected)
        + when(question, AppCommand::ShowShortcutOverlay)
        + when(pressed.contains(Key::A) && m.ctrl, AppCommand::SelectAll)
        + when(pressed.contains(Key::ArrowDown) && !m.alt, AppCommand::SelectNext)
        + when(pressed.contains(Key::ArrowUp) && !m.alt, AppCommand::SelectPrevious)
}

/// The commands a frame's keys ask for, in the order they are carried out.
/// Ctrl+K toggles the command palette and nothing else; while the palette
/// is open no other key acts; while the shortcut overlay is shown only
/// Escape acts, closing it. Otherwise the window shortcuts act, and the
/// file shortcuts too when no text field has the keyboard.
pub open spec fn shortcut_commands(
    pressed: Seq<Key>,
    m: Modifiers,
    question: bool,
    text_focused: bool,
    palette_open: bool,
    overlay_open: bool,
) -> Seq<AppCommand> {
    if pressed.contains(Key::K) && m.ctrl {
        seq![AppCommand::TogglePalette]
    } else if palette_open {
        Seq::empty()
    } else if overlay_open {
        when(pressed.contains(Key::Escape), AppCommand::CloseShortcutOverlay)
    } else {
        window_commands(pressed, m, text_focused) + (if text_focused {
            Seq::empty()
        } else {
            file_commands(pressed, m, question)
        })
    }
}

/// Whether `k` was pressed.
pub fn key_down(pressed: &Vec<Key>, k: Key) -> (r: bool)
    ensures
        r == pressed@.contains(k),
{
    let mut i: usize = 0;
    while i < pressed.len()
        invariant
            i <= pressed@.len(),
            forall|j: int| 0 <= j < i ==> pressed@[j] != k,
        decreases pressed@.len() - i,
    {
        if pressed[i] == k {
            assert(pressed@[i as int] == k);
            return true;
        }
        i = i + 1;
    }
    false
}

/// Appends `c` when `cond` holds.
fn push_when(v: &mut Vec<AppCommand>, cond: bool, c: AppCommand)
    ensures
        final(v)@ == old(v)@ + when(cond, c),
{
    if cond {
        v.push(c);
    }
    assert(final(v)@ =~= old(v)@ + when(cond, c));
}

/// The tab and pane shortcuts of a frame.
fn tab_shortcuts(input: &FrameInput) -> (r: Vec<AppCommand>)
    ensures
        r@ == tab_commands(input.pressed@, input.modifiers, input.text_focused),
{
    let p = &input.pressed;
    let m = input.modifiers;
    let mut v: Vec<AppCommand> = Vec::new();
    let ghost e: Seq<AppCommand> = Seq::empty();
    push_when(&mut v, key_down(p, Key::T) && m.ctrl, AppCommand::NewTab);
    assert(v@ == when(p@.contains(Key::T) && m.ctrl, AppCommand::NewTab)) by {
        assert(e + when(p@.contains(Key::T) && m.ctrl, AppCommand::NewTab)
            =~= when(p@.contains(Key::T) && m.ctrl, AppCommand::NewTab));
    }
    push_when(&mut v, key_down(p, Key::W) && m.ctrl, AppCommand::CloseTab);
    push_when(&mut v, !input.text_focused && key_down(p, Key::Tab) && !m.ctrl, AppCommand::FocusNextPane);
    let cycle = if m.shift { AppCommand::PreviousTab } else { AppCommand::NextTab };
    push_when(&mut v, key_down(p, Key::Tab) && m.ctrl, cycle);
    v
}

/// The navigation shortcuts of a frame.
fn nav_shortcuts(input: &FrameInput) -> (r: Vec<AppCommand>)
    ensures
        r@ == nav_commands(input.pressed@, input.modifiers, input.text_focused),
{
    let p = &input.pressed;
    let m = input.modifiers;
    let mut v: Vec<AppCommand> = Vec::new();
    let ghost e: Seq<AppCommand> = Seq::empty();
    push_when(&mut v, key_down(p, Key::ArrowLeft) && m.alt, AppCommand::GoBack);
    assert(v@ == when(p@.contains(Key::ArrowLeft) && m.alt, AppCommand::GoBack)) by {
        assert(e + when(p@.contains(Key::ArrowLeft) && m.alt, AppCommand::GoBack)
            =~= when(p@.contains(Key::ArrowLeft) && m.alt, AppCommand::GoBack));
    }
    push_when(&mut v, key_down(p, Key::ArrowRight) && m.alt, AppCommand::GoForward);
    push_when(&mut v, key_down(p, Key::ArrowUp) && m.alt, AppCommand::GoUp);
    push_when(&mut v, key_down(p, Key::L) && m.ctrl, AppCommand::EditAddressBar);
    push_when(&mut v, !input.text_focused && key_down(p, Key::Backspace), AppCommand::GoUp);
    v
}

/// The panel and view shortcuts of a frame.
fn panel_shortcuts(input: &FrameInput) -> (r: Vec<AppCommand>)
    ensures
        r@ == panel_commands(input.pressed@, input.modifiers),
{
    let p = &input.pressed;
    let m = input.modifiers;
    let mut v: Vec<AppCommand> = Vec::new();
    let ghost e: Seq<AppCommand> = Seq::empty();
    push_when(&mut v, key_down(p, Key::B) && m.ctrl, AppCommand::ToggleSidebar);
    assert(v@ == when(p@.contains(Key::B) && m.ctrl, AppCommand::ToggleSidebar)) by {
        assert(e + when(p@.contains(Key::B) && m.ctrl, AppCommand::ToggleSidebar)
            =~= when(p@.contains(Key::B) && m.ctrl, AppCommand::ToggleSidebar));
    }
    push_when(&mut v, key_down(p, Key::F) && m.ctrl, AppCommand::FocusFilter);
    push_when(&mut v, key_down(p, Key::H) && m.ctrl, AppCommand::ToggleHiddenFiles);
    push_when(&mut v, key_down(p, Key::P) && m.ctrl, AppCommand::TogglePreview);
    push_when(&mut v, key_down(p, Key::Num1) && m.ctrl, AppCommand::DetailsView);
    push_when(&mut v, key_down(p, Key::Num2) && m.ctrl, AppCommand::GridView);
    push_when(&mut v, key_down(p, Key::F5), AppCommand::Refresh);
    v
}

/// The window shortcuts of a frame.
fn window_shortcuts(input: &FrameInput) -> (r: Vec<AppCommand>)
    ensures
        r@ == window_commands(input.pressed@, input.modifiers, input.text_focused),
{
    let mut v = tab_shortcuts(input);
    let mut n = nav_shortcuts(input);
    let mut q = panel_shortcuts(input);
    v.append(&mut n);
    v.append(&mut q);
    v
}

/// The file shortcuts of a frame.
fn file_shortcuts(input: &FrameInput) -> (r: Vec<AppCommand>)
    ensures
        r@ == file_commands(input.pressed@, input.modifiers, input.typed_question_mark),
{
    let p = &input.pressed;
    let m = input.modifiers;
    let mut v: Vec<AppCommand> = Vec::new();
    let ghost e: Seq<AppCommand> = Seq::empty();
    push_when(&mut v, key_down(p, Key::C) && m.ctrl, AppCommand::Copy);
    assert(v@ == when(p@.contains(Key::C) && m.ctrl, AppCommand::Copy)) by {
        assert(e + when(p@.contains(Key::C) && m.ctrl, AppCommand::Copy)
            =~= when(p@.contains(Key::C) && m.ctrl, AppCommand::Copy));
    }
    push_when(&mut v, key_down(p, Key::X) && m.ctrl, AppCommand::Cut);
    push_when(&mut v, key_down(p, Key::V) && m.ctrl, AppCommand::Paste);
    push_when(&mut v, key_down(p, Key::Delete) && !m.shift, AppCommand::MoveToTrash);
    push_when(&mut v, key_down(p, Key::Delete) && m.shift, AppCommand::ConfirmPermanentDelete);
    push_when(&mut v, key_down(p, Key::F2), AppCommand::Rename);
    push_when(&mut v, key_down(p, Key::Enter), AppCommand::OpenSelected);
    push_when(&mut v, input.typed_question_mark, AppCommand::ShowShortcutOverlay);
    push_when(&mut v, key_down(p, Key::A) && m.ctrl, AppCommand::SelectAll);
    push_when(&mut v, key_down(p, Key::ArrowDown) && !m.alt, AppCommand::SelectNext);
    push_when(&mut v, key_down(p, Key::ArrowUp) && !m.alt, AppCommand::SelectPrevious);
    v
}

/// The commands the keys of a frame ask for, in order.
pub fn process_keyboard_shortcuts(input: &FrameInput, palette_open: bool, overlay_open: bool) -> (r: Vec<AppCommand>)
    ensures
        r@ == shortcut_commands(
            input.pressed@,
            input.modifiers,
            input.typed_question_mark,
            input.text_focused,
            palette_open,
            overlay_open,
        ),
{
    let p = &input.pressed;
    if key_down(p, Key::K) && input.modifiers.ctrl {
        let mut v: Vec<AppCommand> = Vec::new();
        v.push(AppCommand::TogglePalette);
        assert(v@ =~= seq![AppCommand::TogglePalette]);
        return v;
    }
    if palette_open {
        let v: Vec<AppCommand> = Vec::new();
        assert(v@ =~= Seq::<AppCommand>::empty());
        return v;
    }
    if overlay_open {
        let mut v: Vec<AppCommand> = Vec::new();
        push_when(&mut v, key_down(p, Key::Escape), AppCommand::CloseShortcutOverlay);
        assert(v@ =~= when(p@.contains(Key::Escape), AppCommand::CloseShortcutOverlay));
        return v;
    }
    let mut v = window_shortcuts(input);
    if !input.text_focused {
        let mut f = file_shortcuts(input);
        v.append(&mut f);
    } else {
        assert(v@ + Seq::<AppCommand>::empty() =~= v@);
    }
    v
}

/// Commands that act on the window as a whole.
pub open spec fn is_window_command(c: AppCommand) -> bool {
    match c {
        AppCommand::TogglePalette | AppCommand::NewTab | AppCommand::CloseTab | AppCommand::NextTab | AppCommand::PreviousTab
        | AppCommand::GoBack | AppCommand::GoForward | AppCommand::GoUp | AppCommand::EditAddressBar
        | AppCommand::ToggleSidebar | AppCommand::FocusFilter | AppCommand::ToggleHiddenFiles
        | AppCommand::TogglePreview | AppCommand::DetailsView | AppCommand::GridView
        | AppCommand::Refresh => true,
        _ => false,
    }
}

/// Every command of the sequence acts on the window as a whole.
pub open spec fn all_window_commands(s: Seq<AppCommand>) -> bool {
    forall|i: int| 0 <= i < s.len() ==> is_window_command(#[trigger] s[i])
}

proof fn lemma_all_window_concat(a: Seq<AppCommand>, b: Seq<AppCommand>)
    requires
        all_window_commands(a),
        all_window_commands(b),
    ensures
        all_window_commands(a + b),
{
    assert forall|i: int| 0 <= i < (a + b).len() implies is_window_command(#[trigger] (a + b)[i]) by {
        if i < a.len() {
            assert((a + b)[i] == a[i]);
        } else {
            assert((a + b)[i] == b[i - a.len()]);
        }
    }
}

/// Ctrl+K toggles the command palette and does nothing else, whatever else
/// is pressed and whoever has the keyboard.
pub proof fn law_palette_chord_alone(
    pressed: Seq<Key>,
    m: Modifiers,
    question: bool,
    text_focused: bool,
    palette_open: bool,
    overlay_open: bool,
)
    requires
        pressed.contains(Key::K),
        m.ctrl,
    ensures
        shortcut_commands(pressed, m, question, text_focused, palette_open, overlay_open)
            == seq![AppCommand::TogglePalette],
{
}

/// While the command palette is open, no key but Ctrl+K acts; while the
/// shortcut overlay is shown, only Escape does, and it closes the overlay.
pub proof fn law_modal_overlays(
    pressed: Seq<Key>,
    m: Modifiers,
    question: bool,
    text_focused: bool,
    palette_open: bool,
    overlay_open: bool,
)
    requires
        !(pressed.contains(Key::K) && m.ctrl),
        palette_open || overlay_open,
    ensures
        palette_open ==> shortcut_commands(pressed, m, question, text_focused, palette_open, overlay_open).len() == 0,
        !palette_open ==> shortcut_commands(pressed, m, question, text_focused, palette_open, overlay_open)
            == (if pressed.contains(Key::Escape) {
                seq![AppCommand::CloseShortcutOverlay]
            } else {
                Seq::empty()
            }),
{
}

/// While typing, the tab and pane commands act on the window.
proof fn lemma_tab_window(pressed: Seq<Key>, m: Modifiers)
    ensures
        all_window_commands(tab_commands(pressed, m, true)),
{
    let cycle = if m.shift { AppCommand::PreviousTab } else { AppCommand::NextTab };
    let a = when(pressed.contains(Key::T) && m.ctrl, AppCommand::NewTab);
    let b = when(pressed.contains(Key::W) && m.ctrl, AppCommand::CloseTab);
    let c = when(!true && pressed.contains(Key::Tab) && !m.ctrl, AppCommand::FocusNextPane);
    let d = when(pressed.contains(Key::Tab) && m.ctrl, cycle);
    lemma_all_window_concat(a, b);
    assert(c.len() == 0);
    lemma_all_window_concat(a + b, c);
    lemma_all_window_concat(a + b + c, d);
}

/// While typing, the navigation commands act on the window.
proof fn lemma_nav_window(pressed: Seq<Key>, m: Modifiers)
    ensures
        all_window_commands(nav_commands(pressed, m, true)),
{
    let a = when(pressed.contains(Key::ArrowLeft) && m.alt, AppCommand::GoBack);
    let b = when(pressed.contains(Key::ArrowRight) && m.alt, AppCommand::GoForward);
    let c = when(pressed.contains(Key::ArrowUp) && m.alt, AppCommand::GoUp);
    let d = when(pressed.contains(Key::L) && m.ctrl, AppCommand::EditAddressBar);
    let e = when(!true && pressed.contains(Key::Backspace), AppCommand::GoUp);
    lemma_all_window_concat(a, b);
    lemma_all_window_concat(a + b, c);
    lemma_all_window_concat(a + b + c, d);
    lemma_all_window_concat(a + b + c + d, e);
}

/// The panel and view commands act on the window.
proof fn lemma_panel_window(pressed: Seq<Key>, m: Modifiers)
    ensures
        all_window_commands(panel_commands(pressed, m)),
{
    let a = when(pressed.contains(Key::B) && m.ctrl, AppCommand::ToggleSidebar);
    let b = when(pressed.contains(Key::F) && m.ctrl, AppCommand::FocusFilter);
    let c = when(pressed.contains(Key::H) && m.ctrl, AppCommand::ToggleHiddenFiles);
    let d = when(pressed.contains(Key::P) && m.ctrl, AppCommand::TogglePreview);
    let e = when(pressed.contains(Key::Num1) && m.ctrl, AppCommand::DetailsView);
    let f = when(pressed.contains(Key::Num2) && m.ctrl, AppCommand::GridView);
    let g = when(pressed.contains(Key::F5), AppCommand::Refresh);
    lemma_all_window_concat(a, b);
    lemma_all_window_concat(a + b, c);
    lemma_all_window_concat(a + b + c, d);
    lemma_all_window_concat(a + b + c + d, e);
    lemma_all_window_concat(a + b + c + d + e, f);
    lemma_all_window_concat(a + b + c + d + e + f, g);
}

/// While a text field has the keyboard, keys act only on the window as a
/// whole: no file operation, selection move, pane switch or shortcut
/// overlay is asked for.
pub proof fn law_typing_spares_files(pressed: Seq<Key>, m: Modifiers, question: bool)
    ensures
        all_window_commands(shortcut_commands(pressed, m, question, true, false, false)),
{
    lemma_tab_window(pressed, m);
    lemma_nav_window(pressed, m);
    lemma_panel_window(pressed, m);
    let t = tab_commands(pressed, m, true);
    let n = nav_commands(pressed, m, true);
    let q = panel_commands(pressed, m);
    lemma_all_window_concat(t, n);
    lemma_all_window_concat(t + n, q);
    lemma_all_window_concat(t + n + q, Seq::empty());
    if pressed.contains(Key::K) && m.ctrl {
        assert(all_window_commands(seq![AppCommand::TogglePalette]));
    } else {
        assert(shortcut_commands(pressed, m, question, true, false, false) == t + n + q + Seq::<AppCommand>::empty());
    }
}

} // verus!
