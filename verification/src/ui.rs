//! Decisions of the tray menu and the panel window.

use vstd::prelude::*;
use crate::text::{str_equal, to_chars};

verus! {

/// An entry of the tray menu (or a click on the tray icon).
#[derive(PartialEq, Eq, Structural, Clone, Copy, Debug)]
pub enum TrayAction {
    OpenPanel,
    TogglePause,
    ToggleAutostart,
    ExportCsv,
    ExportPng,
    Quit,
}

/// An event the main loop handles.
#[derive(PartialEq, Eq, Structural, Clone, Copy, Debug)]
pub enum UserEvent {
    OpenPanel,
    TogglePause,
    ToggleAutostart,
    ExportCsv,
    ExportPng,
    Quit,
}

pub open spec fn user_event_spec(a: TrayAction) -> UserEvent {
    match a {
        TrayAction::OpenPanel => UserEvent::OpenPanel,
        TrayAction::TogglePause => UserEvent::TogglePause,
        TrayAction::ToggleAutostart => UserEvent::ToggleAutostart,
        TrayAction::ExportCsv => UserEvent::ExportCsv,
        TrayAction::ExportPng => UserEvent::ExportPng,
        TrayAction::Quit => UserEvent::Quit,
    }
}

/// The event the main loop receives for a tray action.
pub fn user_event_for(a: TrayAction) -> (r: UserEvent)
    ensures
        r == user_event_spec(a),
{
    match a {
        TrayAction::OpenPanel => UserEvent::OpenPanel,
        TrayAction::TogglePause => UserEvent::TogglePause,
        TrayAction::ToggleAutostart => UserEvent::ToggleAutostart,
        TrayAction::ExportCsv => UserEvent::ExportCsv,
        TrayAction::ExportPng => UserEvent::ExportPng,
        TrayAction::Quit => UserEvent::Quit,
    }
}

/// Different tray actions lead to different events.
pub proof fn user_event_is_one_to_one(a: TrayAction, b: TrayAction)
    ensures
        user_event_spec(a) == user_event_spec(b) ==> a == b,
{
}

/// The ids of the tray menu entries.
pub struct MenuIdTexts {
    pub open: String,
    pub pause: String,
    pub autostart: String,
    pub export_csv: String,
    pub export_png: String,
    pub quit: String,
}

/// The action of a menu entry id: the first entry, in menu order, with that id.
pub open spec fn menu_action_spec(id: Seq<char>, ids: MenuIdTexts) -> Option<TrayAction> {
    if id == ids.open@ {
        Some(TrayAction::OpenPanel)
    } else if id == ids.pause@ {
        Some(TrayAction::TogglePause)
    } else if id == ids.autostart@ {
        Some(TrayAction::ToggleAutostart)
    } else if id == ids.export_csv@ {
        Some(TrayAction::ExportCsv)
    } else if id == ids.export_png@ {
        Some(TrayAction::ExportPng)
    } else if id == ids.quit@ {
        Some(TrayAction::Quit)
    } else {
        None
    }
}

/// Each menu entry leads to its own action: when the entries' ids are all different,
/// clicking an entry gives that entry's action, and an id that is no entry's gives none.
pub proof fn each_menu_entry_its_action(ids: MenuIdTexts, other: Seq<char>)
    requires
        ids.open@ != ids.pause@,
        ids.open@ != ids.autostart@,
        ids.open@ != ids.export_csv@,
        ids.open@ != ids.export_png@,
        ids.open@ != ids.quit@,
        ids.pause@ != ids.autostart@,
        ids.pause@ != ids.export_csv@,
        ids.pause@ != ids.export_png@,
        ids.pause@ != ids.quit@,
        ids.autostart@ != ids.export_csv@,
        ids.autostart@ != ids.export_png@,
        ids.autostart@ != ids.quit@,
        ids.export_csv@ != ids.export_png@,
        ids.export_csv@ != ids.quit@,
        ids.export_png@ != ids.quit@,
    ensures
        menu_action_spec(ids.open@, ids) == Some(TrayAction::OpenPanel),
        menu_action_spec(ids.pause@, ids) == Some(TrayAction::TogglePause),
        menu_action_spec(ids.autostart@, ids) == Some(TrayAction::ToggleAutostart),
        menu_action_spec(ids.export_csv@, ids) == Some(TrayAction::ExportCsv),
        menu_action_spec(ids.export_png@, ids) == Some(TrayAction::ExportPng),
        menu_action_spec(ids.quit@, ids) == Some(TrayAction::Quit),
        other != ids.open@ && other != ids.pause@ && other != ids.autostart@ && other != ids.export_csv@
            && other != ids.export_png@ && other != ids.quit@ ==> menu_action_spec(other, ids) is None,
{
}

/// The tray action of a clicked menu entry, if the id is one of ours.
pub fn menu_action(id: &str, ids: &MenuIdTexts) -> (r: Option<TrayAction>)
    ensures
        r == menu_action_spec(id@, *ids),
{
    if str_equal(id, ids.open.as_str()) {
        Some(TrayAction::OpenPanel)
    } else if str_equal(id, ids.pause.as_str()) {
        Some(TrayAction::TogglePause)
    } else if str_equal(id, ids.autostart.as_str()) {
        Some(TrayAction::ToggleAutostart)
    } else if str_equal(id, ids.export_csv.as_str()) {
        Some(TrayAction::ExportCsv)
    } else if str_equal(id, ids.export_png.as_str()) {
        Some(TrayAction::ExportPng)
    } else if str_equal(id, ids.quit.as_str()) {
        Some(TrayAction::Quit)
    } else {
        None
    }
}

/// What closing the panel window leads to.
#[derive(PartialEq, Eq, Structural, Clone, Copy, Debug)]
pub enum CloseStep {
    /// Leave the program.
    Exit,
    /// Destroy the window and its web view; keep running in the tray.
    ClosePanel,
    /// Ask the user whether to minimise to the tray instead.
    Ask,
}

pub open spec fn close_step_spec(action: Seq<char>) -> CloseStep {
    if action == "exit"@ {
        CloseStep::Exit
    } else if action == "minimize"@ {
        CloseStep::ClosePanel
    } else {
        CloseStep::Ask
    }
}

/// The step for a close request under the close action in effect.
pub fn on_close_requested(action: &str) -> (r: CloseStep)
    ensures
        r == close_step_spec(action@),
{
    if str_equal(action, "exit") {
        CloseStep::Exit
    } else if str_equal(action, "minimize") {
        CloseStep::ClosePanel
    } else {
        CloseStep::Ask
    }
}

/// The step after asking: minimise to the tray when the user agrees, else exit.
pub fn on_close_answer(minimize: bool) -> (r: CloseStep)
    ensures
        r == (if minimize { CloseStep::ClosePanel } else { CloseStep::Exit }),
{
    if minimize { CloseStep::ClosePanel } else { CloseStep::Exit }
}

/// What the tray's "open panel" entry does.
#[derive(PartialEq, Eq, Structural, Clone, Copy, Debug)]
pub enum PanelStep {
    /// Nothing: the program is quitting.
    Ignore,
    /// Show and focus the panel that is open already.
    Show,
    /// Create the panel window and its web view.
    Create,
}

pub open spec fn open_panel_spec(quitting: bool, panel_open: bool) -> PanelStep {
    if quitting {
        PanelStep::Ignore
    } else if panel_open {
        PanelStep::Show
    } else {
        PanelStep::Create
    }
}

/// The step for a request to open the panel, given whether the program is quitting
/// and whether a panel is open already.
pub fn on_open_panel(quitting: bool, panel_open: bool) -> (r: PanelStep)
    ensures
        r == open_panel_spec(quitting, panel_open),
{
    if quitting {
        PanelStep::Ignore
    } else if panel_open {
        PanelStep::Show
    } else {
        PanelStep::Create
    }
}

/// There is never more than one panel: one is created only when none is open and
/// the program is not quitting; an open panel is shown again instead.
pub proof fn one_panel_at_most(quitting: bool, panel_open: bool)
    ensures
        open_panel_spec(quitting, panel_open) == PanelStep::Create ==> !panel_open && !quitting,
        panel_open && !quitting ==> open_panel_spec(quitting, panel_open) == PanelStep::Show,
{
}

/// The pause state after the tray's pause/continue entry: the other one.
pub open spec fn toggled_pause_spec(paused: bool) -> bool {
    !paused
}

/// The pause state after the tray's pause/continue entry.
pub fn toggled_pause(paused: bool) -> (r: bool)
    ensures
        r == toggled_pause_spec(paused),
{
    !paused
}

/// Choosing pause/continue twice leaves counting as it was, and once always changes it.
pub proof fn toggle_pause_twice_restores(paused: bool)
    ensures
        toggled_pause_spec(toggled_pause_spec(paused)) == paused,
        toggled_pause_spec(paused) != paused,
{
}

/// The UTF-16 code units of a character: one unit below U+10000, else a surrogate pair.
pub open spec fn utf16_of_char(c: char) -> Seq<u16> {
    let v = c as u32;
    if v < 0x10000 {
        seq![v as u16]
    } else {
        seq![(0xD800 + (v - 0x10000) / 0x400) as u16, (0xDC00 + (v - 0x10000) % 0x400) as u16]
    }
}

/// The UTF-16 code units of a text.
pub open spec fn utf16_of(s: Seq<char>) -> Seq<u16>
    decreases s.len(),
{
    if s.len() == 0 {
        Seq::empty()
    } else {
        utf16_of(s.drop_last()) + utf16_of_char(s.last())
    }
}

/// A text as a NUL-terminated UTF-16 string, as the Windows API takes it.
pub fn to_wide(s: &str) -> (r: Vec<u16>)
    ensures
        r@ == utf16_of(s@).push(0u16),
{
    let cs = to_chars(s);
    let mut out: Vec<u16> = Vec::new();
    let mut i: usize = 0;
    while i < cs.len()
        invariant
            i <= cs@.len(),
            cs@ == s@,
            out@ == utf16_of(cs@.take(i as int)),
        decreases cs@.len() - i,
    {
        let v = cs[i] as u32;
        proof {
            vstd::utf8::char_is_scalar(cs@[i as int]);
        }
        let ghost before = out@;
        if v < 0x10000 {
            out.push(v as u16);
        } else {
            let u = v - 0x10000;
            out.push((0xD800 + u / 0x400) as u16);
            out.push((0xDC00 + u % 0x400) as u16);
        }
        assert(cs@.take(i + 1).drop_last() =~= cs@.take(i as int));
        assert(out@ =~= before + utf16_of_char(cs@[i as int]));
        i = i + 1;
    }
    assert(cs@.take(i as int) =~= cs@);
    out.push(0u16);
    out
}

} // verus!
