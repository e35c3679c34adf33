//! The decisions of the Windows shell: what each window message, timer and menu
//! command leads to, the overlay's text and placement, and the tray tooltip. The shell
//! performs the actions; these functions decide them.
use vstd::prelude::*;
use crate::ffi::SPSessionMode;
use crate::text::{owned, str_eq};

verus! {

/// The first message number available to applications (`WM_APP`).
pub const WM_APP: u32 = 0x8000;
/// `WM_DESTROY`.
pub const WM_DESTROY: u32 = 0x0002;
/// `WM_TIMER`.
pub const WM_TIMER: u32 = 0x0113;
/// `WM_CONTEXTMENU`.
pub const WM_CONTEXTMENU: u32 = 0x007B;
/// `WM_RBUTTONUP`.
pub const WM_RBUTTONUP: u32 = 0x0205;

// Messages posted from the core's callbacks.
pub const WM_APP_SESSION_READY: u32 = 0x8001;
pub const WM_APP_SESSION_ERROR: u32 = 0x8002;
pub const WM_APP_SESSION_WARNING: u32 = 0x8003;
pub const WM_APP_FINAL_TEXT: u32 = 0x8004;
pub const WM_APP_STATE_CHANGED: u32 = 0x8005;
pub const WM_APP_INTERIM_TEXT: u32 = 0x8006;
pub const WM_APP_TRAY: u32 = 0x8064;

// Messages posted by the keyboard hook.
pub const WM_APP_HOTKEY_HOLD_START: u32 = 0x8032;
pub const WM_APP_HOTKEY_HOLD_END: u32 = 0x8033;
pub const WM_APP_HOTKEY_TAP_START: u32 = 0x8034;
pub const WM_APP_HOTKEY_TAP_END: u32 = 0x8035;
pub const WM_APP_HOTKEY_CANCEL: u32 = 0x8036;

// Timers.
pub const HOLD_TIMER_ID: usize = 300;
pub const HOLD_THRESHOLD_MS: u32 = 500;
pub const TRAILING_AUDIO_TIMER_ID: usize = 301;
pub const TRAILING_AUDIO_MS: u32 = 300;
pub const PASTE_TIMER_ID: usize = 100;
pub const PASTE_DELAY_MS: u32 = 50;
pub const RESTORE_TIMER_ID: usize = 101;
pub const RESTORE_DELAY_MS: u32 = 1500;
pub const ERROR_TIMER_ID: usize = 200;
pub const ERROR_DISPLAY_MS: u32 = 2000;

/// Something the shell does.
#[derive(Debug, Clone, PartialEq, Eq)]
pub enum UiAction {
    /// Show a session state on the overlay.
    OverlayState(String),
    /// Show interim text on the overlay.
    OverlayInterim(String),
    /// Set the tray icon's tooltip.
    Tooltip(String),
    /// Start (or restart) a timer of the message window.
    SetTimer { id: usize, ms: u32 },
    /// Stop a timer of the message window.
    KillTimer(usize),
    /// Post a message to the message window.
    Post(u32),
    /// Begin a voice session.
    BeginSession(SPSessionMode),
    /// End the voice session.
    EndSession,
    /// Cancel the voice session.
    CancelSession,
    /// Start audio capture.
    StartCapture,
    /// Stop audio capture.
    StopCapture,
    /// Send Ctrl+V.
    Paste,
    /// Save the clipboard's text.
    BackupClipboard,
    /// Put text on the clipboard.
    WriteClipboard(String),
    /// Put the saved text back on the clipboard.
    RestoreClipboard,
}

/// The model of an action.
pub enum UiActionV {
    OverlayState(Seq<char>),
    OverlayInterim(Seq<char>),
    Tooltip(Seq<char>),
    SetTimer { id: usize, ms: u32 },
    KillTimer(usize),
    Post(u32),
    BeginSession(SPSessionMode),
    EndSession,
    CancelSession,
    StartCapture,
    StopCapture,
    Paste,
    BackupClipboard,
    WriteClipboard(Seq<char>),
    RestoreClipboard,
}

impl View for UiAction {
    type V = UiActionV;

    open spec fn view(&self) -> UiActionV {
        match self {
            UiAction::OverlayState(s) => UiActionV::OverlayState(s@),
            UiAction::OverlayInterim(s) => UiActionV::OverlayInterim(s@),
            UiAction::Tooltip(s) => UiActionV::Tooltip(s@),
            UiAction::SetTimer { id, ms } => UiActionV::SetTimer { id: *id, ms: *ms },
            UiAction::KillTimer(id) => UiActionV::KillTimer(*id),
            UiAction::Post(m) => UiActionV::Post(*m),
            UiAction::BeginSession(m) => UiActionV::BeginSession(*m),
            UiAction::EndSession => UiActionV::EndSession,
            UiAction::CancelSession => UiActionV::CancelSession,
            UiAction::StartCapture => UiActionV::StartCapture,
            UiAction::StopCapture => UiActionV::StopCapture,
            UiAction::Paste => UiActionV::Paste,
            UiAction::BackupClipboard => UiActionV::BackupClipboard,
            UiAction::WriteClipboard(s) => UiActionV::WriteClipboard(s@),
            UiAction::RestoreClipboard => UiActionV::RestoreClipboard,
        }
    }
}

/// The models of actions.
pub open spec fn actions_model(a: Seq<UiAction>) -> Seq<UiActionV> {
    Seq::new(a.len(), |i: int| a[i]@)
}

/// The actions that bring the shell back to idle.
pub open spec fn idle_actions() -> Seq<UiActionV> {
    seq![UiActionV::OverlayState("idle"@), UiActionV::Tooltip("Koe - Idle"@)]
}

/// Appends the actions that bring the shell back to idle.
pub fn push_idle(actions: &mut Vec<UiAction>)
    ensures
        actions_model(final(actions)@) == actions_model(old(actions)@) + idle_actions(),
{
    let ghost before = actions@;
    actions.push(UiAction::OverlayState(owned("idle")));
    actions.push(UiAction::Tooltip(owned("Koe - Idle")));
    assert(actions_model(actions@) =~= actions_model(before) + idle_actions());
}

// ─── Window messages ────────────────────────────────────────────────

/// Who handles a window message.
#[derive(Clone, Copy, PartialEq, Eq, Structural, Debug)]
pub enum Route {
    /// A message from the core's callbacks.
    Bridge,
    /// A notification from the tray icon.
    Tray,
    /// A timer.
    Timer,
    /// A message from the keyboard hook.
    Hotkey,
    /// The window is being destroyed: quit.
    Quit,
    /// The default window procedure.
    Default,
}

/// Who handles a window message.
pub open spec fn spec_route(msg: u32) -> Route {
    if WM_APP_SESSION_READY <= msg <= WM_APP_INTERIM_TEXT {
        Route::Bridge
    } else if msg == WM_APP_TRAY {
        Route::Tray
    } else if msg == WM_TIMER {
        Route::Timer
    } else if WM_APP_HOTKEY_HOLD_START <= msg <= WM_APP_HOTKEY_CANCEL {
        Route::Hotkey
    } else if msg == WM_DESTROY {
        Route::Quit
    } else {
        Route::Default
    }
}

/// Routes a window message.
pub fn route_message(msg: u32) -> (r: Route)
    ensures
        r == spec_route(msg),
{
    if WM_APP_SESSION_READY <= msg && msg <= WM_APP_INTERIM_TEXT {
        Route::Bridge
    } else if msg == WM_APP_TRAY {
        Route::Tray
    } else if msg == WM_TIMER {
        Route::Timer
    } else if WM_APP_HOTKEY_HOLD_START <= msg && msg <= WM_APP_HOTKEY_CANCEL {
        Route::Hotkey
    } else if msg == WM_DESTROY {
        Route::Quit
    } else {
        Route::Default
    }
}

/// The tooltip for a session state.
pub open spec fn spec_state_tooltip(state: Seq<char>) -> Seq<char> {
    if state == "recording_hold"@ || state == "recording_toggle"@ {
        "Koe - Recording..."@
    } else if state == "finalizing_asr"@ || state == "correcting"@ {
        "Koe - Processing..."@
    } else if state == "pasting"@ || state == "preparing_paste"@ {
        "Koe - Pasting"@
    } else if state == "idle"@ || state == "completed"@ {
        "Koe - Idle"@
    } else if state == "failed"@ {
        "Koe - Error"@
    } else {
        "Koe"@
    }
}

/// The tooltip for a session state.
pub fn state_tooltip(state: &str) -> (r: String)
    ensures
        r@ == spec_state_tooltip(state@),
{
    if str_eq(state, "recording_hold") || str_eq(state, "recording_toggle") {
        owned("Koe - Recording...")
    } else if str_eq(state, "finalizing_asr") || str_eq(state, "correcting") {
        owned("Koe - Processing...")
    } else if str_eq(state, "pasting") || str_eq(state, "preparing_paste") {
        owned("Koe - Pasting")
    } else if str_eq(state, "idle") || str_eq(state, "completed") {
        owned("Koe - Idle")
    } else if str_eq(state, "failed") {
        owned("Koe - Error")
    } else {
        owned("Koe")
    }
}

/// What a message from the core's callbacks leads to; `text` is the text it carried,
/// `None` when it carried none.
pub open spec fn spec_bridge_actions(msg: u32, text: Option<Seq<char>>) -> Seq<UiActionV> {
    match text {
        None => Seq::empty(),
        Some(t) => if msg == WM_APP_SESSION_ERROR {
            seq![
                UiActionV::OverlayState("error"@),
                UiActionV::Tooltip("Koe - Error"@),
                UiActionV::SetTimer { id: ERROR_TIMER_ID, ms: ERROR_DISPLAY_MS },
            ]
        } else if msg == WM_APP_FINAL_TEXT {
            seq![
                UiActionV::OverlayState("pasting"@),
                UiActionV::Tooltip("Koe - Pasting"@),
                UiActionV::BackupClipboard,
                UiActionV::WriteClipboard(t),
                UiActionV::SetTimer { id: PASTE_TIMER_ID, ms: PASTE_DELAY_MS },
            ]
        } else if msg == WM_APP_STATE_CHANGED {
            seq![UiActionV::OverlayState(t), UiActionV::Tooltip(spec_state_tooltip(t))]
        } else if msg == WM_APP_INTERIM_TEXT {
            seq![UiActionV::OverlayInterim(t)]
        } else {
            Seq::empty()
        }
    }
}

/// The model of optional text.
pub open spec fn opt_text(o: Option<String>) -> Option<Seq<char>> {
    match o {
        Some(s) => Some(s@),
        None => None,
    }
}

/// Decides what a message from the core's callbacks leads to.
pub fn bridge_actions(msg: u32, text: Option<String>) -> (r: Vec<UiAction>)
    ensures
        actions_model(r@) == spec_bridge_actions(msg, opt_text(text)),
{
    let mut a: Vec<UiAction> = Vec::new();
    let t = match text {
        None => {
            assert(actions_model(a@) =~= Seq::<UiActionV>::empty());
            return a;
        },
        Some(t) => t,
    };
    let ghost tv = t@;
    if msg == WM_APP_SESSION_ERROR {
        a.push(UiAction::OverlayState(owned("error")));
        a.push(UiAction::Tooltip(owned("Koe - Error")));
        a.push(UiAction::SetTimer { id: ERROR_TIMER_ID, ms: ERROR_DISPLAY_MS });
    } else if msg == WM_APP_FINAL_TEXT {
        a.push(UiAction::OverlayState(owned("pasting")));
        a.push(UiAction::Tooltip(owned("Koe - Pasting")));
        a.push(UiAction::BackupClipboard);
        a.push(UiAction::WriteClipboard(t));
        a.push(UiAction::SetTimer { id: PASTE_TIMER_ID, ms: PASTE_DELAY_MS });
    } else if msg == WM_APP_STATE_CHANGED {
        let tip = state_tooltip(t.as_str());
        a.push(UiAction::OverlayState(t));
        a.push(UiAction::Tooltip(tip));
    } else if msg == WM_APP_INTERIM_TEXT {
        a.push(UiAction::OverlayInterim(t));
    }
    assert(actions_model(a@) =~= spec_bridge_actions(msg, Some(tv)));
    a
}

// ─── Tray ───────────────────────────────────────────────────────────

/// Whether a tray notification opens the context menu: the low 16 bits of its
/// `lParam` are a right-button release or a context-menu request.
pub open spec fn spec_tray_opens_menu(lparam: isize) -> bool {
    let event = (lparam as int) % 65536;
    event == WM_RBUTTONUP || event == WM_CONTEXTMENU
}

/// Decides whether a tray notification opens the context menu.
pub fn tray_opens_menu(lparam: isize) -> (r: bool)
    ensures
        r == spec_tray_opens_menu(lparam),
{
    let event = (lparam & 0xFFFF) as u32;
    assert((lparam & 0xFFFFisize) as int == (lparam as int) % 65536) by (bit_vector);
    event == WM_RBUTTONUP || event == WM_CONTEXTMENU
}

pub const IDM_STATUS: u32 = 1000;
pub const IDM_OPEN_CONFIG: u32 = 1001;
pub const IDM_RELOAD_CONFIG: u32 = 1002;
pub const IDM_QUIT: u32 = 1003;

/// A command of the tray menu.
#[derive(Clone, Copy, PartialEq, Eq, Structural, Debug)]
pub enum MenuCommand {
    OpenConfigFolder,
    ReloadConfig,
    Quit,
    Nothing,
}

/// The command of a menu item.
pub open spec fn spec_menu_command(cmd: u32) -> MenuCommand {
    if cmd == IDM_OPEN_CONFIG {
        MenuCommand::OpenConfigFolder
    } else if cmd == IDM_RELOAD_CONFIG {
        MenuCommand::ReloadConfig
    } else if cmd == IDM_QUIT {
        MenuCommand::Quit
    } else {
        MenuCommand::Nothing
    }
}

/// Decides the command of a menu item.
pub fn menu_command(cmd: u32) -> (r: MenuCommand)
    ensures
        r == spec_menu_command(cmd),
{
    if cmd == IDM_OPEN_CONFIG {
        MenuCommand::OpenConfigFolder
    } else if cmd == IDM_RELOAD_CONFIG {
        MenuCommand::ReloadConfig
    } else if cmd == IDM_QUIT {
        MenuCommand::Quit
    } else {
        MenuCommand::Nothing
    }
}

/// The tooltip buffer after writing text into it: the text's UTF-16 units and a NUL, cut
/// to the buffer's size; after a text that fits, the unit before the cut is NUL again.
pub open spec fn spec_tooltip_buffer(tip: Seq<u16>, units: Seq<u16>) -> Seq<u16> {
    let wide = units.push(0u16);
    let len = if wide.len() < tip.len() { wide.len() } else { tip.len() };
    let copied = wide.subrange(0, len as int) + tip.subrange(len as int, tip.len() as int);
    if len < tip.len() {
        copied.update(len - 1, 0u16)
    } else {
        copied
    }
}

/// Writes a tooltip's UTF-16 text into the tray's fixed-size tooltip buffer.
pub fn set_tooltip(tip: &mut Vec<u16>, units: &Vec<u16>)
    ensures
        final(tip)@ == spec_tooltip_buffer(old(tip)@, units@),
{
    let ghost t0 = tip@;
    let cap = tip.len();
    let wide_len = if units.len() < cap { units.len() + 1 } else { cap };
    let ghost wide = units@.push(0u16);
    assert(wide_len == if wide.len() < cap { wide.len() as int } else { cap as int });
    let mut i: usize = 0;
    while i < wide_len
        invariant
            cap == tip@.len(),
            cap == t0.len(),
            wide == units@.push(0u16),
            wide_len <= cap,
            wide_len <= wide.len(),
            i <= wide_len,
            tip@ == wide.subrange(0, i as int) + t0.subrange(i as int, cap as int),
        decreases wide_len - i,
    {
        let u = if i < units.len() { units[i] } else { 0u16 };
        tip.set(i, u);
        assert(tip@ =~= wide.subrange(0, i + 1) + t0.subrange(i + 1, cap as int));
        i = i + 1;
    }
    if wide_len < cap {
        tip.set(wide_len - 1, 0);
    }
}

// ─── Overlay ────────────────────────────────────────────────────────

/// What a session state does to the overlay: the text to show, and whether to show or
/// hide it.
#[derive(Clone, Copy, PartialEq, Eq, Structural, Debug)]
pub enum OverlayVisibility {
    Show,
    Hide,
    Keep,
}

/// What a session state does to the overlay: its text (`None`: unchanged), and whether
/// it is shown, hidden or left as it is.
pub open spec fn spec_overlay_update(state: Seq<char>) -> (Option<Seq<char>>, OverlayVisibility) {
    if state == "recording_hold"@ || state == "recording_toggle"@ || state == "recording"@ {
        (Some("Recording..."@), OverlayVisibility::Show)
    } else if state == "finalizing_asr"@ {
        (Some("Finalizing..."@), OverlayVisibility::Keep)
    } else if state == "correcting"@ {
        (Some("Correcting..."@), OverlayVisibility::Keep)
    } else if state == "pasting"@ || state == "preparing_paste"@ {
        (Some("Pasting..."@), OverlayVisibility::Keep)
    } else if state == "error"@ || state == "failed"@ {
        (Some("Error"@), OverlayVisibility::Keep)
    } else if state == "idle"@ || state == "completed"@ || state == "cancelled"@ {
        (None, OverlayVisibility::Hide)
    } else {
        (None, OverlayVisibility::Keep)
    }
}

/// Decides what a session state does to the overlay.
pub fn overlay_update(state: &str) -> (r: (Option<String>, OverlayVisibility))
    ensures
        (opt_text(r.0), r.1) == spec_overlay_update(state@),
{
    if str_eq(state, "recording_hold") || str_eq(state, "recording_toggle") || str_eq(state, "recording") {
        (Some(owned("Recording...")), OverlayVisibility::Show)
    } else if str_eq(state, "finalizing_asr") {
        (Some(owned("Finalizing...")), OverlayVisibility::Keep)
    } else if str_eq(state, "correcting") {
        (Some(owned("Correcting...")), OverlayVisibility::Keep)
    } else if str_eq(state, "pasting") || str_eq(state, "preparing_paste") {
        (Some(owned("Pasting...")), OverlayVisibility::Keep)
    } else if str_eq(state, "error") || str_eq(state, "failed") {
        (Some(owned("Error")), OverlayVisibility::Keep)
    } else if str_eq(state, "idle") || str_eq(state, "completed") || str_eq(state, "cancelled") {
        (None, OverlayVisibility::Hide)
    } else {
        (None, OverlayVisibility::Keep)
    }
}

/// The overlay's text for interim text: the text when it is not empty, else unchanged.
pub fn interim_overlay_text(text: &str) -> (r: Option<String>)
    ensures
        opt_text(r) == if text@.len() > 0 { Some(text@) } else { None::<Seq<char>> },
{
    if !text.is_empty() {
        Some(owned(text))
    } else {
        None
    }
}

/// Whether the overlay window is visible. Showing or hiding changes the window only when
/// its visibility changes; placing the window after its text is set (which the shell does
/// with `SWP_SHOWWINDOW`) shows it too, so setting text makes it visible.
#[derive(Debug, Clone, PartialEq, Eq)]
pub struct OverlayState {
    pub visible: bool,
}

/// What an overlay update asks of the shell: the text to set (setting it places and so
/// shows the window), and whether to show or hide the window.
#[derive(Debug, Clone, PartialEq, Eq)]
pub struct OverlayEffect {
    pub text: Option<String>,
    pub window: OverlayVisibility,
}

/// The model of an overlay update: the text to set, the change of the window, and the
/// visibility afterwards.
pub open spec fn spec_overlay_step(visible: bool, text: Option<Seq<char>>, vis: OverlayVisibility) -> (Option<Seq<char>>, OverlayVisibility, bool) {
    match vis {
        OverlayVisibility::Show => (text, if visible { OverlayVisibility::Keep } else { OverlayVisibility::Show }, true),
        OverlayVisibility::Hide => (text, if visible { OverlayVisibility::Hide } else { OverlayVisibility::Keep }, false),
        OverlayVisibility::Keep => (text, OverlayVisibility::Keep, visible || text is Some),
    }
}

/// What a session state does to the overlay, given whether it is visible.
pub open spec fn spec_overlay_state_step(visible: bool, state: Seq<char>) -> (Option<Seq<char>>, OverlayVisibility, bool) {
    spec_overlay_step(visible, spec_overlay_update(state).0, spec_overlay_update(state).1)
}

/// What interim text does to the overlay, given whether it is visible.
pub open spec fn spec_overlay_interim_step(visible: bool, text: Seq<char>) -> (Option<Seq<char>>, OverlayVisibility, bool) {
    spec_overlay_step(visible, if text.len() > 0 { Some(text) } else { None }, OverlayVisibility::Keep)
}

/// Whether the window is visible after the shell performs an update on a window that was
/// visible or not.
pub open spec fn window_after(visible: bool, text: Option<Seq<char>>, change: OverlayVisibility) -> bool {
    match change {
        OverlayVisibility::Hide => false,
        OverlayVisibility::Show => true,
        OverlayVisibility::Keep => visible || text is Some,
    }
}

/// The model of an effect.
pub open spec fn effect_model(e: OverlayEffect) -> (Option<Seq<char>>, OverlayVisibility) {
    (opt_text(e.text), e.window)
}

impl OverlayState {
    /// Shows the overlay; returns whether the window must be shown.
    pub fn show(&mut self) -> (changed: bool)
        ensures
            final(self).visible,
            changed == !old(self).visible,
    {
        if self.visible {
            return false;
        }
        self.visible = true;
        true
    }

    /// Hides the overlay (`hide`); returns whether the window must be hidden.
    pub fn conceal(&mut self) -> (changed: bool)
        ensures
            !final(self).visible,
            changed == old(self).visible,
    {
        if !self.visible {
            return false;
        }
        self.visible = false;
        true
    }

    /// Updates the overlay for a session state: the text to show, and the window to show
    /// or hide.
    pub fn update_state(&mut self, state: &str) -> (e: OverlayEffect)
        ensures
            ({
                let (t, w, v) = spec_overlay_state_step(old(self).visible, state@);
                &&& effect_model(e) == (t, w)
                &&& final(self).visible == v
            }),
    {
        let (text, vis) = overlay_update(state);
        let window = match vis {
            OverlayVisibility::Show => if self.show() { OverlayVisibility::Show } else { OverlayVisibility::Keep },
            OverlayVisibility::Hide => if self.conceal() { OverlayVisibility::Hide } else { OverlayVisibility::Keep },
            OverlayVisibility::Keep => {
                if text.is_some() {
                    self.visible = true;
                }
                OverlayVisibility::Keep
            },
        };
        OverlayEffect { text, window }
    }

    /// Updates the overlay for interim text: non-empty text is shown.
    pub fn update_interim_text(&mut self, text: &str) -> (e: OverlayEffect)
        ensures
            ({
                let (t, w, v) = spec_overlay_interim_step(old(self).visible, text@);
                &&& effect_model(e) == (t, w)
                &&& final(self).visible == v
            }),
    {
        let t = interim_overlay_text(text);
        if t.is_some() {
            self.visible = true;
        }
        OverlayEffect { text: t, window: OverlayVisibility::Keep }
    }
}

/// An update of the overlay.
pub enum OverlayEvent {
    /// A session state.
    State(Seq<char>),
    /// Interim text.
    Interim(Seq<char>),
}

/// One update: the text, the change of the window, and the visibility afterwards.
pub open spec fn overlay_event_step(visible: bool, e: OverlayEvent) -> (Option<Seq<char>>, OverlayVisibility, bool) {
    match e {
        OverlayEvent::State(s) => spec_overlay_state_step(visible, s),
        OverlayEvent::Interim(t) => spec_overlay_interim_step(visible, t),
    }
}

/// Whether the overlay is visible after a sequence of updates, from `visible`.
pub open spec fn overlay_after(visible: bool, events: Seq<OverlayEvent>) -> bool
    decreases events.len(),
{
    if events.len() == 0 {
        visible
    } else {
        overlay_after(overlay_event_step(visible, events[0]).2, events.drop_first())
    }
}

/// The window the shell ends up with after a sequence of updates, performing each
/// update's text and change on the window.
pub open spec fn window_run(window: bool, visible: bool, events: Seq<OverlayEvent>) -> bool
    decreases events.len(),
{
    if events.len() == 0 {
        window
    } else {
        let (t, w, v) = overlay_event_step(visible, events[0]);
        window_run(window_after(window, t, w), v, events.drop_first())
    }
}

proof fn lemma_overlay_last(visible: bool, events: Seq<OverlayEvent>)
    requires
        events.len() > 0,
    ensures
        overlay_after(visible, events) == overlay_event_step(overlay_after(visible, events.drop_last()), events.last()).2,
    decreases events.len(),
{
    let v1 = overlay_event_step(visible, events[0]).2;
    assert(overlay_after(visible, events) == overlay_after(v1, events.drop_first()));
    if events.len() == 1 {
        assert(events.drop_first().len() == 0);
        assert(events.drop_last().len() == 0);
        assert(events.last() == events[0]);
    } else {
        lemma_overlay_last(v1, events.drop_first());
        assert(events.drop_first().drop_last() =~= events.drop_last().drop_first());
        assert(events.drop_last()[0] == events[0]);
        assert(events.drop_first().last() == events.last());
        assert(overlay_after(visible, events.drop_last()) == overlay_after(v1, events.drop_last().drop_first()));
    }
}

/// The overlay's visibility follows the window: performing the updates on a window whose
/// visibility the state records leaves a window whose visibility the state still records.
pub proof fn law_overlay_tracks_window(visible: bool, events: Seq<OverlayEvent>)
    ensures
        window_run(visible, visible, events) == overlay_after(visible, events),
    decreases events.len(),
{
    if events.len() > 0 {
        let (t, w, v) = overlay_event_step(visible, events[0]);
        assert(window_after(visible, t, w) == v);
        law_overlay_tracks_window(v, events.drop_first());
    }
}

/// Whatever came before, the idle, completed and cancelled states leave the overlay
/// hidden, and the recording states leave it shown; a state that shows text leaves it
/// shown, and any other state leaves it as it was.
pub proof fn law_overlay_idle_hides(visible: bool, events: Seq<OverlayEvent>, state: Seq<char>)
    ensures
        ({
            let after = overlay_after(visible, events.push(OverlayEvent::State(state)));
            let before = overlay_after(visible, events);
            &&& (state == "idle"@ || state == "completed"@ || state == "cancelled"@) ==> !after
            &&& (state == "recording_hold"@ || state == "recording_toggle"@ || state == "recording"@) ==> after
            &&& spec_overlay_update(state).0 is Some ==> after
            &&& (spec_overlay_update(state).0 is None && spec_overlay_update(state).1 == OverlayVisibility::Keep) ==> after == before
        }),
{
    reveal_strlit("recording_hold");
    reveal_strlit("recording_toggle");
    reveal_strlit("recording");
    reveal_strlit("finalizing_asr");
    reveal_strlit("correcting");
    reveal_strlit("pasting");
    reveal_strlit("preparing_paste");
    reveal_strlit("error");
    reveal_strlit("failed");
    reveal_strlit("idle");
    reveal_strlit("completed");
    reveal_strlit("cancelled");
    let all = events.push(OverlayEvent::State(state));
    lemma_overlay_last(visible, all);
    assert(all.drop_last() =~= events);
    assert(all.last() == OverlayEvent::State(state));
    let before = overlay_after(visible, events);
    let after = overlay_after(visible, all);
    assert(after == spec_overlay_state_step(before, state).2);
    if state == "idle"@ {
        assert(state.len() == 4);
        assert(spec_overlay_update(state).1 == OverlayVisibility::Hide);
    }
    if state == "completed"@ {
        assert(state.len() == 9 && state[0] == 'c' && state[1] == 'o');
        assert(spec_overlay_update(state).1 == OverlayVisibility::Hide);
    }
    if state == "cancelled"@ {
        assert(state.len() == 9 && state[0] == 'c' && state[1] == 'a');
        assert(spec_overlay_update(state).1 == OverlayVisibility::Hide);
    }
    if state == "recording_hold"@ || state == "recording_toggle"@ || state == "recording"@ {
        assert(spec_overlay_update(state).1 == OverlayVisibility::Show);
    }
}

/// `WM_PAINT`.
pub const WM_PAINT: u32 = 0x000F;
/// `WM_NCPAINT`.
pub const WM_NCPAINT: u32 = 0x0085;
/// `WM_ERASEBKGND`.
pub const WM_ERASEBKGND: u32 = 0x0014;

/// How the overlay window answers a message.
#[derive(Clone, Copy, PartialEq, Eq, Structural, Debug)]
pub enum OverlayMessage {
    /// Paint the pill and its text; answer 0.
    Paint,
    /// No non-client painting for the borderless window: answer 0.
    SkipFrame,
    /// The background is painted with the pill: answer 1.
    SkipErase,
    /// The default window procedure.
    Default,
}

/// How the overlay window answers a message.
pub open spec fn spec_overlay_message(msg: u32) -> OverlayMessage {
    if msg == WM_PAINT {
        OverlayMessage::Paint
    } else if msg == WM_NCPAINT {
        OverlayMessage::SkipFrame
    } else if msg == WM_ERASEBKGND {
        OverlayMessage::SkipErase
    } else {
        OverlayMessage::Default
    }
}

/// Decides how the overlay window answers a message.
pub fn overlay_message(msg: u32) -> (r: OverlayMessage)
    ensures
        r == spec_overlay_message(msg),
{
    if msg == WM_PAINT {
        OverlayMessage::Paint
    } else if msg == WM_NCPAINT {
        OverlayMessage::SkipFrame
    } else if msg == WM_ERASEBKGND {
        OverlayMessage::SkipErase
    } else {
        OverlayMessage::Default
    }
}

pub const MAX_WIDTH: i32 = 600;
pub const PILL_HEIGHT: i32 = 36;
pub const PADDING_H: i32 = 16;
pub const PADDING_V: i32 = 8;
pub const BOTTOM_MARGIN: i32 = 20;

/// Integer division by two rounding toward zero, as `i32` division does.
pub open spec fn half_toward_zero(a: int) -> int {
    if a >= 0 {
        a / 2
    } else {
        -((-a) / 2)
    }
}

/// The overlay's placement for a text of width `text_cx` in a work area: the text width
/// capped at `MAX_WIDTH` less the padding, centred horizontally, `BOTTOM_MARGIN` above the
/// work area's bottom. Returns x, y, width and height.
pub open spec fn spec_overlay_geometry(text_cx: int, left: int, right: int, bottom: int) -> (int, int, int, int) {
    let text_width = if text_cx < MAX_WIDTH - PADDING_H * 2 { text_cx } else { (MAX_WIDTH - PADDING_H * 2) as int };
    let window_width = text_width + PADDING_H * 2;
    let screen_width = right - left;
    let x = left + half_toward_zero(screen_width - window_width);
    let y = bottom - PILL_HEIGHT - BOTTOM_MARGIN;
    (x, y, window_width, PILL_HEIGHT as int)
}

/// Computes the overlay's placement.
pub fn overlay_geometry(text_cx: i32, left: i32, right: i32, bottom: i32) -> (r: (i32, i32, i32, i32))
    requires
        i32::MIN <= right - left <= i32::MAX,
        ({
            let window_width = (if text_cx < MAX_WIDTH - PADDING_H * 2 { text_cx as int } else { (MAX_WIDTH - PADDING_H * 2) as int }) + PADDING_H * 2;
            let d = (right - left) - window_width;
            &&& i32::MIN < d <= i32::MAX
            &&& i32::MIN <= left + half_toward_zero(d) <= i32::MAX
        }),
        bottom - PILL_HEIGHT - BOTTOM_MARGIN >= i32::MIN,
    ensures
        (r.0 as int, r.1 as int, r.2 as int, r.3 as int) == spec_overlay_geometry(text_cx as int, left as int, right as int, bottom as int),
{
    let cap = MAX_WIDTH - PADDING_H * 2;
    let text_width = if text_cx < cap { text_cx } else { cap };
    let window_width = text_width + PADDING_H * 2;
    let screen_width = right - left;
    let d = screen_width - window_width;
    let half = if d >= 0 { d / 2 } else { -((-d) / 2) };
    let x = left + half;
    let y = bottom - PILL_HEIGHT - BOTTOM_MARGIN;
    (x, y, window_width, PILL_HEIGHT)
}

// ─── Paste ──────────────────────────────────────────────────────────

/// A key event to send: virtual key, scan code, and whether it is a release.
#[derive(Clone, Copy, PartialEq, Eq, Structural, Debug)]
pub struct KeyStroke {
    pub vk: u16,
    pub scan: u16,
    pub key_up: bool,
}

/// `VK_CONTROL`.
pub const VK_CONTROL: u16 = 0x11;
/// `VK_V`.
pub const VK_V: u16 = 0x56;

/// The key events of Ctrl+V: Ctrl down, V down, V up, Ctrl up.
pub open spec fn spec_paste_keys() -> Seq<KeyStroke> {
    seq![
        KeyStroke { vk: VK_CONTROL, scan: 0x1D, key_up: false },
        KeyStroke { vk: VK_V, scan: 0x2F, key_up: false },
        KeyStroke { vk: VK_V, scan: 0x2F, key_up: true },
        KeyStroke { vk: VK_CONTROL, scan: 0x1D, key_up: true },
    ]
}

/// The key events that paste.
pub fn paste_keys() -> (r: Vec<KeyStroke>)
    ensures
        r@ == spec_paste_keys(),
{
    let mut r: Vec<KeyStroke> = Vec::new();
    r.push(KeyStroke { vk: VK_CONTROL, scan: 0x1D, key_up: false });
    r.push(KeyStroke { vk: VK_V, scan: 0x2F, key_up: false });
    r.push(KeyStroke { vk: VK_V, scan: 0x2F, key_up: true });
    r.push(KeyStroke { vk: VK_CONTROL, scan: 0x1D, key_up: true });
    assert(r@ =~= spec_paste_keys());
    r
}

// ─── Clipboard ──────────────────────────────────────────────────────

/// Whether to put the saved clipboard text back: there is one, and the clipboard has not
/// changed since the text was written (same sequence number).
pub open spec fn spec_should_restore(has_backup: bool, current_seq: u32, written_seq: u32) -> bool {
    has_backup && current_seq == written_seq
}

/// Decides whether to restore the clipboard.
pub fn should_restore(has_backup: bool, current_seq: u32, written_seq: u32) -> (r: bool)
    ensures
        r == spec_should_restore(has_backup, current_seq, written_seq),
{
    has_backup && current_seq == written_seq
}

/// Text as UTF-16 for the clipboard: its units and a NUL.
pub fn with_nul(units: &Vec<u16>) -> (r: Vec<u16>)
    ensures
        r@ == units@.push(0u16),
{
    let mut r: Vec<u16> = Vec::new();
    let mut i: usize = 0;
    while i < units.len()
        invariant
            i <= units@.len(),
            r@ == units@.subrange(0, i as int),
        decreases units@.len() - i,
    {
        r.push(units[i]);
        assert(units@.subrange(0, i + 1) =~= units@.subrange(0, i as int).push(units@[i as int]));
        i = i + 1;
    }
    r.push(0);
    assert(units@.subrange(0, units@.len() as int) =~= units@);
    r
}

} // verus!
