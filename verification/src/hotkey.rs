//! The hotkey state machine: one key serves both hold-to-talk (hold past the threshold,
//! release to end) and tap-to-toggle (tap to start, press again to end); a cancel key
//! aborts a recording.
use vstd::prelude::*;
use crate::ffi::SPSessionMode;
use crate::shell::{
    HOLD_THRESHOLD_MS, HOLD_TIMER_ID, PASTE_TIMER_ID, RESTORE_DELAY_MS, RESTORE_TIMER_ID,
    ERROR_TIMER_ID, TRAILING_AUDIO_MS, TRAILING_AUDIO_TIMER_ID, UiAction, UiActionV,
    WM_APP_HOTKEY_CANCEL, WM_APP_HOTKEY_HOLD_END, WM_APP_HOTKEY_HOLD_START, WM_APP_HOTKEY_TAP_END,
    WM_APP_HOTKEY_TAP_START, actions_model, idle_actions, push_idle,
};
use crate::text::owned;

verus! {

/// The state of the hotkey.
#[derive(Clone, Copy, PartialEq, Eq, Structural, Debug)]
pub enum HotkeyState {
    /// Not recording.
    Idle,
    /// The key is down; whether it is a tap or a hold is not decided yet.
    Pending,
    /// Recording while the key is held.
    RecordingHold,
    /// Recording until the key is pressed again.
    RecordingToggle,
}

/// The number a state is stored as.
pub open spec fn spec_state_code(s: HotkeyState) -> u32 {
    match s {
        HotkeyState::Idle => 0,
        HotkeyState::Pending => 1,
        HotkeyState::RecordingHold => 2,
        HotkeyState::RecordingToggle => 3,
    }
}

/// The state a stored number stands for; unknown numbers stand for `Idle`.
pub open spec fn spec_state_from_code(c: u32) -> HotkeyState {
    if c == 1 {
        HotkeyState::Pending
    } else if c == 2 {
        HotkeyState::RecordingHold
    } else if c == 3 {
        HotkeyState::RecordingToggle
    } else {
        HotkeyState::Idle
    }
}

/// The number a state is stored as.
pub fn state_code(s: HotkeyState) -> (c: u32)
    ensures
        c == spec_state_code(s),
{
    match s {
        HotkeyState::Idle => 0,
        HotkeyState::Pending => 1,
        HotkeyState::RecordingHold => 2,
        HotkeyState::RecordingToggle => 3,
    }
}

/// The state a stored number stands for.
pub fn state_from_code(c: u32) -> (s: HotkeyState)
    ensures
        s == spec_state_from_code(c),
{
    if c == 1 {
        HotkeyState::Pending
    } else if c == 2 {
        HotkeyState::RecordingHold
    } else if c == 3 {
        HotkeyState::RecordingToggle
    } else {
        HotkeyState::Idle
    }
}

/// A stored state reads back as the same state.
pub proof fn law_state_code_roundtrip(s: HotkeyState)
    ensures
        spec_state_from_code(spec_state_code(s)) == s,
{
}

/// The kind of a keyboard event.
#[derive(Clone, Copy, PartialEq, Eq, Structural, Debug)]
pub enum KeyEdge {
    Down,
    Up,
    Other,
}

/// `WM_KEYDOWN`, `WM_KEYUP`, `WM_SYSKEYDOWN`, `WM_SYSKEYUP`.
pub const WM_KEYDOWN: usize = 0x0100;
pub const WM_KEYUP: usize = 0x0101;
pub const WM_SYSKEYDOWN: usize = 0x0104;
pub const WM_SYSKEYUP: usize = 0x0105;

/// The kind of a low-level keyboard event, from its `wParam`.
pub open spec fn spec_key_edge(wparam: usize) -> KeyEdge {
    if wparam == WM_KEYDOWN || wparam == WM_SYSKEYDOWN {
        KeyEdge::Down
    } else if wparam == WM_KEYUP || wparam == WM_SYSKEYUP {
        KeyEdge::Up
    } else {
        KeyEdge::Other
    }
}

/// Classifies a low-level keyboard event.
pub fn key_edge(wparam: usize) -> (e: KeyEdge)
    ensures
        e == spec_key_edge(wparam),
{
    if wparam == WM_KEYDOWN || wparam == WM_SYSKEYDOWN {
        KeyEdge::Down
    } else if wparam == WM_KEYUP || wparam == WM_SYSKEYUP {
        KeyEdge::Up
    } else {
        KeyEdge::Other
    }
}

/// The state of the keyboard hook: the hotkey state and whether the trigger key is down.
#[derive(Debug, Clone, PartialEq, Eq)]
pub struct HotkeyMachine {
    pub state: HotkeyState,
    pub trigger_down: bool,
}

/// What the keyboard hook does with a key event: the next state, whether the trigger is
/// down afterwards, and the actions.
pub open spec fn spec_on_key(
    state: HotkeyState,
    trigger_down: bool,
    vk: u16,
    edge: KeyEdge,
    trigger: u16,
    cancel: u16,
) -> (HotkeyState, bool, Seq<UiActionV>) {
    if vk == trigger {
        match edge {
            KeyEdge::Down => if !trigger_down && state == HotkeyState::Idle {
                (HotkeyState::Pending, true, seq![UiActionV::SetTimer { id: HOLD_TIMER_ID, ms: HOLD_THRESHOLD_MS }])
            } else if state == HotkeyState::RecordingToggle {
                (HotkeyState::Idle, true, seq![UiActionV::Post(WM_APP_HOTKEY_TAP_END)])
            } else {
                (state, true, Seq::empty())
            },
            KeyEdge::Up => if state == HotkeyState::Pending {
                (HotkeyState::RecordingToggle, false, seq![UiActionV::KillTimer(HOLD_TIMER_ID), UiActionV::Post(WM_APP_HOTKEY_TAP_START)])
            } else if state == HotkeyState::RecordingHold {
                (HotkeyState::Idle, false, seq![UiActionV::Post(WM_APP_HOTKEY_HOLD_END)])
            } else {
                (state, false, Seq::empty())
            },
            KeyEdge::Other => (state, trigger_down, Seq::empty()),
        }
    } else if vk == cancel && edge == KeyEdge::Down && (state == HotkeyState::RecordingHold || state == HotkeyState::RecordingToggle) {
        (HotkeyState::Idle, trigger_down, seq![UiActionV::Post(WM_APP_HOTKEY_CANCEL)])
    } else {
        (state, trigger_down, Seq::empty())
    }
}

/// The actions of a hotkey message.
pub open spec fn spec_message_actions(msg: u32) -> Seq<UiActionV> {
    if msg == WM_APP_HOTKEY_HOLD_START {
        seq![
            UiActionV::OverlayState("recording"@),
            UiActionV::Tooltip("Koe - Recording..."@),
            UiActionV::BeginSession(SPSessionMode::Hold),
            UiActionV::StartCapture,
        ]
    } else if msg == WM_APP_HOTKEY_HOLD_END || msg == WM_APP_HOTKEY_TAP_END {
        seq![UiActionV::SetTimer { id: TRAILING_AUDIO_TIMER_ID, ms: TRAILING_AUDIO_MS }]
    } else if msg == WM_APP_HOTKEY_TAP_START {
        seq![
            UiActionV::OverlayState("recording"@),
            UiActionV::Tooltip("Koe - Recording..."@),
            UiActionV::BeginSession(SPSessionMode::Toggle),
            UiActionV::StartCapture,
        ]
    } else if msg == WM_APP_HOTKEY_CANCEL {
        seq![UiActionV::StopCapture, UiActionV::CancelSession] + idle_actions()
    } else {
        Seq::empty()
    }
}

/// What a timer does: the next state and the actions.
pub open spec fn spec_on_timer(state: HotkeyState, id: usize) -> (HotkeyState, Seq<UiActionV>) {
    if id == HOLD_TIMER_ID {
        if state == HotkeyState::Pending {
            (HotkeyState::RecordingHold, seq![UiActionV::KillTimer(HOLD_TIMER_ID)] + spec_message_actions(WM_APP_HOTKEY_HOLD_START))
        } else {
            (state, seq![UiActionV::KillTimer(HOLD_TIMER_ID)])
        }
    } else if id == TRAILING_AUDIO_TIMER_ID {
        (state, seq![UiActionV::KillTimer(TRAILING_AUDIO_TIMER_ID), UiActionV::StopCapture, UiActionV::EndSession])
    } else if id == PASTE_TIMER_ID {
        (state, seq![
            UiActionV::KillTimer(PASTE_TIMER_ID),
            UiActionV::Paste,
            UiActionV::SetTimer { id: RESTORE_TIMER_ID, ms: RESTORE_DELAY_MS },
        ])
    } else if id == RESTORE_TIMER_ID {
        (state, seq![UiActionV::KillTimer(RESTORE_TIMER_ID), UiActionV::RestoreClipboard] + idle_actions())
    } else if id == ERROR_TIMER_ID {
        (state, seq![UiActionV::KillTimer(ERROR_TIMER_ID)] + idle_actions())
    } else {
        (state, Seq::empty())
    }
}

/// Appends the actions of a hotkey message.
fn push_message_actions(actions: &mut Vec<UiAction>, msg: u32)
    ensures
        actions_model(final(actions)@) == actions_model(old(actions)@) + spec_message_actions(msg),
{
    let ghost before = actions_model(actions@);
    if msg == WM_APP_HOTKEY_HOLD_START || msg == WM_APP_HOTKEY_TAP_START {
        let mode = if msg == WM_APP_HOTKEY_HOLD_START { SPSessionMode::Hold } else { SPSessionMode::Toggle };
        actions.push(UiAction::OverlayState(owned("recording")));
        actions.push(UiAction::Tooltip(owned("Koe - Recording...")));
        actions.push(UiAction::BeginSession(mode));
        actions.push(UiAction::StartCapture);
    } else if msg == WM_APP_HOTKEY_HOLD_END || msg == WM_APP_HOTKEY_TAP_END {
        actions.push(UiAction::SetTimer { id: TRAILING_AUDIO_TIMER_ID, ms: TRAILING_AUDIO_MS });
    } else if msg == WM_APP_HOTKEY_CANCEL {
        actions.push(UiAction::StopCapture);
        actions.push(UiAction::CancelSession);
        let ghost mid = actions_model(actions@);
        push_idle(actions);
        assert(mid =~= before + seq![UiActionV::StopCapture, UiActionV::CancelSession]);
    }
    assert(actions_model(actions@) =~= before + spec_message_actions(msg));
}

/// The actions of a hotkey message (hold start/end, tap start/end, cancel).
pub fn message_actions(msg: u32) -> (r: Vec<UiAction>)
    ensures
        actions_model(r@) == spec_message_actions(msg),
{
    let mut r: Vec<UiAction> = Vec::new();
    assert(actions_model(r@) =~= Seq::<UiActionV>::empty());
    push_message_actions(&mut r, msg);
    assert(actions_model(r@) =~= spec_message_actions(msg));
    r
}

impl HotkeyMachine {
    /// The idle machine.
    pub fn new() -> (m: Self)
        ensures
            m.state == HotkeyState::Idle,
            !m.trigger_down,
    {
        HotkeyMachine { state: HotkeyState::Idle, trigger_down: false }
    }

    /// Handles a key event of the low-level keyboard hook.
    pub fn on_key(&mut self, vk: u16, edge: KeyEdge, trigger: u16, cancel: u16) -> (r: Vec<UiAction>)
        ensures
            (final(self).state, final(self).trigger_down, actions_model(r@)) == spec_on_key(
                old(self).state,
                old(self).trigger_down,
                vk,
                edge,
                trigger,
                cancel,
            ),
    {
        let mut r: Vec<UiAction> = Vec::new();
        if vk == trigger {
            match edge {
                KeyEdge::Down => {
                    let was_down = self.trigger_down;
                    self.trigger_down = true;
                    if !was_down && self.state == HotkeyState::Idle {
                        self.state = HotkeyState::Pending;
                        r.push(UiAction::SetTimer { id: HOLD_TIMER_ID, ms: HOLD_THRESHOLD_MS });
                    } else if self.state == HotkeyState::RecordingToggle {
                        self.state = HotkeyState::Idle;
                        r.push(UiAction::Post(WM_APP_HOTKEY_TAP_END));
                    }
                },
                KeyEdge::Up => {
                    self.trigger_down = false;
                    if self.state == HotkeyState::Pending {
                        r.push(UiAction::KillTimer(HOLD_TIMER_ID));
                        self.state = HotkeyState::RecordingToggle;
                        r.push(UiAction::Post(WM_APP_HOTKEY_TAP_START));
                    } else if self.state == HotkeyState::RecordingHold {
                        self.state = HotkeyState::Idle;
                        r.push(UiAction::Post(WM_APP_HOTKEY_HOLD_END));
                    }
                },
                KeyEdge::Other => {},
            }
        } else if vk == cancel && edge == KeyEdge::Down {
            if self.state == HotkeyState::RecordingHold || self.state == HotkeyState::RecordingToggle {
                self.state = HotkeyState::Idle;
                r.push(UiAction::Post(WM_APP_HOTKEY_CANCEL));
            }
        }
        proof {
            let (_, _, a) = spec_on_key(old(self).state, old(self).trigger_down, vk, edge, trigger, cancel);
            assert(actions_model(r@) =~= a);
        }
        r
    }

    /// Handles a timer of the message window.
    pub fn on_timer(&mut self, id: usize) -> (r: Vec<UiAction>)
        ensures
            final(self).trigger_down == old(self).trigger_down,
            (final(self).state, actions_model(r@)) == spec_on_timer(old(self).state, id),
    {
        let mut r: Vec<UiAction> = Vec::new();
        if id == HOLD_TIMER_ID {
            r.push(UiAction::KillTimer(HOLD_TIMER_ID));
            if self.state == HotkeyState::Pending {
                self.state = HotkeyState::RecordingHold;
                push_message_actions(&mut r, WM_APP_HOTKEY_HOLD_START);
            }
        } else if id == TRAILING_AUDIO_TIMER_ID {
            r.push(UiAction::KillTimer(TRAILING_AUDIO_TIMER_ID));
            r.push(UiAction::StopCapture);
            r.push(UiAction::EndSession);
        } else if id == PASTE_TIMER_ID {
            r.push(UiAction::KillTimer(PASTE_TIMER_ID));
            r.push(UiAction::Paste);
            r.push(UiAction::SetTimer { id: RESTORE_TIMER_ID, ms: RESTORE_DELAY_MS });
        } else if id == RESTORE_TIMER_ID {
            r.push(UiAction::KillTimer(RESTORE_TIMER_ID));
            r.push(UiAction::RestoreClipboard);
            push_idle(&mut r);
        } else if id == ERROR_TIMER_ID {
            r.push(UiAction::KillTimer(ERROR_TIMER_ID));
            push_idle(&mut r);
        }
        proof {
            let (_, a) = spec_on_timer(old(self).state, id);
            assert(actions_model(r@) =~= a);
        }
        r
    }
}

// ─── Laws ───────────────────────────────────────────────────────────

/// A tap (press and release before the hold timer fires) from idle starts a toggle
/// recording; the next press ends it, and its release leaves the machine idle with
/// nothing more to do.
pub proof fn law_tap_toggles(trigger: u16, cancel: u16)
    ensures
        ({
            let (s1, d1, a1) = spec_on_key(HotkeyState::Idle, false, trigger, KeyEdge::Down, trigger, cancel);
            let (s2, d2, a2) = spec_on_key(s1, d1, trigger, KeyEdge::Up, trigger, cancel);
            let (s3, d3, a3) = spec_on_key(s2, d2, trigger, KeyEdge::Down, trigger, cancel);
            let (s4, d4, a4) = spec_on_key(s3, d3, trigger, KeyEdge::Up, trigger, cancel);
            &&& s4 == HotkeyState::Idle
            &&& !d4
            &&& a4 == Seq::<UiActionV>::empty()
            &&& s1 == HotkeyState::Pending
            &&& a1 == seq![UiActionV::SetTimer { id: HOLD_TIMER_ID, ms: HOLD_THRESHOLD_MS }]
            &&& s2 == HotkeyState::RecordingToggle
            &&& a2 == seq![UiActionV::KillTimer(HOLD_TIMER_ID), UiActionV::Post(WM_APP_HOTKEY_TAP_START)]
            &&& s3 == HotkeyState::Idle
            &&& a3 == seq![UiActionV::Post(WM_APP_HOTKEY_TAP_END)]
        }),
{
}

/// Holding the key past the threshold starts a hold recording; releasing it ends the
/// recording and leaves the machine idle.
pub proof fn law_hold_records_until_release(trigger: u16, cancel: u16)
    ensures
        ({
            let (s1, d1, a1) = spec_on_key(HotkeyState::Idle, false, trigger, KeyEdge::Down, trigger, cancel);
            let (s2, a2) = spec_on_timer(s1, HOLD_TIMER_ID);
            let (s3, d3, a3) = spec_on_key(s2, d1, trigger, KeyEdge::Up, trigger, cancel);
            &&& s2 == HotkeyState::RecordingHold
            &&& a2.contains(UiActionV::BeginSession(SPSessionMode::Hold))
            &&& s3 == HotkeyState::Idle
            &&& !d3
            &&& a3 == seq![UiActionV::Post(WM_APP_HOTKEY_HOLD_END)]
        }),
{
    let a2 = seq![UiActionV::KillTimer(HOLD_TIMER_ID)] + spec_message_actions(WM_APP_HOTKEY_HOLD_START);
    assert(a2[3] == UiActionV::BeginSession(SPSessionMode::Hold));
}

/// While the trigger is held down, repeated key-down events (auto-repeat) change
/// nothing and do nothing.
pub proof fn law_auto_repeat_ignored(state: HotkeyState, trigger: u16, cancel: u16)
    requires
        state != HotkeyState::RecordingToggle,
    ensures
        spec_on_key(state, true, trigger, KeyEdge::Down, trigger, cancel) == (state, true, Seq::<UiActionV>::empty()),
{
}

/// The cancel key aborts a recording, and does nothing otherwise.
pub proof fn law_cancel_only_when_recording(state: HotkeyState, down: bool, trigger: u16, cancel: u16)
    requires
        trigger != cancel,
    ensures
        ({
            let (s, d, a) = spec_on_key(state, down, cancel, KeyEdge::Down, trigger, cancel);
            if state == HotkeyState::RecordingHold || state == HotkeyState::RecordingToggle {
                s == HotkeyState::Idle && d == down && a == seq![UiActionV::Post(WM_APP_HOTKEY_CANCEL)]
            } else {
                s == state && d == down && a == Seq::<UiActionV>::empty()
            }
        }),
{
}

/// Keys other than the trigger and the cancel key never change anything.
pub proof fn law_other_keys_ignored(state: HotkeyState, down: bool, vk: u16, edge: KeyEdge, trigger: u16, cancel: u16)
    requires
        vk != trigger,
        vk != cancel,
    ensures
        spec_on_key(state, down, vk, edge, trigger, cancel) == (state, down, Seq::<UiActionV>::empty()),
{
}

/// The hold timer only turns a pending press into a hold recording; in any other state it
/// changes nothing.
pub proof fn law_hold_timer_only_from_pending(state: HotkeyState)
    ensures
        state != HotkeyState::Pending ==> spec_on_timer(state, HOLD_TIMER_ID).0 == state,
        state == HotkeyState::Pending ==> spec_on_timer(state, HOLD_TIMER_ID).0 == HotkeyState::RecordingHold,
{
}

} // verus!
