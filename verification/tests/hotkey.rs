use koe::ffi::SPSessionMode;
use koe::hotkey::{key_edge, message_actions, state_code, state_from_code, HotkeyMachine, HotkeyState, KeyEdge};
use koe::shell::UiAction;

const TRIGGER: u16 = 0xA5;
const CANCEL: u16 = 0x1B;

#[test]
fn state_codes() {
    for s in [HotkeyState::Idle, HotkeyState::Pending, HotkeyState::RecordingHold, HotkeyState::RecordingToggle] {
        assert_eq!(state_from_code(state_code(s)), s);
    }
    assert_eq!(state_code(HotkeyState::RecordingToggle), 3);
    assert_eq!(state_from_code(9), HotkeyState::Idle);
}

#[test]
fn key_edges() {
    assert_eq!(key_edge(0x100), KeyEdge::Down);
    assert_eq!(key_edge(0x104), KeyEdge::Down);
    assert_eq!(key_edge(0x101), KeyEdge::Up);
    assert_eq!(key_edge(0x105), KeyEdge::Up);
    assert_eq!(key_edge(0x102), KeyEdge::Other);
}

#[test]
fn tap_starts_and_second_press_ends() {
    let mut m = HotkeyMachine::new();
    assert_eq!(m.on_key(TRIGGER, KeyEdge::Down, TRIGGER, CANCEL), vec![UiAction::SetTimer { id: 300, ms: 500 }]);
    assert_eq!(m.state, HotkeyState::Pending);
    assert_eq!(m.on_key(TRIGGER, KeyEdge::Up, TRIGGER, CANCEL), vec![UiAction::KillTimer(300), UiAction::Post(0x8034)]);
    assert_eq!(m.state, HotkeyState::RecordingToggle);
    assert_eq!(m.on_key(TRIGGER, KeyEdge::Down, TRIGGER, CANCEL), vec![UiAction::Post(0x8035)]);
    assert_eq!(m.state, HotkeyState::Idle);
    // Auto-repeat and the release after ending are ignored.
    assert!(m.on_key(TRIGGER, KeyEdge::Down, TRIGGER, CANCEL).is_empty());
    assert!(m.on_key(TRIGGER, KeyEdge::Up, TRIGGER, CANCEL).is_empty());
    assert_eq!(m.state, HotkeyState::Idle);
    assert!(!m.trigger_down);
}

#[test]
fn hold_starts_and_release_ends() {
    let mut m = HotkeyMachine::new();
    m.on_key(TRIGGER, KeyEdge::Down, TRIGGER, CANCEL);
    assert_eq!(
        m.on_timer(300),
        vec![
            UiAction::KillTimer(300),
            UiAction::OverlayState("recording".into()),
            UiAction::Tooltip("Koe - Recording...".into()),
            UiAction::BeginSession(SPSessionMode::Hold),
            UiAction::StartCapture,
        ]
    );
    assert_eq!(m.state, HotkeyState::RecordingHold);
    assert!(m.on_key(TRIGGER, KeyEdge::Down, TRIGGER, CANCEL).is_empty());
    assert_eq!(m.on_key(TRIGGER, KeyEdge::Up, TRIGGER, CANCEL), vec![UiAction::Post(0x8033)]);
    assert_eq!(m.state, HotkeyState::Idle);
    assert_eq!(m.on_timer(300), vec![UiAction::KillTimer(300)]);
    assert_eq!(m.state, HotkeyState::Idle);
}

#[test]
fn cancel_key() {
    let mut m = HotkeyMachine::new();
    assert!(m.on_key(CANCEL, KeyEdge::Down, TRIGGER, CANCEL).is_empty());
    m.on_key(TRIGGER, KeyEdge::Down, TRIGGER, CANCEL);
    m.on_key(TRIGGER, KeyEdge::Up, TRIGGER, CANCEL);
    assert!(m.on_key(CANCEL, KeyEdge::Up, TRIGGER, CANCEL).is_empty());
    assert_eq!(m.on_key(CANCEL, KeyEdge::Down, TRIGGER, CANCEL), vec![UiAction::Post(0x8036)]);
    assert_eq!(m.state, HotkeyState::Idle);
    assert!(m.on_key(0x41, KeyEdge::Down, TRIGGER, CANCEL).is_empty());
}

#[test]
fn timers() {
    let mut m = HotkeyMachine::new();
    assert_eq!(m.on_timer(301), vec![UiAction::KillTimer(301), UiAction::StopCapture, UiAction::EndSession]);
    assert_eq!(m.on_timer(100), vec![UiAction::KillTimer(100), UiAction::Paste, UiAction::SetTimer { id: 101, ms: 1500 }]);
    assert_eq!(
        m.on_timer(101),
        vec![
            UiAction::KillTimer(101),
            UiAction::RestoreClipboard,
            UiAction::OverlayState("idle".into()),
            UiAction::Tooltip("Koe - Idle".into()),
        ]
    );
    assert_eq!(
        m.on_timer(200),
        vec![UiAction::KillTimer(200), UiAction::OverlayState("idle".into()), UiAction::Tooltip("Koe - Idle".into())]
    );
    assert!(m.on_timer(7).is_empty());
}

#[test]
fn hotkey_messages() {
    assert_eq!(
        message_actions(0x8034),
        vec![
            UiAction::OverlayState("recording".into()),
            UiAction::Tooltip("Koe - Recording...".into()),
            UiAction::BeginSession(SPSessionMode::Toggle),
            UiAction::StartCapture,
        ]
    );
    assert_eq!(message_actions(0x8033), vec![UiAction::SetTimer { id: 301, ms: 300 }]);
    assert_eq!(message_actions(0x8035), vec![UiAction::SetTimer { id: 301, ms: 300 }]);
    assert_eq!(
        message_actions(0x8036),
        vec![
            UiAction::StopCapture,
            UiAction::CancelSession,
            UiAction::OverlayState("idle".into()),
            UiAction::Tooltip("Koe - Idle".into()),
        ]
    );
    assert!(message_actions(0x8037).is_empty());
}
