use koe::shell::{overlay_message, OverlayMessage};
use koe::ffi::SPSessionMode;
use koe::shell::{
    bridge_actions, interim_overlay_text, menu_command, overlay_geometry, overlay_update, paste_keys, route_message,
    set_tooltip, should_restore, state_tooltip, tray_opens_menu, with_nul, KeyStroke, MenuCommand, OverlayEffect, OverlayState,
    OverlayVisibility, Route, UiAction,
};

#[test]
fn routes() {
    assert_eq!(route_message(0x8001), Route::Bridge);
    assert_eq!(route_message(0x8006), Route::Bridge);
    assert_eq!(route_message(0x8064), Route::Tray);
    assert_eq!(route_message(0x0113), Route::Timer);
    assert_eq!(route_message(0x8032), Route::Hotkey);
    assert_eq!(route_message(0x8036), Route::Hotkey);
    assert_eq!(route_message(0x0002), Route::Quit);
    assert_eq!(route_message(0x8007), Route::Default);
    assert_eq!(route_message(0x8037), Route::Default);
}

#[test]
fn tooltips() {
    assert_eq!(state_tooltip("recording_hold"), "Koe - Recording...");
    assert_eq!(state_tooltip("recording_toggle"), "Koe - Recording...");
    assert_eq!(state_tooltip("correcting"), "Koe - Processing...");
    assert_eq!(state_tooltip("finalizing_asr"), "Koe - Processing...");
    assert_eq!(state_tooltip("preparing_paste"), "Koe - Pasting");
    assert_eq!(state_tooltip("completed"), "Koe - Idle");
    assert_eq!(state_tooltip("failed"), "Koe - Error");
    assert_eq!(state_tooltip("whatever"), "Koe");
}

#[test]
fn bridge_messages() {
    assert!(bridge_actions(0x8001, Some(String::new())).is_empty());
    assert!(bridge_actions(0x8002, None).is_empty());
    assert_eq!(
        bridge_actions(0x8002, Some("boom".into())),
        vec![
            UiAction::OverlayState("error".into()),
            UiAction::Tooltip("Koe - Error".into()),
            UiAction::SetTimer { id: 200, ms: 2000 },
        ]
    );
    assert!(bridge_actions(0x8003, Some("warn".into())).is_empty());
    assert_eq!(
        bridge_actions(0x8004, Some("final text".into())),
        vec![
            UiAction::OverlayState("pasting".into()),
            UiAction::Tooltip("Koe - Pasting".into()),
            UiAction::BackupClipboard,
            UiAction::WriteClipboard("final text".into()),
            UiAction::SetTimer { id: 100, ms: 50 },
        ]
    );
    assert_eq!(
        bridge_actions(0x8005, Some("correcting".into())),
        vec![UiAction::OverlayState("correcting".into()), UiAction::Tooltip("Koe - Processing...".into())]
    );
    assert_eq!(bridge_actions(0x8006, Some("par".into())), vec![UiAction::OverlayInterim("par".into())]);
}

#[test]
fn tray_and_menu() {
    assert!(tray_opens_menu(0x0205));
    assert!(tray_opens_menu(0x007B));
    assert!(tray_opens_menu(0x1_0205));
    assert!(!tray_opens_menu(0x0202));
    assert_eq!(menu_command(1001), MenuCommand::OpenConfigFolder);
    assert_eq!(menu_command(1002), MenuCommand::ReloadConfig);
    assert_eq!(menu_command(1003), MenuCommand::Quit);
    assert_eq!(menu_command(1000), MenuCommand::Nothing);
}

#[test]
fn tooltip_buffer() {
    let mut tip = vec![7u16; 8];
    set_tooltip(&mut tip, &"Koe".encode_utf16().collect());
    assert_eq!(tip, vec![75, 111, 101, 0, 7, 7, 7, 7]);
    let mut tip = vec![7u16; 4];
    set_tooltip(&mut tip, &"Koe - Idle".encode_utf16().collect());
    assert_eq!(tip, vec![75, 111, 101, 32]);
    let mut tip = vec![7u16; 4];
    set_tooltip(&mut tip, &"abc".encode_utf16().collect());
    assert_eq!(tip, vec![97, 98, 99, 0]);
}

#[test]
fn overlay_states() {
    assert_eq!(overlay_update("recording"), (Some("Recording...".to_string()), OverlayVisibility::Show));
    assert_eq!(overlay_update("recording_hold"), (Some("Recording...".to_string()), OverlayVisibility::Show));
    assert_eq!(overlay_update("finalizing_asr"), (Some("Finalizing...".to_string()), OverlayVisibility::Keep));
    assert_eq!(overlay_update("correcting"), (Some("Correcting...".to_string()), OverlayVisibility::Keep));
    assert_eq!(overlay_update("preparing_paste"), (Some("Pasting...".to_string()), OverlayVisibility::Keep));
    assert_eq!(overlay_update("failed"), (Some("Error".to_string()), OverlayVisibility::Keep));
    assert_eq!(overlay_update("cancelled"), (None, OverlayVisibility::Hide));
    assert_eq!(overlay_update("unknown"), (None, OverlayVisibility::Keep));
    assert_eq!(interim_overlay_text(""), None);
    assert_eq!(interim_overlay_text("hi"), Some("hi".to_string()));
}

#[test]
fn overlay_idle_hides_after_text() {
    let mut o = OverlayState { visible: false };
    let e = o.update_state("finalizing_asr");
    assert_eq!(e, OverlayEffect { text: Some("Finalizing...".into()), window: OverlayVisibility::Keep });
    assert!(o.visible);
    let e = o.update_state("idle");
    assert_eq!(e, OverlayEffect { text: None, window: OverlayVisibility::Hide });
    assert!(!o.visible);
    let e = o.update_state("idle");
    assert_eq!(e, OverlayEffect { text: None, window: OverlayVisibility::Keep });
    let e = o.update_state("recording");
    assert_eq!(e, OverlayEffect { text: Some("Recording...".into()), window: OverlayVisibility::Show });
    let e = o.update_state("recording_toggle");
    assert_eq!(e, OverlayEffect { text: Some("Recording...".into()), window: OverlayVisibility::Keep });
    let e = o.update_state("whatever");
    assert_eq!(e, OverlayEffect { text: None, window: OverlayVisibility::Keep });
    assert!(o.visible);
    let e = o.update_state("cancelled");
    assert_eq!(e.window, OverlayVisibility::Hide);
    let e = o.update_interim_text("");
    assert_eq!(e, OverlayEffect { text: None, window: OverlayVisibility::Keep });
    assert!(!o.visible);
    let e = o.update_interim_text("hello");
    assert_eq!(e, OverlayEffect { text: Some("hello".into()), window: OverlayVisibility::Keep });
    assert!(o.visible);
    assert_eq!(o.update_state("completed").window, OverlayVisibility::Hide);
}

#[test]
fn overlay_visibility_changes_once() {
    let mut o = OverlayState { visible: false };
    assert!(o.show());
    assert!(!o.show());
    assert!(o.conceal());
    assert!(!o.conceal());
}

#[test]
fn overlay_placement() {
    assert_eq!(overlay_geometry(100, 0, 1920, 1040), (894, 984, 132, 36));
    assert_eq!(overlay_geometry(5000, 0, 1920, 1040), (660, 984, 600, 36));
    // An odd negative difference rounds toward zero.
    assert_eq!(overlay_geometry(100, 0, 1, 100), (-65, 44, 132, 36));
}

#[test]
fn paste_sequence() {
    assert_eq!(
        paste_keys(),
        vec![
            KeyStroke { vk: 0x11, scan: 0x1D, key_up: false },
            KeyStroke { vk: 0x56, scan: 0x2F, key_up: false },
            KeyStroke { vk: 0x56, scan: 0x2F, key_up: true },
            KeyStroke { vk: 0x11, scan: 0x1D, key_up: true },
        ]
    );
}

#[test]
fn clipboard_decisions() {
    assert!(should_restore(true, 5, 5));
    assert!(!should_restore(true, 6, 5));
    assert!(!should_restore(false, 5, 5));
    assert_eq!(with_nul(&vec![104, 105]), vec![104, 105, 0]);
    let _ = SPSessionMode::Hold;
}

#[test]
fn overlay_messages() {
    assert_eq!(overlay_message(0x000F), OverlayMessage::Paint);
    assert_eq!(overlay_message(0x0085), OverlayMessage::SkipFrame);
    assert_eq!(overlay_message(0x0014), OverlayMessage::SkipErase);
    assert_eq!(overlay_message(0x0001), OverlayMessage::Default);
}
