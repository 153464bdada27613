use penny::toolbar::{
    click_through_offered, click_through_tooltip, escape_hint, hotkey_warning, toolbar_content,
    ToolbarContent,
};
use penny::tray::{brand_icon_rgba, TrayAction, TrayMenu, ICON_SIZE};

#[test]
fn tray_menu_choices() {
    let m = TrayMenu { toggle_id: "1000".to_string(), quit_id: "1001".to_string() };
    assert_eq!(m.action_for(&"1000".to_string()), TrayAction::ToggleOverlay);
    assert_eq!(m.action_for(&"1001".to_string()), TrayAction::Quit);
    assert_eq!(m.action_for(&"7".to_string()), TrayAction::NoAction);
}

#[test]
fn brand_icon_is_a_green_disc() {
    // the same glyph computed in floating point
    const N: i32 = 32;
    let mut expected = vec![0u8; (N * N * 4) as usize];
    let center = (N as f32 - 1.0) / 2.0;
    let radius = center - 1.0;
    for y in 0..N {
        for x in 0..N {
            let dx = x as f32 - center;
            let dy = y as f32 - center;
            if dx * dx + dy * dy <= radius * radius {
                let i = ((y * N + x) * 4) as usize;
                expected[i] = 0x34;
                expected[i + 1] = 0xc7;
                expected[i + 2] = 0x59;
                expected[i + 3] = 0xff;
            }
        }
    }
    let got = brand_icon_rgba();
    assert_eq!(ICON_SIZE, 32);
    assert_eq!(got.len(), 4096);
    assert_eq!(got, expected);
    // centre pixel is green, corner is transparent
    let c = (16 * 32 + 16) * 4;
    assert_eq!(&got[c..c + 4], &[0x34, 0xc7, 0x59, 0xff]);
    assert_eq!(&got[0..4], &[0, 0, 0, 0]);
}

#[test]
fn click_through_only_offered_with_a_way_out() {
    assert!(click_through_offered(true, false));
    assert!(click_through_offered(false, true));
    assert!(click_through_offered(true, true));
    assert!(!click_through_offered(false, false));
    assert_eq!(
        click_through_tooltip(true),
        "Click-through: pass clicks to the app underneath (Ctrl+Shift+D)"
    );
    assert_eq!(
        click_through_tooltip(false),
        "Click-through unavailable: no hotkey or tray to return from it"
    );
}

#[test]
fn escape_hints() {
    assert_eq!(escape_hint(true, true), "Ctrl+Shift+D to draw");
    assert_eq!(escape_hint(false, true), "tray menu → Toggle draw");
    assert_eq!(escape_hint(false, false), "restart to draw");
    assert_eq!(hotkey_warning(true, false), None);
    assert_eq!(
        hotkey_warning(false, true),
        Some("⚠ Ctrl+Shift+D unavailable — use the tray menu to leave click-through")
    );
    assert_eq!(
        hotkey_warning(false, false),
        Some("⚠ Ctrl+Shift+D unavailable — no way back from click-through")
    );
}

#[test]
fn tray_poll_takes_first_choice() {
    let m = TrayMenu { toggle_id: "1000".to_string(), quit_id: "1001".to_string() };
    let ids = vec!["5".to_string(), "1001".to_string(), "1000".to_string()];
    assert_eq!(m.poll(&ids), TrayAction::Quit);
    assert_eq!(m.poll(&vec!["5".to_string()]), TrayAction::NoAction);
    assert_eq!(m.poll(&Vec::new()), TrayAction::NoAction);
    assert_eq!(m.poll(&vec!["1000".to_string(), "1001".to_string()]), TrayAction::ToggleOverlay);
}

#[test]
fn toolbar_content_by_mode() {
    assert_eq!(toolbar_content(true, true, false), ToolbarContent::EscapeHint("Ctrl+Shift+D to draw"));
    assert_eq!(toolbar_content(true, false, true), ToolbarContent::EscapeHint("tray menu → Toggle draw"));
    assert_eq!(toolbar_content(false, true, false), ToolbarContent::Full);
    assert_eq!(
        toolbar_content(false, false, false),
        ToolbarContent::FullWithWarning("⚠ Ctrl+Shift+D unavailable — no way back from click-through")
    );
}
