use std::str::FromStr;

use evdev::{AttributeSet, Key};
use fluidsiren::config::Config;
use fluidsiren::hotkey::{
    evdev_ready, first_listener, has_key, hotkey_changed, hotkey_settings, key_from_name,
    next_listener, portal_shortcut_call, portal_trigger, qt_keycode_for, HotkeyAction,
    HotkeyBackend, HotkeyError, HotkeyKey, HotkeyMode, HotkeyState, Listener, PortalEvent,
    DEFAULT_KEY, SHORTCUT_ID,
};

#[test]
fn modes_by_name() {
    for name in ["toggle", " Toggle\n", "TOGGLE"] {
        assert_eq!(HotkeyMode::from_str(name).unwrap(), HotkeyMode::Toggle);
    }
    for name in ["push_to_talk", "Push-To-Talk", "push to talk", "ptt", "HOLD"] {
        assert_eq!(name.parse::<HotkeyMode>().unwrap(), HotkeyMode::PushToTalk);
    }
    let wrong = HotkeyMode::from_str(" Double-Tap ").unwrap_err();
    assert!(matches!(&wrong, HotkeyError::UnknownMode(name) if name == "double_tap"));
    assert_eq!(
        wrong.message(),
        "unknown hotkey mode 'double_tap' (use 'toggle' or 'push_to_talk')"
    );
    assert_eq!(HotkeyMode::default(), HotkeyMode::Toggle);
}

#[test]
fn backends_by_name() {
    for (name, backend) in [
        ("auto", HotkeyBackend::Auto),
        ("", HotkeyBackend::Auto),
        ("  ", HotkeyBackend::Auto),
        ("Portal", HotkeyBackend::Portal),
        ("xdg", HotkeyBackend::Portal),
        ("GlobalShortcuts", HotkeyBackend::Portal),
        ("evdev", HotkeyBackend::Evdev),
        (" INPUT ", HotkeyBackend::Evdev),
    ] {
        assert_eq!(HotkeyBackend::from_str(name).unwrap(), backend);
    }
    let wrong = HotkeyBackend::from_str("X-11").unwrap_err();
    assert_eq!(
        wrong.message(),
        "unknown hotkey backend 'x-11' (use 'auto', 'portal' or 'evdev')"
    );
    assert_eq!(HotkeyBackend::default(), HotkeyBackend::Auto);
}

#[test]
fn every_key_name_has_the_code_of_its_key() {
    for (names, key) in [
        (vec!["F1"], Key::KEY_F1),
        (vec!["F2"], Key::KEY_F2),
        (vec!["F3"], Key::KEY_F3),
        (vec!["F4"], Key::KEY_F4),
        (vec!["F5"], Key::KEY_F5),
        (vec!["F6"], Key::KEY_F6),
        (vec!["F7"], Key::KEY_F7),
        (vec!["F8"], Key::KEY_F8),
        (vec!["F9"], Key::KEY_F9),
        (vec!["F10"], Key::KEY_F10),
        (vec!["F11"], Key::KEY_F11),
        (vec!["F12", "KEY_F12", "key_f12", " f12 "], Key::KEY_F12),
        (vec!["RIGHTCTRL", "RCTRL"], Key::KEY_RIGHTCTRL),
        (vec!["LEFTCTRL", "LCTRL"], Key::KEY_LEFTCTRL),
        (vec!["RIGHTALT", "RALT", "ALTGR"], Key::KEY_RIGHTALT),
        (vec!["LEFTALT", "LALT"], Key::KEY_LEFTALT),
        (vec!["RIGHTSHIFT", "RSHIFT"], Key::KEY_RIGHTSHIFT),
        (vec!["LEFTSHIFT", "LSHIFT"], Key::KEY_LEFTSHIFT),
        (vec!["RIGHTMETA", "RMETA", "RSUPER", "RWIN"], Key::KEY_RIGHTMETA),
        (vec!["LEFTMETA", "LMETA", "LSUPER", "LWIN", "SUPER"], Key::KEY_LEFTMETA),
        (vec!["CAPSLOCK", "CAPS"], Key::KEY_CAPSLOCK),
        (vec!["KEY_SCROLLLOCK"], Key::KEY_SCROLLLOCK),
        (vec!["KEY_PAUSE"], Key::KEY_PAUSE),
        (vec!["INSERT", "ins"], Key::KEY_INSERT),
        (vec!["MENU", "Compose"], Key::KEY_COMPOSE),
    ] {
        for name in names {
            assert_eq!(key_from_name(name).unwrap().code(), key.code(), "{name}");
        }
    }
    for name in ["F13", "", "KEY_", "KEY_KEY_F1", "A", "F 1"] {
        assert!(key_from_name(name).is_none(), "{name}");
    }
}

#[test]
fn qt_codes_of_function_keys() {
    assert_eq!(qt_keycode_for("KEY_F1"), Some(0x0100_0030));
    assert_eq!(qt_keycode_for("F12"), Some(0x0100_003b));
    assert_eq!(qt_keycode_for("F24"), Some(0x0100_0047));
    assert_eq!(qt_keycode_for("F+7"), Some(0x0100_0036));
    assert_eq!(qt_keycode_for("F007"), Some(0x0100_0036));
    for name in ["F0", "F25", "F-1", "F", "F1x", "f1", "KEY_PAUSE", "F99999999999", ""] {
        assert_eq!(qt_keycode_for(name), None, "{name}");
    }
}

#[test]
fn portal_shortcut_is_bound_with_gdbus() {
    assert_eq!(
        portal_shortcut_call("KEY_F12").unwrap(),
        vec![
            "call",
            "--session",
            "--dest",
            "org.kde.kglobalaccel",
            "--object-path",
            "/kglobalaccel",
            "--method",
            "org.kde.KGlobalAccel.setForeignShortcut",
            "['dev.altic.FluidSiren','toggle_dictation','FluidSiren','Toggle / hold FluidSiren dictation']",
            "[16777275]",
        ]
    );
    assert!(portal_shortcut_call("KEY_PAUSE").is_none());
    assert_eq!(portal_trigger("KEY_F12"), "F12");
    assert_eq!(portal_trigger("F12"), "F12");
}

#[test]
fn only_devices_with_the_key_are_read() {
    let mut keys = AttributeSet::<Key>::new();
    assert!(!has_key(Some(&keys), HotkeyKey::F12));
    keys.insert(Key::KEY_F12);
    assert!(has_key(Some(&keys), HotkeyKey::F12));
    assert!(!has_key(Some(&keys), HotkeyKey::F11));
    assert!(!has_key(None, HotkeyKey::F12));
}

#[test]
fn listening_needs_a_known_key_and_a_device() {
    assert_eq!(evdev_ready("KEY_PAUSE", 2).unwrap(), HotkeyKey::Pause);
    assert_eq!(
        evdev_ready("KEY_A", 2).unwrap_err().message(),
        "unknown evdev key name 'KEY_A'"
    );
    assert_eq!(
        evdev_ready("KEY_F12", 0).unwrap_err().message(),
        "no readable input device exposes KEY_F12. Add yourself to the 'input' group (sudo usermod -aG input $USER) and re-login, or pick a key your keyboard has."
    );
}

#[test]
fn toggle_starts_and_stops() {
    let mut state = HotkeyState::new(HotkeyMode::Toggle);
    let code = HotkeyKey::F12.code();
    let mut press = |value| state.evdev_event(HotkeyKey::F12, 1, code, value);
    assert_eq!(press(1), HotkeyAction::Start);
    assert_eq!(press(2), HotkeyAction::Ignore);
    assert_eq!(press(0), HotkeyAction::Ignore);
    assert_eq!(press(1), HotkeyAction::Stop);
    assert_eq!(press(0), HotkeyAction::Ignore);
    assert_eq!(press(1), HotkeyAction::Start);
}

#[test]
fn push_to_talk_records_while_held() {
    let mut state = HotkeyState::new(HotkeyMode::PushToTalk);
    let code = HotkeyKey::F12.code();
    let mut event = |value| state.evdev_event(HotkeyKey::F12, 1, code, value);
    assert_eq!(event(1), HotkeyAction::Start);
    assert_eq!(event(2), HotkeyAction::Ignore);
    assert_eq!(event(0), HotkeyAction::Stop);
}

#[test]
fn other_keys_and_event_types_are_ignored() {
    let mut state = HotkeyState::new(HotkeyMode::Toggle);
    let code = HotkeyKey::F12.code();
    for event_type in [0, 2, 4, 0x11] {
        assert_eq!(
            state.evdev_event(HotkeyKey::F12, event_type, code, 1),
            HotkeyAction::Ignore
        );
    }
    assert_eq!(
        state.evdev_event(HotkeyKey::F12, 1, code + 1, 1),
        HotkeyAction::Ignore
    );
    assert!(!state.recording);
}

#[test]
fn portal_signals_drive_the_same_state() {
    let ours = || Some(SHORTCUT_ID.to_string());
    let other = || Some("something_else".to_string());
    let mut state = HotkeyState::new(HotkeyMode::Toggle);
    assert_eq!(
        state.portal_event(&PortalEvent::Activated(ours())),
        Some(HotkeyAction::Start)
    );
    assert_eq!(
        state.portal_event(&PortalEvent::Deactivated(ours())),
        Some(HotkeyAction::Ignore)
    );
    assert_eq!(
        state.portal_event(&PortalEvent::Activated(other())),
        Some(HotkeyAction::Ignore)
    );
    assert_eq!(
        state.portal_event(&PortalEvent::Activated(ours())),
        Some(HotkeyAction::Stop)
    );
    let mut held = HotkeyState::new(HotkeyMode::PushToTalk);
    assert_eq!(
        held.portal_event(&PortalEvent::Activated(ours())),
        Some(HotkeyAction::Start)
    );
    assert_eq!(
        held.portal_event(&PortalEvent::Deactivated(other())),
        Some(HotkeyAction::Ignore)
    );
    assert_eq!(
        held.portal_event(&PortalEvent::Deactivated(ours())),
        Some(HotkeyAction::Stop)
    );
    for end in [
        PortalEvent::Shutdown,
        PortalEvent::Activated(None),
        PortalEvent::Deactivated(None),
    ] {
        assert_eq!(held.portal_event(&end), None);
    }
}

#[test]
fn automatic_backend_falls_back_to_the_portal() {
    assert_eq!(first_listener(HotkeyBackend::Auto), Listener::Evdev);
    assert_eq!(first_listener(HotkeyBackend::Evdev), Listener::Evdev);
    assert_eq!(first_listener(HotkeyBackend::Portal), Listener::Portal);
    let next = |backend, tried, failed, running| next_listener(backend, tried, failed, running);
    assert_eq!(
        next(HotkeyBackend::Auto, Listener::Evdev, true, true),
        Some(Listener::Portal)
    );
    assert_eq!(next(HotkeyBackend::Auto, Listener::Evdev, true, false), None);
    assert_eq!(next(HotkeyBackend::Auto, Listener::Evdev, false, true), None);
    assert_eq!(next(HotkeyBackend::Auto, Listener::Portal, true, true), None);
    assert_eq!(next(HotkeyBackend::Evdev, Listener::Evdev, true, true), None);
    assert_eq!(next(HotkeyBackend::Portal, Listener::Portal, true, true), None);
}

#[test]
fn settings_name_the_hotkey() {
    let mut cfg = Config::default();
    assert_eq!(
        hotkey_settings(&cfg),
        (HotkeyMode::Toggle, HotkeyBackend::Auto)
    );
    assert_eq!(cfg.hotkey_key, DEFAULT_KEY);
    assert_eq!(key_from_name(&cfg.hotkey_key), Some(HotkeyKey::F12));
    cfg.hotkey_mode = "hold".to_string();
    cfg.hotkey_backend = "input".to_string();
    assert_eq!(
        hotkey_settings(&cfg),
        (HotkeyMode::PushToTalk, HotkeyBackend::Evdev)
    );
    cfg.hotkey_mode = "?".to_string();
    cfg.hotkey_backend = "?".to_string();
    assert_eq!(
        hotkey_settings(&cfg),
        (HotkeyMode::Toggle, HotkeyBackend::Auto)
    );
}

#[test]
fn hotkey_is_bound_anew_only_when_it_changes() {
    let base = Config::default();
    let mut latest = base.clone();
    latest.enhance = true;
    latest.language = "auto".to_string();
    assert!(!hotkey_changed(&base, &latest));
    for field in 0..3 {
        let mut changed = base.clone();
        match field {
            0 => changed.hotkey_key = "KEY_F9".to_string(),
            1 => changed.hotkey_mode = "hold".to_string(),
            _ => changed.hotkey_backend = "portal".to_string(),
        }
        assert!(hotkey_changed(&base, &changed));
    }
}
