use fluidsiren::config::Config;
use fluidsiren::engine::{Command, EngineState, EngineStep};
use fluidsiren::enhance::{keeps_words, looks_like_cleanup, marked_runs, probe_url};
use fluidsiren::hotkey::{
    hotkey_settings, key_from_name, qt_keycode_for, HotkeyAction, HotkeyBackend, HotkeyKey,
    HotkeyMode, HotkeyState,
};
use fluidsiren::http::show_with_phrase;
use fluidsiren::parakeet::{ensure_model, ParakeetEvent, ParakeetStep};

fn list(words: &[&str]) -> Vec<String> {
    words.iter().map(|w| w.to_string()).collect()
}

#[test]
fn marked_characters_come_out_in_runs() {
    let cs: Vec<char> = "ab-cd--e".chars().collect();
    let marks: Vec<bool> = cs.iter().map(|c| *c != '-').collect();
    assert_eq!(marked_runs(&cs, &marks), list(&["ab", "cd", "e"]));
    assert_eq!(marked_runs(&cs, &vec![false; 8]), list(&[]));
    assert_eq!(marked_runs(&cs, &vec![true; 8]), list(&["ab-cd--e"]));
    assert_eq!(marked_runs(&vec![], &vec![]), list(&[]));
}

#[test]
fn words_are_held_against_words() {
    assert!(keeps_words(&list(&[]), &list(&["anything"])));
    assert!(!keeps_words(&list(&["a"]), &list(&[])));
    let said = list(&["a", "b", "c", "d"]);
    assert!(keeps_words(&said, &list(&["a", "b", "a", "b", "c", "d", "c", "x", "y", "z"])));
    assert!(!keeps_words(&said, &list(&["a", "b", "a", "b", "c", "d", "x", "y", "z"])));
    assert!(!keeps_words(&said, &vec!["a".to_string(); 11]));
}

#[test]
fn limits_do_not_depend_on_order() {
    assert!(looks_like_cleanup("one two three", "three two one"));
    assert!(!looks_like_cleanup("one two three", "four five six"));
}

#[test]
fn statuses_are_shown_with_a_given_phrase() {
    assert_eq!(show_with_phrase(404, Some("Not Found".to_string())), "404 Not Found");
    assert_eq!(show_with_phrase(799, None), "799 <unknown status code>");
}

#[test]
fn slashes_at_the_end_of_the_address_are_dropped() {
    for url in ["http://h:1", "http://h:1/", "http://h:1///"] {
        let cfg = Config {
            ollama_url: url.to_string(),
            ..Config::default()
        };
        assert_eq!(probe_url(&cfg), "http://h:1/api/tags");
    }
}

#[test]
fn actions_become_commands() {
    assert_eq!(HotkeyAction::Start.command(), Some(Command::Start));
    assert_eq!(HotkeyAction::Stop.command(), Some(Command::Stop));
    assert_eq!(HotkeyAction::Ignore.command(), None);
}

#[test]
fn two_presses_of_the_key_make_a_clip() {
    let mut hotkey = HotkeyState::new(HotkeyMode::Toggle);
    let mut engine = EngineState::new();
    let first = hotkey.press().command().unwrap();
    assert_eq!(engine.command(first), EngineStep::OpenMicrophone);
    engine.microphone(Ok(()));
    let second = hotkey.press().command().unwrap();
    assert_eq!(engine.command(second), EngineStep::ProcessRecording);
    assert_eq!(hotkey, HotkeyState::new(HotkeyMode::Toggle));
}

#[test]
fn default_hotkey_suits_both_listeners() {
    let cfg = Config::default();
    assert_eq!(hotkey_settings(&cfg), (HotkeyMode::Toggle, HotkeyBackend::Auto));
    assert_eq!(key_from_name(&cfg.hotkey_key), Some(HotkeyKey::F12));
    assert_eq!(qt_keycode_for(&cfg.hotkey_key), Some(0x0100_003B));
}

#[test]
fn parakeet_is_ready_only_when_found() {
    let ready = Ok(ParakeetStep::Ready);
    assert_eq!(ensure_model(ParakeetEvent::Looked { found: true }), ready);
    assert_eq!(ensure_model(ParakeetEvent::LookedAgain { found: true }), ready);
    assert_ne!(ensure_model(ParakeetEvent::Answered { status: 200 }), ready);
    assert_ne!(ensure_model(ParakeetEvent::Extracted { succeeded: true }), ready);
}

#[test]
fn key_prefix_changes_nothing() {
    for name in ["f5", "RCTRL", "caps ", "", "nothing"] {
        let long = format!("KEY_{name}");
        assert_eq!(key_from_name(&long), key_from_name(name));
    }
    assert_eq!(key_from_name("KEY_KEY_F1"), None);
}

#[test]
fn mode_words_are_parted_by_any_mark() {
    for name in ["push-to-talk", "Push To Talk", " PUSH_to-talk "] {
        assert_eq!(name.parse::<HotkeyMode>().unwrap(), HotkeyMode::PushToTalk);
    }
    for name in ["Portal", "XDG ", "GlobalShortcuts"] {
        assert_eq!(name.parse::<HotkeyBackend>().unwrap(), HotkeyBackend::Portal);
    }
}
