use fluidsiren::config::Config;
use fluidsiren::engine::{
    begin_clip, end_clip, transcribed, types_text, Command, EngineEvent, EngineState, EngineStep,
};
use fluidsiren::overlay::{
    follow, initial_mode, read_message, Message, Mode, OverlayController, OverlayStep, Spawned,
};
use fluidsiren::ui::{
    activate, captured, menu, overlay_change, persist_settings, settings_form, tray_state,
    MenuAction, MenuEntry, OverlayChange, TrayState,
};

#[test]
fn start_and_stop_process_a_recording() {
    let mut state = EngineState::new();
    assert_eq!(state.command(Command::Stop), EngineStep::ReplyEmpty);
    assert_eq!(state.command(Command::Start), EngineStep::OpenMicrophone);
    assert!(matches!(state.microphone(Ok(())), EngineEvent::Recording));
    assert_eq!(state.command(Command::Process), EngineStep::ProcessClip);
    assert_eq!(state.command(Command::Stop), EngineStep::ProcessRecording);
    assert_eq!(state.command(Command::Stop), EngineStep::ReplyEmpty);
    assert_eq!(state.command(Command::Shutdown), EngineStep::Exit);
}

#[test]
fn failing_microphone_is_reported_and_keeps_the_recording() {
    let mut state = EngineState::new();
    let failed = state.microphone(Err("no device".to_string()));
    assert!(matches!(failed, EngineEvent::Error(m) if m == "no device"));
    assert!(!state.recording);
    state.microphone(Ok(()));
    state.microphone(Err("busy".to_string()));
    assert!(state.recording);
}

#[test]
fn failed_transcription_ends_the_clip() {
    assert!(matches!(begin_clip(), EngineEvent::Processing));
    let end = transcribed(Err("bad audio".to_string())).unwrap_err();
    assert_eq!(end.text, "");
    assert_eq!(end.events.len(), 2);
    assert!(matches!(&end.events[0], EngineEvent::Error(m) if m == "transcription failed: bad audio"));
    assert!(matches!(end.events[1], EngineEvent::Idle));
    assert_eq!(transcribed(Ok("hi".to_string())).unwrap(), "hi");
}

#[test]
fn finished_clip_reports_its_transcript() {
    for typed in [None, Some(Ok(()))] {
        let end = end_clip("hi".to_string(), typed);
        assert_eq!(end.text, "hi");
        assert_eq!(end.events.len(), 2);
        assert!(matches!(&end.events[0], EngineEvent::Transcript(t) if t == "hi"));
        assert!(matches!(end.events[1], EngineEvent::Idle));
    }
    let end = end_clip("hi".to_string(), Some(Err("no uinput".to_string())));
    assert_eq!(end.text, "hi");
    assert_eq!(end.events.len(), 3);
    assert!(matches!(&end.events[0], EngineEvent::Error(m) if m == "injection failed: no uinput"));
    assert!(matches!(&end.events[1], EngineEvent::Transcript(t) if t == "hi"));
    assert!(matches!(end.events[2], EngineEvent::Idle));
    assert_eq!(tray_state(&end.events[2]), TrayState::Idle);
    assert_eq!(overlay_change(&end.events[2]), OverlayChange::Hide);
}

#[test]
fn only_text_is_typed_and_only_where_typing_works() {
    assert!(types_text(true, "hi"));
    assert!(!types_text(true, ""));
    assert!(!types_text(false, "hi"));
}

#[test]
fn tray_and_overlay_follow_the_events() {
    for (event, tray, overlay) in [
        (EngineEvent::Recording, TrayState::Recording, OverlayChange::ShowRecording),
        (EngineEvent::Processing, TrayState::Processing, OverlayChange::SetTranscribing),
        (
            EngineEvent::Transcript("x".to_string()),
            TrayState::Processing,
            OverlayChange::Keep,
        ),
        (EngineEvent::Idle, TrayState::Idle, OverlayChange::Hide),
        (EngineEvent::Error("x".to_string()), TrayState::Idle, OverlayChange::Hide),
    ] {
        assert_eq!(tray_state(&event), tray);
        assert_eq!(overlay_change(&event.clone()), overlay);
    }
}

#[test]
fn tray_labels_and_icons() {
    assert_eq!(TrayState::Idle.label(), "Idle");
    assert_eq!(TrayState::Recording.label(), "Recording");
    assert_eq!(TrayState::Processing.label(), "Transcribing");
    assert_eq!(TrayState::Idle.icon(), "audio-input-microphone");
    assert_eq!(TrayState::Recording.icon(), "media-record");
    assert_eq!(TrayState::Processing.icon(), "view-refresh");
    assert_eq!(TrayState::Processing.tool_tip(), "Status: Transcribing");
}

fn entry(entries: &[MenuEntry], i: usize) -> (String, String, MenuAction) {
    match &entries[i] {
        MenuEntry::Item {
            label,
            icon_name,
            action,
        } => (label.clone(), icon_name.clone(), *action),
        MenuEntry::Separator => panic!("no entry"),
    }
}

#[test]
fn menu_offers_what_the_state_allows() {
    let idle = menu(TrayState::Idle);
    assert_eq!(idle.len(), 5);
    assert_eq!(
        entry(&idle, 0),
        ("Start dictation".to_string(), "media-record".to_string(), MenuAction::Dictation)
    );
    assert!(matches!(idle[1], MenuEntry::Separator));
    assert_eq!(
        entry(&idle, 2),
        ("Settings\u{2026}".to_string(), "configure".to_string(), MenuAction::Settings)
    );
    assert!(matches!(idle[3], MenuEntry::Separator));
    assert_eq!(
        entry(&idle, 4),
        ("Quit".to_string(), "application-exit".to_string(), MenuAction::Quit)
    );
    for busy in [TrayState::Recording, TrayState::Processing] {
        assert_eq!(
            entry(&menu(busy), 0),
            (
                "Stop dictation".to_string(),
                "media-playback-stop".to_string(),
                MenuAction::Dictation
            )
        );
        assert_eq!(activate(busy, MenuAction::Dictation), Some(Command::Stop));
    }
    assert_eq!(
        activate(TrayState::Idle, MenuAction::Dictation),
        Some(Command::Start)
    );
    assert_eq!(activate(TrayState::Idle, MenuAction::Settings), None);
    assert_eq!(
        activate(TrayState::Recording, MenuAction::Quit),
        Some(Command::Shutdown)
    );
}

#[test]
fn saving_the_form_keeps_what_it_does_not_show() {
    let mut cfg = Config::default();
    cfg.hotkey_mode = "hold".to_string();
    cfg.hotkey_backend = "evdev".to_string();
    cfg.ollama_keep_alive = "-1".to_string();
    let mut form = captured(settings_form(&cfg), "F9", None);
    form.provider = "parakeet".to_string();
    form.whisper_model = "small.en".to_string();
    form.language = "auto".to_string();
    form.enhance = true;
    form.ollama_model = "m".to_string();
    form.ollama_url = "u".to_string();
    persist_settings(form, &mut cfg);
    assert_eq!(cfg.provider, "parakeet");
    assert_eq!(cfg.whisper_model, "small.en");
    assert_eq!(cfg.language, "auto");
    assert!(cfg.enhance);
    assert_eq!(cfg.ollama_model, "m");
    assert_eq!(cfg.ollama_url, "u");
    assert_eq!(cfg.hotkey_key, "F9");
    assert_eq!(cfg.hotkey_mode, "hold");
    assert_eq!(cfg.hotkey_backend, "evdev");
    assert_eq!(cfg.ollama_keep_alive, "-1");
}

#[test]
fn captured_key_has_its_canonical_spelling() {
    let cfg = Config::default();
    let form = captured(settings_form(&cfg), "ctrl+d", Some("Ctrl+D"));
    assert_eq!(form.hotkey_key, "Ctrl+D");
    assert_eq!(form.language, cfg.language);
    let form = captured(settings_form(&cfg), "ctrl+d", None);
    assert_eq!(form.hotkey_key, "ctrl+d");
}

#[test]
fn saving_the_form_unchanged_changes_nothing() {
    let before = Config::default();
    let mut after = before.clone();
    persist_settings(settings_form(&before), &mut after);
    assert_eq!(format!("{before:?}"), format!("{after:?}"));
}

#[test]
fn overlay_is_started_once_and_hidden_once() {
    let mut overlay = OverlayController::new();
    assert!(matches!(overlay.set_transcribing(), OverlayStep::Nothing));
    assert!(matches!(overlay.dismiss(), OverlayStep::Nothing));
    assert!(matches!(overlay.show_recording(), OverlayStep::Spawn));
    assert!(!overlay.spawned(Spawned::Failed));
    assert!(overlay.spawned(Spawned::WithoutInput));
    assert!(matches!(overlay.show_recording(), OverlayStep::Spawn));
    assert!(!overlay.spawned(Spawned::Running));
    assert!(matches!(overlay.show_recording(), OverlayStep::Tell(line) if line == "recording"));
    assert!(matches!(overlay.set_transcribing(), OverlayStep::Tell(line) if line == "transcribing"));
    assert!(matches!(overlay.dismiss(), OverlayStep::End(line) if line == "quit"));
    assert!(matches!(overlay.dismiss(), OverlayStep::Nothing));
}

#[test]
fn overlay_reads_its_lines() {
    assert_eq!(read_message("quit\n"), Message::Quit);
    assert_eq!(read_message("idle"), Message::Quit);
    assert_eq!(read_message(" recording "), Message::Show(Mode::Recording));
    assert_eq!(read_message("transcribing"), Message::Show(Mode::Transcribing));
    assert_eq!(read_message("Recording"), Message::Unknown);
    assert_eq!(read_message(""), Message::Unknown);
    assert_eq!(initial_mode(Some("transcribing")), Mode::Transcribing);
    assert_eq!(initial_mode(Some("anything")), Mode::Recording);
    assert_eq!(initial_mode(None), Mode::Recording);
    assert_eq!(follow(Mode::Recording, Message::Unknown), Some(Mode::Recording));
    assert_eq!(
        follow(Mode::Recording, Message::Show(Mode::Transcribing)),
        Some(Mode::Transcribing)
    );
    assert_eq!(follow(Mode::Recording, Message::Quit), None);
}
