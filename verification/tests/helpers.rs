use fluidsiren::asr::{
    downloaded, ensure_model, join_segments, language_hint, recogniser, thread_count, ModelStep,
    Recogniser,
};
use fluidsiren::audio::{full_scale, keeps_samples, taps, WHISPER_SAMPLE_RATE};
use fluidsiren::cli::{run_mode, transcript_line, RunMode};
use fluidsiren::config::Config;
use fluidsiren::http::show_status;
use fluidsiren::inject::{available, type_text, typed, Probe};
use fluidsiren::ollama;
use fluidsiren::ollama::{Management, ManagementStep, Scope};
use fluidsiren::parakeet;
use fluidsiren::parakeet::{ParakeetError, ParakeetEvent, ParakeetStep};
use fluidsiren::scope::{needs_own_scope, scope_args};

#[test]
fn statuses_are_shown_with_their_phrase() {
    assert_eq!(show_status(200), "200 OK");
    assert_eq!(show_status(503), "503 Service Unavailable");
    assert_eq!(show_status(599), "599 <unknown status code>");
}

fn model_named(name: &str) -> Config {
    let mut cfg = Config::default();
    cfg.whisper_model = name.to_string();
    cfg
}

#[test]
fn missing_model_is_downloaded_beside_its_place() {
    match ensure_model(&model_named("tiny.en"), b"/m".to_vec(), false) {
        ModelStep::Download { url, part, path } => {
            assert_eq!(
                url,
                "https://huggingface.co/ggerganov/whisper.cpp/resolve/main/ggml-tiny.en.bin"
            );
            assert_eq!(part, b"/m/ggml-tiny.en.part");
            assert_eq!(path, b"/m/ggml-tiny.en.bin");
        }
        ModelStep::Ready(_) => panic!("not there yet"),
    }
    match ensure_model(&model_named("tiny.en"), b"/m".to_vec(), true) {
        ModelStep::Ready(path) => assert_eq!(path, b"/m/ggml-tiny.en.bin"),
        ModelStep::Download { .. } => panic!("already there"),
    }
}

#[test]
fn part_file_has_the_extension_that_paths_give_it() {
    for name in ["tiny.en", "", "a/b", "a/", "x.", "\u{e9}"] {
        let cfg = model_named(name);
        let path = std::path::Path::new("/m").join(cfg.model_file_name());
        let expected = path.with_extension("part");
        match ensure_model(&cfg, b"/m".to_vec(), false) {
            ModelStep::Download { part, .. } => {
                assert_eq!(part, expected.as_os_str().as_encoded_bytes(), "{name}")
            }
            ModelStep::Ready(_) => panic!("not there yet"),
        }
    }
}

#[test]
fn refused_download_is_an_error() {
    assert!(downloaded(200, "u").is_ok());
    assert_eq!(
        downloaded(404, "http://u").unwrap_err().message(),
        "model download failed (404 Not Found): http://u"
    );
}

#[test]
fn transcript_is_the_trimmed_segments() {
    let segments = vec![
        Some(" Hello".to_string()),
        None,
        Some(" there. ".to_string()),
    ];
    assert_eq!(join_segments(&segments), "Hello there.");
    assert_eq!(join_segments(&vec![]), "");
}

#[test]
fn recogniser_is_whisper_unless_parakeet_is_named() {
    assert_eq!(recogniser(&Config::default()), Recogniser::Whisper);
    for (name, expected) in [
        ("parakeet", Recogniser::Parakeet),
        ("Parakeet", Recogniser::Whisper),
        ("", Recogniser::Whisper),
    ] {
        let cfg = Config {
            provider: name.to_string(),
            ..Config::default()
        };
        assert_eq!(recogniser(&cfg), expected);
    }
}

#[test]
fn whisper_parameters() {
    assert_eq!(language_hint("en"), Some("en"));
    assert_eq!(language_hint("auto"), None);
    assert_eq!(thread_count(Some(8)), 8);
    assert_eq!(thread_count(None), 4);
}

#[test]
fn parakeet_files_lie_in_its_directory() {
    let files = parakeet::model_files(&b"/m".to_vec());
    let dir = "/m/sherpa-onnx-nemo-parakeet-tdt-0.6b-v2-int8";
    assert_eq!(files.dir, dir.as_bytes());
    assert_eq!(files.encoder, format!("{dir}/encoder.int8.onnx").as_bytes());
    assert_eq!(files.decoder, format!("{dir}/decoder.int8.onnx").as_bytes());
    assert_eq!(files.joiner, format!("{dir}/joiner.int8.onnx").as_bytes());
    assert_eq!(files.tokens, format!("{dir}/tokens.txt").as_bytes());
    assert_eq!(files.archive, format!("{dir}.tar.bz2").as_bytes());
}

#[test]
fn parakeet_is_fetched_step_by_step() {
    let step = parakeet::ensure_model;
    assert_eq!(step(ParakeetEvent::Looked { found: true }), Ok(ParakeetStep::Ready));
    assert_eq!(step(ParakeetEvent::Looked { found: false }), Ok(ParakeetStep::Download));
    assert_eq!(step(ParakeetEvent::Answered { status: 200 }), Ok(ParakeetStep::Extract));
    assert_eq!(
        step(ParakeetEvent::Answered { status: 500 }),
        Err(ParakeetError::Refused(500))
    );
    assert_eq!(
        step(ParakeetEvent::Extracted { succeeded: true }),
        Ok(ParakeetStep::LookAgain)
    );
    assert_eq!(
        step(ParakeetEvent::Extracted { succeeded: false }),
        Err(ParakeetError::NotExtracted)
    );
    assert_eq!(step(ParakeetEvent::LookedAgain { found: true }), Ok(ParakeetStep::Ready));
    assert_eq!(
        step(ParakeetEvent::LookedAgain { found: false }),
        Err(ParakeetError::MissingFiles)
    );
    assert_eq!(
        ParakeetError::Refused(500).message(),
        "Parakeet download failed: 500 Internal Server Error"
    );
    assert_eq!(ParakeetError::NotExtracted.message(), "tar extraction failed");
    assert_eq!(
        ParakeetError::MissingFiles.message(),
        "Parakeet model missing files after extraction"
    );
}

#[test]
fn samples_are_taken_inside_the_clip() {
    assert_eq!(taps(0, 1), (0, 0));
    assert_eq!(taps(0, 2), (0, 1));
    assert_eq!(taps(1, 2), (1, 1));
    assert_eq!(taps(7, 2), (1, 1));
    assert_eq!(taps(usize::MAX, 3), (2, 2));
    assert!(keeps_samples(0, 1, 2));
    assert!(keeps_samples(5, WHISPER_SAMPLE_RATE, 16_000));
    assert!(!keeps_samples(5, 48_000, WHISPER_SAMPLE_RATE));
    assert_eq!(full_scale(16), 32768);
    assert_eq!(full_scale(1), 1);
    assert_eq!(full_scale(63), 1 << 62);
    assert_eq!(full_scale(64), 1 << 63);
}

fn args(words: &[&str]) -> Vec<String> {
    words.iter().map(|w| w.to_string()).collect()
}

#[test]
fn first_argument_decides() {
    assert!(matches!(run_mode(&args(&[])), RunMode::Ui));
    assert!(matches!(run_mode(&args(&["--inject"])), RunMode::Ui));
    assert!(matches!(run_mode(&args(&["--settings", "--file"])), RunMode::Settings));
    assert!(matches!(
        run_mode(&args(&["--file"])),
        RunMode::File { path: None, inject: false }
    ));
    assert!(matches!(
        run_mode(&args(&["--file", "a.wav", "--inject"])),
        RunMode::File { path: Some(p), inject: true } if p == "a.wav"
    ));
    assert!(matches!(
        run_mode(&args(&["--seconds", "3"])),
        RunMode::Seconds { length: Some(l), inject: false } if l == "3"
    ));
    assert_eq!(transcript_line(""), "(no speech detected)");
    assert_eq!(transcript_line("hi"), "Transcript: hi");
}

#[test]
fn typing_can_be_switched_off() {
    assert_eq!(type_text("hi", false).unwrap(), vec!["type", "--", "hi"]);
    assert!(type_text("hi", true).is_none());
    assert!(type_text("", false).is_none());
    assert!(typed(Ok((true, String::new()))).is_ok());
    assert_eq!(
        typed(Err("not found".to_string())).unwrap_err().message(),
        "running ydotool (is it installed and is ydotoold running?): not found"
    );
    assert_eq!(
        typed(Ok((false, "denied".to_string()))).unwrap_err().message(),
        "ydotool failed: denied\nHint: ydotoold must be running and you need access to /dev/uinput (add yourself to the 'input' group or run the ydotoold service)."
    );
}

#[test]
fn ydotool_is_usable_when_it_says_anything() {
    let probe = |succeeded, stdout_len, stderr_len| {
        available(Some(Probe {
            succeeded,
            stdout_len,
            stderr_len,
        }))
    };
    assert!(probe(true, 0, 0));
    assert!(probe(false, 1, 0));
    assert!(probe(false, 0, 1));
    assert!(!probe(false, 0, 0));
    assert!(!available(None));
}

#[test]
fn user_unit_comes_before_system_unit() {
    let step = ollama::management;
    assert_eq!(step(None, None), ManagementStep::Look(Scope::User));
    assert_eq!(step(Some(true), None), ManagementStep::Known(Management::UserUnit));
    assert_eq!(step(Some(false), None), ManagementStep::Look(Scope::System));
    assert_eq!(
        step(Some(false), Some(true)),
        ManagementStep::Known(Management::SystemUnit)
    );
    assert_eq!(
        step(Some(false), Some(false)),
        ManagementStep::Known(Management::Unmanaged)
    );
}

#[test]
fn unit_is_found_in_the_listing() {
    assert_eq!(
        ollama::list_args(Scope::User),
        vec!["--user", "list-unit-files", "ollama.service"]
    );
    assert_eq!(
        ollama::list_args(Scope::System),
        vec!["list-unit-files", "ollama.service"]
    );
    let listing = "UNIT FILE STATE\nollama.service disabled\n".to_string();
    assert!(ollama::unit_exists(Some((true, listing.clone()))));
    assert!(!ollama::unit_exists(Some((false, listing))));
    assert!(!ollama::unit_exists(Some((true, "0 unit files listed.".to_string()))));
    assert!(!ollama::unit_exists(None));
    assert!(ollama::installed(Some(true)));
    assert!(!ollama::installed(Some(false)));
    assert!(!ollama::installed(None));
}

#[test]
fn server_is_driven_through_its_unit() {
    let call = ollama::start(Management::UserUnit).unwrap();
    assert_eq!(call.args, vec!["--user", "start", "ollama"]);
    let call = ollama::start(Management::SystemUnit).unwrap();
    assert_eq!(call.args, vec!["start", "ollama"]);
    assert_eq!(
        ollama::start(Management::Unmanaged).unwrap_err().message(),
        "no ollama systemd unit found \u{2014} run `scripts/setup-ollama.sh --user` to create one"
    );
    let call = ollama::stop(Management::UserUnit).unwrap();
    assert_eq!(call.args, vec!["--user", "stop", "ollama"]);
    let call = ollama::stop(Management::SystemUnit).unwrap();
    assert_eq!(call.args, vec!["stop", "ollama"]);
    assert!(ollama::stop(Management::Unmanaged).is_none());
}

#[test]
fn failed_systemctl_carries_its_message() {
    let call = || ollama::systemctl(Scope::System, "stop");
    assert!(ollama::systemctl_result(call(), Ok((true, String::new()))).is_ok());
    assert_eq!(
        ollama::systemctl_result(call(), Ok((false, " Access denied\n".to_string())))
            .unwrap_err()
            .message(),
        "systemctl system stop ollama failed: Access denied"
    );
    assert_eq!(
        ollama::systemctl_result(ollama::systemctl(Scope::User, "start"), Ok((false, "\n".to_string())))
            .unwrap_err()
            .message(),
        "systemctl --user start ollama failed(the system ollama.service may need privileges \u{2014} try: sudo systemctl stop ollama)"
    );
    assert_eq!(
        ollama::systemctl_result(call(), Err("not found".to_string()))
            .unwrap_err()
            .message(),
        "running systemctl: not found"
    );
}

#[test]
fn scope_is_entered_once() {
    let foreign = "0::/user.slice/app-org.kde.konsole-77.scope\n";
    assert!(needs_own_scope(false, Some(foreign)));
    assert!(!needs_own_scope(true, Some(foreign)));
    assert!(!needs_own_scope(false, None));
    let args = scope_args(4711);
    assert_eq!(
        args,
        vec![
            "--user",
            "--scope",
            "--quiet",
            "--collect",
            "--unit",
            "app-dev.altic.FluidSiren-4711",
            "--",
        ]
    );
    let own = format!("0::/user.slice/{}.scope\n", args[5]);
    assert!(!needs_own_scope(false, Some(&own)));
}
