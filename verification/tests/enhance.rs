use fluidsiren::config::Config;
use fluidsiren::enhance::{
    clean_output, enhance_inner, enhance_request, is_available, looks_like_cleanup, maybe_enhance,
    probe_url, strip_wrapping_quotes, warm_up, warm_up_request, words, EnhanceError, Reply,
    SYSTEM_PROMPT,
};

fn cfg(enhance: bool) -> Config {
    Config {
        enhance,
        ..Config::default()
    }
}

fn answer(text: &str) -> Reply {
    Reply::Answered {
        status: 200,
        response: Ok(text.to_string()),
    }
}

#[test]
fn disabled_returns_input_unchanged() {
    assert!(enhance_request(&cfg(false), "hello world").is_none());
    let out = maybe_enhance(&cfg(false), "hello world".to_string(), None);
    assert_eq!(out, "hello world");
    let out = maybe_enhance(
        &cfg(false),
        "hello world".to_string(),
        Some(answer("Hello, world.")),
    );
    assert_eq!(out, "hello world");
}

#[test]
fn empty_input_returns_input() {
    assert!(enhance_request(&cfg(true), "").is_none());
    let out = maybe_enhance(&cfg(true), String::new(), None);
    assert_eq!(out, "");
}

#[test]
fn unreachable_server_falls_back_to_raw() {
    let mut c = cfg(true);
    c.ollama_url = "http://127.0.0.1:1".to_string();
    let request = enhance_request(&c, "raw transcript").unwrap();
    assert_eq!(request.url, "http://127.0.0.1:1/api/generate");
    let refused = Reply::Failed("connection refused".to_string());
    let out = maybe_enhance(&c, "raw transcript".to_string(), Some(refused));
    assert_eq!(out, "raw transcript");
}

#[test]
fn strips_straight_quotes() {
    assert_eq!(clean_output("\"hello there\""), "hello there");
}

#[test]
fn strips_curly_quotes() {
    assert_eq!(clean_output("\u{201c}hello there\u{201d}"), "hello there");
}

#[test]
fn leaves_internal_quotes_alone() {
    assert_eq!(clean_output("she said \"hi\""), "she said \"hi\"");
}

#[test]
fn trims_whitespace() {
    assert_eq!(clean_output("  spaced  "), "spaced");
}

#[test]
fn single_quote_char_is_untouched() {
    assert_eq!(clean_output("\""), "\"");
}

#[test]
fn cleanup_passes_the_guard() {
    // Filler removal and casing or punctuation: the legitimate case.
    assert!(looks_like_cleanup(
        "um so like the the cat sat on the mat you know",
        "So the cat sat on the mat."
    ));
}

#[test]
fn preserved_question_passes_the_guard() {
    // A dictated question must survive as a cleaned question, not an answer.
    assert!(looks_like_cleanup(
        "uh what is the capital of france",
        "What is the capital of France?"
    ));
}

#[test]
fn answered_question_is_rejected() {
    // The "talked back" failure: the model answers instead of cleaning.
    assert!(!looks_like_cleanup(
        "what is the capital of france",
        "The capital of France is Paris, a city on the Seine known for the Eiffel Tower and its museums."
    ));
}

#[test]
fn rewrite_with_new_content_is_rejected() {
    assert!(!looks_like_cleanup(
        "remind me to call the dentist tomorrow",
        "Sure! I've noted a reminder for you to call the dentist. Is there anything else you need help with today?"
    ));
}

#[test]
fn dropping_all_content_is_rejected() {
    assert!(!looks_like_cleanup("hello there friend", ""));
}

#[test]
fn every_quote_pair_is_stripped_once() {
    assert_eq!(clean_output("'a b'"), "a b");
    assert_eq!(clean_output("\u{2018}a b\u{2019}"), "a b");
    assert_eq!(clean_output("`a b`"), "a b");
    assert_eq!(clean_output("\"'a b'\""), "'a b'");
    assert_eq!(clean_output(" \" a b \" "), "a b");
    assert_eq!(clean_output("\"a b'"), "\"a b'");
    assert_eq!(clean_output("\u{201d}a b\u{201c}"), "\u{201d}a b\u{201c}");
    assert_eq!(strip_wrapping_quotes("\"\""), "");
    assert_eq!(strip_wrapping_quotes(""), "");
}

#[test]
fn echoed_markers_are_dropped() {
    for (raw, expected) in [
        ("<<<TRANSCRIPT>>>\nhello there\n<<<END>>>", "hello there"),
        ("\"<<<TRANSCRIPT>>>\nhello there\n<<<END>>>\"", "hello there"),
        ("<<<TRANSCRIPT>>>\n\"hello there\"\n<<<END>>>", "hello there"),
        ("hello there <<<END>>>", "hello there"),
        ("hello <<<<END>>>END>>> there", "hello <END>>> there"),
        ("<<<E<<<END>>>ND>>>hi", "hi"),
        ("<<<TRANSCRIPT>>>\n<<<END>>>", ""),
        ("a << b >> c <<<TRANSCRIPT>> d", "a << b >> c <<<TRANSCRIPT>> d"),
    ] {
        assert_eq!(clean_output(raw), expected);
    }
}

#[test]
fn echoed_markers_are_never_typed() {
    let said = "call me back on my cell";
    let echoed = "<<<TRANSCRIPT>>>\nCall me back on my cell.\n<<<END>>>";
    let out = maybe_enhance(&cfg(true), said.to_string(), Some(answer(echoed)));
    assert_eq!(out, "Call me back on my cell.");
    let only = "<<<TRANSCRIPT>>><<<END>>>";
    assert!(matches!(
        enhance_inner(said, &answer(only)),
        Err(EnhanceError::EmptyOutput)
    ));
    let out = maybe_enhance(&cfg(true), said.to_string(), Some(answer(only)));
    assert_eq!(out, said);
}

#[test]
fn words_are_lowercased_runs() {
    assert_eq!(words("Don't STOP, ok?"), vec!["don", "t", "stop", "ok"]);
    assert_eq!(words("\u{c9}t\u{e9} 42"), vec!["\u{e9}t\u{e9}", "42"]);
    assert_eq!(words(" .,; "), Vec::<String>::new());
}

#[test]
fn words_of_joined_texts_follow_on_each_other() {
    for (a, b) in [
        ("Hello, World", "it's me"),
        ("", "alone"),
        ("\u{c9}t\u{e9}\u{2026}", "-- \u{df}"),
        ("...", "!"),
    ] {
        let mut expected = words(a);
        expected.extend(words(b));
        assert_eq!(words(&format!("{a} {b}")), expected);
        assert_eq!(words(a).is_empty(), !a.chars().any(|c| c.is_alphanumeric()));
        assert!(expected.iter().all(|w| !w.is_empty()));
    }
}

#[test]
fn growth_limit_is_one_and_a_half_times_and_four() {
    let said = "a b c d e";
    // Five words allow eight and four more.
    assert!(looks_like_cleanup(said, "a a a a a a a a a a a a"));
    assert!(!looks_like_cleanup(said, "a a a a a a a a a a a a a"));
}

#[test]
fn novelty_limit_is_three_in_ten() {
    let said = "a b c d e f g h i j";
    assert!(looks_like_cleanup(said, "a b c d e f g x y z"));
    assert!(!looks_like_cleanup(said, "a b c d e f w x y z"));
}

#[test]
fn nothing_said_accepts_anything() {
    assert!(looks_like_cleanup("...", "Hello there"));
}

#[test]
fn a_transcript_is_a_cleanup_of_itself() {
    let said = "well this is what I said";
    assert!(looks_like_cleanup(said, said));
}

#[test]
fn request_wraps_the_transcript_in_markers() {
    let mut c = cfg(true);
    c.ollama_url = "http://localhost:11434//".to_string();
    let request = enhance_request(&c, "hi").unwrap();
    assert_eq!(request.url, "http://localhost:11434/api/generate");
    assert_eq!(request.model, "llama3.2:3b");
    assert_eq!(
        request.prompt,
        "Clean up the transcript between the <<<TRANSCRIPT>>> markers and output only the cleaned text.\n<<<TRANSCRIPT>>>\nhi\n<<<END>>>"
    );
    assert_eq!(request.system, SYSTEM_PROMPT);
    assert!(SYSTEM_PROMPT.starts_with("You are a transcript cleanup tool for dictated speech-to-text output. You are NOT"));
    assert!(SYSTEM_PROMPT.contains("question \u{2014} do NOT"));
    assert!(!request.stream);
    assert_eq!(request.keep_alive, "30m");
    assert_eq!(request.temperature, 0);
    assert!(enhance_request(&c, " \n\u{3000}").is_none());
}

#[test]
fn accepted_answer_replaces_the_transcript() {
    let out = maybe_enhance(
        &cfg(true),
        "um hello there".to_string(),
        Some(answer(" \"Hello there.\" ")),
    );
    assert_eq!(out, "Hello there.");
}

#[test]
fn each_failure_is_told_apart() {
    let text = "hello there friend";
    let failed = enhance_inner(text, &Reply::Failed("no route".to_string())).unwrap_err();
    assert_eq!(failed.message(), "no route");
    let status = enhance_inner(
        text,
        &Reply::Answered {
            status: 404,
            response: Err(String::new()),
        },
    )
    .unwrap_err();
    assert!(matches!(status, EnhanceError::HttpStatus(404)));
    assert_eq!(status.message(), "Ollama returned HTTP 404 Not Found");
    let body = enhance_inner(
        text,
        &Reply::Answered {
            status: 200,
            response: Err("eof".to_string()),
        },
    )
    .unwrap_err();
    assert_eq!(body.message(), "decoding Ollama response JSON: eof");
    let empty = enhance_inner(text, &answer(" \"\" ")).unwrap_err();
    assert_eq!(empty.message(), "Ollama returned empty output");
    let answered = enhance_inner(text, &answer("Good morning to you")).unwrap_err();
    assert!(matches!(answered, EnhanceError::NotACleanup));
    assert_eq!(
        answered.message(),
        "output does not look like a cleanup (model likely answered the text); using raw transcript"
    );
    for reply in [
        Reply::Failed("no route".to_string()),
        answer(""),
        answer("Good morning to you"),
    ] {
        assert_eq!(maybe_enhance(&cfg(true), text.to_string(), Some(reply)), text);
    }
}

#[test]
fn a_success_status_is_from_200_to_299() {
    for (status, ok) in [(199, false), (200, true), (299, true), (300, false), (1000, false)] {
        assert_eq!(is_available(Some(status)), ok);
    }
    assert!(!is_available(None));
}

#[test]
fn warm_up_loads_the_model_and_takes_any_status() {
    assert!(warm_up_request(&cfg(false)).is_none());
    let request = warm_up_request(&cfg(true)).unwrap();
    assert_eq!(request.prompt, "");
    assert_eq!(request.system, "");
    assert_eq!(request.url, "http://localhost:11434/api/generate");
    assert!(warm_up(&cfg(false), None).is_ok());
    assert!(warm_up(&cfg(true), Some(Ok(200))).is_ok());
    assert!(warm_up(&cfg(true), Some(Ok(404))).is_ok());
    let failed = warm_up(&cfg(true), Some(Err("no route".to_string()))).unwrap_err();
    assert_eq!(failed.message(), "no route");
    assert_eq!(probe_url(&cfg(true)), "http://localhost:11434/api/tags");
}
