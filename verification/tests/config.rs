use directories::ProjectDirs;
use fluidsiren::config::{dirs, join_path, Config, ConfigError, ProjectPaths};

fn paths(config: &str, data: &str) -> Option<ProjectPaths> {
    Some(ProjectPaths {
        config_dir: config.as_bytes().to_vec(),
        data_dir: data.as_bytes().to_vec(),
    })
}

#[test]
fn defaults_are_those_of_the_manual() {
    let cfg = Config::default();
    assert_eq!(cfg.whisper_model, "base.en");
    assert_eq!(cfg.language, "en");
    assert!(!cfg.enhance);
    assert_eq!(cfg.ollama_model, "llama3.2:3b");
    assert_eq!(cfg.ollama_url, "http://localhost:11434");
    assert_eq!(cfg.hotkey_backend, "auto");
    assert_eq!(cfg.hotkey_mode, "toggle");
    assert_eq!(cfg.hotkey_key, "KEY_F12");
}

#[test]
fn missing_file_is_made_from_the_defaults() {
    let (cfg, write) = Config::load(None);
    assert!(write);
    assert_eq!(cfg.whisper_model, "base.en");
    let mut stored = Config::default();
    stored.whisper_model = "tiny.en".to_string();
    let (cfg, write) = Config::load(Some(stored));
    assert!(!write);
    assert_eq!(cfg.whisper_model, "tiny.en");
}

#[test]
fn settings_on_disk_come_before_the_shared_ones() {
    let shared = Config::default();
    let mut edited = Config::default();
    edited.enhance = true;
    edited.ollama_model = "other".to_string();
    let now = Config::latest(Some(edited), &shared);
    assert!(now.enhance);
    assert_eq!(now.ollama_model, "other");
    let now = Config::latest(None, &shared);
    assert!(!now.enhance);
    assert_eq!(now.ollama_model, shared.ollama_model);
}

#[test]
fn paths_lie_in_the_given_directories() {
    let found = paths("/home/u/.config/fluidsiren", "/home/u/.local/share/fluidsiren");
    assert_eq!(
        Config::config_path_in(found).unwrap(),
        b"/home/u/.config/fluidsiren/config.toml"
    );
    let found = paths("/c", "/home/u/.local/share/fluidsiren/");
    let models = Config::models_dir_in(found);
    assert_eq!(
        models.as_ref().unwrap(),
        b"/home/u/.local/share/fluidsiren/models"
    );
    let cfg = Config::default();
    assert_eq!(cfg.model_file_name(), "ggml-base.en.bin");
    assert_eq!(
        cfg.model_path_in(models).unwrap(),
        b"/home/u/.local/share/fluidsiren/models/ggml-base.en.bin"
    );
}

#[test]
fn no_home_means_no_paths() {
    assert_eq!(Config::config_path_in(None), Err(ConfigError::NoProjectDirs));
    assert_eq!(Config::models_dir_in(None), Err(ConfigError::NoProjectDirs));
    assert_eq!(
        Config::default().model_path_in(Err(ConfigError::NoProjectDirs)),
        Err(ConfigError::NoProjectDirs)
    );
    assert_eq!(
        ConfigError::NoProjectDirs.message(),
        "could not resolve XDG project directories"
    );
}

#[test]
fn own_directories_are_those_of_the_project() {
    match ProjectDirs::from("dev", "altic", "fluidsiren") {
        Some(expected) => {
            let found = dirs().unwrap();
            assert_eq!(
                found.config_dir,
                expected.config_dir().as_os_str().as_encoded_bytes()
            );
            assert_eq!(
                found.data_dir,
                expected.data_dir().as_os_str().as_encoded_bytes()
            );
            let path = Config::config_path().unwrap();
            assert!(path.ends_with(b"/fluidsiren/config.toml"));
            assert_eq!(
                path,
                expected
                    .config_dir()
                    .join("config.toml")
                    .as_os_str()
                    .as_encoded_bytes()
            );
            assert!(Config::models_dir().unwrap().ends_with(b"/fluidsiren/models"));
            let model = Config::default().model_path().unwrap();
            assert!(model.ends_with(b"/fluidsiren/models/ggml-base.en.bin"));
        }
        None => assert!(dirs().is_none()),
    }
}

#[test]
fn joining_puts_one_slash_between() {
    for dir in ["", "/", "a", "a/", "/a/b"] {
        for name in ["c", "c/d", "/c", "", "\u{e9}"] {
            let joined = join_path(&dir.as_bytes().to_vec(), name);
            let expected = std::path::Path::new(dir).join(name);
            assert_eq!(joined, expected.as_os_str().as_encoded_bytes(), "{dir} {name}");
        }
    }
    let mut raw = vec![0x2f, 0xff];
    assert_eq!(join_path(&raw, "x"), vec![0x2f, 0xff, 0x2f, b'x']);
    raw.push(0x2f);
    assert_eq!(join_path(&raw, "x"), vec![0x2f, 0xff, 0x2f, b'x']);
}
